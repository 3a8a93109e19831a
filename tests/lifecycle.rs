use fplus_core::allocation::{AllocationRequestType, Notary};
use fplus_core::application::{AppState, ApplicationFile, Event};
use fplus_core::engine::{
    CompleteGovernanceReviewInfo, CompleteNewApplicationProposalInfo, CreateApplicationInfo,
    LDNApplication, ParsedIssue,
};
use fplus_core::error::LDNError;

fn notary(name: &str) -> Notary {
    Notary {
        signing_address: format!("f1{}", name),
        time_of_signature: "2023-10-01T00:00:00Z".to_string(),
        message_cid: format!("bafy{}", name),
        username: name.to_string(),
    }
}

fn ticket_42() -> ApplicationFile {
    ApplicationFile::new(
        "42".to_string(),
        "42".to_string(),
        "Acme".to_string(),
        "archive".to_string(),
        "100 units".to_string(),
    )
}

fn review(app: &mut ApplicationFile, id: &str) {
    app.apply(Event::CompleteGovernanceReview {
        actor: "alice".to_string(),
        request_id: id.to_string(),
    })
    .unwrap();
}

fn granted(id: &str) -> ApplicationFile {
    let mut app = ticket_42();
    review(&mut app, id);
    app.apply(Event::Propose { signer: notary("bob"), request_id: id.to_string() }).unwrap();
    app.apply(Event::Approve { signer: notary("carol"), request_id: id.to_string() }).unwrap();
    app
}

#[test]
fn ticket_42_walks_through_the_primary_flow() {
    let mut app = ticket_42();
    assert_eq!(app.lifecycle.state, AppState::GovernanceReview);
    assert!(app.allocations.is_empty());
    assert!(app.lifecycle.is_active);

    review(&mut app, "req-1");
    assert_eq!(app.lifecycle.state, AppState::ReadyToSign);
    assert_eq!(app.lifecycle.validated_by, "alice");
    assert_eq!(app.allocations.len(), 1);
    assert_eq!(app.allocations[0].request_type, AllocationRequestType::First);
    assert_eq!(app.allocations[0].allocation_amount, "100 units");
    assert_eq!(app.allocations[0].actor, "alice");
    assert!(app.allocations[0].signers.is_empty());

    app.apply(Event::Propose { signer: notary("bob"), request_id: "req-1".to_string() }).unwrap();
    assert_eq!(app.lifecycle.state, AppState::StartSignDatacap);
    assert_eq!(app.allocations[0].signers, vec![notary("bob")]);

    app.apply(Event::Approve { signer: notary("carol"), request_id: "req-1".to_string() })
        .unwrap();
    assert_eq!(app.lifecycle.state, AppState::Granted);
    assert_eq!(app.allocations.len(), 1);
    assert_eq!(app.allocations[0].signers, vec![notary("bob"), notary("carol")]);
    assert!(app.allocations[0].is_complete());
}

#[test]
fn events_in_the_wrong_state_are_rejected_without_change() {
    let mut app = ticket_42();
    let before = app.clone();
    let r = app.apply(Event::Propose { signer: notary("bob"), request_id: "x".to_string() });
    assert_eq!(r, Err(LDNError::InvalidTransition));
    assert_eq!(app, before);
    assert_eq!(app.apply(Event::TotalDatacapReached), Err(LDNError::InvalidTransition));
    assert_eq!(app, before);

    let mut done = granted("req-1");
    let before = done.clone();
    let r = done.apply(Event::CompleteGovernanceReview {
        actor: "dave".to_string(),
        request_id: "req-2".to_string(),
    });
    assert_eq!(r, Err(LDNError::InvalidTransition));
    assert_eq!(done, before);
}

#[test]
fn proposal_for_an_inactive_request_is_rejected() {
    let mut app = ticket_42();
    review(&mut app, "req-1");
    let before = app.clone();
    let r = app.apply(Event::Propose { signer: notary("bob"), request_id: "other".to_string() });
    assert_eq!(r, Err(LDNError::InvalidTransition));
    assert_eq!(app, before);
}

#[test]
fn approval_for_an_inactive_request_is_rejected() {
    let mut app = ticket_42();
    review(&mut app, "req-1");
    app.apply(Event::Propose { signer: notary("bob"), request_id: "req-1".to_string() }).unwrap();
    let before = app.clone();
    let r = app.apply(Event::Approve { signer: notary("carol"), request_id: "nope".to_string() });
    assert_eq!(r, Err(LDNError::InvalidTransition));
    assert_eq!(app, before);
}

fn refill(app: &mut ApplicationFile, id: &str, amount: &str) -> Result<(), LDNError> {
    app.apply(Event::Refill {
        actor: "bot".to_string(),
        request_id: id.to_string(),
        amount: amount.to_string(),
    })
}

#[test]
fn refills_are_numbered_in_sequence() {
    let mut app = granted("req-1");
    let first = app.allocations[0].clone();
    refill(&mut app, "r1", "50 units").unwrap();
    assert_eq!(app.allocations.len(), 2);
    assert_eq!(app.allocations[1].request_type, AllocationRequestType::Refill(1));
    assert_eq!(app.allocations[1].allocation_amount, "50 units");
    assert!(app.allocations[1].signers.is_empty());
    assert_eq!(app.allocations[0], first);
    assert_eq!(app.lifecycle.state, AppState::Granted);

    app.apply(Event::Propose { signer: notary("dan"), request_id: "r1".to_string() }).unwrap();
    app.apply(Event::Approve { signer: notary("erin"), request_id: "r1".to_string() }).unwrap();
    let second_before = app.allocations[1].clone();
    assert_eq!(second_before.signers, vec![notary("dan"), notary("erin")]);

    refill(&mut app, "r2", "70 units").unwrap();
    assert_eq!(app.allocations.len(), 3);
    assert_eq!(app.allocations[2].request_type, AllocationRequestType::Refill(2));
    assert_eq!(app.allocations[0], first);
    assert_eq!(app.allocations[1], second_before);
}

#[test]
fn refill_request_goes_through_its_signing_cycle() {
    let mut app = granted("req-1");
    refill(&mut app, "r1", "50 units").unwrap();

    let before = app.clone();
    let early = app.apply(Event::Approve { signer: notary("erin"), request_id: "r1".to_string() });
    assert_eq!(early, Err(LDNError::InvalidTransition));
    assert_eq!(app, before);
    let wrong = app.apply(Event::Propose { signer: notary("dan"), request_id: "req-1".to_string() });
    assert_eq!(wrong, Err(LDNError::InvalidTransition));
    assert_eq!(app, before);

    app.apply(Event::Propose { signer: notary("dan"), request_id: "r1".to_string() }).unwrap();
    assert_eq!(app.lifecycle.state, AppState::Granted);
    assert_eq!(app.allocations[1].signers, vec![notary("dan")]);
    let before = app.clone();
    let twice = app.apply(Event::Propose { signer: notary("dan"), request_id: "r1".to_string() });
    assert_eq!(twice, Err(LDNError::InvalidTransition));
    assert_eq!(app, before);

    app.apply(Event::Approve { signer: notary("erin"), request_id: "r1".to_string() }).unwrap();
    assert_eq!(app.lifecycle.state, AppState::Granted);
    assert_eq!(app.allocations[1].signers, vec![notary("dan"), notary("erin")]);
    assert!(app.allocations[1].is_complete());
    assert_eq!(app.allocations[0], granted("req-1").allocations[0]);
}

#[test]
fn a_request_id_already_in_use_is_rejected() {
    let mut app = granted("req-1");
    let before = app.clone();
    assert_eq!(refill(&mut app, "req-1", "5 units"), Err(LDNError::InvalidTransition));
    assert_eq!(app, before);
}

#[test]
fn reaching_the_total_closes_the_application() {
    let mut app = granted("req-1");
    app.apply(Event::TotalDatacapReached).unwrap();
    assert!(!app.lifecycle.is_active);
    assert_eq!(app.lifecycle.state, AppState::Granted);
    let before = app.clone();
    let r = app.apply(Event::Refill {
        actor: "bot".to_string(),
        request_id: "r1".to_string(),
        amount: "1".to_string(),
    });
    assert_eq!(r, Err(LDNError::InvalidTransition));
    assert_eq!(app, before);
    assert_eq!(app.apply(Event::TotalDatacapReached), Err(LDNError::InvalidTransition));
}

fn handle() -> LDNApplication {
    LDNApplication {
        application_id: "42".to_string(),
        file_sha: "sha0".to_string(),
        file_name: "42.json".to_string(),
        branch_name: "Application/42".to_string(),
    }
}

#[test]
fn engine_review_commits_a_fresh_first_request() {
    let c = handle()
        .complete_governance_review(ticket_42(), CompleteGovernanceReviewInfo { actor: "alice".to_string() })
        .unwrap();
    assert_eq!(c.path, "42.json");
    assert_eq!(c.branch_name, "Application/42");
    assert_eq!(c.file_sha, "sha0");
    assert_eq!(
        c.message,
        "Governance Team User alice Moved Application to Proposal State from Governance Review State"
    );
    assert_eq!(c.application.lifecycle.state, AppState::ReadyToSign);
    assert_eq!(c.application.allocations.len(), 1);
    let id = &c.application.allocations[0].id;
    assert_eq!(id.len(), 36);
    assert_eq!(id.matches('-').count(), 4);

    let again = handle()
        .complete_governance_review(ticket_42(), CompleteGovernanceReviewInfo { actor: "alice".to_string() })
        .unwrap();
    assert_ne!(again.application.allocations[0].id, *id);

    let r = handle().complete_governance_review(
        c.application.clone(),
        CompleteGovernanceReviewInfo { actor: "alice".to_string() },
    );
    assert_eq!(r, Err(LDNError::InvalidTransition));
}

#[test]
fn engine_proposal_and_approval_commit_signers() {
    let mut app = ticket_42();
    review(&mut app, "req-1");
    let c = handle()
        .complete_new_application_proposal(
            app,
            CompleteNewApplicationProposalInfo { signer: notary("bob"), request_id: "req-1".to_string() },
        )
        .unwrap();
    assert_eq!(c.message, "Notary User f1bob Moved Application to Approval State from Proposal State");
    assert_eq!(c.application.lifecycle.state, AppState::StartSignDatacap);

    let wrong = handle().complete_new_application_approval(
        c.application.clone(),
        CompleteNewApplicationProposalInfo { signer: notary("carol"), request_id: "zzz".to_string() },
    );
    assert_eq!(wrong, Err(LDNError::InvalidTransition));

    let d = handle()
        .complete_new_application_approval(
            c.application,
            CompleteNewApplicationProposalInfo { signer: notary("carol"), request_id: "req-1".to_string() },
        )
        .unwrap();
    assert_eq!(
        d.message,
        "Notary User f1carol Moved Application to Confirmed State from Proposal Approval"
    );
    assert_eq!(d.application.lifecycle.state, AppState::Granted);
    assert_eq!(d.application.allocations[0].signers, vec![notary("bob"), notary("carol")]);
}

#[test]
fn new_from_issue_builds_the_application_and_its_pull_request() {
    let issue = ParsedIssue {
        id: "42".to_string(),
        client_name: "Acme".to_string(),
        project: "archive".to_string(),
        total_requested: "100 units".to_string(),
    };
    let n = LDNApplication::new_from_issue(
        CreateApplicationInfo { issue_number: "42".to_string() },
        issue.clone(),
        false,
    )
    .unwrap();
    assert_eq!(n.application, ticket_42());
    assert_eq!(n.pull_request.branch_name, "Application/42");
    assert_eq!(n.pull_request.title, "Application_42_Acme");
    assert_eq!(n.pull_request.body, "resolves #42");
    assert_eq!(n.pull_request.path, "42.json");
    assert_eq!(n.initial_commit, "Start Application: Acme-42");
    assert_eq!(n.review_commit, "Application is under review of governance team");

    let r = LDNApplication::new_from_issue(
        CreateApplicationInfo { issue_number: "42".to_string() },
        issue,
        true,
    );
    assert_eq!(r, Err(LDNError::AlreadyExists));
}

#[test]
fn every_error_has_a_reason() {
    for e in [
        LDNError::NotFound,
        LDNError::CorruptDocument,
        LDNError::InvalidTransition,
        LDNError::VersionConflict,
        LDNError::AlreadyExists,
        LDNError::AdapterError,
    ] {
        assert!(!e.reason().is_empty());
    }
    assert_eq!(LDNError::VersionConflict.reason(), "the document changed since it was read");
}
