use fplus_core::application::{AppState, ApplicationFile, Event};
use fplus_core::directory::{get_file_sha, readable_files, ContentItem, MergedFile, StagedFile};
use fplus_core::engine::{create_application, load_application, transition, LDNApplication, RefillInfo};
use fplus_core::error::LDNError;
use fplus_core::allocation::{AllocationRequestType, Notary};
use fplus_core::pull_request::LDNPullRequest;
use fplus_core::store::DocumentStore;

fn app(id: &str) -> ApplicationFile {
    ApplicationFile::new(
        id.to_string(),
        id.to_string(),
        "Acme".to_string(),
        "archive".to_string(),
        "100 units".to_string(),
    )
}

fn signer(name: &str) -> Notary {
    Notary {
        signing_address: name.to_string(),
        time_of_signature: "t".to_string(),
        message_cid: "m".to_string(),
        username: name.to_string(),
    }
}

fn granted(id: &str) -> ApplicationFile {
    let mut a = app(id);
    a.apply(Event::CompleteGovernanceReview { actor: "alice".to_string(), request_id: "q".to_string() })
        .unwrap();
    a.apply(Event::Propose { signer: signer("bob"), request_id: "q".to_string() }).unwrap();
    a.apply(Event::Approve { signer: signer("carol"), request_id: "q".to_string() }).unwrap();
    a
}

fn review(actor: &str) -> Event {
    Event::CompleteGovernanceReview { actor: actor.to_string(), request_id: "q".to_string() }
}

#[test]
fn two_transitions_from_one_read_only_the_first_lands() {
    let mut store: DocumentStore<ApplicationFile> = DocumentStore::new();
    assert_eq!(create_application(&mut store, app("7")), Ok(0));
    let (loaded, token) = load_application(&store, "7").unwrap();
    assert_eq!(token, 0);
    let copy_a = loaded.clone();
    let copy_b = loaded.clone();

    let first = transition(&mut store, "7", copy_a, token, review("alice"));
    let second = transition(&mut store, "7", copy_b, token, review("zed"));
    assert_eq!(first, Ok(1));
    assert_eq!(second, Err(LDNError::VersionConflict));

    let (doc, v) = load_application(&store, "7").unwrap();
    assert_eq!(v, 1);
    assert_eq!(doc.lifecycle.validated_by, "alice");
    assert_eq!(doc.lifecycle.state, AppState::ReadyToSign);
}

#[test]
fn rejected_transition_writes_nothing() {
    let mut store: DocumentStore<ApplicationFile> = DocumentStore::new();
    create_application(&mut store, app("7")).unwrap();
    let r = transition(&mut store, "7", app("7"), 0, Event::TotalDatacapReached);
    assert_eq!(r, Err(LDNError::InvalidTransition));
    let (doc, v) = store.read(&"7.json".to_string()).unwrap();
    assert_eq!(v, 0);
    assert_eq!(*doc, app("7"));
}

#[test]
fn missing_document_and_duplicate_create() {
    let mut store: DocumentStore<ApplicationFile> = DocumentStore::new();
    let path = "9.json".to_string();
    assert!(store.read(&path).is_none());
    assert_eq!(load_application(&store, "9"), Err(LDNError::NotFound));
    assert_eq!(transition(&mut store, "9", app("9"), 0, review("a")), Err(LDNError::NotFound));
    assert_eq!(create_application(&mut store, app("9")), Ok(0));
    assert_eq!(create_application(&mut store, app("9")), Err(LDNError::AlreadyExists));
    assert_eq!(store.write(&path, app("9"), 5), Err(LDNError::VersionConflict));
    assert_eq!(store.write(&path, app("9"), 0), Ok(1));
}

fn merged(sha: &str, a: ApplicationFile) -> MergedFile {
    MergedFile { file_sha: sha.to_string(), application: a }
}

#[test]
fn active_and_merged_never_share_an_id() {
    let staged = vec![app("1"), app("2")];
    let mut closed = granted("4");
    closed.apply(Event::TotalDatacapReached).unwrap();
    let files = vec![merged("s1", granted("1")), merged("s3", granted("3")), merged("s4", closed)];

    let active = LDNApplication::active(staged.clone(), None);
    assert_eq!(active, staged);
    let listed = LDNApplication::merged(files, &active);
    assert_eq!(listed.len(), 1);
    assert_eq!(listed[0].application.id, "3");
    assert_eq!(listed[0].file_sha, "s3");
    for m in &listed {
        assert!(active.iter().all(|a| a.id != m.application.id));
    }

    let only_two = LDNApplication::active(staged, Some("2".to_string()));
    assert_eq!(only_two, vec![app("2")]);
}

#[test]
fn load_finds_the_staged_document() {
    let staged = vec![
        StagedFile {
            file_sha: "a".to_string(),
            file_name: "1.json".to_string(),
            branch_name: "Application/1".to_string(),
            application: app("1"),
        },
        StagedFile {
            file_sha: "b".to_string(),
            file_name: "2.json".to_string(),
            branch_name: "Application/2".to_string(),
            application: app("2"),
        },
    ];
    let h = LDNApplication::load(&"2".to_string(), &staged).unwrap();
    assert_eq!(h.application_id, "2");
    assert_eq!(h.file_sha, "b");
    assert_eq!(h.file_name, "2.json");
    assert_eq!(h.branch_name, "Application/2");
    assert_eq!(LDNApplication::load(&"3".to_string(), &staged), Err(LDNError::NotFound));
}

#[test]
fn total_reached_sweep() {
    let files = vec![merged("s1", app("1")), merged("s2", granted("2"))];
    let r = LDNApplication::total_dc_reached(files.clone(), &"2".to_string()).unwrap().unwrap();
    assert_eq!(r.file_sha, "s2");
    assert!(!r.application.lifecycle.is_active);
    assert_eq!(LDNApplication::total_dc_reached(files.clone(), &"1".to_string()), Ok(None));
    assert_eq!(
        LDNApplication::total_dc_reached(files, &"5".to_string()),
        Err(LDNError::NotFound)
    );
}

#[test]
fn refill_of_a_merged_application() {
    let files = vec![merged("s1", app("1")), merged("s2", granted("2"))];
    let info = |id: &str| RefillInfo {
        id: id.to_string(),
        amount: "50".to_string(),
        amount_type: "TiB".to_string(),
    };
    let r = LDNApplication::refill(files.clone(), info("2")).unwrap();
    assert_eq!(r.file_sha, "s2");
    let last = r.application.allocations.last().unwrap();
    assert_eq!(last.request_type, AllocationRequestType::Refill(1));
    assert_eq!(last.allocation_amount, "50TiB");
    assert_eq!(last.actor, "SSA Bot");
    assert_eq!(last.id.len(), 36);
    assert_eq!(r.application.allocations[0], granted("2").allocations[0]);
    assert_eq!(LDNApplication::refill(files.clone(), info("1")), Err(LDNError::InvalidTransition));
    assert_eq!(LDNApplication::refill(files, info("8")), Err(LDNError::NotFound));
}

#[test]
fn file_listing_helpers() {
    let items = vec![
        ContentItem { path: "a.json".to_string(), sha: "1".to_string(), download_url: None },
        ContentItem {
            path: "b.json".to_string(),
            sha: "2".to_string(),
            download_url: Some("https://example.org/b.json".to_string()),
        },
    ];
    assert_eq!(get_file_sha(&items), Some("1".to_string()));
    assert_eq!(get_file_sha(&vec![]), None);
    let readable = readable_files(items);
    assert_eq!(readable.len(), 1);
    assert_eq!(readable[0].path, "b.json");
}

#[test]
fn pull_request_names() {
    assert_eq!(LDNPullRequest::application_branch_name("17"), "Application/17");
    assert_eq!(LDNPullRequest::application_title("17", "Acme"), "Application_17_Acme");
    assert_eq!(LDNPullRequest::application_body("17"), "resolves #17");
    assert_eq!(LDNPullRequest::application_path("17"), "17.json");
    assert_eq!(LDNPullRequest::application_initial_commit("Acme", "17"), "Start Application: Acme-17");
    assert_eq!(
        LDNPullRequest::application_move_to_proposal_commit("gov"),
        "Governance Team User gov Moved Application to Proposal State from Governance Review State"
    );
    assert_eq!(
        LDNPullRequest::application_archive_commit("17"),
        "Application 17 reached its total datacap"
    );
    let pr = LDNPullRequest::load("17", "Acme");
    assert_eq!(pr.path, "17.json");
    assert_eq!(pr.title, "Application_17_Acme");
}
