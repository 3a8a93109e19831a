use vstd::prelude::*;

use crate::allocation::{id_is_fresh, Notary};
use crate::application::{accepts, steps_to, AppState, ApplicationFile, Event};
use crate::error::LDNError;
use crate::pull_request::{
    approval_commit_of, confirmed_commit_of, governance_review_commit, initial_commit_of,
    path_of, proposal_commit_of, LDNPullRequest,
};
use crate::store::{create_spec, write_spec, DocumentStore};

verus! {

/// The ticket from which an application is created.
#[derive(Clone, Debug, PartialEq, Eq)]
pub struct CreateApplicationInfo {
    pub issue_number: String,
}

/// The governance actor that completes an application's review.
#[derive(Clone, Debug, PartialEq, Eq)]
pub struct CompleteGovernanceReviewInfo {
    pub actor: String,
}

/// A signer's approval of the allocation request `request_id`.
#[derive(Clone, Debug, PartialEq, Eq)]
pub struct CompleteNewApplicationProposalInfo {
    pub signer: Notary,
    pub request_id: String,
}

/// A proposal as a notary submits it.
#[derive(Clone, Debug, PartialEq, Eq)]
pub struct ProposeApplicationInfo {
    pub uuid: String,
    pub client_address: String,
    pub notary_address: String,
    pub time_of_signature: String,
    pub message_cid: String,
}

/// An approval as a notary submits it.
#[derive(Clone, Debug, PartialEq, Eq)]
pub struct ApproveApplicationInfo {
    pub uuid: String,
    pub client_address: String,
    pub notary_address: String,
    pub allocation_amount: String,
    pub time_of_signature: String,
    pub message_cid: String,
}

/// A refill of `amount` (in unit `amount_type`) for application `id`.
#[derive(Clone, Debug, PartialEq, Eq)]
pub struct RefillInfo {
    pub id: String,
    pub amount: String,
    pub amount_type: String,
}

/// What an application's ticket says of it.
#[derive(Clone, Debug, PartialEq, Eq)]
pub struct ParsedIssue {
    pub id: String,
    pub client_name: String,
    pub project: String,
    pub total_requested: String,
}

/// A staged application: its id and where its document lives, with the
/// version token (`file_sha`) read with it.
#[derive(Clone, Debug, PartialEq, Eq)]
pub struct LDNApplication {
    pub application_id: String,
    pub file_sha: String,
    pub file_name: String,
    pub branch_name: String,
}

/// A conditional write to perform: `application` at `path` on `branch_name`,
/// only if the document's version token is still `file_sha`.
#[derive(Clone, Debug, PartialEq, Eq)]
pub struct Commit {
    pub path: String,
    pub branch_name: String,
    pub message: String,
    pub file_sha: String,
    pub application: ApplicationFile,
}

/// What creating an application writes: a pull request with its initial
/// commit, then the new application under governance review.
#[derive(Clone, Debug, PartialEq, Eq)]
pub struct NewApplication {
    pub pull_request: LDNPullRequest,
    pub initial_commit: String,
    pub review_commit: String,
    pub application: ApplicationFile,
}

/// Relies on uuidv4::uuid::v4: a fresh random version-4 UUID in its
/// 36-character hyphenated text form.
#[verifier::external_body]
pub(crate) fn new_request_id() -> (r: String)
    ensures
        r@.len() == 36,
{
    uuidv4::uuid::v4()
}

impl LDNApplication {
    /// Starts an application from its ticket, unless a document already
    /// exists for it.
    pub fn new_from_issue(info: CreateApplicationInfo, issue: ParsedIssue, document_exists: bool) -> (r:
        Result<NewApplication, LDNError>)
        ensures
            document_exists <==> r is Err,
            r is Err ==> r == Err::<NewApplication, LDNError>(LDNError::AlreadyExists),
            r matches Ok(n) ==> {
                &&& n.application.id == issue.id
                &&& n.application.issue_number == info.issue_number
                &&& n.application.client_name == issue.client_name
                &&& n.application.project == issue.project
                &&& n.application.total_requested == issue.total_requested
                &&& n.application.allocations@.len() == 0
                &&& n.application.lifecycle.state == AppState::GovernanceReview
                &&& n.application.lifecycle.is_active
                &&& n.pull_request@ == LDNPullRequest::load_spec(issue.id@, issue.client_name@)
                &&& n.initial_commit@ == initial_commit_of(issue.client_name@, issue.id@)
                &&& n.review_commit@ == governance_review_commit()
            },
    {
        if document_exists {
            return Err(LDNError::AlreadyExists);
        }
        let pull_request = LDNPullRequest::load(issue.id.as_str(), issue.client_name.as_str());
        let initial_commit = LDNPullRequest::application_initial_commit(
            issue.client_name.as_str(),
            issue.id.as_str(),
        );
        let review_commit = LDNPullRequest::application_move_to_governance_review();
        let application = ApplicationFile::new(
            info.issue_number,
            issue.id,
            issue.client_name,
            issue.project,
            issue.total_requested,
        );
        Ok(NewApplication { pull_request, initial_commit, review_commit, application })
    }

    /// The commit of `application` to this application's document.
    fn commit(&self, message: String, application: ApplicationFile) -> (r: Commit)
        ensures
            r.path == self.file_name,
            r.branch_name == self.branch_name,
            r.file_sha == self.file_sha,
            r.message == message,
            r.application == application,
    {
        Commit {
            path: self.file_name.clone(),
            branch_name: self.branch_name.clone(),
            message,
            file_sha: self.file_sha.clone(),
            application,
        }
    }

    /// Completes the governance review of `app_file`, the document loaded
    /// with this handle: a first allocation request, under a fresh id, for the
    /// whole requested amount.
    pub fn complete_governance_review(
        &self,
        app_file: ApplicationFile,
        info: CompleteGovernanceReviewInfo,
    ) -> (r: Result<Commit, LDNError>)
        ensures
            app_file.lifecycle.state != AppState::GovernanceReview ==> r == Err::<
                Commit,
                LDNError,
            >(LDNError::InvalidTransition),
            r is Err ==> r == Err::<Commit, LDNError>(LDNError::InvalidTransition),
            r matches Ok(c) ==> {
                &&& c.path == self.file_name
                &&& c.branch_name == self.branch_name
                &&& c.file_sha == self.file_sha
                &&& c.message@ == proposal_commit_of(info.actor@)
            },
            exists|id: String|
                {
                    &&& id@.len() == 36
                    &&& (r is Ok <==> accepts(
                        app_file,
                        (Event::CompleteGovernanceReview { actor: info.actor, request_id: id }),
                    ))
                    &&& (r is Ok ==> id_is_fresh(app_file.allocations@, id@))
                    &&& (r matches Ok(c) ==> steps_to(
                        app_file,
                        (Event::CompleteGovernanceReview { actor: info.actor, request_id: id }),
                        c.application,
                    ))
                },
    {
        let message = LDNPullRequest::application_move_to_proposal_commit(info.actor.as_str());
        let request_id = new_request_id();
        let mut app_file = app_file;
        match app_file.apply(Event::CompleteGovernanceReview { actor: info.actor, request_id }) {
            Ok(()) => Ok(self.commit(message, app_file)),
            Err(e) => Err(e),
        }
    }

    /// Records the first signature on the active allocation request of
    /// `app_file`, the document loaded with this handle.
    pub fn complete_new_application_proposal(
        &self,
        app_file: ApplicationFile,
        info: CompleteNewApplicationProposalInfo,
    ) -> (r: Result<Commit, LDNError>)
        ensures
            r is Ok <==> accepts(
                app_file,
                (Event::Propose { signer: info.signer, request_id: info.request_id }),
            ),
            r is Err ==> r == Err::<Commit, LDNError>(LDNError::InvalidTransition),
            r matches Ok(c) ==> {
                &&& c.path == self.file_name
                &&& c.branch_name == self.branch_name
                &&& c.file_sha == self.file_sha
                &&& c.message@ == approval_commit_of(info.signer.signing_address@)
                &&& steps_to(
                    app_file,
                    (Event::Propose { signer: info.signer, request_id: info.request_id }),
                    c.application,
                )
            },
    {
        let message = LDNPullRequest::application_move_to_approval_commit(
            info.signer.signing_address.as_str(),
        );
        let mut app_file = app_file;
        match app_file.apply(Event::Propose { signer: info.signer, request_id: info.request_id }) {
            Ok(()) => Ok(self.commit(message, app_file)),
            Err(e) => Err(e),
        }
    }

    /// Records the second signature on the active allocation request of
    /// `app_file`, the document loaded with this handle, which grants it.
    pub fn complete_new_application_approval(
        &self,
        app_file: ApplicationFile,
        info: CompleteNewApplicationProposalInfo,
    ) -> (r: Result<Commit, LDNError>)
        ensures
            r is Ok <==> accepts(
                app_file,
                (Event::Approve { signer: info.signer, request_id: info.request_id }),
            ),
            r is Err ==> r == Err::<Commit, LDNError>(LDNError::InvalidTransition),
            r matches Ok(c) ==> {
                &&& c.path == self.file_name
                &&& c.branch_name == self.branch_name
                &&& c.file_sha == self.file_sha
                &&& c.message@ == confirmed_commit_of(info.signer.signing_address@)
                &&& steps_to(
                    app_file,
                    (Event::Approve { signer: info.signer, request_id: info.request_id }),
                    c.application,
                )
            },
    {
        let message = LDNPullRequest::application_move_to_confirmed_commit(
            info.signer.signing_address.as_str(),
        );
        let mut app_file = app_file;
        match app_file.apply(Event::Approve { signer: info.signer, request_id: info.request_id }) {
            Ok(()) => Ok(self.commit(message, app_file)),
            Err(e) => Err(e),
        }
    }
}

/// Stores a new application at the path derived from its id, unless a
/// document is already there.
pub fn create_application(store: &mut DocumentStore<ApplicationFile>, app: ApplicationFile) -> (r:
    Result<u64, LDNError>)
    requires
        old(store).wf(),
    ensures
        final(store).wf(),
        (final(store)@, r) == create_spec(old(store)@, path_of(app.id@), app),
{
    let path = LDNPullRequest::application_path(app.id.as_str());
    store.create(path, app)
}

/// The stored document of application `application_id` and its version token.
pub fn load_application<'a>(store: &'a DocumentStore<ApplicationFile>, application_id: &str) -> (r:
    Result<(&'a ApplicationFile, u64), LDNError>)
    requires
        store.wf(),
    ensures
        r is Err <==> !store@.contains_key(path_of(application_id@)),
        r is Err ==> r == Err::<(&ApplicationFile, u64), LDNError>(LDNError::NotFound),
        r matches Ok((d, v)) ==> store@[path_of(application_id@)] == (*d, v),
{
    let path = LDNPullRequest::application_path(application_id);
    match store.read(&path) {
        Some(found) => Ok(found),
        None => Err(LDNError::NotFound),
    }
}

/// Applies `event` to `loaded`, the document of application
/// `application_id` as read with version token `token`, and writes the
/// result back only if the token still matches. A rejected event writes
/// nothing.
pub fn transition(
    store: &mut DocumentStore<ApplicationFile>,
    application_id: &str,
    loaded: ApplicationFile,
    token: u64,
    event: Event,
) -> (r: Result<u64, LDNError>)
    requires
        old(store).wf(),
    ensures
        final(store).wf(),
        !accepts(loaded, event) ==> r == Err::<u64, LDNError>(LDNError::InvalidTransition)
            && final(store)@ == old(store)@,
        accepts(loaded, event) ==> exists|b: ApplicationFile|
            steps_to(loaded, event, b) && (final(store)@, r) == write_spec(
                old(store)@,
                path_of(application_id@),
                b,
                token,
            ),
{
    let mut app = loaded;
    match app.apply(event) {
        Ok(()) => {
            let path = LDNPullRequest::application_path(application_id);
            store.write(&path, app, token)
        },
        Err(e) => Err(e),
    }
}

} // verus!
