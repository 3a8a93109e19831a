use vstd::prelude::*;

verus! {

/// Branch on which the staged document of an application lives.
pub open spec fn branch_name_of(application_id: Seq<char>) -> Seq<char> {
    "Application/"@ + application_id
}

/// Title of an application's pull request.
pub open spec fn title_of(application_id: Seq<char>, owner_name: Seq<char>) -> Seq<char> {
    "Application_"@ + application_id + "_"@ + owner_name
}

/// Body of an application's pull request.
pub open spec fn body_of(application_id: Seq<char>) -> Seq<char> {
    "resolves #"@ + application_id
}

/// Path of an application's document.
pub open spec fn path_of(application_id: Seq<char>) -> Seq<char> {
    application_id + ".json"@
}

/// Message of the commit that starts an application.
pub open spec fn initial_commit_of(owner_name: Seq<char>, application_id: Seq<char>) -> Seq<
    char,
> {
    "Start Application: "@ + owner_name + "-"@ + application_id
}

/// Message of the commit that puts an application under governance review.
pub open spec fn governance_review_commit() -> Seq<char> {
    "Application is under review of governance team"@
}

/// Message of the commit that completes the governance review.
pub open spec fn proposal_commit_of(actor: Seq<char>) -> Seq<char> {
    "Governance Team User "@ + actor
        + " Moved Application to Proposal State from Governance Review State"@
}

/// Message of the commit that records the first signature.
pub open spec fn approval_commit_of(actor: Seq<char>) -> Seq<char> {
    "Notary User "@ + actor + " Moved Application to Approval State from Proposal State"@
}

/// Message of the commit that records the second signature.
pub open spec fn confirmed_commit_of(actor: Seq<char>) -> Seq<char> {
    "Notary User "@ + actor + " Moved Application to Confirmed State from Proposal Approval"@
}

/// Message of the commit that archives an application whose total is reached.
pub open spec fn archive_commit_of(application_id: Seq<char>) -> Seq<char> {
    "Application "@ + application_id + " reached its total datacap"@
}

/// Where an application's staged document lives and how its pull request reads.
#[derive(Clone, Debug, PartialEq, Eq)]
pub struct LDNPullRequest {
    pub branch_name: String,
    pub title: String,
    pub body: String,
    pub path: String,
}

/// The text of a pull request's fields.
pub struct LDNPullRequestView {
    pub branch_name: Seq<char>,
    pub title: Seq<char>,
    pub body: Seq<char>,
    pub path: Seq<char>,
}

impl View for LDNPullRequest {
    type V = LDNPullRequestView;

    open spec fn view(&self) -> LDNPullRequestView {
        LDNPullRequestView {
            branch_name: self.branch_name@,
            title: self.title@,
            body: self.body@,
            path: self.path@,
        }
    }
}

impl LDNPullRequest {
    /// The pull request of application `application_id`, owned by `owner_name`.
    pub open spec fn load_spec(application_id: Seq<char>, owner_name: Seq<char>) -> LDNPullRequestView {
        LDNPullRequestView {
            branch_name: branch_name_of(application_id),
            title: title_of(application_id, owner_name),
            body: body_of(application_id),
            path: path_of(application_id),
        }
    }

    /// The branch, title, body and path of the application's pull request.
    pub fn load(application_id: &str, owner_name: &str) -> (r: Self)
        ensures
            r@ == Self::load_spec(application_id@, owner_name@),
    {
        LDNPullRequest {
            branch_name: LDNPullRequest::application_branch_name(application_id),
            title: LDNPullRequest::application_title(application_id, owner_name),
            body: LDNPullRequest::application_body(application_id),
            path: LDNPullRequest::application_path(application_id),
        }
    }

    pub fn application_branch_name(application_id: &str) -> (r: String)
        ensures
            r@ == branch_name_of(application_id@),
    {
        let mut s = String::from_str("Application/");
        s.append(application_id);
        s
    }

    pub fn application_title(application_id: &str, owner_name: &str) -> (r: String)
        ensures
            r@ == title_of(application_id@, owner_name@),
    {
        let mut s = String::from_str("Application_");
        s.append(application_id);
        s.append("_");
        s.append(owner_name);
        s
    }

    pub fn application_body(application_id: &str) -> (r: String)
        ensures
            r@ == body_of(application_id@),
    {
        let mut s = String::from_str("resolves #");
        s.append(application_id);
        s
    }

    pub fn application_path(application_id: &str) -> (r: String)
        ensures
            r@ == path_of(application_id@),
    {
        let mut s = String::from_str(application_id);
        s.append(".json");
        s
    }

    pub fn application_initial_commit(owner_name: &str, application_id: &str) -> (r: String)
        ensures
            r@ == initial_commit_of(owner_name@, application_id@),
    {
        let mut s = String::from_str("Start Application: ");
        s.append(owner_name);
        s.append("-");
        s.append(application_id);
        s
    }

    pub fn application_move_to_governance_review() -> (r: String)
        ensures
            r@ == governance_review_commit(),
    {
        String::from_str("Application is under review of governance team")
    }

    pub fn application_move_to_proposal_commit(actor: &str) -> (r: String)
        ensures
            r@ == proposal_commit_of(actor@),
    {
        let mut s = String::from_str("Governance Team User ");
        s.append(actor);
        s.append(" Moved Application to Proposal State from Governance Review State");
        s
    }

    pub fn application_move_to_approval_commit(actor: &str) -> (r: String)
        ensures
            r@ == approval_commit_of(actor@),
    {
        let mut s = String::from_str("Notary User ");
        s.append(actor);
        s.append(" Moved Application to Approval State from Proposal State");
        s
    }

    pub fn application_move_to_confirmed_commit(actor: &str) -> (r: String)
        ensures
            r@ == confirmed_commit_of(actor@),
    {
        let mut s = String::from_str("Notary User ");
        s.append(actor);
        s.append(" Moved Application to Confirmed State from Proposal Approval");
        s
    }

    pub fn application_archive_commit(application_id: &str) -> (r: String)
        ensures
            r@ == archive_commit_of(application_id@),
    {
        let mut s = String::from_str("Application ");
        s.append(application_id);
        s.append(" reached its total datacap");
        s
    }
}

} // verus!
