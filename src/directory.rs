use vstd::prelude::*;

use crate::allocation::id_is_fresh;
use crate::application::{accepts, steps_to, AppState, ApplicationFile, Event};
use crate::engine::{new_request_id, LDNApplication, RefillInfo};
use crate::error::LDNError;

verus! {

broadcast use vstd::seq_lib::group_filter_ensures;

/// The actor recorded on refill requests.
pub open spec fn refill_actor() -> Seq<char> {
    "SSA Bot"@
}

/// A staged application: the document of an open pull request, with the
/// location and version token it was read with.
#[derive(Clone, Debug, PartialEq, Eq)]
pub struct StagedFile {
    pub file_sha: String,
    pub file_name: String,
    pub branch_name: String,
    pub application: ApplicationFile,
}

/// An application committed to the main line, with the version token of its
/// document there.
#[derive(Clone, Debug, PartialEq, Eq)]
pub struct MergedFile {
    pub file_sha: String,
    pub application: ApplicationFile,
}

/// A file listed on the main line; only one with a download location can be read.
#[derive(Clone, Debug, PartialEq, Eq)]
pub struct ContentItem {
    pub path: String,
    pub sha: String,
    pub download_url: Option<String>,
}

/// `i` is the first position of `apps` whose application has id `id`.
pub open spec fn is_first_with_id(apps: Seq<ApplicationFile>, id: Seq<char>, i: int) -> bool {
    &&& 0 <= i < apps.len()
    &&& apps[i].id@ == id
    &&& forall|j: int| 0 <= j < i ==> (#[trigger] apps[j]).id@ != id
}

/// Some application of `apps` has id `id`.
pub open spec fn has_id(apps: Seq<ApplicationFile>, id: Seq<char>) -> bool {
    exists|i: int| 0 <= i < apps.len() && (#[trigger] apps[i]).id@ == id
}

pub open spec fn staged_apps(files: Seq<StagedFile>) -> Seq<ApplicationFile> {
    files.map_values(|f: StagedFile| f.application)
}

pub open spec fn merged_apps(files: Seq<MergedFile>) -> Seq<ApplicationFile> {
    files.map_values(|f: MergedFile| f.application)
}

/// An application is listed as active when it passes the optional id filter.
pub open spec fn passes_filter(a: ApplicationFile, filter: Option<String>) -> bool {
    match filter {
        Some(id) => a.id@ == id@,
        None => true,
    }
}

/// A merged application is listed when it is still open and not staged again.
pub open spec fn listed_as_merged(f: MergedFile, active: Seq<ApplicationFile>) -> bool {
    f.application.lifecycle.is_active && !has_id(active, f.application.id@)
}

/// The main-line entries of the merged view, given the active set.
pub open spec fn merged_view(files: Seq<MergedFile>, active: Seq<ApplicationFile>) -> Seq<MergedFile> {
    files.filter(|f: MergedFile| listed_as_merged(f, active))
}

/// The active view, given the staged documents.
pub open spec fn active_view(apps: Seq<ApplicationFile>, filter: Option<String>) -> Seq<ApplicationFile> {
    apps.filter(|a: ApplicationFile| passes_filter(a, filter))
}

fn find_id(apps: &Vec<ApplicationFile>, id: &String) -> (r: Option<usize>)
    ensures
        r is None <==> !has_id(apps@, id@),
        r matches Some(i) ==> is_first_with_id(apps@, id@, i as int),
{
    let mut i: usize = 0;
    while i < apps.len()
        invariant
            i <= apps@.len(),
            forall|j: int| 0 <= j < i ==> (#[trigger] apps@[j]).id@ != id@,
        decreases apps@.len() - i,
    {
        if apps[i].id == *id {
            return Some(i);
        }
        i = i + 1;
    }
    None
}

fn find_staged(files: &Vec<StagedFile>, id: &String) -> (r: Option<usize>)
    ensures
        r is None <==> !has_id(staged_apps(files@), id@),
        r matches Some(i) ==> is_first_with_id(staged_apps(files@), id@, i as int),
{
    let mut i: usize = 0;
    while i < files.len()
        invariant
            i <= files@.len(),
            forall|j: int| 0 <= j < i ==> (#[trigger] staged_apps(files@)[j]).id@ != id@,
        decreases files@.len() - i,
    {
        if files[i].application.id == *id {
            proof {
                assert(staged_apps(files@)[i as int].id@ == id@);
            }
            return Some(i);
        }
        i = i + 1;
    }
    proof {
        assert forall|j: int| 0 <= j < staged_apps(files@).len() implies (
        #[trigger] staged_apps(files@)[j]).id@ != id@ by {}
    }
    None
}

fn find_merged(files: &Vec<MergedFile>, id: &String) -> (r: Option<usize>)
    ensures
        r is None <==> !has_id(merged_apps(files@), id@),
        r matches Some(i) ==> is_first_with_id(merged_apps(files@), id@, i as int),
{
    let mut i: usize = 0;
    while i < files.len()
        invariant
            i <= files@.len(),
            forall|j: int| 0 <= j < i ==> (#[trigger] merged_apps(files@)[j]).id@ != id@,
        decreases files@.len() - i,
    {
        if files[i].application.id == *id {
            proof {
                assert(merged_apps(files@)[i as int].id@ == id@);
            }
            return Some(i);
        }
        i = i + 1;
    }
    None
}

impl LDNApplication {
    /// The handle of staged application `application_id`: the location and
    /// version token of the first staged document with that id.
    pub fn load(application_id: &String, staged: &Vec<StagedFile>) -> (r: Result<
        LDNApplication,
        LDNError,
    >)
        ensures
            r is Err <==> !has_id(staged_apps(staged@), application_id@),
            r is Err ==> r == Err::<LDNApplication, LDNError>(LDNError::NotFound),
            r matches Ok(h) ==> exists|i: int|
                is_first_with_id(staged_apps(staged@), application_id@, i) && h.application_id
                    == staged@[i].application.id && h.file_sha == staged@[i].file_sha
                    && h.file_name == staged@[i].file_name && h.branch_name
                    == staged@[i].branch_name,
    {
        match find_staged(staged, application_id) {
            Some(i) => {
                let f = &staged[i];
                Ok(
                    LDNApplication {
                        application_id: f.application.id.clone(),
                        file_sha: f.file_sha.clone(),
                        file_name: f.file_name.clone(),
                        branch_name: f.branch_name.clone(),
                    },
                )
            },
            None => Err(LDNError::NotFound),
        }
    }

    /// The sweep for a reached total: finds merged application
    /// `application_id` and, where it accepts `TotalDatacapReached`, returns
    /// its archived document to commit against the main-line copy.
    pub fn total_dc_reached(merged: Vec<MergedFile>, application_id: &String) -> (r: Result<
        Option<MergedFile>,
        LDNError,
    >)
        ensures
            r is Err <==> !has_id(merged_apps(merged@), application_id@),
            r is Err ==> r == Err::<Option<MergedFile>, LDNError>(LDNError::NotFound),
            r matches Ok(o) ==> exists|i: int|
                is_first_with_id(merged_apps(merged@), application_id@, i) && (o is Some
                    <==> accepts(merged@[i].application, Event::TotalDatacapReached)) && (o matches Some(
                    f,
                ) ==> f.file_sha == merged@[i].file_sha && steps_to(
                    merged@[i].application,
                    Event::TotalDatacapReached,
                    f.application,
                )),
    {
        match find_merged(&merged, application_id) {
            None => Err(LDNError::NotFound),
            Some(i) => {
                let mut rest = merged;
                let mut f = rest.remove(i);
                match f.application.apply(Event::TotalDatacapReached) {
                    Ok(()) => Ok(Some(f)),
                    Err(_) => Ok(None),
                }
            },
        }
    }

    /// Starts a refill of `refill_info.amount` for merged application
    /// `refill_info.id`: a new refill request under a fresh id, asked for by
    /// the automated actor, to be staged against the main-line copy.
    pub fn refill(merged: Vec<MergedFile>, refill_info: RefillInfo) -> (r: Result<
        MergedFile,
        LDNError,
    >)
        ensures
            !has_id(merged_apps(merged@), refill_info.id@) ==> r == Err::<MergedFile, LDNError>(
                LDNError::NotFound,
            ),
            has_id(merged_apps(merged@), refill_info.id@) ==> exists|i: int|
                is_first_with_id(merged_apps(merged@), refill_info.id@, i) && {
                    let a = merged@[i].application;
                    &&& (!(a.lifecycle.state == AppState::Granted && a.lifecycle.is_active)
                        ==> r == Err::<MergedFile, LDNError>(LDNError::InvalidTransition))
                    &&& (r is Err ==> r == Err::<MergedFile, LDNError>(
                        LDNError::InvalidTransition,
                    ))
                    &&& (r matches Ok(f) ==> f.file_sha == merged@[i].file_sha)
                    &&& exists|actor: String, request_id: String, amount: String|
                        {
                            &&& actor@ == refill_actor()
                            &&& request_id@.len() == 36
                            &&& amount@ == refill_info.amount@ + refill_info.amount_type@
                            &&& (r is Ok <==> accepts(
                                a,
                                (Event::Refill { actor, request_id, amount }),
                            ))
                            &&& (r is Ok ==> id_is_fresh(a.allocations@, request_id@))
                            &&& (r matches Ok(f) ==> steps_to(
                                a,
                                (Event::Refill { actor, request_id, amount }),
                                f.application,
                            ))
                        }
                },
    {
        match find_merged(&merged, &refill_info.id) {
            None => Err(LDNError::NotFound),
            Some(i) => {
                let mut rest = merged;
                let mut f = rest.remove(i);
                let mut amount = refill_info.amount;
                amount.append(refill_info.amount_type.as_str());
                let request_id = new_request_id();
                let actor = String::from_str("SSA Bot");
                match f.application.apply(Event::Refill { actor, request_id, amount }) {
                    Ok(()) => Ok(f),
                    Err(e) => Err(e),
                }
            },
        }
    }

    /// The active set: the staged applications, in order, that pass `filter`.
    pub fn active(staged: Vec<ApplicationFile>, filter: Option<String>) -> (r: Vec<ApplicationFile>)
        ensures
            r@ == active_view(staged@, filter),
    {
        let ghost all = staged@;
        let mut rest = staged;
        let mut out: Vec<ApplicationFile> = Vec::new();
        let ghost mut k: int = 0;
        while rest.len() > 0
            invariant
                0 <= k,
                0 <= k,
            k + rest@.len() == all.len(),
                rest@ == all.subrange(k, all.len() as int),
                out@ == active_view(all.subrange(0, k), filter),
            decreases rest@.len(),
        {
            let a = rest.remove(0);
            proof {
                assert(all.subrange(0, k + 1).drop_last() =~= all.subrange(0, k));
                reveal(Seq::filter);
            }
            let keep = match &filter {
                Some(id) => a.id == *id,
                None => true,
            };
            if keep {
                out.push(a);
            }
            proof {
                k = k + 1;
            }
            proof {
                assert(rest@ =~= all.subrange(k, all.len() as int));
            }
        }
        proof {
            assert(all.subrange(0, all.len() as int) =~= all);
        }
        out
    }

    /// The merged set: the main-line applications, in order, that are still
    /// open and have no staged copy in `active`.
    pub fn merged(files: Vec<MergedFile>, active: &Vec<ApplicationFile>) -> (r: Vec<MergedFile>)
        ensures
            r@ == merged_view(files@, active@),
    {
        let ghost all = files@;
        let mut rest = files;
        let mut out: Vec<MergedFile> = Vec::new();
        let ghost mut k: int = 0;
        while rest.len() > 0
            invariant
                0 <= k,
                0 <= k,
            k + rest@.len() == all.len(),
                rest@ == all.subrange(k, all.len() as int),
                out@ == merged_view(all.subrange(0, k), active@),
            decreases rest@.len(),
        {
            let f = rest.remove(0);
            proof {
                assert(all.subrange(0, k + 1).drop_last() =~= all.subrange(0, k));
                reveal(Seq::filter);
            }
            let keep = f.application.lifecycle.is_active && find_id(active, &f.application.id).is_none();
            if keep {
                out.push(f);
            }
            proof {
                k = k + 1;
            }
            proof {
                assert(rest@ =~= all.subrange(k, all.len() as int));
            }
        }
        proof {
            assert(all.subrange(0, all.len() as int) =~= all);
        }
        out
    }
}

/// The version token of the first listed file, if any.
pub fn get_file_sha(content: &Vec<ContentItem>) -> (r: Option<String>)
    ensures
        r is None <==> content@.len() == 0,
        r matches Some(sha) ==> sha == content@[0].sha,
{
    if content.len() == 0 {
        None
    } else {
        Some(content[0].sha.clone())
    }
}

/// The listed files that can be read: those with a download location, in order.
pub fn readable_files(items: Vec<ContentItem>) -> (r: Vec<ContentItem>)
    ensures
        r@ == items@.filter(|c: ContentItem| c.download_url is Some),
{
    let ghost all = items@;
    let mut rest = items;
    let mut out: Vec<ContentItem> = Vec::new();
    let ghost mut k: int = 0;
    while rest.len() > 0
        invariant
            0 <= k,
            k + rest@.len() == all.len(),
            rest@ == all.subrange(k, all.len() as int),
            out@ == all.subrange(0, k).filter(|c: ContentItem| c.download_url is Some),
        decreases rest@.len(),
    {
        let c = rest.remove(0);
        proof {
            assert(all.subrange(0, k + 1).drop_last() =~= all.subrange(0, k));
            reveal(Seq::filter);
        }
        if c.download_url.is_some() {
            out.push(c);
        }
        proof {
            k = k + 1;
        }
        proof {
            assert(rest@ =~= all.subrange(k, all.len() as int));
        }
    }
    proof {
        assert(all.subrange(0, all.len() as int) =~= all);
    }
    out
}

/// The active set and the merged set, taken from one snapshot of the
/// store, never hold the same application id.
pub proof fn lemma_active_merged_disjoint(
    staged: Seq<ApplicationFile>,
    filter: Option<String>,
    files: Seq<MergedFile>,
)
    ensures
        forall|i: int, j: int|
            0 <= i < active_view(staged, filter).len() && 0 <= j < merged_view(
                files,
                active_view(staged, None),
            ).len() ==> (#[trigger] active_view(staged, filter)[i]).id@ != (
            #[trigger] merged_view(files, active_view(staged, None))[j]).application.id@,
{
    let all = active_view(staged, None);
    let act = active_view(staged, filter);
    let mer = merged_view(files, all);
    assert forall|i: int, j: int| 0 <= i < act.len() && 0 <= j < mer.len() implies (
    #[trigger] act[i]).id@ != (#[trigger] mer[j]).application.id@ by {
        let p = |f: MergedFile| listed_as_merged(f, all);
        assert(p(mer[j]));
        let q = |a: ApplicationFile| passes_filter(a, filter);
        assert(act.contains(act[i]));
        staged.lemma_filter_contains_rev(q, act[i]);
        let k = choose|k: int| 0 <= k < staged.len() && staged[k] == act[i];
        let t = |a: ApplicationFile| passes_filter(a, None);
        staged.lemma_filter_contains(t, k);
        let m = choose|m: int| 0 <= m < all.len() && all[m] == staged[k];
        assert(all[m].id@ == act[i].id@);
    }
}

} // verus!
