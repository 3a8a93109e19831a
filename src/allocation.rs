use vstd::prelude::*;

verus! {

/// Number of signer approvals that completes an allocation request.
pub const REQUIRED_SIGNERS: usize = 2;

/// A notary (or equivalent actor) whose recorded approval advances a request.
#[derive(Clone, Debug, PartialEq, Eq)]
pub struct Notary {
    pub signing_address: String,
    pub time_of_signature: String,
    pub message_cid: String,
    pub username: String,
}

/// Whether an allocation request is the first one of an application or the
/// n-th refill after it.
#[derive(PartialEq, Eq, Structural, Clone, Copy, Debug)]
pub enum AllocationRequestType {
    First,
    Refill(u64),
}

/// One funding request of an application, with the signers collected so far.
#[derive(Clone, Debug, PartialEq, Eq)]
pub struct AllocationRequest {
    pub id: String,
    pub actor: String,
    pub request_type: AllocationRequestType,
    pub allocation_amount: String,
    pub signers: Vec<Notary>,
}

/// A request is complete once it carries the required number of signers.
pub open spec fn is_complete(r: AllocationRequest) -> bool {
    r.signers@.len() >= REQUIRED_SIGNERS
}

/// The active request is the most recent one, as long as it is not complete.
pub open spec fn active_index(allocs: Seq<AllocationRequest>) -> Option<int> {
    if allocs.len() > 0 && !is_complete(allocs.last()) {
        Some(allocs.len() - 1)
    } else {
        None
    }
}

/// `id` names the active request of `allocs`.
pub open spec fn is_active_id(allocs: Seq<AllocationRequest>, id: Seq<char>) -> bool {
    match active_index(allocs) {
        Some(i) => allocs[i].id@ == id,
        None => false,
    }
}

/// No request of `allocs` has id `id`.
pub open spec fn id_is_fresh(allocs: Seq<AllocationRequest>, id: Seq<char>) -> bool {
    forall|j: int| 0 <= j < allocs.len() ==> (#[trigger] allocs[j]).id@ != id
}

/// Number of refill requests in `allocs`.
pub open spec fn refill_count(allocs: Seq<AllocationRequest>) -> nat
    decreases allocs.len(),
{
    if allocs.len() == 0 {
        0
    } else {
        refill_count(allocs.drop_last()) + if allocs.last().request_type is Refill {
            1nat
        } else {
            0nat
        }
    }
}

/// Number of first requests in `allocs`.
pub open spec fn first_count(allocs: Seq<AllocationRequest>) -> nat
    decreases allocs.len(),
{
    if allocs.len() == 0 {
        0
    } else {
        first_count(allocs.drop_last()) + if allocs.last().request_type is First {
            1nat
        } else {
            0nat
        }
    }
}

/// `later` keeps every request of `earlier` with its id, actor, type and
/// amount, and every signer already recorded on it: approvals are never
/// removed or edited.
pub open spec fn preserves_history(
    earlier: Seq<AllocationRequest>,
    later: Seq<AllocationRequest>,
) -> bool {
    &&& earlier.len() <= later.len()
    &&& forall|i: int|
        0 <= i < earlier.len() ==> {
            &&& (#[trigger] later[i]).id == earlier[i].id
            &&& later[i].actor == earlier[i].actor
            &&& later[i].request_type == earlier[i].request_type
            &&& later[i].allocation_amount == earlier[i].allocation_amount
            &&& earlier[i].signers@.is_prefix_of(later[i].signers@)
        }
}

pub proof fn lemma_preserves_history_refl(a: Seq<AllocationRequest>)
    ensures
        preserves_history(a, a),
{
    assert forall|i: int| 0 <= i < a.len() implies a[i].signers@.is_prefix_of(
        a[i].signers@,
    ) by {
        assert(a[i].signers@.subrange(0, a[i].signers@.len() as int) =~= a[i].signers@);
    }
}

impl AllocationRequest {
    /// A fresh request with no signers yet.
    pub fn new(
        actor: String,
        id: String,
        request_type: AllocationRequestType,
        allocation_amount: String,
    ) -> (r: AllocationRequest)
        ensures
            r.id == id,
            r.actor == actor,
            r.request_type == request_type,
            r.allocation_amount == allocation_amount,
            r.signers@ == Seq::<Notary>::empty(),
    {
        AllocationRequest { id, actor, request_type, allocation_amount, signers: Vec::new() }
    }

    /// Whether the request already carries the required number of signers.
    pub fn is_complete(&self) -> (r: bool)
        ensures
            r == is_complete(*self),
    {
        self.signers.len() >= REQUIRED_SIGNERS
    }
}

/// Whether `id` names the active request of `allocs`.
pub fn is_active(allocs: &Vec<AllocationRequest>, id: &String) -> (r: bool)
    ensures
        r == is_active_id(allocs@, id@),
{
    let n = allocs.len();
    if n == 0 {
        return false;
    }
    let last = &allocs[n - 1];
    if last.is_complete() {
        false
    } else {
        last.id == *id
    }
}

/// Whether no request of `allocs` has id `id`.
pub fn is_fresh_id(allocs: &Vec<AllocationRequest>, id: &String) -> (r: bool)
    ensures
        r == id_is_fresh(allocs@, id@),
{
    let mut i: usize = 0;
    while i < allocs.len()
        invariant
            i <= allocs@.len(),
            forall|j: int| 0 <= j < i ==> (#[trigger] allocs@[j]).id@ != id@,
        decreases allocs@.len() - i,
    {
        if allocs[i].id == *id {
            return false;
        }
        i = i + 1;
    }
    true
}

/// Number of refill requests in `allocs`.
pub fn count_refills(allocs: &Vec<AllocationRequest>) -> (r: usize)
    ensures
        r as nat == refill_count(allocs@),
{
    let mut count: usize = 0;
    let mut i: usize = 0;
    while i < allocs.len()
        invariant
            i <= allocs@.len(),
            count as nat == refill_count(allocs@.subrange(0, i as int)),
            count <= i,
        decreases allocs@.len() - i,
    {
        proof {
            assert(allocs@.subrange(0, i as int + 1).drop_last() =~= allocs@.subrange(0, i as int));
        }
        match allocs[i].request_type {
            AllocationRequestType::Refill(_) => {
                count = count + 1;
            },
            AllocationRequestType::First => {},
        }
        i = i + 1;
    }
    proof {
        assert(allocs@.subrange(0, allocs@.len() as int) =~= allocs@);
    }
    count
}

} // verus!
