use vstd::prelude::*;

use crate::allocation::{
    count_refills, first_count, id_is_fresh, is_active, is_active_id, is_fresh_id,
    lemma_preserves_history_refl, preserves_history, refill_count, AllocationRequest,
    AllocationRequestType, Notary,
};
use crate::error::LDNError;

verus! {

/// The stages of an application's primary flow.
#[derive(PartialEq, Eq, Structural, Clone, Copy, Debug)]
pub enum AppState {
    GovernanceReview,
    ReadyToSign,
    StartSignDatacap,
    Granted,
}

/// Where an application stands: its stage, whether it is still open, and
/// the governance actor that completed its review.
#[derive(Clone, Debug, PartialEq, Eq)]
pub struct Lifecycle {
    pub state: AppState,
    pub is_active: bool,
    pub validated_by: String,
}

/// One governance application, as stored in its document.
#[derive(Clone, Debug, PartialEq, Eq)]
pub struct ApplicationFile {
    pub id: String,
    pub issue_number: String,
    pub client_name: String,
    pub project: String,
    pub total_requested: String,
    pub allocations: Vec<AllocationRequest>,
    pub lifecycle: Lifecycle,
}

/// What can happen to an application. The ids of new allocation requests are
/// chosen by the caller, so that applying an event stays a pure function.
#[derive(Clone, Debug, PartialEq, Eq)]
pub enum Event {
    CompleteGovernanceReview { actor: String, request_id: String },
    Propose { signer: Notary, request_id: String },
    Approve { signer: Notary, request_id: String },
    TotalDatacapReached,
    Refill { actor: String, request_id: String, amount: String },
}

/// A stored application is well formed when an application under
/// governance review holds no allocation request yet.
pub open spec fn wf(a: ApplicationFile) -> bool {
    a.lifecycle.state == AppState::GovernanceReview ==> a.allocations@.len() == 0
}

/// Whether an application in stage `s` can accept event `e`. Signatures
/// are taken in `ReadyToSign` and `StartSignDatacap` for the first request,
/// and in `Granted` for a refill request, whose signing cycle runs while
/// the stage stays `Granted`.
pub open spec fn stage_accepts(s: AppState, e: Event) -> bool {
    match e {
        Event::CompleteGovernanceReview { .. } => s == AppState::GovernanceReview,
        Event::Propose { .. } => s == AppState::ReadyToSign || s == AppState::Granted,
        Event::Approve { .. } => s == AppState::StartSignDatacap || s == AppState::Granted,
        Event::TotalDatacapReached => s == AppState::Granted,
        Event::Refill { .. } => s == AppState::Granted,
    }
}

/// The last request is a refill request with exactly `k` signers.
pub open spec fn refill_awaiting(allocs: Seq<AllocationRequest>, k: nat) -> bool {
    &&& allocs.len() > 0
    &&& allocs.last().request_type is Refill
    &&& allocs.last().signers@.len() == k
}

/// Whether the application accepts the event.
pub open spec fn accepts(a: ApplicationFile, e: Event) -> bool {
    &&& stage_accepts(a.lifecycle.state, e)
    &&& match e {
        Event::CompleteGovernanceReview { request_id, .. } => id_is_fresh(
            a.allocations@,
            request_id@,
        ),
        Event::Propose { request_id, .. } => {
            &&& is_active_id(a.allocations@, request_id@)
            &&& a.lifecycle.state == AppState::Granted ==> a.lifecycle.is_active
                && refill_awaiting(a.allocations@, 0)
        },
        Event::Approve { request_id, .. } => {
            &&& is_active_id(a.allocations@, request_id@)
            &&& a.lifecycle.state == AppState::Granted ==> a.lifecycle.is_active
                && refill_awaiting(a.allocations@, 1)
        },
        Event::TotalDatacapReached => a.lifecycle.is_active,
        Event::Refill { request_id, .. } => {
            &&& a.lifecycle.is_active
            &&& id_is_fresh(a.allocations@, request_id@)
            &&& refill_count(a.allocations@) < usize::MAX
        },
    }
}

/// The descriptive fields of `a` and `b` agree.
pub open spec fn same_metadata(a: ApplicationFile, b: ApplicationFile) -> bool {
    &&& b.id == a.id
    &&& b.issue_number == a.issue_number
    &&& b.client_name == a.client_name
    &&& b.project == a.project
    &&& b.total_requested == a.total_requested
}

/// `b` is `a` with one new request, without signers, at the end.
pub open spec fn appends_request(
    a: Seq<AllocationRequest>,
    b: Seq<AllocationRequest>,
    id: String,
    actor: String,
    request_type: AllocationRequestType,
    amount: String,
) -> bool {
    &&& b.len() == a.len() + 1
    &&& b.drop_last() == a
    &&& b.last().id == id
    &&& b.last().actor == actor
    &&& b.last().request_type == request_type
    &&& b.last().allocation_amount == amount
    &&& b.last().signers@ == Seq::<Notary>::empty()
}

/// `b` is `a` with `signer` appended to the signers of its last request.
pub open spec fn appends_signer(
    a: Seq<AllocationRequest>,
    b: Seq<AllocationRequest>,
    signer: Notary,
) -> bool {
    &&& a.len() > 0
    &&& b.len() == a.len()
    &&& b.drop_last() == a.drop_last()
    &&& b.last().id == a.last().id
    &&& b.last().actor == a.last().actor
    &&& b.last().request_type == a.last().request_type
    &&& b.last().allocation_amount == a.last().allocation_amount
    &&& b.last().signers@ == a.last().signers@.push(signer)
}

/// `b` is the application that event `e` turns `a` into, where `a` accepts it.
pub open spec fn steps_to(a: ApplicationFile, e: Event, b: ApplicationFile) -> bool {
    &&& same_metadata(a, b)
    &&& match e {
        Event::CompleteGovernanceReview { actor, request_id } => {
            &&& appends_request(
                a.allocations@,
                b.allocations@,
                request_id,
                actor,
                AllocationRequestType::First,
                a.total_requested,
            )
            &&& b.lifecycle.state == AppState::ReadyToSign
            &&& b.lifecycle.is_active == a.lifecycle.is_active
            &&& b.lifecycle.validated_by == actor
        },
        Event::Propose { signer, .. } => {
            &&& appends_signer(a.allocations@, b.allocations@, signer)
            &&& b.lifecycle.state == if a.lifecycle.state == AppState::Granted {
                AppState::Granted
            } else {
                AppState::StartSignDatacap
            }
            &&& b.lifecycle.is_active == a.lifecycle.is_active
            &&& b.lifecycle.validated_by == a.lifecycle.validated_by
        },
        Event::Approve { signer, .. } => {
            &&& appends_signer(a.allocations@, b.allocations@, signer)
            &&& b.lifecycle.state == AppState::Granted
            &&& b.lifecycle.is_active == a.lifecycle.is_active
            &&& b.lifecycle.validated_by == a.lifecycle.validated_by
        },
        Event::TotalDatacapReached => {
            &&& b.allocations@ == a.allocations@
            &&& b.lifecycle.state == a.lifecycle.state
            &&& !b.lifecycle.is_active
            &&& b.lifecycle.validated_by == a.lifecycle.validated_by
        },
        Event::Refill { actor, request_id, amount } => {
            &&& appends_request(
                a.allocations@,
                b.allocations@,
                request_id,
                actor,
                AllocationRequestType::Refill((refill_count(a.allocations@) + 1) as u64),
                amount,
            )
            &&& b.lifecycle.state == a.lifecycle.state
            &&& b.lifecycle.is_active == a.lifecycle.is_active
            &&& b.lifecycle.validated_by == a.lifecycle.validated_by
        },
    }
}

impl ApplicationFile {
    /// A new application, under governance review, with no allocation request yet.
    pub fn new(
        issue_number: String,
        id: String,
        client_name: String,
        project: String,
        total_requested: String,
    ) -> (r: ApplicationFile)
        ensures
            r.id == id,
            r.issue_number == issue_number,
            r.client_name == client_name,
            r.project == project,
            r.total_requested == total_requested,
            r.allocations@ == Seq::<AllocationRequest>::empty(),
            r.lifecycle.state == AppState::GovernanceReview,
            r.lifecycle.is_active,
            r.lifecycle.validated_by@ == Seq::<char>::empty(),
            wf(r),
    {
        ApplicationFile {
            id,
            issue_number,
            client_name,
            project,
            total_requested,
            allocations: Vec::new(),
            lifecycle: Lifecycle {
                state: AppState::GovernanceReview,
                is_active: true,
                validated_by: String::new(),
            },
        }
    }

    /// The application's current stage.
    pub fn app_state(&self) -> (r: AppState)
        ensures
            r == self.lifecycle.state,
    {
        self.lifecycle.state
    }

    /// Applies `event`. Where the application does not accept it, the
    /// application is left exactly as it was and the event is rejected.
    pub fn apply(&mut self, event: Event) -> (r: Result<(), LDNError>)
        ensures
            r is Ok <==> accepts(*old(self), event),
            r is Ok ==> steps_to(*old(self), event, *final(self)),
            r is Err ==> r == Err::<(), LDNError>(LDNError::InvalidTransition),
            r is Err ==> *final(self) == *old(self),
            preserves_history(old(self).allocations@, final(self).allocations@),
            wf(*old(self)) ==> wf(*final(self)),
    {
        proof {
            lemma_preserves_history_refl(self.allocations@);
        }
        let ghost before = self.allocations@;
        if !stage_accepts_exec(self.lifecycle.state, &event) {
            return Err(LDNError::InvalidTransition);
        }
        match event {
            Event::CompleteGovernanceReview { actor, request_id } => {
                if !is_fresh_id(&self.allocations, &request_id) {
                    return Err(LDNError::InvalidTransition);
                }
                let request = AllocationRequest::new(
                    actor.clone(),
                    request_id,
                    AllocationRequestType::First,
                    self.total_requested.clone(),
                );
                self.allocations.push(request);
                assert(self.allocations@.drop_last() =~= before);
                self.lifecycle.state = AppState::ReadyToSign;
                self.lifecycle.validated_by = actor;
                Ok(())
            },
            Event::Propose { signer, request_id } => {
                if !is_active(&self.allocations, &request_id) {
                    return Err(LDNError::InvalidTransition);
                }
                if self.lifecycle.state == AppState::Granted {
                    if !self.lifecycle.is_active || !is_refill_awaiting(&self.allocations, 0) {
                        return Err(LDNError::InvalidTransition);
                    }
                    self.add_signer_to_active(signer);
                } else {
                    self.add_signer_to_active(signer);
                    self.lifecycle.state = AppState::StartSignDatacap;
                }
                Ok(())
            },
            Event::Approve { signer, request_id } => {
                if !is_active(&self.allocations, &request_id) {
                    return Err(LDNError::InvalidTransition);
                }
                if self.lifecycle.state == AppState::Granted {
                    if !self.lifecycle.is_active || !is_refill_awaiting(&self.allocations, 1) {
                        return Err(LDNError::InvalidTransition);
                    }
                }
                self.add_signer_to_active(signer);
                self.lifecycle.state = AppState::Granted;
                Ok(())
            },
            Event::TotalDatacapReached => {
                if !self.lifecycle.is_active {
                    return Err(LDNError::InvalidTransition);
                }
                self.lifecycle.is_active = false;
                Ok(())
            },
            Event::Refill { actor, request_id, amount } => {
                if !self.lifecycle.is_active || !is_fresh_id(&self.allocations, &request_id) {
                    return Err(LDNError::InvalidTransition);
                }
                let n = count_refills(&self.allocations);
                if n == usize::MAX {
                    return Err(LDNError::InvalidTransition);
                }
                let request = AllocationRequest::new(
                    actor,
                    request_id,
                    AllocationRequestType::Refill((n + 1) as u64),
                    amount,
                );
                self.allocations.push(request);
                assert(self.allocations@.drop_last() =~= before);
                Ok(())
            },
        }
    }

    /// Appends `signer` to the last request.
    fn add_signer_to_active(&mut self, signer: Notary)
        requires
            old(self).allocations@.len() > 0,
        ensures
            appends_signer(old(self).allocations@, final(self).allocations@, signer),
            preserves_history(old(self).allocations@, final(self).allocations@),
            same_metadata(*old(self), *final(self)),
            final(self).lifecycle == old(self).lifecycle,
    {
        let ghost before = self.allocations@;
        match self.allocations.pop() {
            Some(mut last) => {
                last.signers.push(signer);
                self.allocations.push(last);
                proof {
                    assert(self.allocations@.drop_last() =~= before.drop_last());
                    assert forall|i: int| 0 <= i < before.len() implies before[i].signers@.is_prefix_of(
                        self.allocations@[i].signers@,
                    ) by {
                        if i < before.len() - 1 {
                            assert(self.allocations@[i] == before.drop_last()[i]);
                            assert(before[i].signers@.subrange(0, before[i].signers@.len() as int)
                                =~= before[i].signers@);
                        } else {
                            assert(self.allocations@[i].signers@.subrange(0, before[i].signers@.len() as int)
                                =~= before[i].signers@);
                        }
                    }
                }
            },
            None => {},
        }
    }
}

/// Whether an application in stage `s` can accept `e`.
pub fn stage_accepts_exec(s: AppState, e: &Event) -> (r: bool)
    ensures
        r == stage_accepts(s, *e),
{
    match e {
        Event::CompleteGovernanceReview { .. } => s == AppState::GovernanceReview,
        Event::Propose { .. } => s == AppState::ReadyToSign || s == AppState::Granted,
        Event::Approve { .. } => s == AppState::StartSignDatacap || s == AppState::Granted,
        Event::TotalDatacapReached => s == AppState::Granted,
        Event::Refill { .. } => s == AppState::Granted,
    }
}

/// Whether the last request is a refill request with exactly `k` signers.
fn is_refill_awaiting(allocs: &Vec<AllocationRequest>, k: usize) -> (r: bool)
    ensures
        r == refill_awaiting(allocs@, k as nat),
{
    let n = allocs.len();
    if n == 0 {
        return false;
    }
    let last = &allocs[n - 1];
    match last.request_type {
        AllocationRequestType::Refill(_) => last.signers.len() == k,
        AllocationRequestType::First => false,
    }
}

/// Refill requests are numbered in sequence: an accepted event adds one to
/// the number of refill requests if it is a refill, and leaves it as it was
/// otherwise. A refill's new request carries that new number, and every
/// earlier request stays in place, unchanged.
pub proof fn lemma_refill_numbering(a: ApplicationFile, e: Event, b: ApplicationFile)
    requires
        accepts(a, e),
        steps_to(a, e, b),
    ensures
        refill_count(b.allocations@) == refill_count(a.allocations@) + if e is Refill {
            1nat
        } else {
            0nat
        },
        e is Refill ==> b.allocations@.last().request_type == AllocationRequestType::Refill(
            refill_count(b.allocations@) as u64,
        ),
        e is Refill ==> b.allocations@.subrange(0, a.allocations@.len() as int)
            == a.allocations@,
{
    match e {
        Event::CompleteGovernanceReview { .. } => {
            assert(b.allocations@.drop_last() == a.allocations@);
        },
        Event::Refill { .. } => {
            assert(b.allocations@.drop_last() == a.allocations@);
            assert(b.allocations@.subrange(0, a.allocations@.len() as int)
                =~= b.allocations@.drop_last());
        },
        Event::Propose { .. } => {
            lemma_refill_count_same_last(a.allocations@, b.allocations@);
        },
        Event::Approve { .. } => {
            lemma_refill_count_same_last(a.allocations@, b.allocations@);
        },
        Event::TotalDatacapReached => {},
    }
}

/// On an application with no refill request yet, the first refill creates
/// request `Refill(1)`; the next refill, whatever was accepted in between,
/// creates `Refill(2)`. Both keep the earlier requests unchanged.
pub proof fn lemma_first_and_second_refill(
    a0: ApplicationFile,
    e1: Event,
    a1: ApplicationFile,
    between: Seq<Event>,
    apps: Seq<ApplicationFile>,
    e2: Event,
    a2: ApplicationFile,
)
    requires
        refill_count(a0.allocations@) == 0,
        e1 is Refill,
        accepts(a0, e1),
        steps_to(a0, e1, a1),
        apps.len() == between.len() + 1,
        apps[0] == a1,
        forall|i: int|
            0 <= i < between.len() ==> !(#[trigger] between[i] is Refill) && accepts(
                apps[i],
                between[i],
            ) && steps_to(apps[i], between[i], apps[i + 1]),
        e2 is Refill,
        accepts(apps.last(), e2),
        steps_to(apps.last(), e2, a2),
    ensures
        a1.allocations@.last().request_type == AllocationRequestType::Refill(1),
        a2.allocations@.last().request_type == AllocationRequestType::Refill(2),
        a1.allocations@.subrange(0, a0.allocations@.len() as int) == a0.allocations@,
        a2.allocations@.subrange(0, apps.last().allocations@.len() as int)
            == apps.last().allocations@,
{
    lemma_refill_numbering(a0, e1, a1);
    lemma_no_refill_between(between, apps, between.len() as int);
    lemma_refill_numbering(apps.last(), e2, a2);
}

/// A refill request goes through its own signing cycle: right after the
/// refill, a proposal naming the new request is accepted, and then an
/// approval naming it. The stage stays `Granted`, the earlier requests stay
/// as they were, and the new request ends with both signers in order.
pub proof fn lemma_refill_cycle(
    a0: ApplicationFile,
    actor: String,
    request_id: String,
    amount: String,
    a1: ApplicationFile,
    first: Notary,
    a2: ApplicationFile,
    second: Notary,
    a3: ApplicationFile,
)
    requires
        accepts(a0, (Event::Refill { actor, request_id, amount })),
        steps_to(a0, (Event::Refill { actor, request_id, amount }), a1),
        steps_to(a1, (Event::Propose { signer: first, request_id }), a2),
        steps_to(a2, (Event::Approve { signer: second, request_id }), a3),
    ensures
        accepts(a1, (Event::Propose { signer: first, request_id })),
        accepts(a2, (Event::Approve { signer: second, request_id })),
        a3.lifecycle.state == AppState::Granted,
        a3.lifecycle.is_active,
        a3.allocations@.drop_last() == a0.allocations@,
        a3.allocations@.last().id == request_id,
        a3.allocations@.last().request_type == AllocationRequestType::Refill(
            (refill_count(a0.allocations@) + 1) as u64,
        ),
        a3.allocations@.last().signers@ == seq![first, second],
{
    assert(a1.allocations@.last().signers@.len() == 0);
    assert(a2.allocations@.last().signers@ =~= seq![first]);
    assert(a3.allocations@.drop_last() == a2.allocations@.drop_last());
    assert(a3.allocations@.last().signers@ =~= seq![first, second]);
}

/// A run of accepted events none of which is a refill keeps the number of
/// refill requests.
proof fn lemma_no_refill_between(between: Seq<Event>, apps: Seq<ApplicationFile>, k: int)
    requires
        0 <= k <= between.len(),
        apps.len() == between.len() + 1,
        forall|i: int|
            0 <= i < between.len() ==> !(#[trigger] between[i] is Refill) && accepts(
                apps[i],
                between[i],
            ) && steps_to(apps[i], between[i], apps[i + 1]),
    ensures
        refill_count(apps[k].allocations@) == refill_count(apps[0].allocations@),
    decreases k,
{
    if k > 0 {
        lemma_no_refill_between(between, apps, k - 1);
        lemma_refill_numbering(apps[k - 1], between[k - 1], apps[k]);
    }
}

/// Appending a signer to the last request keeps the number of refill requests.
proof fn lemma_refill_count_same_last(a: Seq<AllocationRequest>, b: Seq<AllocationRequest>)
    requires
        a.len() > 0,
        b.len() == a.len(),
        b.drop_last() == a.drop_last(),
        b.last().request_type == a.last().request_type,
    ensures
        refill_count(b) == refill_count(a),
{
}

/// An event that the application's current stage does not take is never
/// accepted; by the contract of `apply`, such an event is rejected with
/// `InvalidTransition` and leaves the application, and so its stored form,
/// exactly as it was.
pub proof fn lemma_wrong_state_rejected(a: ApplicationFile, e: Event)
    requires
        !stage_accepts(a.lifecycle.state, e),
    ensures
        !accepts(a, e),
{
}

/// From a well-formed application under governance review, the accepted
/// steps to `ReadyToSign`, `StartSignDatacap` and `Granted` leave exactly one
/// allocation request, a first one, with exactly two signers, and the
/// application granted.
pub proof fn lemma_primary_flow(
    a0: ApplicationFile,
    e1: Event,
    a1: ApplicationFile,
    e2: Event,
    a2: ApplicationFile,
    e3: Event,
    a3: ApplicationFile,
)
    requires
        wf(a0),
        a0.lifecycle.state == AppState::GovernanceReview,
        accepts(a0, e1),
        steps_to(a0, e1, a1),
        a1.lifecycle.state == AppState::ReadyToSign,
        accepts(a1, e2),
        steps_to(a1, e2, a2),
        a2.lifecycle.state == AppState::StartSignDatacap,
        accepts(a2, e3),
        steps_to(a2, e3, a3),
    ensures
        a3.lifecycle.state == AppState::Granted,
        a3.allocations@.len() == 1,
        first_count(a3.allocations@) == 1,
        refill_count(a3.allocations@) == 0,
        a3.allocations@[0].request_type == AllocationRequestType::First,
        a3.allocations@[0].signers@.len() == 2,
{
    assert(e1 is CompleteGovernanceReview);
    assert(e2 is Propose);
    assert(e3 is Approve);
    assert(a1.allocations@.len() == 1);
    assert(a1.allocations@[0].signers@.len() == 0);
    assert(a2.allocations@.len() == 1);
    assert(a2.allocations@[0].signers@.len() == 1);
    assert(a3.allocations@.len() == 1);
    assert(a3.allocations@.drop_last() =~= Seq::<AllocationRequest>::empty());
    assert(first_count(a3.allocations@.drop_last()) == 0);
    assert(refill_count(a3.allocations@.drop_last()) == 0);
}


} // verus!
