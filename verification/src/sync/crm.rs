use vstd::prelude::*;
use crate::error::AuthError;
use crate::provider::{is_success, status_is_success};
use crate::store::{
    distinct_ids, has_id, lemma_position, linked, position, LocalUserRecord, RecordView, UserStore,
};

verus! {

/// How many requests to the CRM may be under way at once.
pub const CRM_CONCURRENCY_LIMIT: usize = 50;

/// Where one unit of a propagation stands. A unit is the request for one
/// record; it holds a permit from the moment it is started until it is
/// completed, whichever way it ends.
#[derive(Clone, Copy, Debug, PartialEq, Eq)]
pub enum UnitState {
    /// Not started yet.
    Waiting,
    /// Started and not completed: the unit holds a permit.
    InFlight,
    /// Completed, and the CRM confirmed the record.
    Succeeded,
    /// Completed without confirmation: a status outside 200..=299, or no
    /// response at all.
    Failed,
}

/// The records that are not linked to the CRM yet, in the order of the
/// store.
pub open spec fn unlinked(records: Seq<RecordView>) -> Seq<RecordView> {
    records.filter(|record: RecordView| !record.linked_to_crm)
}

/// How many units hold a permit.
pub open spec fn in_flight_count(slots: Seq<UnitState>) -> nat
    decreases slots.len(),
{
    if slots.len() == 0 {
        0
    } else {
        in_flight_count(slots.drop_last()) + if slots.last() is InFlight {
            1nat
        } else {
            0nat
        }
    }
}

/// How many units have failed.
pub open spec fn failed_count(slots: Seq<UnitState>) -> nat
    decreases slots.len(),
{
    if slots.len() == 0 {
        0
    } else {
        failed_count(slots.drop_last()) + if slots.last() is Failed {
            1nat
        } else {
            0nat
        }
    }
}

/// How a unit ends, given the status that came back for its request, or
/// `None` where no response came back.
pub open spec fn unit_outcome(status: Option<u16>) -> UnitState {
    match status {
        Some(code) => if is_success(code) {
            UnitState::Succeeded
        } else {
            UnitState::Failed
        },
        None => UnitState::Failed,
    }
}

/// The ids of the records whose unit has succeeded, in the order of the
/// snapshot.
pub open spec fn succeeded_ids(snapshot: Seq<RecordView>, slots: Seq<UnitState>) -> Seq<Seq<char>>
    decreases snapshot.len(),
{
    if snapshot.len() == 0 {
        Seq::empty()
    } else {
        let rest = succeeded_ids(snapshot.drop_last(), slots);
        if snapshot.len() <= slots.len() && slots[snapshot.len() - 1] is Succeeded {
            rest.push(snapshot.last().id)
        } else {
            rest
        }
    }
}

/// Every unit is completed.
pub open spec fn all_completed(slots: Seq<UnitState>) -> bool {
    forall|i: int| 0 <= i < slots.len() ==> (#[trigger] slots[i]) is Succeeded || slots[i] is Failed
}

/// No more units hold a permit than there are permits, and the units were
/// started in the order of the snapshot.
pub open spec fn well_scheduled(slots: Seq<UnitState>) -> bool {
    &&& in_flight_count(slots) <= CRM_CONCURRENCY_LIMIT
    &&& forall|i: int, j: int|
        0 <= i < j < slots.len() && (#[trigger] slots[j]) !is Waiting ==> (#[trigger] slots[i])
            !is Waiting
}

/// A propagation as plain values: the records it was started for and where
/// the unit of each stands.
pub struct CrmSyncView {
    pub snapshot: Seq<RecordView>,
    pub slots: Seq<UnitState>,
}

/// One propagation of unlinked records to the CRM. It holds the records as
/// they were when the job began and one slot per record for the outcome of
/// its unit, and it hands out the permits.
pub struct CrmSync {
    snapshot: Vec<LocalUserRecord>,
    slots: Vec<UnitState>,
    started: usize,
    in_flight: usize,
}

/// What a propagation reports when it is finished.
#[derive(Clone, Debug, PartialEq, Eq)]
pub struct CrmSyncReport {
    /// The records as they were when the job began, before any flag was set.
    pub records: Vec<LocalUserRecord>,
    /// The ids that were marked as linked.
    pub linked: Vec<String>,
    /// How many units failed.
    pub failed: usize,
}

impl View for CrmSync {
    type V = CrmSyncView;

    closed spec fn view(&self) -> CrmSyncView {
        CrmSyncView { snapshot: self.snapshot.deep_view(), slots: self.slots@ }
    }
}

/// Changing one slot changes the number of permits held by what the old and
/// the new state of that slot hold.
pub proof fn lemma_in_flight_update(slots: Seq<UnitState>, at: int, state: UnitState)
    requires
        0 <= at < slots.len(),
    ensures
        in_flight_count(slots.update(at, state)) + (if slots[at] is InFlight {
            1nat
        } else {
            0nat
        }) == in_flight_count(slots) + (if state is InFlight {
            1nat
        } else {
            0nat
        }),
    decreases slots.len(),
{
    let changed = slots.update(at, state);
    if at == slots.len() - 1 {
        assert(changed.drop_last() =~= slots.drop_last());
    } else {
        assert(changed.drop_last() =~= slots.drop_last().update(at, state));
        lemma_in_flight_update(slots.drop_last(), at, state);
    }
}

/// No permit is held exactly if no unit is in flight, and never more permits
/// are held than there are units.
pub proof fn lemma_in_flight_none(slots: Seq<UnitState>)
    ensures
        in_flight_count(slots) <= slots.len(),
        in_flight_count(slots) == 0 <==> forall|i: int|
            0 <= i < slots.len() ==> (#[trigger] slots[i]) !is InFlight,
    decreases slots.len(),
{
    if slots.len() > 0 {
        let shorter = slots.drop_last();
        lemma_in_flight_none(shorter);
        if in_flight_count(slots) == 0 {
            assert forall|i: int| 0 <= i < slots.len() implies (#[trigger] slots[i]) !is InFlight by {
                if i < shorter.len() {
                    assert(shorter[i] == slots[i]);
                }
            }
        } else if slots.last() !is InFlight {
            let i = choose|i: int| 0 <= i < shorter.len() && (#[trigger] shorter[i]) is InFlight;
            assert(slots[i] is InFlight);
        }
    }
}

/// Never more than the limit of requests to the CRM are under way: in every
/// state that a propagation can reach, at most `CRM_CONCURRENCY_LIMIT` units
/// hold a permit.
pub proof fn lemma_in_flight_bounded(job: CrmSync)
    requires
        job.wf(),
    ensures
        in_flight_count(job@.slots) <= CRM_CONCURRENCY_LIMIT,
        CRM_CONCURRENCY_LIMIT == 50,
{
}

/// The unlinked records are records of the store, none of them linked, and
/// their ids are distinct where those of the store are.
pub proof fn lemma_unlinked(records: Seq<RecordView>)
    ensures
        forall|k: int|
            0 <= k < unlinked(records).len() ==> !(#[trigger] unlinked(records)[k]).linked_to_crm
                && records.contains(unlinked(records)[k]),
        distinct_ids(records) ==> distinct_ids(unlinked(records)),
    decreases records.len(),
{
    reveal(Seq::filter);
    if records.len() > 0 {
        let shorter = records.drop_last();
        let inner = unlinked(shorter);
        let outer = unlinked(records);
        lemma_unlinked(shorter);
        assert forall|k: int| 0 <= k < outer.len() implies !(#[trigger] outer[k]).linked_to_crm
            && records.contains(outer[k]) by {
            if k < inner.len() {
                assert(outer[k] == inner[k]);
                assert(shorter.contains(inner[k]));
                let j = choose|j: int| 0 <= j < shorter.len() && shorter[j] == inner[k];
                assert(records[j] == inner[k]);
            } else {
                assert(records[records.len() - 1] == outer[k]);
            }
        }
        if distinct_ids(records) {
            assert forall|i: int, j: int| 0 <= i < j < shorter.len() implies (#[trigger] shorter[i]).id
                != (#[trigger] shorter[j]).id by {
                assert(shorter[i] == records[i] && shorter[j] == records[j]);
            }
            assert forall|i: int, j: int| 0 <= i < j < outer.len() implies (#[trigger] outer[i]).id != (
            #[trigger] outer[j]).id by {
                assert(outer[i] == inner[i]);
                if j < inner.len() {
                    assert(outer[j] == inner[j]);
                } else {
                    assert(shorter.contains(inner[i]));
                    let m = choose|m: int| 0 <= m < shorter.len() && shorter[m] == inner[i];
                    assert(records[m].id != records[records.len() - 1].id);
                }
            }
        }
    }
}

/// An id is passed on as succeeded exactly if it is the id of a record whose
/// unit succeeded.
pub proof fn lemma_succeeded_ids(snapshot: Seq<RecordView>, slots: Seq<UnitState>, id: Seq<char>)
    requires
        snapshot.len() <= slots.len(),
    ensures
        succeeded_ids(snapshot, slots).contains(id) <==> exists|k: int|
            0 <= k < snapshot.len() && (#[trigger] slots[k]) is Succeeded && snapshot[k].id == id,
        succeeded_ids(snapshot, slots).len() <= snapshot.len(),
    decreases snapshot.len(),
{
    let ids = succeeded_ids(snapshot, slots);
    if snapshot.len() > 0 {
        let shorter = snapshot.drop_last();
        let rest = succeeded_ids(shorter, slots);
        let last = snapshot.len() - 1;
        lemma_succeeded_ids(shorter, slots, id);
        if ids.contains(id) {
            let at = choose|at: int| 0 <= at < ids.len() && ids[at] == id;
            if at < rest.len() {
                assert(rest[at] == id);
                assert(rest.contains(id));
                let k = choose|k: int|
                    0 <= k < shorter.len() && (#[trigger] slots[k]) is Succeeded && shorter[k].id == id;
                assert(slots[k] is Succeeded && snapshot[k].id == id);
            } else {
                assert(slots[last] is Succeeded && snapshot[last].id == id);
            }
        }
        if exists|k: int|
            0 <= k < snapshot.len() && (#[trigger] slots[k]) is Succeeded && snapshot[k].id == id {
            let k = choose|k: int|
                0 <= k < snapshot.len() && (#[trigger] slots[k]) is Succeeded && snapshot[k].id == id;
            if k < last {
                assert(slots[k] is Succeeded && shorter[k].id == id);
                assert(rest.contains(id));
                let at = choose|at: int| 0 <= at < rest.len() && rest[at] == id;
                assert(ids[at] == id);
            } else {
                assert(ids[ids.len() - 1] == id);
            }
        }
    }
}

/// A record whose unit did not succeed is not marked by the aggregate write:
/// it was unlinked when the job began and is unlinked afterwards.
pub proof fn lemma_failed_unit_stays_unlinked(
    records: Seq<RecordView>,
    slots: Seq<UnitState>,
    unit: int,
)
    requires
        distinct_ids(records),
        slots.len() == unlinked(records).len(),
        0 <= unit < slots.len(),
        slots[unit] !is Succeeded,
    ensures
        has_id(records, unlinked(records)[unit].id),
        !linked(records, succeeded_ids(unlinked(records), slots))[position(
            records,
            unlinked(records)[unit].id,
        )].linked_to_crm,
{
    let snapshot = unlinked(records);
    let id = snapshot[unit].id;
    let ids = succeeded_ids(snapshot, slots);
    lemma_unlinked(records);
    assert(records.contains(snapshot[unit]));
    let at = choose|at: int| 0 <= at < records.len() && records[at] == snapshot[unit];
    assert(records[at].id == id);
    lemma_position(records, at);
    lemma_succeeded_ids(snapshot, slots, id);
    if ids.contains(id) {
        let k = choose|k: int|
            0 <= k < snapshot.len() && (#[trigger] slots[k]) is Succeeded && snapshot[k].id == id;
        if k < unit {
            assert(snapshot[k].id != snapshot[unit].id);
        } else if unit < k {
            assert(snapshot[unit].id != snapshot[k].id);
        }
    }
}

/// Every unit either succeeds or fails: of the records of a finished job,
/// those that are passed on as succeeded and those that failed add up to all.
pub proof fn lemma_succeeded_and_failed(snapshot: Seq<RecordView>, slots: Seq<UnitState>)
    requires
        snapshot.len() == slots.len(),
        all_completed(slots),
    ensures
        succeeded_ids(snapshot, slots).len() + failed_count(slots) == snapshot.len(),
    decreases snapshot.len(),
{
    if snapshot.len() > 0 {
        let shorter = slots.drop_last();
        assert forall|i: int| 0 <= i < shorter.len() implies (#[trigger] shorter[i]) is Succeeded
            || shorter[i] is Failed by {
            assert(shorter[i] == slots[i]);
        }
        lemma_succeeded_and_failed(snapshot.drop_last(), shorter);
        lemma_succeeded_ids_prefix(snapshot.drop_last(), slots, shorter);
        assert(slots[slots.len() - 1] is Succeeded || slots[slots.len() - 1] is Failed);
    }
}

/// Only the slots of the records in the snapshot count.
pub proof fn lemma_succeeded_ids_prefix(
    snapshot: Seq<RecordView>,
    slots: Seq<UnitState>,
    shorter: Seq<UnitState>,
)
    requires
        snapshot.len() <= shorter.len() <= slots.len(),
        forall|i: int| 0 <= i < shorter.len() ==> shorter[i] == slots[i],
    ensures
        succeeded_ids(snapshot, slots) == succeeded_ids(snapshot, shorter),
    decreases snapshot.len(),
{
    if snapshot.len() > 0 {
        lemma_succeeded_ids_prefix(snapshot.drop_last(), slots, shorter);
    }
}

impl CrmSync {
    /// The counters agree with the slots.
    pub closed spec fn counted(&self) -> bool {
        &&& self.started <= self.slots@.len()
        &&& forall|i: int| 0 <= i < self.started ==> (#[trigger] self.slots@[i]) !is Waiting
        &&& forall|i: int|
            self.started <= i < self.slots@.len() ==> (#[trigger] self.slots@[i]) is Waiting
        &&& self.in_flight == in_flight_count(self.slots@)
    }

    /// The job is in a state that it can reach: one slot per record, never
    /// more permits out than there are, units started in order.
    pub open spec fn wf(&self) -> bool {
        &&& self@.snapshot.len() == self@.slots.len()
        &&& well_scheduled(self@.slots)
        &&& self.counted()
    }

    /// Begins a propagation: takes the records that are not linked yet, as
    /// they stand now, and gives each a unit that waits.
    pub fn begin(store: &UserStore) -> (job: CrmSync)
        ensures
            job.wf(),
            job@.snapshot == unlinked(store@),
            job@.slots == Seq::new(unlinked(store@).len(), |i: int| UnitState::Waiting),
    {
        let all = store.list();
        let mut snapshot: Vec<LocalUserRecord> = Vec::new();
        let mut slots: Vec<UnitState> = Vec::new();
        let mut at: usize = 0;
        while at < all.len()
            invariant
                at <= all.len(),
                all.deep_view() == store@,
                snapshot.deep_view() == unlinked(store@.take(at as int)),
                slots@.len() == snapshot@.len(),
                forall|i: int| 0 <= i < slots@.len() ==> (#[trigger] slots@[i]) is Waiting,
                in_flight_count(slots@) == 0,
            decreases all.len() - at,
        {
            proof {
                reveal(Seq::filter);
                assert(store@.take(at + 1).drop_last() =~= store@.take(at as int));
                assert(store@.take(at + 1).last() == all@[at as int]@);
            }
            if !all[at].linked_to_crm {
                let ghost slots_before = slots@;
                snapshot.push(all[at].duplicate());
                slots.push(UnitState::Waiting);
                assert(slots@.drop_last() =~= slots_before);
                assert(snapshot.deep_view() =~= unlinked(store@.take(at + 1)));
            }
            at += 1;
        }
        assert(store@.take(at as int) =~= store@);
        let job = CrmSync { snapshot, slots, started: 0, in_flight: 0 };
        assert(job@.slots =~= Seq::new(unlinked(store@).len(), |i: int| UnitState::Waiting));
        job
    }

    /// How many units the job has.
    pub fn len(&self) -> (count: usize)
        ensures
            count == self@.slots.len(),
    {
        self.slots.len()
    }

    /// How many units hold a permit. It is never more than the limit.
    pub fn in_flight(&self) -> (count: usize)
        requires
            self.wf(),
        ensures
            count == in_flight_count(self@.slots),
            count <= CRM_CONCURRENCY_LIMIT,
    {
        self.in_flight
    }

    /// The record that the unit `unit` is for, if there is such a unit.
    pub fn record(&self, unit: usize) -> (found: Option<LocalUserRecord>)
        requires
            self.wf(),
        ensures
            match found {
                Some(record) => unit < self@.snapshot.len() && record@ == self@.snapshot[unit as int],
                None => unit >= self@.snapshot.len(),
            },
    {
        if unit < self.snapshot.len() {
            Some(self.snapshot[unit].duplicate())
        } else {
            None
        }
    }

    /// Asks for a permit for the next waiting unit. Where a permit is free
    /// and a unit waits, the first waiting unit is started and its index
    /// handed out. Otherwise nothing changes: the caller has to complete a
    /// unit first, or all units are started.
    pub fn acquire(&mut self) -> (unit: Option<usize>)
        requires
            old(self).wf(),
        ensures
            final(self).wf(),
            final(self)@.snapshot == old(self)@.snapshot,
            match unit {
                Some(started) => {
                    &&& started < old(self)@.slots.len()
                    &&& old(self)@.slots[started as int] is Waiting
                    &&& forall|i: int| 0 <= i < started ==> (#[trigger] old(self)@.slots[i]) !is Waiting
                    &&& in_flight_count(old(self)@.slots) < CRM_CONCURRENCY_LIMIT
                    &&& final(self)@.slots == old(self)@.slots.update(
                        started as int,
                        UnitState::InFlight,
                    )
                },
                None => {
                    &&& final(self)@ == old(self)@
                    &&& (in_flight_count(old(self)@.slots) == CRM_CONCURRENCY_LIMIT || forall|i: int|
                        0 <= i < old(self)@.slots.len() ==> (#[trigger] old(self)@.slots[i])
                            !is Waiting)
                },
            },
    {
        if self.in_flight >= CRM_CONCURRENCY_LIMIT || self.started >= self.slots.len() {
            return None;
        }
        let unit: usize = self.started;
        proof {
            lemma_in_flight_update(self.slots@, unit as int, UnitState::InFlight);
        }
        self.slots.set(unit, UnitState::InFlight);
        self.started = self.started + 1;
        self.in_flight = self.in_flight + 1;
        Some(unit)
    }

    /// Completes the unit `unit` with the status that came back for its
    /// request, or with `None` where no response came back, and gives its
    /// permit back. Only a unit in flight can be completed; for any other
    /// index nothing changes and the answer is `false`.
    pub fn complete(&mut self, unit: usize, status: Option<u16>) -> (accepted: bool)
        requires
            old(self).wf(),
        ensures
            final(self).wf(),
            final(self)@.snapshot == old(self)@.snapshot,
            accepted == (unit < old(self)@.slots.len() && old(self)@.slots[unit as int] is InFlight),
            accepted ==> final(self)@.slots == old(self)@.slots.update(
                unit as int,
                unit_outcome(status),
            ),
            !accepted ==> final(self)@.slots == old(self)@.slots,
    {
        if unit >= self.slots.len() {
            return false;
        }
        match self.slots[unit] {
            UnitState::InFlight => {},
            _ => { return false; },
        }
        let outcome = match status {
            Some(code) => if status_is_success(code) {
                UnitState::Succeeded
            } else {
                UnitState::Failed
            },
            None => UnitState::Failed,
        };
        proof {
            lemma_in_flight_update(self.slots@, unit as int, outcome);
            lemma_in_flight_none(self.slots@);
        }
        self.slots.set(unit, outcome);
        self.in_flight = self.in_flight - 1;
        true
    }

    /// Whether every unit is completed.
    pub fn is_done(&self) -> (done: bool)
        requires
            self.wf(),
        ensures
            done == all_completed(self@.slots),
    {
        proof {
            lemma_in_flight_none(self.slots@);
        }
        let done = self.started == self.slots.len() && self.in_flight == 0;
        proof {
            if done {
                assert forall|i: int| 0 <= i < self.slots@.len() implies (#[trigger] self.slots@[i])
                    is Succeeded || self.slots@[i] is Failed by {
                    assert(self.slots@[i] !is Waiting);
                    assert(self.slots@[i] !is InFlight);
                }
            } else if self.started < self.slots.len() {
                assert(self.slots@[self.started as int] is Waiting);
            } else {
                let i = choose|i: int|
                    0 <= i < self.slots@.len() && (#[trigger] self.slots@[i]) is InFlight;
                assert(self.slots@[i] is InFlight);
            }
        }
        done
    }

    /// Finishes the job once every unit is completed: marks exactly the
    /// records whose unit succeeded as linked, in one write to the store,
    /// and reports. The records of the report are those taken when the job
    /// began; they do not show the flags that this write sets.
    pub fn finish(self, store: &mut UserStore) -> (report: CrmSyncReport)
        requires
            self.wf(),
            all_completed(self@.slots),
            old(store).wf(),
        ensures
            final(store).wf(),
            final(store)@ == linked(old(store)@, succeeded_ids(self@.snapshot, self@.slots)),
            report.records.deep_view() == self@.snapshot,
            report.linked.deep_view() == succeeded_ids(self@.snapshot, self@.slots),
            report.failed == failed_count(self@.slots),
            report.linked@.len() + report.failed == self@.snapshot.len(),
    {
        let ghost snapshot = self@.snapshot;
        let ghost slots = self@.slots;
        let mut ids: Vec<String> = Vec::new();
        let mut failed: usize = 0;
        let mut at: usize = 0;
        while at < self.slots.len()
            invariant
                at <= self.slots.len(),
                snapshot == self.snapshot.deep_view(),
                slots == self.slots@,
                snapshot.len() == slots.len(),
                all_completed(slots),
                ids.deep_view() == succeeded_ids(snapshot.take(at as int), slots),
                failed == failed_count(slots.take(at as int)),
                ids@.len() + failed == at,
            decreases self.slots.len() - at,
        {
            proof {
                assert(snapshot.take(at + 1).drop_last() =~= snapshot.take(at as int));
                assert(slots.take(at + 1).drop_last() =~= slots.take(at as int));
                assert(slots[at as int] is Succeeded || slots[at as int] is Failed);
            }
            match self.slots[at] {
                UnitState::Succeeded => {
                    ids.push(self.snapshot[at].id.clone());
                    assert(ids.deep_view() =~= succeeded_ids(snapshot.take(at + 1), slots));
                },
                _ => {
                    failed = failed + 1;
                },
            }
            at += 1;
        }
        proof {
            assert(snapshot.take(at as int) =~= snapshot);
            assert(slots.take(at as int) =~= slots);
        }
        store.batch_set_linked(&ids);
        CrmSyncReport { records: self.snapshot, linked: ids, failed }
    }
}

impl CrmSyncReport {
    /// What there is to tell about units that failed: nothing where none
    /// did, and otherwise how many, as a failure that does not fail the job.
    pub fn partial_failure(&self) -> (failure: Option<AuthError>)
        ensures
            failure == if self.failed == 0 {
                None::<AuthError>
            } else {
                Some(AuthError::PartialSyncFailure { failed: self.failed })
            },
    {
        if self.failed == 0 {
            None
        } else {
            Some(AuthError::PartialSyncFailure { failed: self.failed })
        }
    }
}

} // verus!
