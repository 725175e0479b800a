use vstd::prelude::*;
use crate::types::auth::{WorkOSUser, WorkOSUserView};

verus! {

/// What is kept locally of a user of the directory. The record is keyed by
/// the provider's id. `linked_to_crm` turns true once the CRM has confirmed
/// the user, and stays true.
#[derive(Clone, Debug, PartialEq, Eq)]
pub struct LocalUserRecord {
    pub id: String,
    pub email: String,
    pub full_name: String,
    pub linked_to_crm: bool,
}

/// A local record as plain values.
pub struct RecordView {
    pub id: Seq<char>,
    pub email: Seq<char>,
    pub full_name: Seq<char>,
    pub linked_to_crm: bool,
}

impl View for LocalUserRecord {
    type V = RecordView;

    open spec fn view(&self) -> RecordView {
        RecordView {
            id: self.id@,
            email: self.email@,
            full_name: self.full_name@,
            linked_to_crm: self.linked_to_crm,
        }
    }
}

impl DeepView for LocalUserRecord {
    type V = RecordView;

    open spec fn deep_view(&self) -> RecordView {
        self@
    }
}

/// The full name made of a first and a last name: both joined by one space
/// where both are there, the one that is there otherwise, and nothing where
/// neither is.
pub open spec fn full_name_of(first: Option<Seq<char>>, last: Option<Seq<char>>) -> Seq<char> {
    match (first, last) {
        (Some(f), Some(l)) => f + " "@ + l,
        (Some(f), None) => f,
        (None, Some(l)) => l,
        (None, None) => Seq::empty(),
    }
}

/// The record that a profile gives rise to when it is seen for the first
/// time: not yet linked to the CRM.
pub open spec fn record_of(profile: WorkOSUserView) -> RecordView {
    RecordView {
        id: profile.id,
        email: profile.email,
        full_name: full_name_of(profile.first_name, profile.last_name),
        linked_to_crm: false,
    }
}

/// Whether some record of `records` has the id `id`.
pub open spec fn has_id(records: Seq<RecordView>, id: Seq<char>) -> bool {
    exists|i: int| 0 <= i < records.len() && (#[trigger] records[i]).id == id
}

/// Where the record with the id `id` stands in `records`.
pub open spec fn position(records: Seq<RecordView>, id: Seq<char>) -> int {
    choose|i: int| 0 <= i < records.len() && (#[trigger] records[i]).id == id
}

/// No two records share an id.
pub open spec fn distinct_ids(records: Seq<RecordView>) -> bool {
    forall|i: int, j: int|
        0 <= i < j < records.len() ==> (#[trigger] records[i]).id != (#[trigger] records[j]).id
}

/// `old` with the email and the full name of `new`; id and CRM flag stay.
pub open spec fn refreshed(old: RecordView, new: RecordView) -> RecordView {
    RecordView {
        id: old.id,
        email: new.email,
        full_name: new.full_name,
        linked_to_crm: old.linked_to_crm,
    }
}

/// `records` after `record` was put in: a record with a new id is appended
/// as it is; of a record whose id is known, email and full name are taken
/// over and the CRM flag is left alone.
pub open spec fn upserted(records: Seq<RecordView>, record: RecordView) -> Seq<RecordView> {
    if has_id(records, record.id) {
        let at = position(records, record.id);
        records.update(at, refreshed(records[at], record))
    } else {
        records.push(record)
    }
}

/// `record`, linked to the CRM if it was so before or if its id is among
/// `ids`.
pub open spec fn linked_record(record: RecordView, ids: Seq<Seq<char>>) -> RecordView {
    RecordView {
        id: record.id,
        email: record.email,
        full_name: record.full_name,
        linked_to_crm: record.linked_to_crm || ids.contains(record.id),
    }
}

/// `records` after those with an id among `ids` were marked as linked.
pub open spec fn linked(records: Seq<RecordView>, ids: Seq<Seq<char>>) -> Seq<RecordView> {
    Seq::new(records.len(), |i: int| linked_record(records[i], ids))
}

/// In a sequence with distinct ids, the record at `at` is the one that its id
/// is found at.
pub proof fn lemma_position(records: Seq<RecordView>, at: int)
    requires
        distinct_ids(records),
        0 <= at < records.len(),
    ensures
        has_id(records, records[at].id),
        position(records, records[at].id) == at,
{
    let id = records[at].id;
    assert(has_id(records, id));
    let found = position(records, id);
    assert(0 <= found < records.len() && records[found].id == id);
    if found < at {
        assert(records[found].id != records[at].id);
    } else if at < found {
        assert(records[at].id != records[found].id);
    }
}

/// Putting a record into a sequence with distinct ids leaves the ids
/// distinct, and the record's id is found afterwards.
pub proof fn lemma_upserted_distinct(records: Seq<RecordView>, record: RecordView)
    requires
        distinct_ids(records),
    ensures
        distinct_ids(upserted(records, record)),
        has_id(upserted(records, record), record.id),
{
    let after = upserted(records, record);
    if has_id(records, record.id) {
        let at = position(records, record.id);
        assert(0 <= at < records.len() && records[at].id == record.id);
        assert(after[at].id == record.id);
        assert forall|i: int, j: int| 0 <= i < j < after.len() implies (#[trigger] after[i]).id != (
        #[trigger] after[j]).id by {
            assert(after[i].id == records[i].id);
            assert(after[j].id == records[j].id);
        }
    } else {
        assert(after[records.len() as int].id == record.id);
        assert forall|i: int, j: int| 0 <= i < j < after.len() implies (#[trigger] after[i]).id != (
        #[trigger] after[j]).id by {
            assert(after[i] == records[i]);
            if j < records.len() {
                assert(after[j] == records[j]);
            } else {
                assert(after[j].id == record.id);
                assert(records[i].id != record.id);
            }
        }
    }
}

/// Once linked, always linked: neither putting a record in nor marking ids
/// takes the CRM flag of a record away, and both leave every record in its
/// place under its id.
pub proof fn lemma_linked_stays(records: Seq<RecordView>, record: RecordView, ids: Seq<Seq<char>>)
    requires
        distinct_ids(records),
    ensures
        forall|i: int|
            0 <= i < records.len() ==> (#[trigger] upserted(records, record)[i]).id == records[i].id
                && (records[i].linked_to_crm ==> upserted(records, record)[i].linked_to_crm),
        forall|i: int|
            0 <= i < records.len() ==> (#[trigger] linked(records, ids)[i]).id == records[i].id && (
            records[i].linked_to_crm ==> linked(records, ids)[i].linked_to_crm),
{
    if has_id(records, record.id) {
        let at = position(records, record.id);
        assert(0 <= at < records.len() && records[at].id == record.id);
    }
}

impl LocalUserRecord {
    /// The record that `profile` gives rise to when it is seen for the first
    /// time.
    pub fn from_profile(profile: &WorkOSUser) -> (record: LocalUserRecord)
        ensures
            record@ == record_of(profile@),
    {
        let full_name = match (&profile.first_name, &profile.last_name) {
            (Some(first), Some(last)) => first.clone().concat(" ").concat(last.as_str()),
            (Some(first), None) => first.clone(),
            (None, Some(last)) => last.clone(),
            (None, None) => String::new(),
        };
        LocalUserRecord {
            id: profile.id.clone(),
            email: profile.email.clone(),
            full_name,
            linked_to_crm: false,
        }
    }

    /// A copy of this record.
    pub fn duplicate(&self) -> (copy: LocalUserRecord)
        ensures
            copy == *self,
    {
        LocalUserRecord {
            id: self.id.clone(),
            email: self.email.clone(),
            full_name: self.full_name.clone(),
            linked_to_crm: self.linked_to_crm,
        }
    }
}

/// The local user records, each id at most once, in the order in which the
/// ids were first put in.
pub struct UserStore {
    records: Vec<LocalUserRecord>,
}

impl View for UserStore {
    type V = Seq<RecordView>;

    closed spec fn view(&self) -> Seq<RecordView> {
        self.records.deep_view()
    }
}

impl UserStore {
    /// The store holds each id at most once.
    pub open spec fn wf(&self) -> bool {
        distinct_ids(self@)
    }

    /// A store without records.
    pub fn new() -> (store: UserStore)
        ensures
            store.wf(),
            store@ == Seq::<RecordView>::empty(),
    {
        let store = UserStore { records: Vec::new() };
        assert(store@ =~= Seq::<RecordView>::empty());
        store
    }

    /// How many records the store holds.
    pub fn len(&self) -> (count: usize)
        ensures
            count == self@.len(),
    {
        self.records.len()
    }

    /// Where the record with the id `id` stands, if there is one.
    fn find(&self, id: &str) -> (found: Option<usize>)
        ensures
            match found {
                Some(at) => at < self@.len() && self@[at as int].id == id@,
                None => !has_id(self@, id@),
            },
    {
        let key = String::from_str(id);
        let mut at: usize = 0;
        while at < self.records.len()
            invariant
                at <= self.records.len(),
                key@ == id@,
                forall|k: int| 0 <= k < at ==> (#[trigger] self@[k]).id != id@,
            decreases self.records.len() - at,
        {
            if self.records[at].id == key {
                return Some(at);
            }
            at += 1;
        }
        None
    }

    /// The record with the id `id`, if the store holds one.
    pub fn get(&self, id: &str) -> (found: Option<LocalUserRecord>)
        requires
            self.wf(),
        ensures
            match found {
                Some(record) => has_id(self@, id@) && record@ == self@[position(self@, id@)],
                None => !has_id(self@, id@),
            },
    {
        match self.find(id) {
            Some(at) => {
                proof {
                    lemma_position(self@, at as int);
                }
                Some(self.records[at].duplicate())
            },
            None => None,
        }
    }

    /// Puts `record` in and hands back the record as it is stored
    /// afterwards. A record with a new id is created as given. Of a record
    /// whose id is known, email and full name are updated; its CRM flag is
    /// not touched.
    pub fn upsert(&mut self, record: LocalUserRecord) -> (stored: LocalUserRecord)
        requires
            old(self).wf(),
        ensures
            final(self).wf(),
            final(self)@ == upserted(old(self)@, record@),
            has_id(final(self)@, record@.id),
            stored@ == final(self)@[position(final(self)@, record@.id)],
    {
        proof {
            lemma_upserted_distinct(old(self)@, record@);
        }
        match self.find(record.id.as_str()) {
            Some(at) => {
                proof {
                    lemma_position(old(self)@, at as int);
                }
                let merged = LocalUserRecord {
                    id: record.id,
                    email: record.email,
                    full_name: record.full_name,
                    linked_to_crm: self.records[at].linked_to_crm,
                };
                let stored = merged.duplicate();
                self.records.set(at, merged);
                assert(self@ =~= upserted(old(self)@, record@));
                proof {
                    lemma_position(self@, at as int);
                }
                stored
            },
            None => {
                let stored = record.duplicate();
                self.records.push(record);
                assert(self@ =~= upserted(old(self)@, record@));
                proof {
                    lemma_position(self@, self@.len() - 1);
                }
                stored
            },
        }
    }

    /// All records, in the order of the store.
    pub fn list(&self) -> (records: Vec<LocalUserRecord>)
        ensures
            records.deep_view() == self@,
    {
        let mut records: Vec<LocalUserRecord> = Vec::new();
        let mut at: usize = 0;
        while at < self.records.len()
            invariant
                at <= self.records.len(),
                records@.len() == at,
                forall|k: int| 0 <= k < at ==> (#[trigger] records@[k])@ == self.records@[k]@,
            decreases self.records.len() - at,
        {
            records.push(self.records[at].duplicate());
            at += 1;
        }
        assert(records.deep_view() =~= self@);
        records
    }

    /// Marks the records whose id is among `ids` as linked to the CRM, in
    /// one step. Nothing else changes, and no record is ever unmarked.
    pub fn batch_set_linked(&mut self, ids: &Vec<String>)
        requires
            old(self).wf(),
        ensures
            final(self).wf(),
            final(self)@ == linked(old(self)@, ids.deep_view()),
    {
        let ghost before = self.records@;
        let mut at: usize = 0;
        while at < self.records.len()
            invariant
                at <= self.records.len(),
                self.records@.len() == before.len(),
                forall|k: int|
                    0 <= k < at ==> (#[trigger] self.records@[k])@ == linked_record(
                        before[k]@,
                        ids.deep_view(),
                    ),
                forall|k: int| at <= k < before.len() ==> #[trigger] self.records@[k] == before[k],
            decreases self.records.len() - at,
        {
            if !self.records[at].linked_to_crm && contains_id(ids, &self.records[at].id) {
                let mut record = self.records[at].duplicate();
                record.linked_to_crm = true;
                self.records.set(at, record);
            }
            at += 1;
        }
        assert(self@ =~= linked(old(self)@, ids.deep_view()));
        assert forall|i: int, j: int| 0 <= i < j < self@.len() implies (#[trigger] self@[i]).id != (
        #[trigger] self@[j]).id by {
            assert(self@[i].id == old(self)@[i].id);
            assert(self@[j].id == old(self)@[j].id);
        }
    }
}

/// Whether `id` is among `ids`.
pub fn contains_id(ids: &Vec<String>, id: &String) -> (found: bool)
    ensures
        found == ids.deep_view().contains(id@),
{
    let mut at: usize = 0;
    while at < ids.len()
        invariant
            at <= ids.len(),
            forall|k: int| 0 <= k < at ==> #[trigger] ids.deep_view()[k] != id@,
        decreases ids.len() - at,
    {
        if ids[at] == *id {
            assert(ids.deep_view()[at as int] == id@);
            return true;
        }
        at += 1;
    }
    false
}

} // verus!
