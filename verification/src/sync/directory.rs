use vstd::prelude::*;
use crate::store::{
    distinct_ids, full_name_of, has_id, lemma_position, lemma_upserted_distinct, position,
    record_of, refreshed, upserted, LocalUserRecord, RecordView, UserStore,
};
use crate::types::auth::{WorkOSUser, WorkOSUserView};

verus! {

/// The local records after every profile of `listing` was put in, one after
/// the other in the order of the listing.
pub open spec fn directory_after(records: Seq<RecordView>, listing: Seq<WorkOSUserView>) -> Seq<
    RecordView,
>
    decreases listing.len(),
{
    if listing.len() == 0 {
        records
    } else {
        upserted(directory_after(records, listing.drop_last()), record_of(listing.last()))
    }
}

/// The record that is stored for the profile at `at` right after that
/// profile was put in.
pub open spec fn synced_record(records: Seq<RecordView>, listing: Seq<WorkOSUserView>, at: int) -> RecordView {
    let after = directory_after(records, listing.take(at + 1));
    after[position(after, listing[at].id)]
}

/// Where `id` occurs last in `listing`, if it occurs.
pub open spec fn last_seen(listing: Seq<WorkOSUserView>, id: Seq<char>) -> Option<int>
    decreases listing.len(),
{
    if listing.len() == 0 {
        None
    } else if listing.last().id == id {
        Some(listing.len() - 1)
    } else {
        last_seen(listing.drop_last(), id)
    }
}

/// Every record whose id occurs in `listing` carries the email and the full
/// name of the last profile with that id.
pub open spec fn settled(records: Seq<RecordView>, listing: Seq<WorkOSUserView>) -> bool {
    forall|i: int|
        0 <= i < records.len() ==> (last_seen(listing, (#[trigger] records[i]).id) matches Some(k)
            ==> records[i].email == listing[k].email && records[i].full_name == full_name_of(
            listing[k].first_name,
            listing[k].last_name,
        ))
}

/// Every id of `listing` is the id of a record.
pub open spec fn covers(records: Seq<RecordView>, listing: Seq<WorkOSUserView>) -> bool {
    forall|k: int| 0 <= k < listing.len() ==> has_id(records, (#[trigger] listing[k]).id)
}

/// Brings the local records up to date with the directory. The profiles are
/// put in one by one, in the order of the listing: a profile with a new id
/// creates a record, one with a known id updates email and full name. The
/// result holds, for each profile, the record as it was stored for it.
pub fn sync_directory(store: &mut UserStore, listing: &Vec<WorkOSUser>) -> (synced: Vec<
    LocalUserRecord,
>)
    requires
        old(store).wf(),
    ensures
        final(store).wf(),
        final(store)@ == directory_after(old(store)@, listing.deep_view()),
        synced@.len() == listing@.len(),
        forall|k: int|
            0 <= k < listing@.len() ==> (#[trigger] synced@[k])@ == synced_record(
                old(store)@,
                listing.deep_view(),
                k,
            ),
{
    let ghost before = store@;
    let ghost profiles = listing.deep_view();
    let mut synced: Vec<LocalUserRecord> = Vec::new();
    let mut at: usize = 0;
    while at < listing.len()
        invariant
            at <= listing.len(),
            profiles == listing.deep_view(),
            store.wf(),
            store@ == directory_after(before, profiles.take(at as int)),
            synced@.len() == at,
            forall|k: int|
                0 <= k < at ==> (#[trigger] synced@[k])@ == synced_record(before, profiles, k),
        decreases listing.len() - at,
    {
        let record = LocalUserRecord::from_profile(&listing[at]);
        assert(profiles.take(at + 1).drop_last() =~= profiles.take(at as int));
        assert(profiles.take(at + 1).last() == listing@[at as int]@);
        let stored = store.upsert(record);
        synced.push(stored);
        at += 1;
    }
    assert(profiles.take(at as int) =~= profiles);
    synced
}

/// Where `last_seen` finds an id, the profile there has that id.
pub proof fn lemma_last_seen(listing: Seq<WorkOSUserView>, id: Seq<char>)
    ensures
        last_seen(listing, id) matches Some(k) ==> 0 <= k < listing.len() && listing[k].id == id,
    decreases listing.len(),
{
    if listing.len() > 0 && listing.last().id != id {
        lemma_last_seen(listing.drop_last(), id);
    }
}

/// After a synchronisation the ids are distinct, every id of the listing has
/// a record, and the records are settled with respect to the listing. The
/// records that were there before keep their place, their id and their CRM
/// flag.
pub proof fn lemma_directory_after(records: Seq<RecordView>, listing: Seq<WorkOSUserView>)
    requires
        distinct_ids(records),
    ensures
        distinct_ids(directory_after(records, listing)),
        covers(directory_after(records, listing), listing),
        settled(directory_after(records, listing), listing),
        directory_after(records, listing).len() >= records.len(),
        forall|i: int|
            0 <= i < records.len() ==> (#[trigger] directory_after(records, listing)[i]).id
                == records[i].id && directory_after(records, listing)[i].linked_to_crm
                == records[i].linked_to_crm,
    decreases listing.len(),
{
    if listing.len() > 0 {
        let shorter = listing.drop_last();
        let profile = listing.last();
        let inner = directory_after(records, shorter);
        let outer = directory_after(records, listing);
        lemma_directory_after(records, shorter);
        lemma_upserted_distinct(inner, record_of(profile));
        let known = has_id(inner, profile.id);
        let at = position(inner, profile.id);
        if known {
            assert(0 <= at < inner.len() && inner[at].id == profile.id);
        }
        assert forall|k: int| 0 <= k < listing.len() implies has_id(
            outer,
            (#[trigger] listing[k]).id,
        ) by {
            if k < shorter.len() {
                assert(shorter[k] == listing[k]);
                assert(has_id(inner, shorter[k].id));
                let i = position(inner, shorter[k].id);
                assert(outer[i].id == inner[i].id);
            }
        }
        assert forall|i: int| 0 <= i < outer.len() implies (last_seen(
            listing,
            (#[trigger] outer[i]).id,
        ) matches Some(k) ==> outer[i].email == listing[k].email && outer[i].full_name
            == full_name_of(listing[k].first_name, listing[k].last_name)) by {
            if outer[i].id != profile.id {
                assert(outer[i] == inner[i]);
                lemma_last_seen(shorter, inner[i].id);
                if let Some(k) = last_seen(shorter, inner[i].id) {
                    assert(shorter[k] == listing[k]);
                }
            } else if known {
                if i != at {
                    assert(outer[i] == inner[i]);
                    if i < at {
                        assert(inner[i].id != inner[at].id);
                    } else {
                        assert(inner[at].id != inner[i].id);
                    }
                }
            } else {
                if i < inner.len() {
                    assert(outer[i] == inner[i]);
                    assert(has_id(inner, profile.id));
                }
            }
        }
        assert forall|i: int| 0 <= i < records.len() implies (#[trigger] outer[i]).id
            == records[i].id && outer[i].linked_to_crm == records[i].linked_to_crm by {
            assert(inner[i].id == records[i].id);
        }
    }
}

/// Where every id of the listing already has a record, a synchronisation
/// creates nothing: each record whose id occurs in the listing takes the
/// email and the full name of the last profile with its id, and every other
/// record stays as it is.
pub proof fn lemma_directory_after_known(records: Seq<RecordView>, listing: Seq<WorkOSUserView>)
    requires
        distinct_ids(records),
        covers(records, listing),
    ensures
        directory_after(records, listing).len() == records.len(),
        forall|i: int|
            0 <= i < records.len() ==> #[trigger] directory_after(records, listing)[i] == (
            match last_seen(listing, records[i].id) {
                Some(k) => refreshed(records[i], record_of(listing[k])),
                None => records[i],
            }),
    decreases listing.len(),
{
    if listing.len() > 0 {
        let shorter = listing.drop_last();
        let profile = listing.last();
        let inner = directory_after(records, shorter);
        let outer = directory_after(records, listing);
        assert forall|k: int| 0 <= k < shorter.len() implies has_id(
            records,
            (#[trigger] shorter[k]).id,
        ) by {
            assert(shorter[k] == listing[k]);
        }
        lemma_directory_after_known(records, shorter);
        assert(listing[listing.len() - 1] == profile);
        assert(has_id(records, profile.id));
        let at = position(records, profile.id);
        assert(0 <= at < records.len() && records[at].id == profile.id);
        assert forall|i: int, j: int| 0 <= i < j < inner.len() implies (#[trigger] inner[i]).id != (
        #[trigger] inner[j]).id by {
            assert(inner[i].id == records[i].id);
            assert(inner[j].id == records[j].id);
        }
        assert(inner[at].id == profile.id);
        lemma_position(inner, at);
        assert forall|i: int| 0 <= i < records.len() implies #[trigger] outer[i] == (match last_seen(
            listing,
            records[i].id,
        ) {
            Some(k) => refreshed(records[i], record_of(listing[k])),
            None => records[i],
        }) by {
            if i != at {
                if i < at {
                    assert(records[i].id != records[at].id);
                } else {
                    assert(records[at].id != records[i].id);
                }
                lemma_last_seen(shorter, records[i].id);
                if let Some(k) = last_seen(shorter, records[i].id) {
                    assert(shorter[k] == listing[k]);
                }
            }
        }
    }
}

/// Synchronising twice against the same listing changes nothing the second
/// time: the records after the second run are those after the first.
pub proof fn lemma_sync_directory_idempotent(records: Seq<RecordView>, listing: Seq<WorkOSUserView>)
    requires
        distinct_ids(records),
    ensures
        directory_after(directory_after(records, listing), listing) == directory_after(
            records,
            listing,
        ),
{
    let once = directory_after(records, listing);
    let twice = directory_after(once, listing);
    lemma_directory_after(records, listing);
    lemma_directory_after_known(once, listing);
    assert forall|i: int| 0 <= i < once.len() implies twice[i] == once[i] by {
        lemma_last_seen(listing, once[i].id);
    }
    assert(twice =~= once);
}

} // verus!
