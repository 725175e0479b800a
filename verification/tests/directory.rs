use echo_auth::store::{LocalUserRecord, UserStore};
use echo_auth::sync::directory::sync_directory;
use echo_auth::types::auth::{Timestamp, WorkOSUser};

fn record(id: &str, email: &str, name: &str, linked: bool) -> LocalUserRecord {
    LocalUserRecord {
        id: id.to_string(),
        email: email.to_string(),
        full_name: name.to_string(),
        linked_to_crm: linked,
    }
}

fn profile(id: &str, email: &str, first: &str, last: &str) -> WorkOSUser {
    WorkOSUser {
        object: "user".to_string(),
        id: id.to_string(),
        email: email.to_string(),
        first_name: Some(first.to_string()),
        last_name: Some(last.to_string()),
        email_verified: true,
        profile_picture_url: None,
        created_at: Timestamp { secs: 1, nanos: 0 },
        updated_at: Timestamp { secs: 2, nanos: 0 },
    }
}

fn listing() -> Vec<WorkOSUser> {
    vec![
        profile("u1", "a@b.com", "Ada", "Lovelace"),
        profile("u2", "c@d.com", "Bob", "Builder"),
        profile("u3", "e@f.com", "Cy", "Young"),
    ]
}

#[test]
fn sync_creates_a_record_for_each_new_profile() {
    let mut store = UserStore::new();
    let synced = sync_directory(&mut store, &listing());
    let expected = vec![
        record("u1", "a@b.com", "Ada Lovelace", false),
        record("u2", "c@d.com", "Bob Builder", false),
        record("u3", "e@f.com", "Cy Young", false),
    ];
    assert_eq!(synced, expected);
    assert_eq!(store.list(), expected);
}

#[test]
fn sync_updates_known_records_and_keeps_their_flag() {
    let mut store = UserStore::new();
    store.upsert(record("u2", "old@d.com", "Old Name", true));
    store.upsert(record("u9", "z@z.com", "Zed", false));
    let synced = sync_directory(&mut store, &listing());
    assert_eq!(
        synced,
        vec![
            record("u1", "a@b.com", "Ada Lovelace", false),
            record("u2", "c@d.com", "Bob Builder", true),
            record("u3", "e@f.com", "Cy Young", false),
        ]
    );
    assert_eq!(
        store.list(),
        vec![
            record("u2", "c@d.com", "Bob Builder", true),
            record("u9", "z@z.com", "Zed", false),
            record("u1", "a@b.com", "Ada Lovelace", false),
            record("u3", "e@f.com", "Cy Young", false),
        ]
    );
}

#[test]
fn sync_of_an_empty_listing_changes_nothing() {
    let mut store = UserStore::new();
    store.upsert(record("u1", "a@b.com", "Ada", true));
    assert_eq!(sync_directory(&mut store, &vec![]), vec![]);
    assert_eq!(store.list(), vec![record("u1", "a@b.com", "Ada", true)]);
}

#[test]
fn second_sync_against_the_same_listing_changes_nothing() {
    let mut store = UserStore::new();
    store.upsert(record("u2", "old@d.com", "Old Name", true));
    let first = sync_directory(&mut store, &listing());
    let after_first = store.list();
    let second = sync_directory(&mut store, &listing());
    assert_eq!(store.list(), after_first);
    assert_eq!(second, first);
}

#[test]
fn second_sync_changes_nothing_even_where_an_id_is_listed_twice() {
    let doubled = vec![
        profile("u1", "first@b.com", "Ada", "One"),
        profile("u2", "c@d.com", "Bob", "Builder"),
        profile("u1", "second@b.com", "Ada", "Two"),
    ];
    let mut store = UserStore::new();
    let synced = sync_directory(&mut store, &doubled);
    assert_eq!(
        synced,
        vec![
            record("u1", "first@b.com", "Ada One", false),
            record("u2", "c@d.com", "Bob Builder", false),
            record("u1", "second@b.com", "Ada Two", false),
        ]
    );
    let after_first = store.list();
    assert_eq!(
        after_first,
        vec![record("u1", "second@b.com", "Ada Two", false), record("u2", "c@d.com", "Bob Builder", false)]
    );
    sync_directory(&mut store, &doubled);
    assert_eq!(store.list(), after_first);
}

#[test]
fn sync_keeps_the_order_of_the_listing() {
    let mut store = UserStore::new();
    let mut reversed = listing();
    reversed.reverse();
    sync_directory(&mut store, &reversed);
    let ids: Vec<String> = store.list().into_iter().map(|r| r.id).collect();
    assert_eq!(ids, vec!["u3", "u2", "u1"]);
}
