use echo_auth::error::AuthError;
use echo_auth::store::{LocalUserRecord, UserStore};
use echo_auth::sync::crm::{CrmSync, CrmSyncReport, CRM_CONCURRENCY_LIMIT};

fn record(id: &str, linked: bool) -> LocalUserRecord {
    LocalUserRecord {
        id: id.to_string(),
        email: format!("{}@b.com", id),
        full_name: id.to_uppercase(),
        linked_to_crm: linked,
    }
}

fn store_of(count: usize) -> UserStore {
    let mut store = UserStore::new();
    for at in 0..count {
        store.upsert(record(&format!("u{}", at), false));
    }
    store
}

#[test]
fn limit_is_fifty() {
    assert_eq!(CRM_CONCURRENCY_LIMIT, 50);
}

#[test]
fn job_takes_the_unlinked_records_only() {
    let mut store = UserStore::new();
    store.upsert(record("u1", false));
    store.upsert(record("u2", true));
    store.upsert(record("u3", false));
    let job = CrmSync::begin(&store);
    assert_eq!(job.len(), 2);
    assert_eq!(job.in_flight(), 0);
    assert_eq!(job.record(0), Some(record("u1", false)));
    assert_eq!(job.record(1), Some(record("u3", false)));
    assert_eq!(job.record(2), None);
    assert!(!job.is_done());
}

#[test]
fn job_without_records_is_done_at_once() {
    let mut store = UserStore::new();
    store.upsert(record("u1", true));
    let mut job = CrmSync::begin(&store);
    assert_eq!(job.len(), 0);
    assert!(job.is_done());
    assert_eq!(job.acquire(), None);
    let report = job.finish(&mut store);
    assert_eq!(report, CrmSyncReport { records: vec![], linked: vec![], failed: 0 });
    assert_eq!(report.partial_failure(), None);
    assert_eq!(store.list(), vec![record("u1", true)]);
}

#[test]
fn units_are_started_in_order() {
    let store = store_of(3);
    let mut job = CrmSync::begin(&store);
    assert_eq!(job.acquire(), Some(0));
    assert_eq!(job.acquire(), Some(1));
    assert_eq!(job.acquire(), Some(2));
    assert_eq!(job.acquire(), None);
    assert_eq!(job.in_flight(), 3);
}

#[test]
fn no_more_than_fifty_units_are_ever_in_flight() {
    let store = store_of(120);
    let mut job = CrmSync::begin(&store);
    let mut under_way: Vec<usize> = Vec::new();
    let mut most = 0;
    let mut completed = 0;
    while !job.is_done() {
        while let Some(unit) = job.acquire() {
            under_way.push(unit);
            assert_eq!(job.in_flight(), under_way.len());
            assert!(under_way.len() <= 50);
        }
        most = most.max(under_way.len());
        assert!(!under_way.is_empty());
        let pick = (completed * 7) % under_way.len();
        let unit = under_way.swap_remove(pick);
        assert!(job.complete(unit, Some(if unit % 4 == 0 { 500 } else { 200 })));
        completed += 1;
        assert_eq!(job.in_flight(), under_way.len());
    }
    assert_eq!(most, 50);
    assert_eq!(completed, 120);
    assert_eq!(job.in_flight(), 0);
}

#[test]
fn fifty_first_unit_waits_for_a_permit() {
    let store = store_of(51);
    let mut job = CrmSync::begin(&store);
    for unit in 0..50 {
        assert_eq!(job.acquire(), Some(unit));
    }
    assert_eq!(job.in_flight(), 50);
    assert_eq!(job.acquire(), None);
    assert_eq!(job.acquire(), None);
    assert!(job.complete(17, None));
    assert_eq!(job.in_flight(), 49);
    assert_eq!(job.acquire(), Some(50));
    assert_eq!(job.in_flight(), 50);
    assert_eq!(job.acquire(), None);
}

#[test]
fn permit_is_given_back_however_the_unit_ends() {
    let store = store_of(3);
    let mut job = CrmSync::begin(&store);
    job.acquire();
    job.acquire();
    job.acquire();
    assert!(job.complete(0, Some(204)));
    assert_eq!(job.in_flight(), 2);
    assert!(job.complete(1, Some(500)));
    assert_eq!(job.in_flight(), 1);
    assert!(job.complete(2, None));
    assert_eq!(job.in_flight(), 0);
    assert!(job.is_done());
}

#[test]
fn only_a_unit_in_flight_can_be_completed() {
    let store = store_of(2);
    let mut job = CrmSync::begin(&store);
    assert!(!job.complete(0, Some(200)));
    assert!(!job.complete(2, Some(200)));
    assert!(!job.complete(usize::MAX, None));
    assert_eq!(job.acquire(), Some(0));
    assert!(!job.complete(1, Some(200)));
    assert!(job.complete(0, Some(200)));
    assert!(!job.complete(0, Some(200)));
    assert!(!job.complete(0, None));
    assert_eq!(job.in_flight(), 0);
    assert!(!job.is_done());
    assert_eq!(job.acquire(), Some(1));
    assert!(job.complete(1, Some(404)));
    assert!(job.is_done());
}

#[test]
fn three_failures_of_ten_leave_seven_linked() {
    let mut store = store_of(10);
    let mut job = CrmSync::begin(&store);
    while let Some(unit) = job.acquire() {
        let status = match unit {
            2 => Some(500),
            5 => Some(404),
            9 => None,
            _ => Some(200),
        };
        assert!(job.complete(unit, status));
    }
    assert!(job.is_done());
    let report = job.finish(&mut store);
    assert_eq!(report.linked, vec!["u0", "u1", "u3", "u4", "u6", "u7", "u8"]);
    assert_eq!(report.linked.len(), 7);
    assert_eq!(report.failed, 3);
    assert_eq!(report.partial_failure(), Some(AuthError::PartialSyncFailure { failed: 3 }));
    for record in store.list() {
        let failed = ["u2", "u5", "u9"].contains(&record.id.as_str());
        assert_eq!(record.linked_to_crm, !failed, "{}", record.id);
    }
}

#[test]
fn report_shows_the_records_as_they_were_before_the_write() {
    let mut store = store_of(3);
    let before = store.list();
    let mut job = CrmSync::begin(&store);
    while let Some(unit) = job.acquire() {
        job.complete(unit, Some(200));
    }
    let report = job.finish(&mut store);
    assert_eq!(report.records, before);
    assert!(report.records.iter().all(|record| !record.linked_to_crm));
    assert!(store.list().iter().all(|record| record.linked_to_crm));
    assert_eq!(report.partial_failure(), None);
}

#[test]
fn units_may_complete_in_any_order() {
    let mut store = store_of(4);
    let mut job = CrmSync::begin(&store);
    for _ in 0..4 {
        job.acquire();
    }
    assert!(job.complete(3, Some(200)));
    assert!(job.complete(1, Some(503)));
    assert!(job.complete(0, Some(201)));
    assert!(job.complete(2, Some(299)));
    let report = job.finish(&mut store);
    assert_eq!(report.linked, vec!["u0", "u2", "u3"]);
    assert_eq!(report.failed, 1);
}

#[test]
fn redirects_and_client_errors_count_as_failures() {
    let mut store = store_of(4);
    let mut job = CrmSync::begin(&store);
    for (unit, status) in [(0usize, 199u16), (1, 300), (2, 400), (3, 200)] {
        assert_eq!(job.acquire(), Some(unit));
        assert!(job.complete(unit, Some(status)));
    }
    let report = job.finish(&mut store);
    assert_eq!(report.linked, vec!["u3"]);
    assert_eq!(report.failed, 3);
}

#[test]
fn records_linked_by_one_job_are_left_out_of_the_next() {
    let mut store = store_of(3);
    let mut job = CrmSync::begin(&store);
    while let Some(unit) = job.acquire() {
        job.complete(unit, if unit == 1 { None } else { Some(200) });
    }
    job.finish(&mut store);
    let next = CrmSync::begin(&store);
    assert_eq!(next.len(), 1);
    assert_eq!(next.record(0).unwrap().id, "u1");
}
