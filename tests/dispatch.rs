use dbgate::backend::Backend;
use dbgate::bind::{BindValue, Query};
use dbgate::connection::{Connection, Next, Operation, Running, SubmitError, QUEUE_CAPACITY};
use dbgate::policy::{handle_result, Delivery, LogNote, Step, RETRY_BACKOFF_SECS};
use dbgate::registry::{connect_finished, Registry};
use dbgate::reply::Response;
use dbgate::staging::TransactionStaging;

fn query(owner: u32, session: i64, sql: &str) -> Operation {
    Operation::Query(owner, session, Query::new(sql.to_string(), Vec::new()))
}

fn sql_of(next: Next) -> String {
    match next {
        Next::Run(Operation::Query(_, _, q)) => q.sql,
        Next::Run(Operation::Execute(_, _, q)) => q.sql,
        other => panic!("expected a query to run, got {:?}", other),
    }
}

#[test]
fn success_is_delivered_and_completes() {
    let s = handle_result(0, 7, true);
    assert_eq!(s, Step { delivery: Delivery::Result, log: LogNote::Quiet, completed: true, retry: false, failed_times: 0 });
    let s = handle_result(3, 0, true);
    assert_eq!(s, Step { delivery: Delivery::Result, log: LogNote::Recovered, completed: true, retry: false, failed_times: 3 });
}

#[test]
fn attended_failure_is_never_retried() {
    let s = handle_result(0, 12, false);
    assert_eq!(s, Step { delivery: Delivery::Error, log: LogNote::Quiet, completed: true, retry: false, failed_times: 0 });
    let s = handle_result(0, -1, false);
    assert!(!s.retry);
}

#[test]
fn unattended_failure_retries_and_logs_from_the_second_failure() {
    let s = handle_result(0, 0, false);
    assert_eq!(s, Step { delivery: Delivery::Withheld, log: LogNote::Quiet, completed: false, retry: true, failed_times: 1 });
    let s = handle_result(1, 0, false);
    assert_eq!(s, Step { delivery: Delivery::Withheld, log: LogNote::WillRetry, completed: false, retry: true, failed_times: 2 });
    let s = handle_result(u64::MAX, 0, false);
    assert_eq!(s.failed_times, u64::MAX);
    assert_eq!(RETRY_BACKOFF_SECS, 1);
}

#[test]
fn operations_run_in_submission_order_one_at_a_time() {
    let mut c = Connection::new();
    assert!(matches!(c.next(), Next::Idle));
    c.submit(query(1, 10, "first")).unwrap();
    c.submit(query(1, 11, "second")).unwrap();
    assert_eq!(c.in_flight(), 2);
    assert_eq!(sql_of(c.next()), "first");
    assert!(matches!(c.next(), Next::Busy));
    assert_eq!(c.running(), Some(Running { owner: 1, session: 10, failed_times: 0 }));
    let step = c.record_outcome(false).unwrap();
    assert_eq!(step.delivery, Delivery::Error);
    assert_eq!(c.in_flight(), 1);
    assert_eq!(sql_of(c.next()), "second");
    c.record_outcome(true).unwrap();
    assert_eq!(c.in_flight(), 0);
    assert!(matches!(c.next(), Next::Idle));
    assert!(c.record_outcome(true).is_none());
}

#[test]
fn unattended_operation_keeps_running_until_success() {
    let mut c = Connection::new();
    c.submit(query(3, 0, "refresh")).unwrap();
    c.submit(query(3, 5, "later")).unwrap();
    assert_eq!(sql_of(c.next()), "refresh");
    for n in 1..=3u64 {
        let step = c.record_outcome(false).unwrap();
        assert!(step.retry);
        assert_eq!(step.delivery, Delivery::Withheld);
        assert_eq!(c.running(), Some(Running { owner: 3, session: 0, failed_times: n }));
        assert_eq!(c.in_flight(), 2);
        assert!(matches!(c.next(), Next::Busy));
    }
    let step = c.record_outcome(true).unwrap();
    assert_eq!(step.log, LogNote::Recovered);
    assert_eq!(c.in_flight(), 1);
    assert_eq!(sql_of(c.next()), "later");
}

#[test]
fn full_queue_refuses_at_once() {
    let mut c = Connection::new();
    for i in 0..QUEUE_CAPACITY {
        c.submit(query(1, i as i64 + 1, "q")).unwrap();
    }
    assert_eq!(c.queued(), 100);
    assert_eq!(c.submit(query(1, 999, "one too many")), Err(SubmitError::Full));
    assert_eq!(c.submit(Operation::Close), Err(SubmitError::Full));
    assert_eq!(c.queued(), 100);
    assert_eq!(c.in_flight(), 100);
    let _ = c.next();
    assert_eq!(c.submit(query(1, 1000, "fits again")), Ok(()));
    assert_eq!(c.queued(), 100);
}

#[test]
fn close_stops_without_draining() {
    let mut c = Connection::new();
    c.submit(Operation::Close).unwrap();
    c.submit(query(1, 1, "never")).unwrap();
    assert_eq!(c.in_flight(), 1);
    assert!(matches!(c.next(), Next::Stopped));
    assert!(c.is_terminated());
    assert!(matches!(c.next(), Next::Stopped));
    assert_eq!(c.submit(query(1, 2, "after")), Err(SubmitError::Closed));
    assert_eq!(c.in_flight(), 1);
}

#[test]
fn in_flight_counts_submitted_less_completed() {
    let mut c = Connection::new();
    let mut submitted = 0i64;
    let mut completed = 0i64;
    for round in 0..5i64 {
        c.submit(query(2, round + 1, "a")).unwrap();
        c.submit(Operation::Execute(2, round + 100, Query::new("b".to_string(), vec![BindValue::Int(round)]))).unwrap();
        submitted += 2;
        assert_eq!(c.in_flight(), submitted - completed);
        if let Next::Run(_) = c.next() {
            c.record_outcome(round % 2 == 0).unwrap();
            completed += 1;
        }
        assert_eq!(c.in_flight(), submitted - completed);
        assert!(c.in_flight() >= 0);
    }
}

#[test]
fn staging_moves_out_in_one_transaction() {
    let mut c = Connection::new();
    let mut t = TransactionStaging::new();
    t.push(Query::new("INSERT 1".to_string(), Vec::new()));
    t.push(Query::new("INSERT 2".to_string(), vec![BindValue::Text("x".to_string())]));
    assert_eq!(t.len(), 2);
    assert_eq!(t.submit(&mut c, 4, 44), Ok(()));
    assert_eq!(t.len(), 0);
    assert_eq!(c.in_flight(), 1);
    match c.next() {
        Next::Run(Operation::Transaction(owner, session, qs)) => {
            assert_eq!((owner, session), (4, 44));
            assert_eq!(qs.len(), 2);
            assert_eq!(qs[0].sql, "INSERT 1");
            assert_eq!(qs[1].sql, "INSERT 2");
        }
        other => panic!("expected a transaction, got {:?}", other),
    }
    t.push(Query::new("again".to_string(), Vec::new()));
    let taken = t.take();
    assert_eq!(taken.len(), 1);
    assert_eq!(t.len(), 0);
}

#[test]
fn staging_is_emptied_even_when_refused() {
    let mut c = Connection::new();
    c.submit(Operation::Close).unwrap();
    let _ = c.next();
    let mut t = TransactionStaging::new();
    t.push(Query::new("x".to_string(), Vec::new()));
    assert_eq!(t.submit(&mut c, 1, 1), Err(SubmitError::Closed));
    assert_eq!(t.len(), 0);
}

#[test]
fn registry_overwrite_replaces_lookup() {
    let mut r: Registry<u32> = Registry::new();
    assert!(r.find("main").is_none());
    assert_eq!(r.insert("main".to_string(), 1), None);
    assert_eq!(r.insert("aux".to_string(), 5), None);
    assert_eq!(r.find("main"), Some(&1));
    assert_eq!(r.insert("main".to_string(), 2), Some(1));
    assert_eq!(r.find("main"), Some(&2));
    assert_eq!(r.find("aux"), Some(&5));
    assert_eq!(r.len(), 2);
    let mut seen = Vec::new();
    for i in 0..r.len() {
        let (name, h) = r.entry(i);
        seen.push((name.clone(), *h));
    }
    seen.sort();
    assert_eq!(seen, vec![("aux".to_string(), 5), ("main".to_string(), 2)]);
}

#[test]
fn prior_connection_keeps_serving_after_overwrite() {
    let mut r: Registry<usize> = Registry::new();
    let mut conns = vec![Connection::new(), Connection::new()];
    r.insert("db".to_string(), 0);
    conns[0].submit(query(1, 1, "queued before")).unwrap();
    r.insert("db".to_string(), 1);
    assert_eq!(r.find("db"), Some(&1));
    assert_eq!(sql_of(conns[0].next()), "queued before");
    assert!(matches!(conns[1].next(), Next::Idle));
}

#[test]
fn connect_outcomes() {
    let mut r: Registry<u8> = Registry::new();
    assert!(matches!(connect_finished(&mut r, "a".to_string(), Err("timed out".to_string())), Response::Timeout(m) if m == "timed out"));
    assert_eq!(r.len(), 0);
    assert!(matches!(connect_finished(&mut r, "a".to_string(), Ok(9)), Response::Connected));
    assert_eq!(r.find("a"), Some(&9));
}

#[test]
fn backend_from_scheme() {
    assert_eq!(Backend::from_url("mysql://u@h/db"), Some(Backend::MySql));
    assert_eq!(Backend::from_url("postgres://h/db"), Some(Backend::Postgres));
    assert_eq!(Backend::from_url("sqlite://file.db"), Some(Backend::Sqlite));
    assert_eq!(Backend::from_url("mssql://h"), None);
    assert_eq!(Backend::from_url("MYSQL://h"), None);
    assert_eq!(Backend::from_url(""), None);
}
