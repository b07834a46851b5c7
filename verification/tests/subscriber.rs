use arc_cliwallet::session::{dispatch_line, Reply, Snapshot};
use arc_cliwallet::subscriber::{PersistRequest, Subscriber};

fn session_subscriber() -> Subscriber {
    Subscriber::new("/home/me/.wallet.json".to_string(), vec![1, 2, 3])
}

#[test]
fn an_update_persists_once_with_the_session_key_and_path() {
    let mut sub = session_subscriber();
    let (log_line, request) = sub.on_balance_update(77).unwrap();
    assert_eq!(log_line, "Balance update: 77");
    assert_eq!(
        request,
        PersistRequest {
            path: "/home/me/.wallet.json".to_string(),
            key: vec![1, 2, 3],
        }
    );
    assert!(sub.is_active());
    // The next update persists with the same fixed key and path.
    let (_, again) = sub.on_balance_update(78).unwrap();
    assert_eq!(again, request);
}

#[test]
fn a_successful_save_keeps_the_subscriber_active() {
    let mut sub = session_subscriber();
    assert_eq!(sub.on_persist_result(true), None);
    assert!(sub.is_active());
}

#[test]
fn a_failed_save_ends_the_subscriber_but_not_the_session() {
    let mut sub = session_subscriber();
    let report = sub.on_persist_result(false);
    assert_eq!(report, Some("Could not save wallet".to_string()));
    assert!(!sub.is_active());
    // No further persistence is requested.
    assert_eq!(sub.on_balance_update(99), None);
    // The session loop still answers balance queries from in-memory state.
    let snap = Snapshot {
        balance: 42,
        pub_key: "PK".to_string(),
    };
    assert_eq!(
        dispatch_line("balance", &snap),
        Reply::ShowBalance { balance: 42 }
    );
}

#[test]
fn a_connection_failure_is_reported_and_ends_the_subscriber() {
    let mut sub = session_subscriber();
    let report = sub.on_connection_failure("node unreachable");
    assert_eq!(report, "Fatal error: node unreachable");
    assert!(!sub.is_active());
    assert_eq!(sub.on_balance_update(1), None);
}
