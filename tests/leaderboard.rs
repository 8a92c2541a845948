use rusty_clicker::decode::{decode_leaders, leader_from_json, leaders_from_json};
use rusty_clicker::poller::{is_refresh_due, FetchOutcome, Poller, DEFAULT_REFRESH_INTERVAL_MS};
use rusty_clicker::request::{leaders_request, LEADERS_URL};
use rusty_clicker::snapshot::{copy_leaders, Leader, LeaderboardSnapshot, SharedSnapshot};

fn leader(u: &str, c: &str) -> Leader {
    Leader::new(u.to_string(), c.to_string())
}

fn board_ab(at: i64) -> SharedSnapshot {
    let mut s = SharedSnapshot::new_at(0);
    s.write(vec![leader("A", "10"), leader("B", "7")], true, at);
    s
}

#[test]
fn startup_snapshot_is_empty_and_offline() {
    let s = SharedSnapshot::new_at(42);
    assert_eq!(
        s.read(),
        LeaderboardSnapshot { leaders: vec![], last_updated: 42, online: false }
    );
    let now = SharedSnapshot::new();
    assert!(now.read().leaders.is_empty());
    assert!(!now.is_online());
}

#[test]
fn read_twice_returns_equal_snapshots() {
    let s = board_ab(1_000);
    let first = s.read();
    let second = s.read();
    assert_eq!(first, second);
    assert_eq!(first.leaders, vec![leader("A", "10"), leader("B", "7")]);
}

#[test]
fn write_replaces_all_three_fields() {
    let mut s = board_ab(1_000);
    s.write(vec![leader("C", "1")], false, 2_000);
    assert_eq!(
        s.read(),
        LeaderboardSnapshot { leaders: vec![leader("C", "1")], last_updated: 2_000, online: false }
    );
    s.write(vec![], true, 3_000);
    assert_eq!(s.read(), LeaderboardSnapshot { leaders: vec![], last_updated: 3_000, online: true });
}

#[test]
fn failed_fetch_keeps_leaders() {
    let t0 = 1_000;
    let t1 = 20_000;
    let mut s = board_ab(t0);
    let mut p = Poller::new(10_000);
    assert!(p.poll_at(&s, t1));
    p.complete_fetch(&mut s, FetchOutcome::TransportFailed);
    assert_eq!(
        s.read(),
        LeaderboardSnapshot {
            leaders: vec![leader("A", "10"), leader("B", "7")],
            last_updated: t1,
            online: false
        }
    );
    assert!(!p.is_fetching());
}

#[test]
fn record_failure_moves_only_status_and_time() {
    let mut s = board_ab(1_000);
    s.record_failure(5_000);
    assert_eq!(s.read().leaders, vec![leader("A", "10"), leader("B", "7")]);
    assert_eq!(s.last_updated(), 5_000);
    assert!(!s.is_online());
}

#[test]
fn successful_decode_replaces_leaders_fully() {
    let mut s = board_ab(1_000);
    let mut p = Poller::new(10_000);
    assert!(p.poll_at(&s, 30_000));
    let body = br#"{"topClickers":[{"userId":"u1","clicks":"5"}]}"#.to_vec();
    p.complete_fetch(&mut s, FetchOutcome::Received(body));
    assert_eq!(
        s.read(),
        LeaderboardSnapshot { leaders: vec![leader("u1", "5")], last_updated: 30_000, online: true }
    );
}

#[test]
fn refresh_gating_dispatches_only_when_due() {
    let mut s = SharedSnapshot::new_at(1_000);
    let mut p = Poller::new(10_000);
    let mut fetches = 0;
    for now in [1_000, 5_000, 10_999] {
        let before = s.read();
        if p.poll_at(&s, now) {
            fetches += 1;
        }
        assert_eq!(s.read(), before);
    }
    assert_eq!(fetches, 0);
    assert!(!p.is_fetching());
    assert!(p.poll_at(&s, 11_000));
    fetches += 1;
    assert_eq!(fetches, 1);
    p.complete_fetch(&mut s, FetchOutcome::TransportFailed);
    assert_eq!(s.last_updated(), 11_000);
    assert!(!p.poll_at(&s, 20_999));
    assert!(p.poll_at(&s, 21_000));
}

#[test]
fn no_second_fetch_while_one_is_in_flight() {
    let mut s = SharedSnapshot::new_at(0);
    let mut p = Poller::new(10_000);
    assert!(p.poll_at(&s, 10_000));
    assert!(p.is_fetching());
    assert!(!p.poll_at(&s, 50_000));
    p.complete(&mut s, Some(vec![leader("x", "1")]));
    assert_eq!(s.last_updated(), 10_000);
    assert!(s.is_online());
    assert!(p.poll_at(&s, 20_000));
}

#[test]
fn completion_without_fetch_in_flight_changes_nothing() {
    let mut s = board_ab(1_000);
    let mut p = Poller::new(10_000);
    p.complete_fetch(&mut s, FetchOutcome::Received(br#"{"topClickers":[]}"#.to_vec()));
    assert_eq!(
        s.read(),
        LeaderboardSnapshot {
            leaders: vec![leader("A", "10"), leader("B", "7")],
            last_updated: 1_000,
            online: true
        }
    );
    assert!(!p.is_fetching());
}

#[test]
fn malformed_json_behaves_like_transport_failure() {
    let mut a = board_ab(1_000);
    let mut b = board_ab(1_000);
    let mut pa = Poller::new(10_000);
    let mut pb = Poller::new(10_000);
    assert!(pa.poll_at(&a, 12_000));
    assert!(pb.poll_at(&b, 12_000));
    pa.complete_fetch(&mut a, FetchOutcome::Received(b"not json".to_vec()));
    pb.complete_fetch(&mut b, FetchOutcome::TransportFailed);
    assert_eq!(a.read(), b.read());
    assert!(!a.is_online());
    assert_eq!(a.read().leaders, vec![leader("A", "10"), leader("B", "7")]);
    assert_eq!(a.last_updated(), 12_000);
}

#[test]
fn wrong_schema_behaves_like_transport_failure() {
    let mut s = board_ab(1_000);
    let mut p = Poller::new(10_000);
    assert!(p.poll_at(&s, 12_000));
    p.complete_fetch(&mut s, FetchOutcome::Received(br#"{"leaders":[]}"#.to_vec()));
    assert!(!s.is_online());
    assert_eq!(s.read().leaders, vec![leader("A", "10"), leader("B", "7")]);
}

#[test]
fn decode_keeps_order_and_ignores_extra_fields() {
    let body = br#"{"topClickers":[{"userId":"b","clicks":"9","rank":1},{"clicks":"12","userId":"a"}],"x":null}"#;
    assert_eq!(decode_leaders(body), Some(vec![leader("b", "9"), leader("a", "12")]));
}

#[test]
fn decode_empty_list() {
    assert_eq!(decode_leaders(br#"{"topClickers":[]}"#), Some(vec![]));
}

#[test]
fn decode_rejects_bad_shapes() {
    assert_eq!(decode_leaders(b"not json"), None);
    assert_eq!(decode_leaders(b""), None);
    assert_eq!(decode_leaders(br#"{"topClickers":[]} trailing"#), None);
    assert_eq!(decode_leaders(br#"[]"#), None);
    assert_eq!(decode_leaders(br#"{"topClickers":{}}"#), None);
    assert_eq!(decode_leaders(br#"{"topClickers":[{"userId":"u1"}]}"#), None);
    assert_eq!(decode_leaders(br#"{"topClickers":[{"userId":"u1","clicks":5}]}"#), None);
    assert_eq!(
        decode_leaders(br#"{"topClickers":[{"userId":"u1","clicks":"5"},7]}"#),
        None
    );
}

#[test]
fn decode_from_parsed_value() {
    let v: serde_json::Value =
        serde_json::from_str(r#"{"topClickers":[{"userId":"u2","clicks":"1000000000000000000000"}]}"#)
            .unwrap();
    assert_eq!(
        leaders_from_json(&v),
        Some(vec![leader("u2", "1000000000000000000000")])
    );
    let entry: serde_json::Value = serde_json::from_str(r#"{"userId":"q","clicks":"3"}"#).unwrap();
    assert_eq!(leader_from_json(&entry), Some(leader("q", "3")));
    let not_entry: serde_json::Value = serde_json::from_str(r#"{"userId":1,"clicks":"3"}"#).unwrap();
    assert_eq!(leader_from_json(&not_entry), None);
}

#[test]
fn refresh_due_boundaries() {
    assert!(is_refresh_due(0, 10_000, 10_000));
    assert!(!is_refresh_due(0, 9_999, 10_000));
    assert!(!is_refresh_due(5_000, 0, 10_000));
    assert!(is_refresh_due(i64::MIN, i64::MAX, 10_000));
    assert!(!is_refresh_due(i64::MAX, i64::MIN, 10_000));
}

#[test]
fn default_poller_waits_ten_seconds() {
    let p = Poller::default();
    assert_eq!(p.refresh_interval_ms(), DEFAULT_REFRESH_INTERVAL_MS);
    assert_eq!(DEFAULT_REFRESH_INTERVAL_MS, 10_000);
    assert!(!p.is_fetching());
}

#[test]
fn poll_with_system_clock_after_old_update() {
    let s = SharedSnapshot::new_at(0);
    let mut p = Poller::default();
    assert!(p.poll(&s));
    assert!(p.is_fetching());
    let fresh = SharedSnapshot::new();
    let mut q = Poller::default();
    assert!(!q.poll(&fresh));
}

#[test]
fn leaders_request_is_empty_json_post() {
    let r = leaders_request();
    assert_eq!(r.method, "POST");
    assert_eq!(r.url, LEADERS_URL);
    assert_eq!(r.body, b"{}".to_vec());
    assert_eq!(r.headers, vec![("Content-Type".to_string(), "application/json".to_string())]);
}

#[test]
fn copies_are_equal() {
    let l = leader("z", "0");
    assert_eq!(l.copy(), l);
    let v = vec![leader("A", "1"), leader("B", "2")];
    assert_eq!(copy_leaders(&v), v);
}
