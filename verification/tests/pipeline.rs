use keycounter::codec::{encode_stats, load_stats, parse_stats};
use keycounter::keys::{key_to_string, Key};
use keycounter::session::{KeyEvent, Session};
use keycounter::stats::DayStats;

fn fresh_session() -> Session {
    Session::new(load_stats(None))
}

fn count(s: &Session, name: &str) -> u32 {
    s.stats.count(&name.to_string())
}

#[test]
fn press_release_press_counts_twice() {
    let mut s = fresh_session();
    s.handle_event(&KeyEvent::Press(Key::KeyA));
    s.handle_event(&KeyEvent::Release(Key::KeyA));
    s.handle_event(&KeyEvent::Press(Key::KeyA));
    assert_eq!(count(&s, "KeyA"), 2);
}

#[test]
fn repeat_press_counts_once() {
    let mut s = fresh_session();
    let first = s.handle_event(&KeyEvent::Press(Key::KeyA));
    let second = s.handle_event(&KeyEvent::Press(Key::KeyA));
    assert!(first.is_some());
    assert!(second.is_none());
    assert_eq!(count(&s, "KeyA"), 1);
}

#[test]
fn fresh_start_first_press_writes_single_entry() {
    let mut s = fresh_session();
    let out = s.handle_event(&KeyEvent::Press(Key::KeyA)).expect("accepted press persists");
    let expected = b"{\n  \"keys\": {\n    \"KeyA\": 1\n  }\n}".to_vec();
    assert_eq!(out, expected);
}

#[test]
fn loaded_count_keeps_accumulating() {
    let existing = b"{\n  \"keys\": {\n    \"KeyA\": 5\n  }\n}".to_vec();
    let mut s = Session::new(load_stats(Some(existing)));
    assert_eq!(count(&s, "KeyA"), 5);
    let out = s.handle_event(&KeyEvent::Press(Key::KeyA)).expect("accepted press persists");
    assert_eq!(out, b"{\n  \"keys\": {\n    \"KeyA\": 6\n  }\n}".to_vec());
    assert_eq!(count(&s, "KeyA"), 6);
}

#[test]
fn other_events_are_ignored() {
    let mut s = fresh_session();
    assert!(s.handle_event(&KeyEvent::Other).is_none());
    assert_eq!(count(&s, "KeyA"), 0);
}

#[test]
fn release_of_unpressed_key_is_noop() {
    let mut s = fresh_session();
    assert!(s.handle_event(&KeyEvent::Release(Key::KeyZ)).is_none());
    assert_eq!(count(&s, "KeyZ"), 0);
}

#[test]
fn two_keys_counted_separately() {
    let mut s = fresh_session();
    s.handle_event(&KeyEvent::Press(Key::KeyA));
    s.handle_event(&KeyEvent::Press(Key::KeyB));
    s.handle_event(&KeyEvent::Release(Key::KeyA));
    s.handle_event(&KeyEvent::Press(Key::KeyA));
    assert_eq!(count(&s, "KeyA"), 2);
    assert_eq!(count(&s, "KeyB"), 1);
}

#[test]
fn round_trip_returns_equal_mapping() {
    let mut s = fresh_session();
    s.handle_event(&KeyEvent::Press(Key::KeyA));
    s.handle_event(&KeyEvent::Press(Key::ShiftLeft));
    s.handle_event(&KeyEvent::Release(Key::KeyA));
    s.handle_event(&KeyEvent::Press(Key::KeyA));
    let bytes = encode_stats(&s.stats);
    let back: DayStats = parse_stats(&bytes).expect("own output reads back");
    assert_eq!(back.keys.len(), s.stats.keys.len());
    assert_eq!(back.count(&"KeyA".to_string()), 2);
    assert_eq!(back.count(&"ShiftLeft".to_string()), 1);
}

#[test]
fn empty_table_encodes_to_empty_object() {
    let s = fresh_session();
    let bytes = encode_stats(&s.stats);
    assert_eq!(bytes, b"{\n  \"keys\": {}\n}".to_vec());
    let back = parse_stats(&bytes).expect("empty file reads back");
    assert_eq!(back.keys.len(), 0);
}

#[test]
fn missing_file_loads_empty() {
    let d = load_stats(None);
    assert_eq!(d.keys.len(), 0);
}

#[test]
fn corrupt_file_loads_empty() {
    for garbage in [
        &b""[..],
        &b"not json at all"[..],
        &b"{\n  \"keys\": {"[..],
        &b"{\n  \"keys\": {\n    \"KeyA\": \n  }\n}"[..],
        &b"{\n  \"keys\": {\n    \"KeyA\": 99999999999\n  }\n}"[..],
        &b"{}"[..],
    ] {
        let d = load_stats(Some(garbage.to_vec()));
        assert_eq!(d.keys.len(), 0, "garbage must load as empty");
    }
}

#[test]
fn duplicate_keys_load_empty() {
    let dup = b"{\n  \"keys\": {\n    \"KeyA\": 1,\n    \"KeyA\": 2\n  }\n}".to_vec();
    let d = load_stats(Some(dup));
    assert_eq!(d.keys.len(), 0);
}

#[test]
fn distinct_keys_distinct_identifiers() {
    let ids = [
        key_to_string(Key::KeyA),
        key_to_string(Key::KeyB),
        key_to_string(Key::ShiftLeft),
        key_to_string(Key::ShiftRight),
        key_to_string(Key::Num1),
        key_to_string(Key::Kp1),
        key_to_string(Key::Unknown(1)),
        key_to_string(Key::Unknown(12)),
        key_to_string(Key::Unknown(2)),
        key_to_string(Key::UpArrow),
    ];
    for a in 0..ids.len() {
        for b in 0..ids.len() {
            if a != b {
                assert_ne!(ids[a], ids[b]);
            }
        }
    }
}

#[test]
fn key_identifiers_render_as_names() {
    assert_eq!(key_to_string(Key::KeyA), "KeyA");
    assert_eq!(key_to_string(Key::ShiftLeft), "ShiftLeft");
    assert_eq!(key_to_string(Key::Num0), "Num0");
    assert_eq!(key_to_string(Key::Unknown(123)), "Unknown(123)");
    assert_eq!(key_to_string(Key::Unknown(0)), "Unknown(0)");
}
