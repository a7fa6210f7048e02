use keycounter::codec::{encode_stats, load_stats};
use keycounter::keys::Key;
use keycounter::paths::{date_file_token, get_stats_path};
use keycounter::session::{KeyEvent, Session};

#[test]
fn output_is_json_that_serde_reads() {
    let mut s = Session::new(load_stats(None));
    s.handle_event(&KeyEvent::Press(Key::KeyA));
    s.handle_event(&KeyEvent::Press(Key::Comma));
    s.handle_event(&KeyEvent::Press(Key::Unknown(57)));
    let bytes = encode_stats(&s.stats);
    let value: serde_json::Value = serde_json::from_slice(&bytes).expect("valid JSON");
    assert_eq!(value["keys"]["KeyA"], serde_json::Value::from(1u32));
    assert_eq!(value["keys"]["Comma"], serde_json::Value::from(1u32));
    assert_eq!(value["keys"]["Unknown(57)"], serde_json::Value::from(1u32));
}

#[test]
fn output_matches_serde_pretty_form() {
    let mut s = Session::new(load_stats(None));
    s.handle_event(&KeyEvent::Press(Key::KeyA));
    s.handle_event(&KeyEvent::Press(Key::KeyB));
    let bytes = encode_stats(&s.stats);
    let value: serde_json::Value = serde_json::from_slice(&bytes).expect("valid JSON");
    let pretty = serde_json::to_string_pretty(&value).expect("serialises");
    assert_eq!(pretty.as_bytes(), &bytes[..]);
}

#[test]
fn stats_path_joins_directory_and_extension() {
    assert_eq!(get_stats_path("25.01.07"), "stats/25.01.07.json");
}

#[test]
fn date_token_is_zero_padded() {
    assert_eq!(date_file_token(25, 1, 7), "25.01.07");
    assert_eq!(date_file_token(0, 12, 31), "00.12.31");
    assert_eq!(date_file_token(99, 10, 1), "99.10.01");
}
