//! The library's own key codes: one variant per physical or logical key the
//! hook can report, each with a stable textual identifier.

use vstd::prelude::*;
use crate::num::{dec_digits, is_digit, lemma_dec_digits_are_digits, lemma_dec_digits_val,
    push_dec};
use crate::codec::{ascii_chars, lemma_byte_is_char};
use crate::stats::{key_char, valid_key};

verus! {

/// A key reported by the keyboard hook; unrecognised codes keep their raw
/// numeric code so they can still be counted.
#[derive(Clone, Copy)]
pub enum Key {
    Alt,
    AltGr,
    Backspace,
    CapsLock,
    ControlLeft,
    ControlRight,
    Delete,
    DownArrow,
    End,
    Escape,
    F1,
    F10,
    F11,
    F12,
    F2,
    F3,
    F4,
    F5,
    F6,
    F7,
    F8,
    F9,
    Home,
    LeftArrow,
    MetaLeft,
    MetaRight,
    PageDown,
    PageUp,
    Return,
    RightArrow,
    ShiftLeft,
    ShiftRight,
    Space,
    Tab,
    UpArrow,
    PrintScreen,
    ScrollLock,
    Pause,
    NumLock,
    BackQuote,
    Num1,
    Num2,
    Num3,
    Num4,
    Num5,
    Num6,
    Num7,
    Num8,
    Num9,
    Num0,
    Minus,
    Equal,
    KeyQ,
    KeyW,
    KeyE,
    KeyR,
    KeyT,
    KeyY,
    KeyU,
    KeyI,
    KeyO,
    KeyP,
    LeftBracket,
    RightBracket,
    KeyA,
    KeyS,
    KeyD,
    KeyF,
    KeyG,
    KeyH,
    KeyJ,
    KeyK,
    KeyL,
    SemiColon,
    Quote,
    BackSlash,
    IntlBackslash,
    KeyZ,
    KeyX,
    KeyC,
    KeyV,
    KeyB,
    KeyN,
    KeyM,
    Comma,
    Dot,
    Slash,
    Insert,
    KpReturn,
    KpMinus,
    KpPlus,
    KpMultiply,
    KpDivide,
    Kp0,
    Kp1,
    Kp2,
    Kp3,
    Kp4,
    Kp5,
    Kp6,
    Kp7,
    Kp8,
    Kp9,
    KpDelete,
    Function,
    Unknown(u32),
}

/// The identifier of an unrecognised key code.
pub open spec fn unknown_id(n: u32) -> Seq<char> {
    "Unknown("@ + ascii_chars(dec_digits(n as nat)) + ")"@
}

/// The textual identifier of each key.
pub open spec fn key_id(k: Key) -> Seq<char> {
    match k {
        Key::Alt => "Alt"@,
        Key::AltGr => "AltGr"@,
        Key::Backspace => "Backspace"@,
        Key::CapsLock => "CapsLock"@,
        Key::ControlLeft => "ControlLeft"@,
        Key::ControlRight => "ControlRight"@,
        Key::Delete => "Delete"@,
        Key::DownArrow => "DownArrow"@,
        Key::End => "End"@,
        Key::Escape => "Escape"@,
        Key::F1 => "F1"@,
        Key::F10 => "F10"@,
        Key::F11 => "F11"@,
        Key::F12 => "F12"@,
        Key::F2 => "F2"@,
        Key::F3 => "F3"@,
        Key::F4 => "F4"@,
        Key::F5 => "F5"@,
        Key::F6 => "F6"@,
        Key::F7 => "F7"@,
        Key::F8 => "F8"@,
        Key::F9 => "F9"@,
        Key::Home => "Home"@,
        Key::LeftArrow => "LeftArrow"@,
        Key::MetaLeft => "MetaLeft"@,
        Key::MetaRight => "MetaRight"@,
        Key::PageDown => "PageDown"@,
        Key::PageUp => "PageUp"@,
        Key::Return => "Return"@,
        Key::RightArrow => "RightArrow"@,
        Key::ShiftLeft => "ShiftLeft"@,
        Key::ShiftRight => "ShiftRight"@,
        Key::Space => "Space"@,
        Key::Tab => "Tab"@,
        Key::UpArrow => "UpArrow"@,
        Key::PrintScreen => "PrintScreen"@,
        Key::ScrollLock => "ScrollLock"@,
        Key::Pause => "Pause"@,
        Key::NumLock => "NumLock"@,
        Key::BackQuote => "BackQuote"@,
        Key::Num1 => "Num1"@,
        Key::Num2 => "Num2"@,
        Key::Num3 => "Num3"@,
        Key::Num4 => "Num4"@,
        Key::Num5 => "Num5"@,
        Key::Num6 => "Num6"@,
        Key::Num7 => "Num7"@,
        Key::Num8 => "Num8"@,
        Key::Num9 => "Num9"@,
        Key::Num0 => "Num0"@,
        Key::Minus => "Minus"@,
        Key::Equal => "Equal"@,
        Key::KeyQ => "KeyQ"@,
        Key::KeyW => "KeyW"@,
        Key::KeyE => "KeyE"@,
        Key::KeyR => "KeyR"@,
        Key::KeyT => "KeyT"@,
        Key::KeyY => "KeyY"@,
        Key::KeyU => "KeyU"@,
        Key::KeyI => "KeyI"@,
        Key::KeyO => "KeyO"@,
        Key::KeyP => "KeyP"@,
        Key::LeftBracket => "LeftBracket"@,
        Key::RightBracket => "RightBracket"@,
        Key::KeyA => "KeyA"@,
        Key::KeyS => "KeyS"@,
        Key::KeyD => "KeyD"@,
        Key::KeyF => "KeyF"@,
        Key::KeyG => "KeyG"@,
        Key::KeyH => "KeyH"@,
        Key::KeyJ => "KeyJ"@,
        Key::KeyK => "KeyK"@,
        Key::KeyL => "KeyL"@,
        Key::SemiColon => "SemiColon"@,
        Key::Quote => "Quote"@,
        Key::BackSlash => "BackSlash"@,
        Key::IntlBackslash => "IntlBackslash"@,
        Key::KeyZ => "KeyZ"@,
        Key::KeyX => "KeyX"@,
        Key::KeyC => "KeyC"@,
        Key::KeyV => "KeyV"@,
        Key::KeyB => "KeyB"@,
        Key::KeyN => "KeyN"@,
        Key::KeyM => "KeyM"@,
        Key::Comma => "Comma"@,
        Key::Dot => "Dot"@,
        Key::Slash => "Slash"@,
        Key::Insert => "Insert"@,
        Key::KpReturn => "KpReturn"@,
        Key::KpMinus => "KpMinus"@,
        Key::KpPlus => "KpPlus"@,
        Key::KpMultiply => "KpMultiply"@,
        Key::KpDivide => "KpDivide"@,
        Key::Kp0 => "Kp0"@,
        Key::Kp1 => "Kp1"@,
        Key::Kp2 => "Kp2"@,
        Key::Kp3 => "Kp3"@,
        Key::Kp4 => "Kp4"@,
        Key::Kp5 => "Kp5"@,
        Key::Kp6 => "Kp6"@,
        Key::Kp7 => "Kp7"@,
        Key::Kp8 => "Kp8"@,
        Key::Kp9 => "Kp9"@,
        Key::KpDelete => "KpDelete"@,
        Key::Function => "Function"@,
        Key::Unknown(n) => unknown_id(n),
    }
}

/// Renders the identifier of `k`.
pub fn key_to_string(k: Key) -> (s: String)
    ensures
        s@ == key_id(k),
{
    match k {
        Key::Alt => "Alt".to_owned(),
        Key::AltGr => "AltGr".to_owned(),
        Key::Backspace => "Backspace".to_owned(),
        Key::CapsLock => "CapsLock".to_owned(),
        Key::ControlLeft => "ControlLeft".to_owned(),
        Key::ControlRight => "ControlRight".to_owned(),
        Key::Delete => "Delete".to_owned(),
        Key::DownArrow => "DownArrow".to_owned(),
        Key::End => "End".to_owned(),
        Key::Escape => "Escape".to_owned(),
        Key::F1 => "F1".to_owned(),
        Key::F10 => "F10".to_owned(),
        Key::F11 => "F11".to_owned(),
        Key::F12 => "F12".to_owned(),
        Key::F2 => "F2".to_owned(),
        Key::F3 => "F3".to_owned(),
        Key::F4 => "F4".to_owned(),
        Key::F5 => "F5".to_owned(),
        Key::F6 => "F6".to_owned(),
        Key::F7 => "F7".to_owned(),
        Key::F8 => "F8".to_owned(),
        Key::F9 => "F9".to_owned(),
        Key::Home => "Home".to_owned(),
        Key::LeftArrow => "LeftArrow".to_owned(),
        Key::MetaLeft => "MetaLeft".to_owned(),
        Key::MetaRight => "MetaRight".to_owned(),
        Key::PageDown => "PageDown".to_owned(),
        Key::PageUp => "PageUp".to_owned(),
        Key::Return => "Return".to_owned(),
        Key::RightArrow => "RightArrow".to_owned(),
        Key::ShiftLeft => "ShiftLeft".to_owned(),
        Key::ShiftRight => "ShiftRight".to_owned(),
        Key::Space => "Space".to_owned(),
        Key::Tab => "Tab".to_owned(),
        Key::UpArrow => "UpArrow".to_owned(),
        Key::PrintScreen => "PrintScreen".to_owned(),
        Key::ScrollLock => "ScrollLock".to_owned(),
        Key::Pause => "Pause".to_owned(),
        Key::NumLock => "NumLock".to_owned(),
        Key::BackQuote => "BackQuote".to_owned(),
        Key::Num1 => "Num1".to_owned(),
        Key::Num2 => "Num2".to_owned(),
        Key::Num3 => "Num3".to_owned(),
        Key::Num4 => "Num4".to_owned(),
        Key::Num5 => "Num5".to_owned(),
        Key::Num6 => "Num6".to_owned(),
        Key::Num7 => "Num7".to_owned(),
        Key::Num8 => "Num8".to_owned(),
        Key::Num9 => "Num9".to_owned(),
        Key::Num0 => "Num0".to_owned(),
        Key::Minus => "Minus".to_owned(),
        Key::Equal => "Equal".to_owned(),
        Key::KeyQ => "KeyQ".to_owned(),
        Key::KeyW => "KeyW".to_owned(),
        Key::KeyE => "KeyE".to_owned(),
        Key::KeyR => "KeyR".to_owned(),
        Key::KeyT => "KeyT".to_owned(),
        Key::KeyY => "KeyY".to_owned(),
        Key::KeyU => "KeyU".to_owned(),
        Key::KeyI => "KeyI".to_owned(),
        Key::KeyO => "KeyO".to_owned(),
        Key::KeyP => "KeyP".to_owned(),
        Key::LeftBracket => "LeftBracket".to_owned(),
        Key::RightBracket => "RightBracket".to_owned(),
        Key::KeyA => "KeyA".to_owned(),
        Key::KeyS => "KeyS".to_owned(),
        Key::KeyD => "KeyD".to_owned(),
        Key::KeyF => "KeyF".to_owned(),
        Key::KeyG => "KeyG".to_owned(),
        Key::KeyH => "KeyH".to_owned(),
        Key::KeyJ => "KeyJ".to_owned(),
        Key::KeyK => "KeyK".to_owned(),
        Key::KeyL => "KeyL".to_owned(),
        Key::SemiColon => "SemiColon".to_owned(),
        Key::Quote => "Quote".to_owned(),
        Key::BackSlash => "BackSlash".to_owned(),
        Key::IntlBackslash => "IntlBackslash".to_owned(),
        Key::KeyZ => "KeyZ".to_owned(),
        Key::KeyX => "KeyX".to_owned(),
        Key::KeyC => "KeyC".to_owned(),
        Key::KeyV => "KeyV".to_owned(),
        Key::KeyB => "KeyB".to_owned(),
        Key::KeyN => "KeyN".to_owned(),
        Key::KeyM => "KeyM".to_owned(),
        Key::Comma => "Comma".to_owned(),
        Key::Dot => "Dot".to_owned(),
        Key::Slash => "Slash".to_owned(),
        Key::Insert => "Insert".to_owned(),
        Key::KpReturn => "KpReturn".to_owned(),
        Key::KpMinus => "KpMinus".to_owned(),
        Key::KpPlus => "KpPlus".to_owned(),
        Key::KpMultiply => "KpMultiply".to_owned(),
        Key::KpDivide => "KpDivide".to_owned(),
        Key::Kp0 => "Kp0".to_owned(),
        Key::Kp1 => "Kp1".to_owned(),
        Key::Kp2 => "Kp2".to_owned(),
        Key::Kp3 => "Kp3".to_owned(),
        Key::Kp4 => "Kp4".to_owned(),
        Key::Kp5 => "Kp5".to_owned(),
        Key::Kp6 => "Kp6".to_owned(),
        Key::Kp7 => "Kp7".to_owned(),
        Key::Kp8 => "Kp8".to_owned(),
        Key::Kp9 => "Kp9".to_owned(),
        Key::KpDelete => "KpDelete".to_owned(),
        Key::Function => "Function".to_owned(),
        Key::Unknown(n) => unknown_to_string(n),
    }
}

/// The affixes of an unknown key's identifier, as characters.
proof fn lemma_unknown_affixes()
    ensures
        ascii_chars(seq![85u8, 110u8, 107u8, 110u8, 111u8, 119u8, 110u8, 40u8]) == "Unknown("@,
        ascii_chars(seq![41u8]) == ")"@,
{
    reveal_strlit("Unknown(");
    reveal_strlit(")");
    lemma_byte_is_char(85, 'U');
    lemma_byte_is_char(110, 'n');
    lemma_byte_is_char(107, 'k');
    lemma_byte_is_char(111, 'o');
    lemma_byte_is_char(119, 'w');
    lemma_byte_is_char(40, '(');
    lemma_byte_is_char(41, ')');
    assert(ascii_chars(seq![85u8, 110u8, 107u8, 110u8, 111u8, 119u8, 110u8, 40u8])
        =~= "Unknown("@);
    assert(ascii_chars(seq![41u8]) =~= ")"@);
}

/// Renders the identifier of an unrecognised key code.
fn unknown_to_string(n: u32) -> (s: String)
    ensures
        s@ == unknown_id(n),
{
    let mut bytes: Vec<u8> = Vec::new();
    bytes.push(85);
    bytes.push(110);
    bytes.push(107);
    bytes.push(110);
    bytes.push(111);
    bytes.push(119);
    bytes.push(110);
    bytes.push(40);
    push_dec(&mut bytes, n);
    bytes.push(41);
    proof {
        lemma_dec_digits_are_digits(n as nat);
        assert(forall|x: int| 0 <= x < bytes@.len() ==> #[trigger] bytes@[x] < 0x80);
    }
    let s = crate::codec::string_from_ascii(bytes);
    proof {
        lemma_unknown_affixes();
        assert(s@ =~= unknown_id(n));
    }
    s
}

/// The shape every unknown-code identifier shares.
proof fn lemma_unknown_shape(n: u32)
    ensures
        unknown_id(n).len() >= 10,
        unknown_id(n)[0] == 'U',
        unknown_id(n)[1] == 'n',
{
    reveal_strlit("Unknown(");
    reveal_strlit(")");
    lemma_dec_digits_are_digits(n as nat);
    assert("Unknown("@.len() == 8 && ")"@.len() == 1);
    assert(unknown_id(n)[0] == "Unknown("@[0]);
    assert(unknown_id(n)[1] == "Unknown("@[1]);
}

/// Two distinct unknown codes have distinct identifiers.
proof fn lemma_unknown_inj(a: u32, b: u32)
    requires
        a != b,
    ensures
        unknown_id(a) != unknown_id(b),
{
    reveal_strlit("Unknown(");
    reveal_strlit(")");
    lemma_dec_digits_are_digits(a as nat);
    lemma_dec_digits_are_digits(b as nat);
    assert("Unknown("@.len() == 8 && ")"@.len() == 1);
    if unknown_id(a) == unknown_id(b) {
        let da = dec_digits(a as nat);
        let db = dec_digits(b as nat);
        assert(unknown_id(a).len() == 9 + da.len());
        assert(unknown_id(b).len() == 9 + db.len());
        assert forall|x: int| 0 <= x < da.len() implies da[x] == db[x] by {
            assert(unknown_id(a)[8 + x] == ascii_chars(da)[x]);
            assert(unknown_id(b)[8 + x] == ascii_chars(db)[x]);
            crate::codec::lemma_byte_char_round(da[x]);
            crate::codec::lemma_byte_char_round(db[x]);
        }
        assert(da =~= db);
        lemma_dec_digits_val(a as nat);
        lemma_dec_digits_val(b as nat);
        assert(false);
    }
}

/// Every identifier is made only of allowed characters.
#[verifier::rlimit(100)]
pub proof fn lemma_key_id_valid(k: Key)
    ensures
        valid_key(key_id(k)),
{
    match k {
        Key::Alt => {
            reveal_strlit("Alt");
            assert(valid_key("Alt"@));
        },
        Key::AltGr => {
            reveal_strlit("AltGr");
            assert(valid_key("AltGr"@));
        },
        Key::Backspace => {
            reveal_strlit("Backspace");
            assert(valid_key("Backspace"@));
        },
        Key::CapsLock => {
            reveal_strlit("CapsLock");
            assert(valid_key("CapsLock"@));
        },
        Key::ControlLeft => {
            reveal_strlit("ControlLeft");
            assert(valid_key("ControlLeft"@));
        },
        Key::ControlRight => {
            reveal_strlit("ControlRight");
            assert(valid_key("ControlRight"@));
        },
        Key::Delete => {
            reveal_strlit("Delete");
            assert(valid_key("Delete"@));
        },
        Key::DownArrow => {
            reveal_strlit("DownArrow");
            assert(valid_key("DownArrow"@));
        },
        Key::End => {
            reveal_strlit("End");
            assert(valid_key("End"@));
        },
        Key::Escape => {
            reveal_strlit("Escape");
            assert(valid_key("Escape"@));
        },
        Key::F1 => {
            reveal_strlit("F1");
            assert(valid_key("F1"@));
        },
        Key::F10 => {
            reveal_strlit("F10");
            assert(valid_key("F10"@));
        },
        Key::F11 => {
            reveal_strlit("F11");
            assert(valid_key("F11"@));
        },
        Key::F12 => {
            reveal_strlit("F12");
            assert(valid_key("F12"@));
        },
        Key::F2 => {
            reveal_strlit("F2");
            assert(valid_key("F2"@));
        },
        Key::F3 => {
            reveal_strlit("F3");
            assert(valid_key("F3"@));
        },
        Key::F4 => {
            reveal_strlit("F4");
            assert(valid_key("F4"@));
        },
        Key::F5 => {
            reveal_strlit("F5");
            assert(valid_key("F5"@));
        },
        Key::F6 => {
            reveal_strlit("F6");
            assert(valid_key("F6"@));
        },
        Key::F7 => {
            reveal_strlit("F7");
            assert(valid_key("F7"@));
        },
        Key::F8 => {
            reveal_strlit("F8");
            assert(valid_key("F8"@));
        },
        Key::F9 => {
            reveal_strlit("F9");
            assert(valid_key("F9"@));
        },
        Key::Home => {
            reveal_strlit("Home");
            assert(valid_key("Home"@));
        },
        Key::LeftArrow => {
            reveal_strlit("LeftArrow");
            assert(valid_key("LeftArrow"@));
        },
        Key::MetaLeft => {
            reveal_strlit("MetaLeft");
            assert(valid_key("MetaLeft"@));
        },
        Key::MetaRight => {
            reveal_strlit("MetaRight");
            assert(valid_key("MetaRight"@));
        },
        Key::PageDown => {
            reveal_strlit("PageDown");
            assert(valid_key("PageDown"@));
        },
        Key::PageUp => {
            reveal_strlit("PageUp");
            assert(valid_key("PageUp"@));
        },
        Key::Return => {
            reveal_strlit("Return");
            assert(valid_key("Return"@));
        },
        Key::RightArrow => {
            reveal_strlit("RightArrow");
            assert(valid_key("RightArrow"@));
        },
        Key::ShiftLeft => {
            reveal_strlit("ShiftLeft");
            assert(valid_key("ShiftLeft"@));
        },
        Key::ShiftRight => {
            reveal_strlit("ShiftRight");
            assert(valid_key("ShiftRight"@));
        },
        Key::Space => {
            reveal_strlit("Space");
            assert(valid_key("Space"@));
        },
        Key::Tab => {
            reveal_strlit("Tab");
            assert(valid_key("Tab"@));
        },
        Key::UpArrow => {
            reveal_strlit("UpArrow");
            assert(valid_key("UpArrow"@));
        },
        Key::PrintScreen => {
            reveal_strlit("PrintScreen");
            assert(valid_key("PrintScreen"@));
        },
        Key::ScrollLock => {
            reveal_strlit("ScrollLock");
            assert(valid_key("ScrollLock"@));
        },
        Key::Pause => {
            reveal_strlit("Pause");
            assert(valid_key("Pause"@));
        },
        Key::NumLock => {
            reveal_strlit("NumLock");
            assert(valid_key("NumLock"@));
        },
        Key::BackQuote => {
            reveal_strlit("BackQuote");
            assert(valid_key("BackQuote"@));
        },
        Key::Num1 => {
            reveal_strlit("Num1");
            assert(valid_key("Num1"@));
        },
        Key::Num2 => {
            reveal_strlit("Num2");
            assert(valid_key("Num2"@));
        },
        Key::Num3 => {
            reveal_strlit("Num3");
            assert(valid_key("Num3"@));
        },
        Key::Num4 => {
            reveal_strlit("Num4");
            assert(valid_key("Num4"@));
        },
        Key::Num5 => {
            reveal_strlit("Num5");
            assert(valid_key("Num5"@));
        },
        Key::Num6 => {
            reveal_strlit("Num6");
            assert(valid_key("Num6"@));
        },
        Key::Num7 => {
            reveal_strlit("Num7");
            assert(valid_key("Num7"@));
        },
        Key::Num8 => {
            reveal_strlit("Num8");
            assert(valid_key("Num8"@));
        },
        Key::Num9 => {
            reveal_strlit("Num9");
            assert(valid_key("Num9"@));
        },
        Key::Num0 => {
            reveal_strlit("Num0");
            assert(valid_key("Num0"@));
        },
        Key::Minus => {
            reveal_strlit("Minus");
            assert(valid_key("Minus"@));
        },
        Key::Equal => {
            reveal_strlit("Equal");
            assert(valid_key("Equal"@));
        },
        Key::KeyQ => {
            reveal_strlit("KeyQ");
            assert(valid_key("KeyQ"@));
        },
        Key::KeyW => {
            reveal_strlit("KeyW");
            assert(valid_key("KeyW"@));
        },
        Key::KeyE => {
            reveal_strlit("KeyE");
            assert(valid_key("KeyE"@));
        },
        Key::KeyR => {
            reveal_strlit("KeyR");
            assert(valid_key("KeyR"@));
        },
        Key::KeyT => {
            reveal_strlit("KeyT");
            assert(valid_key("KeyT"@));
        },
        Key::KeyY => {
            reveal_strlit("KeyY");
            assert(valid_key("KeyY"@));
        },
        Key::KeyU => {
            reveal_strlit("KeyU");
            assert(valid_key("KeyU"@));
        },
        Key::KeyI => {
            reveal_strlit("KeyI");
            assert(valid_key("KeyI"@));
        },
        Key::KeyO => {
            reveal_strlit("KeyO");
            assert(valid_key("KeyO"@));
        },
        Key::KeyP => {
            reveal_strlit("KeyP");
            assert(valid_key("KeyP"@));
        },
        Key::LeftBracket => {
            reveal_strlit("LeftBracket");
            assert(valid_key("LeftBracket"@));
        },
        Key::RightBracket => {
            reveal_strlit("RightBracket");
            assert(valid_key("RightBracket"@));
        },
        Key::KeyA => {
            reveal_strlit("KeyA");
            assert(valid_key("KeyA"@));
        },
        Key::KeyS => {
            reveal_strlit("KeyS");
            assert(valid_key("KeyS"@));
        },
        Key::KeyD => {
            reveal_strlit("KeyD");
            assert(valid_key("KeyD"@));
        },
        Key::KeyF => {
            reveal_strlit("KeyF");
            assert(valid_key("KeyF"@));
        },
        Key::KeyG => {
            reveal_strlit("KeyG");
            assert(valid_key("KeyG"@));
        },
        Key::KeyH => {
            reveal_strlit("KeyH");
            assert(valid_key("KeyH"@));
        },
        Key::KeyJ => {
            reveal_strlit("KeyJ");
            assert(valid_key("KeyJ"@));
        },
        Key::KeyK => {
            reveal_strlit("KeyK");
            assert(valid_key("KeyK"@));
        },
        Key::KeyL => {
            reveal_strlit("KeyL");
            assert(valid_key("KeyL"@));
        },
        Key::SemiColon => {
            reveal_strlit("SemiColon");
            assert(valid_key("SemiColon"@));
        },
        Key::Quote => {
            reveal_strlit("Quote");
            assert(valid_key("Quote"@));
        },
        Key::BackSlash => {
            reveal_strlit("BackSlash");
            assert(valid_key("BackSlash"@));
        },
        Key::IntlBackslash => {
            reveal_strlit("IntlBackslash");
            assert(valid_key("IntlBackslash"@));
        },
        Key::KeyZ => {
            reveal_strlit("KeyZ");
            assert(valid_key("KeyZ"@));
        },
        Key::KeyX => {
            reveal_strlit("KeyX");
            assert(valid_key("KeyX"@));
        },
        Key::KeyC => {
            reveal_strlit("KeyC");
            assert(valid_key("KeyC"@));
        },
        Key::KeyV => {
            reveal_strlit("KeyV");
            assert(valid_key("KeyV"@));
        },
        Key::KeyB => {
            reveal_strlit("KeyB");
            assert(valid_key("KeyB"@));
        },
        Key::KeyN => {
            reveal_strlit("KeyN");
            assert(valid_key("KeyN"@));
        },
        Key::KeyM => {
            reveal_strlit("KeyM");
            assert(valid_key("KeyM"@));
        },
        Key::Comma => {
            reveal_strlit("Comma");
            assert(valid_key("Comma"@));
        },
        Key::Dot => {
            reveal_strlit("Dot");
            assert(valid_key("Dot"@));
        },
        Key::Slash => {
            reveal_strlit("Slash");
            assert(valid_key("Slash"@));
        },
        Key::Insert => {
            reveal_strlit("Insert");
            assert(valid_key("Insert"@));
        },
        Key::KpReturn => {
            reveal_strlit("KpReturn");
            assert(valid_key("KpReturn"@));
        },
        Key::KpMinus => {
            reveal_strlit("KpMinus");
            assert(valid_key("KpMinus"@));
        },
        Key::KpPlus => {
            reveal_strlit("KpPlus");
            assert(valid_key("KpPlus"@));
        },
        Key::KpMultiply => {
            reveal_strlit("KpMultiply");
            assert(valid_key("KpMultiply"@));
        },
        Key::KpDivide => {
            reveal_strlit("KpDivide");
            assert(valid_key("KpDivide"@));
        },
        Key::Kp0 => {
            reveal_strlit("Kp0");
            assert(valid_key("Kp0"@));
        },
        Key::Kp1 => {
            reveal_strlit("Kp1");
            assert(valid_key("Kp1"@));
        },
        Key::Kp2 => {
            reveal_strlit("Kp2");
            assert(valid_key("Kp2"@));
        },
        Key::Kp3 => {
            reveal_strlit("Kp3");
            assert(valid_key("Kp3"@));
        },
        Key::Kp4 => {
            reveal_strlit("Kp4");
            assert(valid_key("Kp4"@));
        },
        Key::Kp5 => {
            reveal_strlit("Kp5");
            assert(valid_key("Kp5"@));
        },
        Key::Kp6 => {
            reveal_strlit("Kp6");
            assert(valid_key("Kp6"@));
        },
        Key::Kp7 => {
            reveal_strlit("Kp7");
            assert(valid_key("Kp7"@));
        },
        Key::Kp8 => {
            reveal_strlit("Kp8");
            assert(valid_key("Kp8"@));
        },
        Key::Kp9 => {
            reveal_strlit("Kp9");
            assert(valid_key("Kp9"@));
        },
        Key::KpDelete => {
            reveal_strlit("KpDelete");
            assert(valid_key("KpDelete"@));
        },
        Key::Function => {
            reveal_strlit("Function");
            assert(valid_key("Function"@));
        },
        Key::Unknown(n) => {
            reveal_strlit("Unknown(");
            reveal_strlit(")");
            lemma_dec_digits_are_digits(n as nat);
            assert(valid_key("Unknown("@));
            assert(valid_key(")"@));
            let da = dec_digits(n as nat);
            assert("Unknown("@.len() == 8 && ")"@.len() == 1);
            assert forall|i: int| 0 <= i < unknown_id(n).len() implies key_char(
                #[trigger] unknown_id(n)[i],
            ) by {
                if i < 8 {
                    assert(unknown_id(n)[i] == "Unknown("@[i]);
                    assert(key_char("Unknown("@[i]));
                } else if i < 8 + da.len() {
                    assert(unknown_id(n)[i] == ascii_chars(da)[i - 8]);
                    assert(is_digit(da[i - 8]));
                    crate::codec::lemma_key_byte_char(da[i - 8]);
                } else {
                    assert(unknown_id(n)[i] == ")"@[0]);
                    assert(key_char(")"@[0]));
                }
            }
        },
    }
}

/// Distinct keys never share an identifier.
#[verifier::rlimit(100)]
pub proof fn lemma_key_id_injective(k1: Key, k2: Key)
    requires
        k1 != k2,
    ensures
        key_id(k1) != key_id(k2),
{
    reveal_strlit("Alt");
    reveal_strlit("AltGr");
    reveal_strlit("Backspace");
    reveal_strlit("CapsLock");
    reveal_strlit("ControlLeft");
    reveal_strlit("ControlRight");
    reveal_strlit("Delete");
    reveal_strlit("DownArrow");
    reveal_strlit("End");
    reveal_strlit("Escape");
    reveal_strlit("F1");
    reveal_strlit("F10");
    reveal_strlit("F11");
    reveal_strlit("F12");
    reveal_strlit("F2");
    reveal_strlit("F3");
    reveal_strlit("F4");
    reveal_strlit("F5");
    reveal_strlit("F6");
    reveal_strlit("F7");
    reveal_strlit("F8");
    reveal_strlit("F9");
    reveal_strlit("Home");
    reveal_strlit("LeftArrow");
    reveal_strlit("MetaLeft");
    reveal_strlit("MetaRight");
    reveal_strlit("PageDown");
    reveal_strlit("PageUp");
    reveal_strlit("Return");
    reveal_strlit("RightArrow");
    reveal_strlit("ShiftLeft");
    reveal_strlit("ShiftRight");
    reveal_strlit("Space");
    reveal_strlit("Tab");
    reveal_strlit("UpArrow");
    reveal_strlit("PrintScreen");
    reveal_strlit("ScrollLock");
    reveal_strlit("Pause");
    reveal_strlit("NumLock");
    reveal_strlit("BackQuote");
    reveal_strlit("Num1");
    reveal_strlit("Num2");
    reveal_strlit("Num3");
    reveal_strlit("Num4");
    reveal_strlit("Num5");
    reveal_strlit("Num6");
    reveal_strlit("Num7");
    reveal_strlit("Num8");
    reveal_strlit("Num9");
    reveal_strlit("Num0");
    reveal_strlit("Minus");
    reveal_strlit("Equal");
    reveal_strlit("KeyQ");
    reveal_strlit("KeyW");
    reveal_strlit("KeyE");
    reveal_strlit("KeyR");
    reveal_strlit("KeyT");
    reveal_strlit("KeyY");
    reveal_strlit("KeyU");
    reveal_strlit("KeyI");
    reveal_strlit("KeyO");
    reveal_strlit("KeyP");
    reveal_strlit("LeftBracket");
    reveal_strlit("RightBracket");
    reveal_strlit("KeyA");
    reveal_strlit("KeyS");
    reveal_strlit("KeyD");
    reveal_strlit("KeyF");
    reveal_strlit("KeyG");
    reveal_strlit("KeyH");
    reveal_strlit("KeyJ");
    reveal_strlit("KeyK");
    reveal_strlit("KeyL");
    reveal_strlit("SemiColon");
    reveal_strlit("Quote");
    reveal_strlit("BackSlash");
    reveal_strlit("IntlBackslash");
    reveal_strlit("KeyZ");
    reveal_strlit("KeyX");
    reveal_strlit("KeyC");
    reveal_strlit("KeyV");
    reveal_strlit("KeyB");
    reveal_strlit("KeyN");
    reveal_strlit("KeyM");
    reveal_strlit("Comma");
    reveal_strlit("Dot");
    reveal_strlit("Slash");
    reveal_strlit("Insert");
    reveal_strlit("KpReturn");
    reveal_strlit("KpMinus");
    reveal_strlit("KpPlus");
    reveal_strlit("KpMultiply");
    reveal_strlit("KpDivide");
    reveal_strlit("Kp0");
    reveal_strlit("Kp1");
    reveal_strlit("Kp2");
    reveal_strlit("Kp3");
    reveal_strlit("Kp4");
    reveal_strlit("Kp5");
    reveal_strlit("Kp6");
    reveal_strlit("Kp7");
    reveal_strlit("Kp8");
    reveal_strlit("Kp9");
    reveal_strlit("KpDelete");
    reveal_strlit("Function");
    assert("Alt"@.len() == 3);
    assert("AltGr"@.len() == 5);
    assert("Backspace"@.len() == 9);
    assert("CapsLock"@.len() == 8);
    assert("ControlLeft"@.len() == 11);
    assert("ControlRight"@.len() == 12);
    assert("Delete"@.len() == 6);
    assert("DownArrow"@.len() == 9);
    assert("End"@.len() == 3);
    assert("Escape"@.len() == 6);
    assert("F1"@.len() == 2);
    assert("F10"@.len() == 3);
    assert("F11"@.len() == 3);
    assert("F12"@.len() == 3);
    assert("F2"@.len() == 2);
    assert("F3"@.len() == 2);
    assert("F4"@.len() == 2);
    assert("F5"@.len() == 2);
    assert("F6"@.len() == 2);
    assert("F7"@.len() == 2);
    assert("F8"@.len() == 2);
    assert("F9"@.len() == 2);
    assert("Home"@.len() == 4);
    assert("LeftArrow"@.len() == 9);
    assert("MetaLeft"@.len() == 8);
    assert("MetaRight"@.len() == 9);
    assert("PageDown"@.len() == 8);
    assert("PageUp"@.len() == 6);
    assert("Return"@.len() == 6);
    assert("RightArrow"@.len() == 10);
    assert("ShiftLeft"@.len() == 9);
    assert("ShiftRight"@.len() == 10);
    assert("Space"@.len() == 5);
    assert("Tab"@.len() == 3);
    assert("UpArrow"@.len() == 7);
    assert("PrintScreen"@.len() == 11);
    assert("ScrollLock"@.len() == 10);
    assert("Pause"@.len() == 5);
    assert("NumLock"@.len() == 7);
    assert("BackQuote"@.len() == 9);
    assert("Num1"@.len() == 4);
    assert("Num2"@.len() == 4);
    assert("Num3"@.len() == 4);
    assert("Num4"@.len() == 4);
    assert("Num5"@.len() == 4);
    assert("Num6"@.len() == 4);
    assert("Num7"@.len() == 4);
    assert("Num8"@.len() == 4);
    assert("Num9"@.len() == 4);
    assert("Num0"@.len() == 4);
    assert("Minus"@.len() == 5);
    assert("Equal"@.len() == 5);
    assert("KeyQ"@.len() == 4);
    assert("KeyW"@.len() == 4);
    assert("KeyE"@.len() == 4);
    assert("KeyR"@.len() == 4);
    assert("KeyT"@.len() == 4);
    assert("KeyY"@.len() == 4);
    assert("KeyU"@.len() == 4);
    assert("KeyI"@.len() == 4);
    assert("KeyO"@.len() == 4);
    assert("KeyP"@.len() == 4);
    assert("LeftBracket"@.len() == 11);
    assert("RightBracket"@.len() == 12);
    assert("KeyA"@.len() == 4);
    assert("KeyS"@.len() == 4);
    assert("KeyD"@.len() == 4);
    assert("KeyF"@.len() == 4);
    assert("KeyG"@.len() == 4);
    assert("KeyH"@.len() == 4);
    assert("KeyJ"@.len() == 4);
    assert("KeyK"@.len() == 4);
    assert("KeyL"@.len() == 4);
    assert("SemiColon"@.len() == 9);
    assert("Quote"@.len() == 5);
    assert("BackSlash"@.len() == 9);
    assert("IntlBackslash"@.len() == 13);
    assert("KeyZ"@.len() == 4);
    assert("KeyX"@.len() == 4);
    assert("KeyC"@.len() == 4);
    assert("KeyV"@.len() == 4);
    assert("KeyB"@.len() == 4);
    assert("KeyN"@.len() == 4);
    assert("KeyM"@.len() == 4);
    assert("Comma"@.len() == 5);
    assert("Dot"@.len() == 3);
    assert("Slash"@.len() == 5);
    assert("Insert"@.len() == 6);
    assert("KpReturn"@.len() == 8);
    assert("KpMinus"@.len() == 7);
    assert("KpPlus"@.len() == 6);
    assert("KpMultiply"@.len() == 10);
    assert("KpDivide"@.len() == 8);
    assert("Kp0"@.len() == 3);
    assert("Kp1"@.len() == 3);
    assert("Kp2"@.len() == 3);
    assert("Kp3"@.len() == 3);
    assert("Kp4"@.len() == 3);
    assert("Kp5"@.len() == 3);
    assert("Kp6"@.len() == 3);
    assert("Kp7"@.len() == 3);
    assert("Kp8"@.len() == 3);
    assert("Kp9"@.len() == 3);
    assert("KpDelete"@.len() == 8);
    assert("Function"@.len() == 8);
    assert("Alt"@[0] == 'A');
    assert("Alt"@[1] == 'l');
    assert("Alt"@[2] == 't');
    assert("AltGr"@[0] == 'A');
    assert("AltGr"@[1] == 'l');
    assert("AltGr"@[2] == 't');
    assert("AltGr"@[3] == 'G');
    assert("AltGr"@[4] == 'r');
    assert("Backspace"@[0] == 'B');
    assert("Backspace"@[1] == 'a');
    assert("Backspace"@[2] == 'c');
    assert("Backspace"@[3] == 'k');
    assert("Backspace"@[4] == 's');
    assert("Backspace"@[5] == 'p');
    assert("Backspace"@[6] == 'a');
    assert("Backspace"@[7] == 'c');
    assert("Backspace"@[8] == 'e');
    assert("CapsLock"@[0] == 'C');
    assert("CapsLock"@[1] == 'a');
    assert("CapsLock"@[2] == 'p');
    assert("CapsLock"@[3] == 's');
    assert("CapsLock"@[4] == 'L');
    assert("CapsLock"@[5] == 'o');
    assert("CapsLock"@[6] == 'c');
    assert("CapsLock"@[7] == 'k');
    assert("ControlLeft"@[0] == 'C');
    assert("ControlLeft"@[1] == 'o');
    assert("ControlLeft"@[2] == 'n');
    assert("ControlLeft"@[3] == 't');
    assert("ControlLeft"@[4] == 'r');
    assert("ControlLeft"@[5] == 'o');
    assert("ControlLeft"@[6] == 'l');
    assert("ControlLeft"@[7] == 'L');
    assert("ControlLeft"@[8] == 'e');
    assert("ControlLeft"@[9] == 'f');
    assert("ControlLeft"@[10] == 't');
    assert("ControlRight"@[0] == 'C');
    assert("ControlRight"@[1] == 'o');
    assert("ControlRight"@[2] == 'n');
    assert("ControlRight"@[3] == 't');
    assert("ControlRight"@[4] == 'r');
    assert("ControlRight"@[5] == 'o');
    assert("ControlRight"@[6] == 'l');
    assert("ControlRight"@[7] == 'R');
    assert("ControlRight"@[8] == 'i');
    assert("ControlRight"@[9] == 'g');
    assert("ControlRight"@[10] == 'h');
    assert("ControlRight"@[11] == 't');
    assert("Delete"@[0] == 'D');
    assert("Delete"@[1] == 'e');
    assert("Delete"@[2] == 'l');
    assert("Delete"@[3] == 'e');
    assert("Delete"@[4] == 't');
    assert("Delete"@[5] == 'e');
    assert("DownArrow"@[0] == 'D');
    assert("DownArrow"@[1] == 'o');
    assert("DownArrow"@[2] == 'w');
    assert("DownArrow"@[3] == 'n');
    assert("DownArrow"@[4] == 'A');
    assert("DownArrow"@[5] == 'r');
    assert("DownArrow"@[6] == 'r');
    assert("DownArrow"@[7] == 'o');
    assert("DownArrow"@[8] == 'w');
    assert("End"@[0] == 'E');
    assert("End"@[1] == 'n');
    assert("End"@[2] == 'd');
    assert("Escape"@[0] == 'E');
    assert("Escape"@[1] == 's');
    assert("Escape"@[2] == 'c');
    assert("Escape"@[3] == 'a');
    assert("Escape"@[4] == 'p');
    assert("Escape"@[5] == 'e');
    assert("F1"@[0] == 'F');
    assert("F1"@[1] == '1');
    assert("F10"@[0] == 'F');
    assert("F10"@[1] == '1');
    assert("F10"@[2] == '0');
    assert("F11"@[0] == 'F');
    assert("F11"@[1] == '1');
    assert("F11"@[2] == '1');
    assert("F12"@[0] == 'F');
    assert("F12"@[1] == '1');
    assert("F12"@[2] == '2');
    assert("F2"@[0] == 'F');
    assert("F2"@[1] == '2');
    assert("F3"@[0] == 'F');
    assert("F3"@[1] == '3');
    assert("F4"@[0] == 'F');
    assert("F4"@[1] == '4');
    assert("F5"@[0] == 'F');
    assert("F5"@[1] == '5');
    assert("F6"@[0] == 'F');
    assert("F6"@[1] == '6');
    assert("F7"@[0] == 'F');
    assert("F7"@[1] == '7');
    assert("F8"@[0] == 'F');
    assert("F8"@[1] == '8');
    assert("F9"@[0] == 'F');
    assert("F9"@[1] == '9');
    assert("Home"@[0] == 'H');
    assert("Home"@[1] == 'o');
    assert("Home"@[2] == 'm');
    assert("Home"@[3] == 'e');
    assert("LeftArrow"@[0] == 'L');
    assert("LeftArrow"@[1] == 'e');
    assert("LeftArrow"@[2] == 'f');
    assert("LeftArrow"@[3] == 't');
    assert("LeftArrow"@[4] == 'A');
    assert("LeftArrow"@[5] == 'r');
    assert("LeftArrow"@[6] == 'r');
    assert("LeftArrow"@[7] == 'o');
    assert("LeftArrow"@[8] == 'w');
    assert("MetaLeft"@[0] == 'M');
    assert("MetaLeft"@[1] == 'e');
    assert("MetaLeft"@[2] == 't');
    assert("MetaLeft"@[3] == 'a');
    assert("MetaLeft"@[4] == 'L');
    assert("MetaLeft"@[5] == 'e');
    assert("MetaLeft"@[6] == 'f');
    assert("MetaLeft"@[7] == 't');
    assert("MetaRight"@[0] == 'M');
    assert("MetaRight"@[1] == 'e');
    assert("MetaRight"@[2] == 't');
    assert("MetaRight"@[3] == 'a');
    assert("MetaRight"@[4] == 'R');
    assert("MetaRight"@[5] == 'i');
    assert("MetaRight"@[6] == 'g');
    assert("MetaRight"@[7] == 'h');
    assert("MetaRight"@[8] == 't');
    assert("PageDown"@[0] == 'P');
    assert("PageDown"@[1] == 'a');
    assert("PageDown"@[2] == 'g');
    assert("PageDown"@[3] == 'e');
    assert("PageDown"@[4] == 'D');
    assert("PageDown"@[5] == 'o');
    assert("PageDown"@[6] == 'w');
    assert("PageDown"@[7] == 'n');
    assert("PageUp"@[0] == 'P');
    assert("PageUp"@[1] == 'a');
    assert("PageUp"@[2] == 'g');
    assert("PageUp"@[3] == 'e');
    assert("PageUp"@[4] == 'U');
    assert("PageUp"@[5] == 'p');
    assert("Return"@[0] == 'R');
    assert("Return"@[1] == 'e');
    assert("Return"@[2] == 't');
    assert("Return"@[3] == 'u');
    assert("Return"@[4] == 'r');
    assert("Return"@[5] == 'n');
    assert("RightArrow"@[0] == 'R');
    assert("RightArrow"@[1] == 'i');
    assert("RightArrow"@[2] == 'g');
    assert("RightArrow"@[3] == 'h');
    assert("RightArrow"@[4] == 't');
    assert("RightArrow"@[5] == 'A');
    assert("RightArrow"@[6] == 'r');
    assert("RightArrow"@[7] == 'r');
    assert("RightArrow"@[8] == 'o');
    assert("RightArrow"@[9] == 'w');
    assert("ShiftLeft"@[0] == 'S');
    assert("ShiftLeft"@[1] == 'h');
    assert("ShiftLeft"@[2] == 'i');
    assert("ShiftLeft"@[3] == 'f');
    assert("ShiftLeft"@[4] == 't');
    assert("ShiftLeft"@[5] == 'L');
    assert("ShiftLeft"@[6] == 'e');
    assert("ShiftLeft"@[7] == 'f');
    assert("ShiftLeft"@[8] == 't');
    assert("ShiftRight"@[0] == 'S');
    assert("ShiftRight"@[1] == 'h');
    assert("ShiftRight"@[2] == 'i');
    assert("ShiftRight"@[3] == 'f');
    assert("ShiftRight"@[4] == 't');
    assert("ShiftRight"@[5] == 'R');
    assert("ShiftRight"@[6] == 'i');
    assert("ShiftRight"@[7] == 'g');
    assert("ShiftRight"@[8] == 'h');
    assert("ShiftRight"@[9] == 't');
    assert("Space"@[0] == 'S');
    assert("Space"@[1] == 'p');
    assert("Space"@[2] == 'a');
    assert("Space"@[3] == 'c');
    assert("Space"@[4] == 'e');
    assert("Tab"@[0] == 'T');
    assert("Tab"@[1] == 'a');
    assert("Tab"@[2] == 'b');
    assert("UpArrow"@[0] == 'U');
    assert("UpArrow"@[1] == 'p');
    assert("UpArrow"@[2] == 'A');
    assert("UpArrow"@[3] == 'r');
    assert("UpArrow"@[4] == 'r');
    assert("UpArrow"@[5] == 'o');
    assert("UpArrow"@[6] == 'w');
    assert("PrintScreen"@[0] == 'P');
    assert("PrintScreen"@[1] == 'r');
    assert("PrintScreen"@[2] == 'i');
    assert("PrintScreen"@[3] == 'n');
    assert("PrintScreen"@[4] == 't');
    assert("PrintScreen"@[5] == 'S');
    assert("PrintScreen"@[6] == 'c');
    assert("PrintScreen"@[7] == 'r');
    assert("PrintScreen"@[8] == 'e');
    assert("PrintScreen"@[9] == 'e');
    assert("PrintScreen"@[10] == 'n');
    assert("ScrollLock"@[0] == 'S');
    assert("ScrollLock"@[1] == 'c');
    assert("ScrollLock"@[2] == 'r');
    assert("ScrollLock"@[3] == 'o');
    assert("ScrollLock"@[4] == 'l');
    assert("ScrollLock"@[5] == 'l');
    assert("ScrollLock"@[6] == 'L');
    assert("ScrollLock"@[7] == 'o');
    assert("ScrollLock"@[8] == 'c');
    assert("ScrollLock"@[9] == 'k');
    assert("Pause"@[0] == 'P');
    assert("Pause"@[1] == 'a');
    assert("Pause"@[2] == 'u');
    assert("Pause"@[3] == 's');
    assert("Pause"@[4] == 'e');
    assert("NumLock"@[0] == 'N');
    assert("NumLock"@[1] == 'u');
    assert("NumLock"@[2] == 'm');
    assert("NumLock"@[3] == 'L');
    assert("NumLock"@[4] == 'o');
    assert("NumLock"@[5] == 'c');
    assert("NumLock"@[6] == 'k');
    assert("BackQuote"@[0] == 'B');
    assert("BackQuote"@[1] == 'a');
    assert("BackQuote"@[2] == 'c');
    assert("BackQuote"@[3] == 'k');
    assert("BackQuote"@[4] == 'Q');
    assert("BackQuote"@[5] == 'u');
    assert("BackQuote"@[6] == 'o');
    assert("BackQuote"@[7] == 't');
    assert("BackQuote"@[8] == 'e');
    assert("Num1"@[0] == 'N');
    assert("Num1"@[1] == 'u');
    assert("Num1"@[2] == 'm');
    assert("Num1"@[3] == '1');
    assert("Num2"@[0] == 'N');
    assert("Num2"@[1] == 'u');
    assert("Num2"@[2] == 'm');
    assert("Num2"@[3] == '2');
    assert("Num3"@[0] == 'N');
    assert("Num3"@[1] == 'u');
    assert("Num3"@[2] == 'm');
    assert("Num3"@[3] == '3');
    assert("Num4"@[0] == 'N');
    assert("Num4"@[1] == 'u');
    assert("Num4"@[2] == 'm');
    assert("Num4"@[3] == '4');
    assert("Num5"@[0] == 'N');
    assert("Num5"@[1] == 'u');
    assert("Num5"@[2] == 'm');
    assert("Num5"@[3] == '5');
    assert("Num6"@[0] == 'N');
    assert("Num6"@[1] == 'u');
    assert("Num6"@[2] == 'm');
    assert("Num6"@[3] == '6');
    assert("Num7"@[0] == 'N');
    assert("Num7"@[1] == 'u');
    assert("Num7"@[2] == 'm');
    assert("Num7"@[3] == '7');
    assert("Num8"@[0] == 'N');
    assert("Num8"@[1] == 'u');
    assert("Num8"@[2] == 'm');
    assert("Num8"@[3] == '8');
    assert("Num9"@[0] == 'N');
    assert("Num9"@[1] == 'u');
    assert("Num9"@[2] == 'm');
    assert("Num9"@[3] == '9');
    assert("Num0"@[0] == 'N');
    assert("Num0"@[1] == 'u');
    assert("Num0"@[2] == 'm');
    assert("Num0"@[3] == '0');
    assert("Minus"@[0] == 'M');
    assert("Minus"@[1] == 'i');
    assert("Minus"@[2] == 'n');
    assert("Minus"@[3] == 'u');
    assert("Minus"@[4] == 's');
    assert("Equal"@[0] == 'E');
    assert("Equal"@[1] == 'q');
    assert("Equal"@[2] == 'u');
    assert("Equal"@[3] == 'a');
    assert("Equal"@[4] == 'l');
    assert("KeyQ"@[0] == 'K');
    assert("KeyQ"@[1] == 'e');
    assert("KeyQ"@[2] == 'y');
    assert("KeyQ"@[3] == 'Q');
    assert("KeyW"@[0] == 'K');
    assert("KeyW"@[1] == 'e');
    assert("KeyW"@[2] == 'y');
    assert("KeyW"@[3] == 'W');
    assert("KeyE"@[0] == 'K');
    assert("KeyE"@[1] == 'e');
    assert("KeyE"@[2] == 'y');
    assert("KeyE"@[3] == 'E');
    assert("KeyR"@[0] == 'K');
    assert("KeyR"@[1] == 'e');
    assert("KeyR"@[2] == 'y');
    assert("KeyR"@[3] == 'R');
    assert("KeyT"@[0] == 'K');
    assert("KeyT"@[1] == 'e');
    assert("KeyT"@[2] == 'y');
    assert("KeyT"@[3] == 'T');
    assert("KeyY"@[0] == 'K');
    assert("KeyY"@[1] == 'e');
    assert("KeyY"@[2] == 'y');
    assert("KeyY"@[3] == 'Y');
    assert("KeyU"@[0] == 'K');
    assert("KeyU"@[1] == 'e');
    assert("KeyU"@[2] == 'y');
    assert("KeyU"@[3] == 'U');
    assert("KeyI"@[0] == 'K');
    assert("KeyI"@[1] == 'e');
    assert("KeyI"@[2] == 'y');
    assert("KeyI"@[3] == 'I');
    assert("KeyO"@[0] == 'K');
    assert("KeyO"@[1] == 'e');
    assert("KeyO"@[2] == 'y');
    assert("KeyO"@[3] == 'O');
    assert("KeyP"@[0] == 'K');
    assert("KeyP"@[1] == 'e');
    assert("KeyP"@[2] == 'y');
    assert("KeyP"@[3] == 'P');
    assert("LeftBracket"@[0] == 'L');
    assert("LeftBracket"@[1] == 'e');
    assert("LeftBracket"@[2] == 'f');
    assert("LeftBracket"@[3] == 't');
    assert("LeftBracket"@[4] == 'B');
    assert("LeftBracket"@[5] == 'r');
    assert("LeftBracket"@[6] == 'a');
    assert("LeftBracket"@[7] == 'c');
    assert("LeftBracket"@[8] == 'k');
    assert("LeftBracket"@[9] == 'e');
    assert("LeftBracket"@[10] == 't');
    assert("RightBracket"@[0] == 'R');
    assert("RightBracket"@[1] == 'i');
    assert("RightBracket"@[2] == 'g');
    assert("RightBracket"@[3] == 'h');
    assert("RightBracket"@[4] == 't');
    assert("RightBracket"@[5] == 'B');
    assert("RightBracket"@[6] == 'r');
    assert("RightBracket"@[7] == 'a');
    assert("RightBracket"@[8] == 'c');
    assert("RightBracket"@[9] == 'k');
    assert("RightBracket"@[10] == 'e');
    assert("RightBracket"@[11] == 't');
    assert("KeyA"@[0] == 'K');
    assert("KeyA"@[1] == 'e');
    assert("KeyA"@[2] == 'y');
    assert("KeyA"@[3] == 'A');
    assert("KeyS"@[0] == 'K');
    assert("KeyS"@[1] == 'e');
    assert("KeyS"@[2] == 'y');
    assert("KeyS"@[3] == 'S');
    assert("KeyD"@[0] == 'K');
    assert("KeyD"@[1] == 'e');
    assert("KeyD"@[2] == 'y');
    assert("KeyD"@[3] == 'D');
    assert("KeyF"@[0] == 'K');
    assert("KeyF"@[1] == 'e');
    assert("KeyF"@[2] == 'y');
    assert("KeyF"@[3] == 'F');
    assert("KeyG"@[0] == 'K');
    assert("KeyG"@[1] == 'e');
    assert("KeyG"@[2] == 'y');
    assert("KeyG"@[3] == 'G');
    assert("KeyH"@[0] == 'K');
    assert("KeyH"@[1] == 'e');
    assert("KeyH"@[2] == 'y');
    assert("KeyH"@[3] == 'H');
    assert("KeyJ"@[0] == 'K');
    assert("KeyJ"@[1] == 'e');
    assert("KeyJ"@[2] == 'y');
    assert("KeyJ"@[3] == 'J');
    assert("KeyK"@[0] == 'K');
    assert("KeyK"@[1] == 'e');
    assert("KeyK"@[2] == 'y');
    assert("KeyK"@[3] == 'K');
    assert("KeyL"@[0] == 'K');
    assert("KeyL"@[1] == 'e');
    assert("KeyL"@[2] == 'y');
    assert("KeyL"@[3] == 'L');
    assert("SemiColon"@[0] == 'S');
    assert("SemiColon"@[1] == 'e');
    assert("SemiColon"@[2] == 'm');
    assert("SemiColon"@[3] == 'i');
    assert("SemiColon"@[4] == 'C');
    assert("SemiColon"@[5] == 'o');
    assert("SemiColon"@[6] == 'l');
    assert("SemiColon"@[7] == 'o');
    assert("SemiColon"@[8] == 'n');
    assert("Quote"@[0] == 'Q');
    assert("Quote"@[1] == 'u');
    assert("Quote"@[2] == 'o');
    assert("Quote"@[3] == 't');
    assert("Quote"@[4] == 'e');
    assert("BackSlash"@[0] == 'B');
    assert("BackSlash"@[1] == 'a');
    assert("BackSlash"@[2] == 'c');
    assert("BackSlash"@[3] == 'k');
    assert("BackSlash"@[4] == 'S');
    assert("BackSlash"@[5] == 'l');
    assert("BackSlash"@[6] == 'a');
    assert("BackSlash"@[7] == 's');
    assert("BackSlash"@[8] == 'h');
    assert("IntlBackslash"@[0] == 'I');
    assert("IntlBackslash"@[1] == 'n');
    assert("IntlBackslash"@[2] == 't');
    assert("IntlBackslash"@[3] == 'l');
    assert("IntlBackslash"@[4] == 'B');
    assert("IntlBackslash"@[5] == 'a');
    assert("IntlBackslash"@[6] == 'c');
    assert("IntlBackslash"@[7] == 'k');
    assert("IntlBackslash"@[8] == 's');
    assert("IntlBackslash"@[9] == 'l');
    assert("IntlBackslash"@[10] == 'a');
    assert("IntlBackslash"@[11] == 's');
    assert("IntlBackslash"@[12] == 'h');
    assert("KeyZ"@[0] == 'K');
    assert("KeyZ"@[1] == 'e');
    assert("KeyZ"@[2] == 'y');
    assert("KeyZ"@[3] == 'Z');
    assert("KeyX"@[0] == 'K');
    assert("KeyX"@[1] == 'e');
    assert("KeyX"@[2] == 'y');
    assert("KeyX"@[3] == 'X');
    assert("KeyC"@[0] == 'K');
    assert("KeyC"@[1] == 'e');
    assert("KeyC"@[2] == 'y');
    assert("KeyC"@[3] == 'C');
    assert("KeyV"@[0] == 'K');
    assert("KeyV"@[1] == 'e');
    assert("KeyV"@[2] == 'y');
    assert("KeyV"@[3] == 'V');
    assert("KeyB"@[0] == 'K');
    assert("KeyB"@[1] == 'e');
    assert("KeyB"@[2] == 'y');
    assert("KeyB"@[3] == 'B');
    assert("KeyN"@[0] == 'K');
    assert("KeyN"@[1] == 'e');
    assert("KeyN"@[2] == 'y');
    assert("KeyN"@[3] == 'N');
    assert("KeyM"@[0] == 'K');
    assert("KeyM"@[1] == 'e');
    assert("KeyM"@[2] == 'y');
    assert("KeyM"@[3] == 'M');
    assert("Comma"@[0] == 'C');
    assert("Comma"@[1] == 'o');
    assert("Comma"@[2] == 'm');
    assert("Comma"@[3] == 'm');
    assert("Comma"@[4] == 'a');
    assert("Dot"@[0] == 'D');
    assert("Dot"@[1] == 'o');
    assert("Dot"@[2] == 't');
    assert("Slash"@[0] == 'S');
    assert("Slash"@[1] == 'l');
    assert("Slash"@[2] == 'a');
    assert("Slash"@[3] == 's');
    assert("Slash"@[4] == 'h');
    assert("Insert"@[0] == 'I');
    assert("Insert"@[1] == 'n');
    assert("Insert"@[2] == 's');
    assert("Insert"@[3] == 'e');
    assert("Insert"@[4] == 'r');
    assert("Insert"@[5] == 't');
    assert("KpReturn"@[0] == 'K');
    assert("KpReturn"@[1] == 'p');
    assert("KpReturn"@[2] == 'R');
    assert("KpReturn"@[3] == 'e');
    assert("KpReturn"@[4] == 't');
    assert("KpReturn"@[5] == 'u');
    assert("KpReturn"@[6] == 'r');
    assert("KpReturn"@[7] == 'n');
    assert("KpMinus"@[0] == 'K');
    assert("KpMinus"@[1] == 'p');
    assert("KpMinus"@[2] == 'M');
    assert("KpMinus"@[3] == 'i');
    assert("KpMinus"@[4] == 'n');
    assert("KpMinus"@[5] == 'u');
    assert("KpMinus"@[6] == 's');
    assert("KpPlus"@[0] == 'K');
    assert("KpPlus"@[1] == 'p');
    assert("KpPlus"@[2] == 'P');
    assert("KpPlus"@[3] == 'l');
    assert("KpPlus"@[4] == 'u');
    assert("KpPlus"@[5] == 's');
    assert("KpMultiply"@[0] == 'K');
    assert("KpMultiply"@[1] == 'p');
    assert("KpMultiply"@[2] == 'M');
    assert("KpMultiply"@[3] == 'u');
    assert("KpMultiply"@[4] == 'l');
    assert("KpMultiply"@[5] == 't');
    assert("KpMultiply"@[6] == 'i');
    assert("KpMultiply"@[7] == 'p');
    assert("KpMultiply"@[8] == 'l');
    assert("KpMultiply"@[9] == 'y');
    assert("KpDivide"@[0] == 'K');
    assert("KpDivide"@[1] == 'p');
    assert("KpDivide"@[2] == 'D');
    assert("KpDivide"@[3] == 'i');
    assert("KpDivide"@[4] == 'v');
    assert("KpDivide"@[5] == 'i');
    assert("KpDivide"@[6] == 'd');
    assert("KpDivide"@[7] == 'e');
    assert("Kp0"@[0] == 'K');
    assert("Kp0"@[1] == 'p');
    assert("Kp0"@[2] == '0');
    assert("Kp1"@[0] == 'K');
    assert("Kp1"@[1] == 'p');
    assert("Kp1"@[2] == '1');
    assert("Kp2"@[0] == 'K');
    assert("Kp2"@[1] == 'p');
    assert("Kp2"@[2] == '2');
    assert("Kp3"@[0] == 'K');
    assert("Kp3"@[1] == 'p');
    assert("Kp3"@[2] == '3');
    assert("Kp4"@[0] == 'K');
    assert("Kp4"@[1] == 'p');
    assert("Kp4"@[2] == '4');
    assert("Kp5"@[0] == 'K');
    assert("Kp5"@[1] == 'p');
    assert("Kp5"@[2] == '5');
    assert("Kp6"@[0] == 'K');
    assert("Kp6"@[1] == 'p');
    assert("Kp6"@[2] == '6');
    assert("Kp7"@[0] == 'K');
    assert("Kp7"@[1] == 'p');
    assert("Kp7"@[2] == '7');
    assert("Kp8"@[0] == 'K');
    assert("Kp8"@[1] == 'p');
    assert("Kp8"@[2] == '8');
    assert("Kp9"@[0] == 'K');
    assert("Kp9"@[1] == 'p');
    assert("Kp9"@[2] == '9');
    assert("KpDelete"@[0] == 'K');
    assert("KpDelete"@[1] == 'p');
    assert("KpDelete"@[2] == 'D');
    assert("KpDelete"@[3] == 'e');
    assert("KpDelete"@[4] == 'l');
    assert("KpDelete"@[5] == 'e');
    assert("KpDelete"@[6] == 't');
    assert("KpDelete"@[7] == 'e');
    assert("Function"@[0] == 'F');
    assert("Function"@[1] == 'u');
    assert("Function"@[2] == 'n');
    assert("Function"@[3] == 'c');
    assert("Function"@[4] == 't');
    assert("Function"@[5] == 'i');
    assert("Function"@[6] == 'o');
    assert("Function"@[7] == 'n');
    match (k1, k2) {
        (Key::Unknown(a), Key::Unknown(b)) => {
            lemma_unknown_inj(a, b);
        },
        (Key::Unknown(a), _) => {
            lemma_unknown_shape(a);
            assert(key_id(k1) != key_id(k2));
        },
        (_, Key::Unknown(b)) => {
            lemma_unknown_shape(b);
            assert(key_id(k1) != key_id(k2));
        },
        _ => {
            assert(key_id(k1) != key_id(k2));
        },
    }
}

} // verus!
