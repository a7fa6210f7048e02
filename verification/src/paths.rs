//! Day-file naming: one file per local calendar date under `stats/`,
//! named `YY.MM.DD.json`.

use vstd::prelude::*;
use crate::codec::{ascii_chars, string_from_ascii};

verus! {

/// The two zero-padded decimal digit bytes of `n` (taken modulo 100).
pub open spec fn two_digit_b(n: nat) -> Seq<u8> {
    seq![(48 + (n % 100) / 10) as u8, (48 + n % 10) as u8]
}

/// The date token `YY.MM.DD`: two digits each, dot-separated.
pub open spec fn date_token(yy: nat, month: nat, day: nat) -> Seq<char> {
    ascii_chars(two_digit_b(yy) + seq![46u8] + two_digit_b(month) + seq![46u8] + two_digit_b(day))
}

/// The day-file path for a date token.
pub open spec fn stats_path_of(date: Seq<char>) -> Seq<char> {
    "stats/"@ + date + ".json"@
}

/// Renders the `YY.MM.DD` token of a date.
pub fn date_file_token(yy: u32, month: u32, day: u32) -> (s: String)
    requires
        yy < 100,
        month < 100,
        day < 100,
    ensures
        s@ == date_token(yy as nat, month as nat, day as nat),
{
    let mut b: Vec<u8> = Vec::new();
    b.push((yy / 10) as u8 + 48);
    b.push((yy % 10) as u8 + 48);
    b.push(46);
    b.push((month / 10) as u8 + 48);
    b.push((month % 10) as u8 + 48);
    b.push(46);
    b.push((day / 10) as u8 + 48);
    b.push((day % 10) as u8 + 48);
    proof {
        assert(b@ =~= two_digit_b(yy as nat) + seq![46u8] + two_digit_b(month as nat)
            + seq![46u8] + two_digit_b(day as nat));
        assert(forall|i: int| 0 <= i < b@.len() ==> #[trigger] b@[i] < 0x80);
    }
    string_from_ascii(b)
}

/// The day-file path for a date token, `stats/<date>.json`.
pub fn get_stats_path(date: &str) -> (p: String)
    ensures
        p@ == stats_path_of(date@),
{
    let mut p = "stats/".to_owned();
    vstd::string::StringExecFns::append(&mut p, date);
    vstd::string::StringExecFns::append(&mut p, ".json");
    p
}

/// Relies on chrono's `Local::now` and `Datelike`: the local calendar date,
/// with the month in 1..=12 and the day of month in 1..=31.
#[verifier::external_body]
pub fn today_ymd() -> (r: (i32, u32, u32))
    ensures
        1 <= r.1 <= 12,
        1 <= r.2 <= 31,
{
    let now = chrono::Local::now().date_naive();
    (
        chrono::Datelike::year(&now),
        chrono::Datelike::month(&now),
        chrono::Datelike::day(&now),
    )
}

/// The day-file path for the moment of the call, `stats/YY.MM.DD.json` for
/// the local date now; the date is read afresh on every call, never cached.
pub fn today_file_path() -> (p: String)
    ensures
        exists|yy: nat, month: nat, day: nat|
            yy < 100 && 1 <= month <= 12 && 1 <= day <= 31 && p@ == stats_path_of(
                #[trigger] date_token(yy, month, day),
            ),
{
    let (y, month, day) = today_ymd();
    let yy: u32 = (((y % 100) + 100) % 100) as u32;
    let token = date_file_token(yy, month, day);
    let p = get_stats_path(token.as_str());
    proof {
        assert(yy < 100 && 1 <= month <= 12 && 1 <= day <= 31 && p@ == stats_path_of(
            date_token(yy as nat, month as nat, day as nat),
        ));
    }
    p
}

} // verus!
