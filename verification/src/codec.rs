//! The day-file format: a pretty-printed JSON object `{"keys": {...}}`
//! mapping each key identifier to its count, written and read here byte by
//! byte with proofs that reading undoes writing.

use vstd::prelude::*;
use crate::num::{dec_digits, is_digit, val_of, pow10, lemma_dec_digits_are_digits,
    lemma_dec_digits_val, lemma_u32_digits_len, lemma_val_bound, lemma_pow10_mono, push_dec};
use crate::stats::{DayStats, pairs_view, valid_key, key_char};

verus! {

/// The bytes of an ASCII character sequence, one byte per character.
pub open spec fn ascii_seq(s: Seq<char>) -> Seq<u8> {
    Seq::new(s.len(), |i: int| s[i] as u8)
}

/// The characters denoted by a sequence of ASCII bytes.
pub open spec fn ascii_chars(b: Seq<u8>) -> Seq<char> {
    Seq::new(b.len(), |i: int| b[i] as char)
}

/// An ASCII character survives the trip through its byte.
pub proof fn lemma_char_byte_round(c: char)
    requires
        (c as u32) < 127,
    ensures
        (c as u8) as char == c,
        (c as u8) as u32 == c as u32,
        '\0' <= c <= '\u{7f}',
{
    broadcast use vstd::utf8::char_u32_cast;

    assert((c as u8) as u32 == c as u32);
    assert('\0' as u32 == 0 && '\u{7f}' as u32 == 127);
}

/// A byte below 0x80 decodes to the one character with its code point.
pub proof fn lemma_byte_is_char(b: u8, c: char)
    requires
        c as u32 == b as u32,
    ensures
        (b as char) == c,
{
    assert((b as char) as u32 == b as u32);
    vstd::utf8::char_u32_cast(c, c as u32);
    vstd::utf8::char_u32_cast((b as char), (b as char) as u32);
}

/// A character decoded from a byte encodes back to that byte.
pub proof fn lemma_byte_char_round(b: u8)
    ensures
        (b as char) as u8 == b,
        (b as char) as u32 == b as u32,
{
    assert((b as char) as u8 == b);
}

/// Reading the bytes of a valid key identifier back yields the identifier.
pub proof fn lemma_ascii_round(k: Seq<char>)
    requires
        valid_key(k),
    ensures
        ascii_chars(ascii_seq(k)) == k,
{
    assert forall|i: int| 0 <= i < k.len() implies ascii_chars(ascii_seq(k))[i] == k[i] by {
        assert(key_char(k[i]));
        lemma_char_byte_round(k[i]);
    }
    assert(ascii_chars(ascii_seq(k)) =~= k);
}

/// A byte allowed inside a persisted key identifier.
pub open spec fn key_byte(b: u8) -> bool {
    32 <= b && b < 127 && b != 34 && b != 92
}

/// All bytes of a persisted key identifier are allowed.
pub open spec fn key_bytes_ok(b: Seq<u8>) -> bool {
    forall|i: int| 0 <= i < b.len() ==> key_byte(#[trigger] b[i])
}

/// `{\n  "keys": {` — the opening of the day file.
pub open spec fn header_b() -> Seq<u8> {
    seq![123u8, 10u8, 32u8, 32u8, 34u8, 107u8, 101u8, 121u8, 115u8, 34u8, 58u8, 32u8, 123u8]
}

/// `\n    "` — the opening of one entry line.
pub open spec fn entry_open_b() -> Seq<u8> {
    seq![10u8, 32u8, 32u8, 32u8, 32u8, 34u8]
}

/// `": ` — between an identifier and its count.
pub open spec fn entry_sep_b() -> Seq<u8> {
    seq![34u8, 58u8, 32u8]
}

/// `\n  }\n}` — the close after the last entry.
pub open spec fn footer_b() -> Seq<u8> {
    seq![10u8, 32u8, 32u8, 125u8, 10u8, 125u8]
}

/// `}\n}` — the close of a file with no entries.
pub open spec fn footer_empty_b() -> Seq<u8> {
    seq![125u8, 10u8, 125u8]
}

/// The bytes of one entry line, without the separating comma.
pub open spec fn entry_bytes(k: Seq<char>, c: u32) -> Seq<u8> {
    entry_open_b() + ascii_seq(k) + entry_sep_b() + dec_digits(c as nat)
}

/// The bytes of all entry lines, comma-separated.
pub open spec fn entries_bytes(m: Seq<(Seq<char>, u32)>) -> Seq<u8>
    decreases m.len(),
{
    if m.len() == 0 {
        Seq::empty()
    } else {
        entry_bytes(m[0].0, m[0].1) + (if m.len() > 1 {
            seq![44u8] + entries_bytes(m.drop_first())
        } else {
            Seq::<u8>::empty()
        })
    }
}

/// The full day file for the table `m`.
pub open spec fn json_of(m: Seq<(Seq<char>, u32)>) -> Seq<u8> {
    if m.len() == 0 {
        header_b() + footer_empty_b()
    } else {
        header_b() + entries_bytes(m) + footer_b()
    }
}

/// Appending one entry to a non-empty table appends a comma and its line.
proof fn lemma_entries_snoc(m: Seq<(Seq<char>, u32)>, x: (Seq<char>, u32))
    requires
        m.len() >= 1,
    ensures
        entries_bytes(m.push(x)) == entries_bytes(m) + seq![44u8] + entry_bytes(x.0, x.1),
    decreases m.len(),
{
    if m.len() == 1 {
        assert(m.push(x).drop_first() =~= seq![x]);
        assert(entries_bytes(seq![x]) == entry_bytes(x.0, x.1) + Seq::<u8>::empty());
        assert(entries_bytes(m.push(x)) =~= entries_bytes(m) + seq![44u8] + entry_bytes(
            x.0,
            x.1,
        ));
    } else {
        lemma_entries_snoc(m.drop_first(), x);
        assert(m.push(x).drop_first() =~= m.drop_first().push(x));
        assert(entries_bytes(m.push(x)) =~= entries_bytes(m) + seq![44u8] + entry_bytes(
            x.0,
            x.1,
        ));
    }
}

/// Writes the day file for the table `d`.
pub fn encode_stats(d: &DayStats) -> (out: Vec<u8>)
    requires
        d.wf(),
    ensures
        out@ == json_of(d@),
{
    let mut out: Vec<u8> = Vec::new();
    out.push(123);
    out.push(10);
    out.push(32);
    out.push(32);
    out.push(34);
    out.push(107);
    out.push(101);
    out.push(121);
    out.push(115);
    out.push(34);
    out.push(58);
    out.push(32);
    out.push(123);
    assert(out@ =~= header_b());
    let mut i: usize = 0;
    while i < d.keys.len()
        invariant
            d.wf(),
            i <= d.keys.len(),
            out@ == header_b() + entries_bytes(d@.take(i as int)),
        decreases d.keys.len() - i,
    {
        let ghost pre = out@;
        if i > 0 {
            out.push(44);
        }
        out.push(10);
        out.push(32);
        out.push(32);
        out.push(32);
        out.push(32);
        out.push(34);
        proof {
            assert(valid_key(d@[i as int].0));
            assert(d@[i as int].0 == d.keys@[i as int].0@);
            assert forall|j: int| 0 <= j < d.keys@[i as int].0@.len() implies '\0'
                <= #[trigger] d.keys@[i as int].0@[j] <= '\u{7f}' by {
                assert(key_char(d@[i as int].0[j]));
                lemma_char_byte_round(d@[i as int].0[j]);
            }
            assert(vstd::utf8::is_ascii_chars(d.keys@[i as int].0@));
        }
        let mut kb = vstd::string::StrSliceExecFns::as_bytes_vec(key_at(d, i));
        proof {
            vstd::utf8::is_ascii_chars_encode_utf8(d.keys@[i as int].0@);
            assert(kb@ =~= ascii_seq(d@[i as int].0));
        }
        out.append(&mut kb);
        out.push(34);
        out.push(58);
        out.push(32);
        push_dec(&mut out, d.keys[i].1);
        proof {
            let ghost comma: Seq<u8> = if i > 0 {
                seq![44u8]
            } else {
                Seq::<u8>::empty()
            };
            assert(out@ =~= pre + comma + entry_bytes(d@[i as int].0, d@[i as int].1));
            assert(d@.take(i + 1) =~= d@.take(i as int).push(d@[i as int]));
            if i > 0 {
                assert(d@.take(i as int).len() >= 1);
                lemma_entries_snoc(d@.take(i as int), d@[i as int]);
                assert(out@ =~= header_b() + entries_bytes(d@.take(i + 1)));
            } else {
                assert(d@.take(1)[0] == d@[0]);
                assert(d@.take(1).len() == 1);
                assert(entries_bytes(d@.take(1)) == entry_bytes(d@[0].0, d@[0].1)
                    + Seq::<u8>::empty());
                assert(out@ =~= header_b() + entries_bytes(d@.take(1)));
            }
        }
        i += 1;
    }
    assert(d@.take(d.keys.len() as int) =~= d@);
    if d.keys.len() == 0 {
        out.push(125);
        out.push(10);
        out.push(125);
        assert(entries_bytes(d@) == Seq::<u8>::empty());
        assert(out@ =~= json_of(d@));
    } else {
        out.push(10);
        out.push(32);
        out.push(32);
        out.push(125);
        out.push(10);
        out.push(125);
        assert(out@ =~= json_of(d@));
    }
    out
}

/// A valid key character's byte is a valid key byte.
pub proof fn lemma_key_char_byte(c: char)
    requires
        key_char(c),
    ensures
        key_byte(c as u8),
{
    broadcast use vstd::utf8::char_u32_cast;

    assert((c as u8) as u32 == c as u32);
    assert('"' as u32 == 34 && '\\' as u32 == 92);
    if c as u8 == 34 {
        assert((34u32 as char) == c && (34u32 as char) == '"');
    }
    if c as u8 == 92 {
        assert((92u32 as char) == c && (92u32 as char) == '\\');
    }
}

/// A valid key byte decodes to a valid key character, and back.
pub proof fn lemma_key_byte_char(b: u8)
    requires
        key_byte(b),
    ensures
        key_char(b as char),
        (b as char) as u8 == b,
{
    assert((b as char) as u32 == b as u32);
    assert('"' as u32 == 34 && '\\' as u32 == 92);
    if b as char == '"' {
        assert(b as u32 == 34);
    }
    if b as char == '\\' {
        assert(b as u32 == 92);
    }
}

/// The bytes of a valid key identifier are all valid key bytes.
pub proof fn lemma_valid_key_bytes(k: Seq<char>)
    requires
        valid_key(k),
    ensures
        key_bytes_ok(ascii_seq(k)),
{
    assert forall|i: int| 0 <= i < ascii_seq(k).len() implies key_byte(
        #[trigger] ascii_seq(k)[i],
    ) by {
        assert(key_char(k[i]));
        lemma_key_char_byte(k[i]);
    }
}

/// The identifier read from valid key bytes is a valid identifier.
pub proof fn lemma_key_bytes_valid(b: Seq<u8>)
    requires
        key_bytes_ok(b),
    ensures
        valid_key(ascii_chars(b)),
{
    assert forall|i: int| 0 <= i < ascii_chars(b).len() implies key_char(
        #[trigger] ascii_chars(b)[i],
    ) by {
        assert(key_byte(b[i]));
        lemma_key_byte_char(b[i]);
    }
}

/// The index of the first occurrence of `b` at or after `i`, or the length
/// when `b` does not occur there.
pub open spec fn find_byte(s: Seq<u8>, i: int, b: u8) -> int
    decreases s.len() - i,
{
    if i < 0 || i >= s.len() {
        s.len() as int
    } else if s[i] == b {
        i
    } else {
        find_byte(s, i + 1, b)
    }
}

/// What `find_byte` returns: the earliest occurrence, or the length.
pub proof fn lemma_find_byte(s: Seq<u8>, i: int, b: u8)
    requires
        0 <= i <= s.len(),
    ensures
        i <= find_byte(s, i, b) <= s.len(),
        forall|j: int| i <= j < find_byte(s, i, b) ==> s[j] != b,
        find_byte(s, i, b) < s.len() ==> s[find_byte(s, i, b)] == b,
    decreases s.len() - i,
{
    if i < s.len() && s[i] != b {
        lemma_find_byte(s, i + 1, b);
    }
}

/// The index of the first non-digit byte at or after `i`, or the length.
pub open spec fn digits_end(s: Seq<u8>, i: int) -> int
    decreases s.len() - i,
{
    if i < 0 || i >= s.len() {
        s.len() as int
    } else if !is_digit(s[i]) {
        i
    } else {
        digits_end(s, i + 1)
    }
}

/// What `digits_end` returns: the end of the maximal digit run from `i`.
pub proof fn lemma_digits_end(s: Seq<u8>, i: int)
    requires
        0 <= i <= s.len(),
    ensures
        i <= digits_end(s, i) <= s.len(),
        forall|j: int| i <= j < digits_end(s, i) ==> is_digit(s[j]),
        digits_end(s, i) < s.len() ==> !is_digit(s[digits_end(s, i)]),
    decreases s.len() - i,
{
    if i < s.len() && is_digit(s[i]) {
        lemma_digits_end(s, i + 1);
    }
}

/// The entries read from position `i` on, expecting one or more entry lines
/// followed by the closing braces, or nothing when the text is not of that
/// shape.
pub open spec fn parse_entries_at(s: Seq<u8>, i: int) -> Option<Seq<(Seq<char>, u32)>>
    decreases s.len() - i,
{
    if i < 0 || i + 6 > s.len() || s.subrange(i, i + 6) != entry_open_b() {
        None
    } else {
        let q = find_byte(s, i + 6, 34);
        if q >= s.len() || !key_bytes_ok(s.subrange(i + 6, q)) {
            None
        } else if q + 3 > s.len() || s.subrange(q, q + 3) != entry_sep_b() {
            None
        } else {
            let e = digits_end(s, q + 3);
            if e == q + 3 || e - (q + 3) > 10 || val_of(s.subrange(q + 3, e)) > u32::MAX {
                None
            } else {
                let key = ascii_chars(s.subrange(i + 6, q));
                let n = val_of(s.subrange(q + 3, e)) as u32;
                if e < s.len() && s[e] == 44 && e + 1 > i {
                    match parse_entries_at(s, e + 1) {
                        Some(rest) => Some(seq![(key, n)] + rest),
                        None => None,
                    }
                } else if s.subrange(e, s.len() as int) == footer_b() {
                    Some(seq![(key, n)])
                } else {
                    None
                }
            }
        }
    }
}

/// Identifiers pairwise distinct.
pub open spec fn distinct_keys(m: Seq<(Seq<char>, u32)>) -> bool {
    forall|a: int, b: int| 0 <= a < b < m.len() ==> m[a].0 != m[b].0
}

/// The table read from a whole day file, or nothing when the file is not of
/// the written shape.
pub open spec fn full_parse(v: Seq<u8>) -> Option<Seq<(Seq<char>, u32)>> {
    if v.len() < 13 || v.subrange(0, 13) != header_b() {
        None
    } else if v.len() == 16 && v.subrange(13, 16) == footer_empty_b() {
        Some(Seq::empty())
    } else {
        match parse_entries_at(v, 13) {
            Some(m) => if distinct_keys(m) {
                Some(m)
            } else {
                None
            },
            None => None,
        }
    }
}

/// Whatever entries are read, their identifiers are valid.
pub proof fn lemma_parse_entries_valid(s: Seq<u8>, i: int)
    ensures
        parse_entries_at(s, i) matches Some(m) ==> m.len() >= 1 && forall|j: int|
            0 <= j < m.len() ==> valid_key(#[trigger] m[j].0),
    decreases s.len() - i,
{
    if parse_entries_at(s, i) is Some {
        let q = find_byte(s, i + 6, 34);
        let e = digits_end(s, q + 3);
        let m = parse_entries_at(s, i)->Some_0;
        lemma_key_bytes_valid(s.subrange(i + 6, q));
        if e < s.len() && s[e] == 44 && e + 1 > i {
            lemma_parse_entries_valid(s, e + 1);
            let rest = parse_entries_at(s, e + 1)->Some_0;
            assert forall|j: int| 0 <= j < m.len() implies valid_key(#[trigger] m[j].0) by {
                if j >= 1 {
                    assert(m[j] == rest[j - 1]);
                }
            }
        }
    }
}

/// Reading back the written form of one or more entries yields those entries.
proof fn lemma_parse_entries_round(s: Seq<u8>, i: int, m: Seq<(Seq<char>, u32)>)
    requires
        0 <= i <= s.len(),
        s.subrange(i, s.len() as int) == entries_bytes(m) + footer_b(),
        m.len() >= 1,
        forall|j: int| 0 <= j < m.len() ==> valid_key(#[trigger] m[j].0),
    ensures
        parse_entries_at(s, i) == Some(m),
    decreases m.len(),
{
    let tail = s.subrange(i, s.len() as int);
    let k = m[0].0;
    let c = m[0].1;
    let kb = ascii_seq(k);
    let db = dec_digits(c as nat);
    let rest_b: Seq<u8> = if m.len() > 1 {
        seq![44u8] + entries_bytes(m.drop_first())
    } else {
        Seq::<u8>::empty()
    };
    assert(entries_bytes(m) == entry_bytes(k, c) + rest_b);
    assert(tail =~= entry_open_b() + kb + entry_sep_b() + db + rest_b + footer_b());
    lemma_dec_digits_are_digits(c as nat);
    lemma_u32_digits_len(c as nat);
    lemma_dec_digits_val(c as nat);
    assert(valid_key(k));
    lemma_valid_key_bytes(k);

    let q = i + 6 + kb.len();
    let dstart = q + 3;
    let e = dstart + db.len();
    assert(entry_open_b().len() == 6);
    assert(entry_sep_b().len() == 3);
    assert(footer_b().len() == 6);
    assert(tail.len() == s.len() - i);
    assert(tail.len() == 6 + kb.len() + 3 + db.len() + rest_b.len() + 6);
    assert(s.len() == i + 6 + kb.len() + 3 + db.len() + rest_b.len() + 6);
    assert(forall|j: int| 0 <= j < tail.len() ==> #[trigger] tail[j] == s[i + j]);

    // the entry opening
    assert(s.subrange(i, i + 6) =~= entry_open_b());
    // the key region ends at the first quote
    assert forall|j: int| i + 6 <= j < q implies s[j] != 34 by {
        assert(tail[j - i] == s[i + (j - i)]);
        assert(tail[j - i] == kb[j - (i + 6)]);
        assert(key_byte(kb[j - (i + 6)]));
    }
    assert(tail[q - i] == s[i + (q - i)]);
    assert(tail[q - i] == entry_sep_b()[0]);
    assert(s[q] == 34);
    lemma_find_byte(s, i + 6, 34);
    assert(find_byte(s, i + 6, 34) == q) by {
        let f = find_byte(s, i + 6, 34);
        if f < q {
            assert(s[f] != 34);
        }
        if f > q {
            assert(s[q] != 34);
        }
    }
    assert forall|x: int| 0 <= x < kb.len() implies s.subrange(i + 6, q)[x] == kb[x] by {
        assert(tail[6 + x] == s[i + (6 + x)]);
    }
    assert(s.subrange(i + 6, q) =~= kb);
    assert(q < s.len());
    assert(key_bytes_ok(s.subrange(i + 6, q)));
    assert forall|x: int| 0 <= x < 3 implies s.subrange(q, q + 3)[x] == entry_sep_b()[x] by {
        assert(tail[(q - i) + x] == s[i + ((q - i) + x)]);
    }
    assert(s.subrange(q, q + 3) =~= entry_sep_b());

    // the digit region ends at the byte after the count
    assert forall|j: int| dstart <= j < e implies is_digit(s[j]) by {
        assert(tail[j - i] == s[i + (j - i)]);
        assert(tail[j - i] == db[j - dstart]);
    }
    assert(e < s.len());
    assert(tail[e - i] == s[i + (e - i)]);
    assert(tail[e - i] == (rest_b + footer_b())[e - i - 6 - kb.len() - 3 - db.len()]);
    if m.len() > 1 {
        assert(rest_b[0] == 44);
        assert(s[e] == 44);
    } else {
        assert(s[e] == footer_b()[0]);
        assert(s[e] == 10);
    }
    assert(!is_digit(s[e]));
    lemma_digits_end(s, dstart);
    assert(digits_end(s, dstart) == e) by {
        let f = digits_end(s, dstart);
        if f < e {
            assert(is_digit(s[f]));
        }
        if f > e {
            assert(is_digit(s[e]));
        }
    }
    assert forall|x: int| 0 <= x < db.len() implies s.subrange(dstart, e)[x] == db[x] by {
        assert(tail[(dstart - i) + x] == s[i + ((dstart - i) + x)]);
    }
    assert(s.subrange(dstart, e) =~= db);
    assert(e - dstart == db.len());
    assert(1 <= db.len() <= 10);
    assert(val_of(s.subrange(dstart, e)) == c as nat);
    lemma_ascii_round(k);
    assert(ascii_chars(s.subrange(i + 6, q)) == k);

    if m.len() > 1 {
        assert(s[e] == 44 && e + 1 > i);
        assert forall|x: int| 0 <= x < s.len() - (e + 1) implies s.subrange(
            e + 1,
            s.len() as int,
        )[x] == (entries_bytes(m.drop_first()) + footer_b())[x] by {
            assert(tail[(e + 1 - i) + x] == s[i + ((e + 1 - i) + x)]);
            assert(tail[(e + 1 - i) + x] == (rest_b + footer_b())[(e + 1 - i) + x - (6
                + kb.len() + 3 + db.len())]);
            assert(rest_b == seq![44u8] + entries_bytes(m.drop_first()));
        }
        assert(s.subrange(e + 1, s.len() as int) =~= entries_bytes(m.drop_first())
            + footer_b());
        assert(forall|j: int|
            0 <= j < m.drop_first().len() ==> valid_key(#[trigger] m.drop_first()[j].0));
        lemma_parse_entries_round(s, e + 1, m.drop_first());
        assert(parse_entries_at(s, e + 1) == Some(m.drop_first()));
        assert(seq![(k, c)] + m.drop_first() =~= m);
        assert(parse_entries_at(s, i) == Some(m));
    } else {
        assert(rest_b.len() == 0);
        assert(s[e] == 10);
        assert forall|x: int| 0 <= x < 6 implies s.subrange(e, s.len() as int)[x]
            == footer_b()[x] by {
            assert(tail[(e - i) + x] == s[i + ((e - i) + x)]);
        }
        assert(s.subrange(e, s.len() as int) =~= footer_b());
        assert(seq![(k, c)] =~= m);
        assert(parse_entries_at(s, i) == Some(m));
    }
}

/// Reading a day file back yields exactly the table that was written.
pub proof fn lemma_round_trip(m: Seq<(Seq<char>, u32)>)
    requires
        distinct_keys(m),
        forall|j: int| 0 <= j < m.len() ==> valid_key(#[trigger] m[j].0),
    ensures
        full_parse(json_of(m)) == Some(m),
{
    let v = json_of(m);
    if m.len() == 0 {
        assert(v.len() == 16);
        assert(v.subrange(0, 13) =~= header_b());
        assert(v.subrange(13, 16) =~= footer_empty_b());
    } else {
        assert(v == header_b() + entries_bytes(m) + footer_b());
        assert(v.subrange(0, 13) =~= header_b());
        assert(v.subrange(13, v.len() as int) =~= entries_bytes(m) + footer_b());
        lemma_parse_entries_round(v, 13, m);
        if v.len() == 16 {
            assert(v[13] == entries_bytes(m)[0]);
            assert(entries_bytes(m)[0] == 10);
            assert(footer_empty_b()[0] == 125);
            assert(v.subrange(13, 16) != footer_empty_b());
        }
    }
}

/// Relies on String::from_utf8: bytes below 0x80 decode one-for-one to the
/// characters with the same code points.
#[verifier::external_body]
pub(crate) fn string_from_ascii(bytes: Vec<u8>) -> (r: String)
    requires
        forall|i: int| 0 <= i < bytes@.len() ==> bytes@[i] < 0x80,
    ensures
        r@ == ascii_chars(bytes@),
{
    match String::from_utf8(bytes) {
        Ok(s) => s,
        Err(_) => String::new(),
    }
}

/// Reads the entry lines and the closing braces from position `i` on.
fn parse_entries_x(v: &Vec<u8>, i: usize) -> (r: Option<Vec<(String, u32)>>)
    requires
        i <= v@.len(),
    ensures
        match r {
            Some(ks) => parse_entries_at(v@, i as int) == Some(pairs_view(ks@)),
            None => parse_entries_at(v@, i as int) is None,
        },
    decreases v@.len() - i,
{
    // the entry opening
    if v.len() < 6 || i > v.len() - 6 {
        return None;
    }
    let ghost sub0 = v@.subrange(i as int, i + 6);
    assert(forall|x: int| 0 <= x < 6 ==> #[trigger] sub0[x] == v@[i + x]);
    if v[i] != 10 || v[i + 1] != 32 || v[i + 2] != 32 || v[i + 3] != 32 || v[i + 4] != 32 || v[i
        + 5] != 34 {
        proof {
            if sub0 == entry_open_b() {
                assert(sub0[0] == 10 && sub0[1] == 32 && sub0[2] == 32 && sub0[3] == 32
                    && sub0[4] == 32 && sub0[5] == 34);
            }
        }
        return None;
    }
    assert(sub0 =~= entry_open_b());

    // the identifier, up to its closing quote
    let mut j = i + 6;
    let mut kbuf: Vec<u8> = Vec::new();
    assert(kbuf@ =~= v@.subrange(i + 6, j as int));
    loop
        invariant
            i + 6 <= j <= v@.len(),
            v@.subrange(i as int, i + 6) == entry_open_b(),
            forall|x: int| i + 6 <= x < j ==> v@[x] != 34,
            forall|x: int| i + 6 <= x < j ==> key_byte(#[trigger] v@[x]),
            kbuf@ == v@.subrange(i + 6, j as int),
        ensures
            i + 6 <= j < v@.len(),
            v@[j as int] == 34,
            forall|x: int| i + 6 <= x < j ==> v@[x] != 34,
            forall|x: int| i + 6 <= x < j ==> key_byte(#[trigger] v@[x]),
            kbuf@ == v@.subrange(i + 6, j as int),
        decreases v@.len() - j,
    {
        proof {
            lemma_find_byte(v@, i + 6, 34);
        }
        if j >= v.len() {
            proof {
                let f = find_byte(v@, i + 6, 34);
                if f < v@.len() {
                    assert(v@[f] != 34);
                }
            }
            return None;
        }
        let b = v[j];
        if b == 34 {
            break;
        }
        if b < 32 || b >= 127 || b == 92 {
            proof {
                let f = find_byte(v@, i + 6, 34);
                if f < v@.len() {
                    if f <= j {
                        assert(v@[f] != 34);
                    }
                    assert(j < f);
                    assert(v@.subrange(i + 6, f)[j - (i + 6)] == v@[j as int]);
                    assert(!key_bytes_ok(v@.subrange(i + 6, f)));
                }
            }
            return None;
        }
        kbuf.push(b);
        assert(kbuf@ =~= v@.subrange(i + 6, j + 1));
        j += 1;
    }
    // `j` holds the first quote after the identifier
    proof {
        lemma_find_byte(v@, i + 6, 34);
        let f = find_byte(v@, i + 6, 34);
        if f < j {
            assert(v@[f] != 34);
        }
        if f > j {
            assert(v@[j as int] != 34);
        }
        assert(f == j);
        assert(key_bytes_ok(v@.subrange(i + 6, j as int))) by {
            assert(forall|x: int|
                0 <= x < j - (i + 6) ==> #[trigger] v@.subrange(i + 6, j as int)[x] == v@[(i + 6)
                    + x]);
        }
    }

    // the separator between identifier and count
    if v.len() - j < 3 {
        return None;
    }
    let ghost sep = v@.subrange(j as int, j + 3);
    assert(forall|x: int| 0 <= x < 3 ==> #[trigger] sep[x] == v@[j + x]);
    if v[j + 1] != 58 || v[j + 2] != 32 {
        proof {
            if sep == entry_sep_b() {
                assert(sep[1] == 58 && sep[2] == 32);
            }
        }
        return None;
    }
    assert(sep =~= entry_sep_b());

    // the count digits
    let dstart = j + 3;
    let mut p = dstart;
    let mut acc: u64 = 0;
    assert(v@.subrange(dstart as int, dstart as int) =~= Seq::<u8>::empty());
    loop
        invariant
            dstart <= p <= v@.len(),
            i + 9 <= dstart,
            p - dstart <= 10,
            forall|x: int| dstart <= x < p ==> is_digit(#[trigger] v@[x]),
            acc == val_of(v@.subrange(dstart as int, p as int)),
        ensures
            dstart <= p <= v@.len(),
            p - dstart <= 10,
            forall|x: int| dstart <= x < p ==> is_digit(#[trigger] v@[x]),
            acc == val_of(v@.subrange(dstart as int, p as int)),
            p == v@.len() || !is_digit(v@[p as int]) || p - dstart == 10,
        decreases v@.len() - p,
    {
        if p >= v.len() {
            break;
        }
        let b = v[p];
        if !(48 <= b && b <= 57) {
            break;
        }
        if p - dstart == 10 {
            break;
        }
        proof {
            let run = v@.subrange(dstart as int, p as int);
            assert(forall|x: int| 0 <= x < run.len() ==> is_digit(#[trigger] run[x]));
            lemma_val_bound(run);
            lemma_pow10_mono(run.len(), 9);
            reveal_with_fuel(pow10, 11);
            assert(acc < 1000000000);
            assert(v@.subrange(dstart as int, p + 1).drop_last() =~= run);
            assert(v@.subrange(dstart as int, p + 1).last() == v@[p as int]);
        }
        acc = acc * 10 + (b - 48) as u64;
        p += 1;
    }
    if p < v.len() {
        let b = v[p];
        if 48 <= b && b <= 57 {
            // an eleventh digit: the count cannot be ours
            proof {
                lemma_digits_end(v@, dstart as int);
                let e = digits_end(v@, dstart as int);
                if e <= p {
                    assert(is_digit(v@[e]));
                }
                assert(e > p);
                assert(e - dstart > 10);
            }
            return None;
        }
    }
    // `p` holds the first byte after the digit run
    proof {
        lemma_digits_end(v@, dstart as int);
        let e = digits_end(v@, dstart as int);
        if e < p {
            assert(is_digit(v@[e]));
        }
        if e > p {
            assert(p < v@.len() && is_digit(v@[p as int]));
        }
        assert(e == p);
    }
    if p == dstart {
        return None;
    }
    if acc > 0xffff_ffff {
        return None;
    }
    let n: u32 = acc as u32;

    assert(forall|x: int| 0 <= x < kbuf@.len() ==> #[trigger] kbuf@[x] < 0x80) by {
        assert(forall|x: int|
            0 <= x < kbuf@.len() ==> kbuf@[x] == #[trigger] v@.subrange(i + 6, j as int)[x]);
    }
    let key = string_from_ascii(kbuf);
    let ghost kview = ascii_chars(v@.subrange(i + 6, j as int));

    if p < v.len() && v[p] == 44 {
        match parse_entries_x(v, p + 1) {
            Some(mut rest) => {
                let ghost restv = rest@;
                rest.insert(0, (key, n));
                proof {
                    assert(pairs_view(rest@) =~= seq![(kview, n)] + pairs_view(restv));
                }
                Some(rest)
            },
            None => None,
        }
    } else {
        // the closing braces
        if v.len() - p != 6 {
            proof {
                assert(v@.subrange(p as int, v@.len() as int).len() != footer_b().len());
            }
            return None;
        }
        let ghost foot = v@.subrange(p as int, v@.len() as int);
        assert(forall|x: int| 0 <= x < 6 ==> #[trigger] foot[x] == v@[p + x]);
        if v[p] != 10 || v[p + 1] != 32 || v[p + 2] != 32 || v[p + 3] != 125 || v[p + 4] != 10
            || v[p + 5] != 125 {
            proof {
                if foot == footer_b() {
                    assert(foot[0] == 10 && foot[1] == 32 && foot[2] == 32 && foot[3] == 125
                        && foot[4] == 10 && foot[5] == 125);
                }
            }
            return None;
        }
        assert(foot =~= footer_b());
        let mut one: Vec<(String, u32)> = Vec::new();
        one.push((key, n));
        proof {
            assert(pairs_view(one@) =~= seq![(kview, n)]);
        }
        Some(one)
    }
}

/// Reads a whole day file; yields nothing when the text is not a day file as
/// written here.
pub fn parse_stats(v: &Vec<u8>) -> (r: Option<DayStats>)
    ensures
        match r {
            Some(d) => d.wf() && full_parse(v@) == Some(d@),
            None => full_parse(v@) is None,
        },
{
    if v.len() < 13 {
        return None;
    }
    let ghost hdr = v@.subrange(0, 13);
    assert(forall|x: int| 0 <= x < 13 ==> #[trigger] hdr[x] == v@[x]);
    if v[0] != 123 || v[1] != 10 || v[2] != 32 || v[3] != 32 || v[4] != 34 || v[5] != 107 || v[6]
        != 101 || v[7] != 121 || v[8] != 115 || v[9] != 34 || v[10] != 58 || v[11] != 32 || v[12]
        != 123 {
        proof {
            if hdr == header_b() {
                assert(hdr[0] == 123 && hdr[1] == 10 && hdr[2] == 32 && hdr[3] == 32 && hdr[4]
                    == 34 && hdr[5] == 107 && hdr[6] == 101 && hdr[7] == 121 && hdr[8] == 115
                    && hdr[9] == 34 && hdr[10] == 58 && hdr[11] == 32 && hdr[12] == 123);
            }
        }
        return None;
    }
    assert(hdr =~= header_b());
    if v.len() == 16 && v[13] == 125 && v[14] == 10 && v[15] == 125 {
        let d = DayStats::new();
        proof {
            assert(v@.subrange(13, 16) =~= footer_empty_b());
        }
        return Some(d);
    }
    proof {
        if v@.len() == 16 {
            let ghost fe = v@.subrange(13, 16);
            assert(forall|x: int| 0 <= x < 3 ==> #[trigger] fe[x] == v@[13 + x]);
            if fe == footer_empty_b() {
                assert(fe[0] == 125 && fe[1] == 10 && fe[2] == 125);
            }
            assert(fe != footer_empty_b());
        }
    }
    match parse_entries_x(v, 13) {
        None => None,
        Some(ks) => {
            let ghost m = pairs_view(ks@);
            // identifiers must be pairwise distinct
            let mut a: usize = 0;
            while a < ks.len()
                invariant
                    a <= ks.len(),
                    m == pairs_view(ks@),
                    parse_entries_at(v@, 13) == Some(m),
                    v@.len() >= 13,
                    v@.subrange(0, 13) == header_b(),
                    !(v@.len() == 16 && v@.subrange(13, 16) == footer_empty_b()),
                    forall|x: int, y: int| 0 <= x < y < ks.len() && x < a ==> m[x].0 != m[y].0,
                decreases ks.len() - a,
            {
                let mut b: usize = a + 1;
                while b < ks.len()
                    invariant
                        a < b || a + 1 == b,
                        a < ks.len(),
                        a + 1 <= b <= ks.len(),
                        m == pairs_view(ks@),
                        parse_entries_at(v@, 13) == Some(m),
                        v@.len() >= 13,
                        v@.subrange(0, 13) == header_b(),
                        !(v@.len() == 16 && v@.subrange(13, 16) == footer_empty_b()),
                        forall|y: int| a < y < b ==> m[a as int].0 != m[y].0,
                    decreases ks.len() - b,
                {
                    if ks[a].0 == ks[b].0 {
                        assert(m[a as int].0 == m[b as int].0);
                        assert(!distinct_keys(m));
                        return None;
                    }
                    b += 1;
                }
                a += 1;
            }
            assert(distinct_keys(m));
            proof {
                lemma_parse_entries_valid(v@, 13);
            }
            let d = DayStats { keys: ks };
            assert(d@ == m);
            assert(d.wf());
            Some(d)
        },
    }
}

/// The table read at start of day: the file's table when it reads back, else
/// an empty table; a missing or unreadable file never surfaces as an error.
pub fn load_stats(content: Option<Vec<u8>>) -> (d: DayStats)
    ensures
        d.wf(),
        match content {
            None => d@ == Seq::<(Seq<char>, u32)>::empty(),
            Some(v) => match full_parse(v@) {
                Some(m) => d@ == m,
                None => d@ == Seq::<(Seq<char>, u32)>::empty(),
            },
        },
{
    match content {
        None => DayStats::new(),
        Some(v) => match parse_stats(&v) {
            Some(d) => d,
            None => DayStats::new(),
        },
    }
}

/// The `i`th key of the table, as a string slice.
fn key_at<'a>(d: &'a DayStats, i: usize) -> (s: &'a str)
    requires
        i < d.keys@.len(),
    ensures
        s@ == d.keys@[i as int].0@,
{
    let p: &(String, u32) = &d.keys[i];
    p.0.as_str()
}

} // verus!
