//! The external-tool fallback for timestamp resolution.
//!
//! When embedded metadata yields no timestamp, an external metadata
//! extractor can be asked for candidate date fields.  The caller runs the
//! tool and hands its standard output here; this module decodes the JSON,
//! walks a fixed, documented priority list of date fields, and returns the
//! first candidate that parses.
//!
//! A candidate value is parsed with the pattern `YYYY:MM:DD HH:MM:SS`,
//! first dropping a trailing `[+-]<timezone offset>` and then a trailing
//! `.<subseconds>` part; timezone information is discarded, not applied.

use vstd::prelude::*;

use crate::paths::spec_is_digit;
use crate::timestamp::{spec_valid_fields, Timestamp};

verus! {

/// The prefix of a string before its first `+` or `-`.
pub open spec fn take_until_sign(s: Seq<char>) -> Seq<char>
    decreases s.len(),
{
    if s.len() == 0 {
        s
    } else if s[0] == '+' || s[0] == '-' {
        Seq::empty()
    } else {
        seq![s[0]] + take_until_sign(s.drop_first())
    }
}

/// The prefix of a string before its first `.`.
pub open spec fn take_until_dot(s: Seq<char>) -> Seq<char>
    decreases s.len(),
{
    if s.len() == 0 {
        s
    } else if s[0] == '.' {
        Seq::empty()
    } else {
        seq![s[0]] + take_until_dot(s.drop_first())
    }
}

/// When the first `j` characters are no sign and position `j` is a sign or
/// the end, the sign truncation is exactly the first `j` characters.
proof fn lemma_take_until_sign(s: Seq<char>, j: int)
    requires
        0 <= j <= s.len(),
        forall|k: int| 0 <= k < j ==> s[k] != '+' && s[k] != '-',
        j < s.len() ==> s[j] == '+' || s[j] == '-',
    ensures
        take_until_sign(s) == s.take(j),
    decreases j,
{
    if j == 0 {
        assert(take_until_sign(s) =~= s.take(0));
    } else {
        lemma_take_until_sign(s.drop_first(), j - 1);
        assert(seq![s[0]] + s.drop_first().take(j - 1) =~= s.take(j));
    }
}

/// When the first `j` characters are no dot and position `j` is a dot or
/// the end, the dot truncation is exactly the first `j` characters.
proof fn lemma_take_until_dot(s: Seq<char>, j: int)
    requires
        0 <= j <= s.len(),
        forall|k: int| 0 <= k < j ==> s[k] != '.',
        j < s.len() ==> s[j] == '.',
    ensures
        take_until_dot(s) == s.take(j),
    decreases j,
{
    if j == 0 {
        assert(take_until_dot(s) =~= s.take(0));
    } else {
        lemma_take_until_dot(s.drop_first(), j - 1);
        assert(seq![s[0]] + s.drop_first().take(j - 1) =~= s.take(j));
    }
}

/// The number of leading digit characters, capped at `max`.
pub open spec fn digit_run_len(t: Seq<char>, max: int) -> int
    decreases max,
{
    if max <= 0 || t.len() == 0 || !spec_is_digit(t[0]) {
        0
    } else {
        1 + digit_run_len(t.drop_first(), max - 1)
    }
}

/// The value of a digit string read as a decimal number.
pub open spec fn digits_value(d: Seq<char>) -> int
    decreases d.len(),
{
    if d.len() == 0 {
        0
    } else {
        digits_value(d.drop_last()) * 10 + (d.last() as int - '0' as int)
    }
}

/// Reads a decimal number of one to `max` digits, greedily: the value and
/// the rest of the input.
pub open spec fn spec_parse_num(t: Seq<char>, max: int) -> Option<(int, Seq<char>)> {
    let n = digit_run_len(t, max);
    if n == 0 {
        None
    } else {
        Some((digits_value(t.take(n)), t.skip(n)))
    }
}

/// Consumes one expected character.
pub open spec fn spec_expect(t: Seq<char>, c: char) -> Option<Seq<char>> {
    if t.len() > 0 && t[0] == c {
        Some(t.drop_first())
    } else {
        None
    }
}

/// Parses a date-time string: truncation of timezone and subseconds, the
/// pattern `YYYY:MM:DD HH:MM:SS` (a four-digit-at-most year, two digits at
/// most elsewhere), full consumption, and calendar validity.
pub open spec fn spec_parse_timestamp(s: Seq<char>) -> Option<Timestamp> {
    let t = take_until_dot(take_until_sign(s));
    match spec_parse_num(t, 4) {
        None => None,
        Some((y, t)) => match spec_expect(t, ':') {
            None => None,
            Some(t) => match spec_parse_num(t, 2) {
                None => None,
                Some((mo, t)) => match spec_expect(t, ':') {
                    None => None,
                    Some(t) => match spec_parse_num(t, 2) {
                        None => None,
                        Some((d, t)) => match spec_expect(t, ' ') {
                            None => None,
                            Some(t) => match spec_parse_num(t, 2) {
                                None => None,
                                Some((h, t)) => match spec_expect(t, ':') {
                                    None => None,
                                    Some(t) => match spec_parse_num(t, 2) {
                                        None => None,
                                        Some((mi, t)) => match spec_expect(t, ':') {
                                            None => None,
                                            Some(t) => match spec_parse_num(t, 2) {
                                                None => None,
                                                Some((sec, t)) => {
                                                    if t.len() == 0 && spec_valid_fields(
                                                        y,
                                                        mo,
                                                        d,
                                                        h,
                                                        mi,
                                                        sec,
                                                    ) {
                                                        Some(
                                                            Timestamp {
                                                                year: y as u16,
                                                                month: mo as u8,
                                                                day: d as u8,
                                                                hour: h as u8,
                                                                minute: mi as u8,
                                                                second: sec as u8,
                                                            },
                                                        )
                                                    } else {
                                                        None
                                                    }
                                                },
                                            },
                                        },
                                    },
                                },
                            },
                        },
                    },
                },
            },
        },
    }
}

/// A digit run of length `k` starting the string makes `digit_run_len`
/// exactly `k`.
proof fn lemma_digit_run(u: Seq<char>, k: int, max: int)
    requires
        0 <= k <= max,
        k <= u.len(),
        forall|i: int| 0 <= i < k ==> spec_is_digit(u[i]),
        k < max && k < u.len() ==> !spec_is_digit(u[k]),
    ensures
        digit_run_len(u, max) == k,
    decreases k,
{
    if k == 0 {
    } else {
        lemma_digit_run(u.drop_first(), k - 1, max - 1);
    }
}

/// Reads a decimal number of one to `max` digits at position `pos`.
fn parse_num(t: &str, pos: usize, max: u32) -> (r: Option<(u32, usize)>)
    requires
        pos <= t@.len(),
        1 <= max <= 4,
    ensures
        match r {
            Some(vp) => {
                &&& pos < vp.1 <= t@.len()
                &&& spec_parse_num(t@.skip(pos as int), max as int) == Some(
                    (vp.0 as int, t@.skip(vp.1 as int)),
                )
            },
            None => spec_parse_num(t@.skip(pos as int), max as int) is None,
        },
{
    let n = t.unicode_len();
    let ghost u = t@.skip(pos as int);
    let mut k: usize = 0;
    let mut v: u32 = 0;
    while pos + k < n && k < max as usize && '0' <= t.get_char(pos + k) && t.get_char(pos + k)
        <= '9'
        invariant
            pos + k <= n,
            k <= max,
            max <= 4,
            n == t@.len(),
            u == t@.skip(pos as int),
            k == 0 ==> v == 0,
            k == 1 ==> v <= 9,
            k == 2 ==> v <= 99,
            k == 3 ==> v <= 999,
            k == 4 ==> v <= 9999,
            forall|i: int| 0 <= i < k ==> spec_is_digit(u[i]),
            v == digits_value(u.take(k as int)),
        decreases n - pos - k,
    {
        let c = t.get_char(pos + k);
        proof {
            assert(u[k as int] == t@[pos + k]);
            assert(u.take(k + 1).drop_last() =~= u.take(k as int));
            assert(u.take(k + 1).last() == u[k as int]);
        }
        v = v * 10 + (c as u32 - 48);
        k += 1;
    }
    proof {
        lemma_digit_run(u, k as int, max as int);
    }
    if k == 0 {
        None
    } else {
        proof {
            assert(u.skip(k as int) =~= t@.skip(pos + k));
        }
        Some((v, pos + k))
    }
}

/// Consumes one expected character at position `pos`.
fn expect_char(t: &str, pos: usize, c: char) -> (r: Option<usize>)
    requires
        pos <= t@.len(),
    ensures
        match r {
            Some(p) => p == pos + 1 && p <= t@.len() && spec_expect(t@.skip(pos as int), c)
                == Some(t@.skip(p as int)),
            None => spec_expect(t@.skip(pos as int), c) is None,
        },
{
    if pos < t.unicode_len() && t.get_char(pos) == c {
        proof {
            assert(t@.skip(pos as int)[0] == t@[pos as int]);
            assert(t@.skip(pos as int).drop_first() =~= t@.skip(pos + 1));
        }
        Some(pos + 1)
    } else {
        proof {
            if pos < t@.len() {
                assert(t@.skip(pos as int)[0] == t@[pos as int]);
            }
        }
        None
    }
}

/// Parses a candidate date-time string from the external tool: drops a
/// trailing timezone suffix and subseconds, then parses
/// `YYYY:MM:DD HH:MM:SS` and validates the calendar fields.
#[verifier::rlimit(60)]
pub fn naive_date_time_parse(data: &str) -> (r: Option<Timestamp>)
    ensures
        r == spec_parse_timestamp(data@),
        r matches Some(ts) ==> ts.wf(),
{
    let n = data.unicode_len();
    // Truncate at the first sign character, where a timezone would start.
    let mut j1: usize = 0;
    while j1 < n && data.get_char(j1) != '+' && data.get_char(j1) != '-'
        invariant
            j1 <= n,
            n == data@.len(),
            forall|k: int| 0 <= k < j1 ==> data@[k] != '+' && data@[k] != '-',
        decreases n - j1,
    {
        j1 += 1;
    }
    // Truncate at the first dot before that, where subseconds would start.
    let mut j2: usize = 0;
    while j2 < j1 && data.get_char(j2) != '.'
        invariant
            j2 <= j1 <= n,
            n == data@.len(),
            forall|k: int| 0 <= k < j2 ==> data@[k] != '.',
        decreases j1 - j2,
    {
        j2 += 1;
    }
    let t = data.substring_char(0, j2);
    proof {
        lemma_take_until_sign(data@, j1 as int);
        lemma_take_until_dot(data@.take(j1 as int), j2 as int);
        assert(data@.take(j1 as int).take(j2 as int) =~= data@.take(j2 as int));
        assert(t@ =~= data@.take(j2 as int));
        assert(t@.skip(0) =~= t@);
    }
    let (y, pos) = match parse_num(t, 0, 4) {
        None => {
            return None;
        },
        Some(vp) => vp,
    };
    let pos = match expect_char(t, pos, ':') {
        None => {
            return None;
        },
        Some(p) => p,
    };
    let (mo, pos) = match parse_num(t, pos, 2) {
        None => {
            return None;
        },
        Some(vp) => vp,
    };
    let pos = match expect_char(t, pos, ':') {
        None => {
            return None;
        },
        Some(p) => p,
    };
    let (d, pos) = match parse_num(t, pos, 2) {
        None => {
            return None;
        },
        Some(vp) => vp,
    };
    let pos = match expect_char(t, pos, ' ') {
        None => {
            return None;
        },
        Some(p) => p,
    };
    let (h, pos) = match parse_num(t, pos, 2) {
        None => {
            return None;
        },
        Some(vp) => vp,
    };
    let pos = match expect_char(t, pos, ':') {
        None => {
            return None;
        },
        Some(p) => p,
    };
    let (mi, pos) = match parse_num(t, pos, 2) {
        None => {
            return None;
        },
        Some(vp) => vp,
    };
    let pos = match expect_char(t, pos, ':') {
        None => {
            return None;
        },
        Some(p) => p,
    };
    let (sec, pos) = match parse_num(t, pos, 2) {
        None => {
            return None;
        },
        Some(vp) => vp,
    };
    if pos < t.unicode_len() {
        proof {
            assert(t@.skip(pos as int).len() > 0);
        }
        return None;
    }
    proof {
        assert(t@.skip(pos as int).len() == 0);
    }
    Timestamp::new(y as i64, mo, d, h, mi, sec)
}

/// The named candidate date field of the first object of the tool's JSON
/// output: a function of the output bytes and the field name alone.  It is
/// the string content of that field of the first element of the JSON
/// array, and nothing when the bytes are not such an array, the array is
/// empty, the field is absent, or its value is not a string.
pub uninterp spec fn candidate_of(json: Seq<u8>, field: Seq<char>) -> Option<Seq<char>>;

/// Relies on `serde_json::from_slice` and `serde_json::Value::get` and
/// `as_str`: decodes the tool's output and reads the named field of the
/// first element of the array, all deterministic in the bytes alone.
#[verifier::external_body]
fn candidate(json: &Vec<u8>, field: &str) -> (r: Option<String>)
    ensures
        r.deep_view() == candidate_of(json@, field@),
{
    let v = serde_json::from_slice::<serde_json::Value>(json.as_slice()).ok()?;
    let s = v.get(0)?.get(field)?.as_str()?;
    Some(s.to_owned())
}

/// The first candidate, in the given order, that parses as a timestamp:
/// absent and unparsable candidates are skipped.
pub open spec fn spec_first_parsed(cands: Seq<Option<Seq<char>>>) -> Option<Timestamp>
    decreases cands.len(),
{
    if cands.len() == 0 {
        None
    } else {
        let parsed = match cands[0] {
            Some(s) => spec_parse_timestamp(s),
            None => None,
        };
        match parsed {
            Some(ts) => Some(ts),
            None => spec_first_parsed(cands.drop_first()),
        }
    }
}

/// Picks the first candidate, in the given order, that parses as a
/// timestamp.
pub fn first_parsed(cands: &Vec<Option<String>>) -> (r: Option<Timestamp>)
    ensures
        r == spec_first_parsed(cands.deep_view()),
        r matches Some(ts) ==> ts.wf(),
{
    let ghost dv = cands.deep_view();
    let mut i: usize = 0;
    proof {
        assert(dv.skip(0) =~= dv);
    }
    while i < cands.len()
        invariant
            i <= cands@.len(),
            dv == cands.deep_view(),
            dv.len() == cands@.len(),
            spec_first_parsed(dv) == spec_first_parsed(dv.skip(i as int)),
        decreases cands@.len() - i,
    {
        proof {
            assert(dv.skip(i as int)[0] == dv[i as int]);
            assert(dv.skip(i as int).drop_first() =~= dv.skip(i + 1));
        }
        match &cands[i] {
            Some(s) => {
                proof {
                    assert(dv[i as int] == Some(s@));
                }
                match naive_date_time_parse(s.as_str()) {
                    Some(ts) => {
                        return Some(ts);
                    },
                    None => {},
                }
            },
            None => {
                proof {
                    assert(dv[i as int] is None);
                }
            },
        }
        i += 1;
    }
    proof {
        assert(dv.skip(cands@.len() as int) =~= Seq::<Option<Seq<char>>>::empty());
    }
    None
}

/// The candidate date fields of the tool's output, in the fixed priority
/// order: DateTimeOriginal, DateTimeCreated, CreationDate, CreateDate,
/// DateCreated, Datecreate, TrackCreateDate.
pub open spec fn spec_exiftool_candidates(json: Seq<u8>) -> Seq<Option<Seq<char>>> {
    seq![
        candidate_of(json, "DateTimeOriginal"@),
        candidate_of(json, "DateTimeCreated"@),
        candidate_of(json, "CreationDate"@),
        candidate_of(json, "CreateDate"@),
        candidate_of(json, "DateCreated"@),
        candidate_of(json, "Datecreate"@),
        candidate_of(json, "TrackCreateDate"@),
    ]
}

/// The timestamp that the external tool's JSON output resolves to: the
/// first candidate field of the first returned object, in priority order,
/// that parses.
pub open spec fn spec_read_timestamp(json: Seq<u8>) -> Option<Timestamp> {
    spec_first_parsed(spec_exiftool_candidates(json))
}

/// Resolves a timestamp from the external tool's JSON output: the first
/// object of the returned array is examined, and the candidate date fields
/// are tried in this fixed priority order: DateTimeOriginal,
/// DateTimeCreated, CreationDate, CreateDate, DateCreated, Datecreate,
/// TrackCreateDate.  The first candidate that parses wins.  Malformed
/// output, an empty array, and absent or unparsable fields all yield no
/// timestamp, never an error.
pub fn read_timestamp(json: &Vec<u8>) -> (r: Option<Timestamp>)
    ensures
        r == spec_read_timestamp(json@),
        r matches Some(ts) ==> ts.wf(),
{
    let mut cands: Vec<Option<String>> = Vec::new();
    cands.push(candidate(json, "DateTimeOriginal"));
    cands.push(candidate(json, "DateTimeCreated"));
    cands.push(candidate(json, "CreationDate"));
    cands.push(candidate(json, "CreateDate"));
    cands.push(candidate(json, "DateCreated"));
    cands.push(candidate(json, "Datecreate"));
    cands.push(candidate(json, "TrackCreateDate"));
    proof {
        assert(cands.deep_view() =~= spec_exiftool_candidates(json@));
    }
    first_parsed(&cands)
}

} // verus!
