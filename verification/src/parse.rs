//! The device line protocol: one ASCII line per reading, three
//! comma-separated fields `temperature,motionFlag,soundLevel`, each trimmed
//! before it is read. The temperature is a plain decimal numeral with an
//! optional sign and an optional fractional part, kept to hundredths of a
//! degree; integer parts of a thousand million degrees or more are rejected
//! as absurd. The flag and the sound level are decimal integers in the range
//! of `i32`; a nonzero flag means motion. A line that does not fit the
//! grammar is skipped by the caller and the reader goes on.

use vstd::prelude::*;
use crate::reading::SensorReading;
use crate::text::{spec_trim, trim_str};

verus! {

/// Decimal digit characters.
pub open spec fn is_digit(c: char) -> bool {
    '0' as int <= c as int && c as int <= '9' as int
}

/// The value of a decimal digit character.
pub open spec fn digit_val(c: char) -> int {
    c as int - '0' as int
}

/// Every character of the string is a decimal digit.
pub open spec fn all_digits(s: Seq<char>) -> bool {
    forall|i: int| 0 <= i < s.len() ==> is_digit(s[i])
}

/// The value of a digit string, most significant digit first.
pub open spec fn digits_val(s: Seq<char>) -> int
    decreases s.len(),
{
    if s.len() == 0 {
        0
    } else {
        digits_val(s.take(s.len() - 1)) * 10 + digit_val(s[s.len() - 1])
    }
}

/// The index of the first occurrence of `c`; the length when it does not
/// occur.
pub open spec fn first_at(s: Seq<char>, c: char) -> int
    decreases s.len(),
{
    if s.len() == 0 {
        0
    } else if s[0] == c {
        0
    } else {
        1 + first_at(s.skip(1), c)
    }
}

/// A signed decimal integer: an optional sign followed by one or more
/// digits, as `i32` reads it, without its range restriction.
pub open spec fn spec_parse_int(s: Seq<char>) -> Option<int> {
    let body = if s.len() > 0 && (s[0] == '+' || s[0] == '-') {
        s.skip(1)
    } else {
        s
    };
    if body.len() > 0 && all_digits(body) {
        if s.len() > 0 && s[0] == '-' {
            Some(-digits_val(body))
        } else {
            Some(digits_val(body))
        }
    } else {
        None
    }
}

/// A signed decimal integer in the range of `i32`.
pub open spec fn spec_parse_i32(s: Seq<char>) -> Option<int> {
    match spec_parse_int(s) {
        Some(v) => if -0x8000_0000 <= v && v <= 0x7fff_ffff {
            Some(v)
        } else {
            None
        },
        None => None,
    }
}

/// A temperature in hundredths of a degree: an optional sign, one or more
/// integer digits with a value below a thousand million, and optionally a
/// point followed by one or more fractional digits, of which the first two
/// are kept.
pub open spec fn spec_parse_temp_centi(s: Seq<char>) -> Option<int> {
    let neg = s.len() > 0 && s[0] == '-';
    let body = if s.len() > 0 && (s[0] == '+' || s[0] == '-') {
        s.skip(1)
    } else {
        s
    };
    let d = first_at(body, '.');
    let ip = body.take(d);
    let fp = body.skip(d + 1);
    let has_frac = d < body.len();
    if ip.len() > 0 && all_digits(ip) && digits_val(ip) < 1000000000 && (!has_frac || (fp.len() > 0
        && all_digits(fp))) {
        let fc = if !has_frac {
            0
        } else if fp.len() == 1 {
            digit_val(fp[0]) * 10
        } else {
            digit_val(fp[0]) * 10 + digit_val(fp[1])
        };
        let m = digits_val(ip) * 100 + fc;
        Some(
            if neg {
                -m
            } else {
                m
            },
        )
    } else {
        None
    }
}

/// One device line: exactly three comma-separated fields, each trimmed; the
/// first a temperature, the second a motion flag (nonzero means motion), the
/// third a sound level.
pub open spec fn spec_parse_line(s: Seq<char>, timestamp: i64) -> Option<SensorReading> {
    let c1 = first_at(s, ',');
    if c1 == s.len() {
        None
    } else {
        let rest = s.skip(c1 + 1);
        let c2 = first_at(rest, ',');
        if c2 == rest.len() {
            None
        } else {
            let f0 = s.take(c1);
            let f1 = rest.take(c2);
            let f2 = rest.skip(c2 + 1);
            if first_at(f2, ',') != f2.len() {
                None
            } else {
                match (spec_parse_temp_centi(spec_trim(f0)), spec_parse_i32(spec_trim(f1)),
                spec_parse_i32(spec_trim(f2))) {
                    (Some(t), Some(m), Some(snd)) => Some(
                        SensorReading {
                            temperature_centi: t as i64,
                            motion: m != 0,
                            sound_level: snd as i32,
                            timestamp,
                        },
                    ),
                    _ => None,
                }
            }
        }
    }
}

/// The value of an all-digit string is not negative.
pub proof fn lemma_digits_val_nonneg(s: Seq<char>)
    requires
        all_digits(s),
    ensures
        digits_val(s) >= 0,
    decreases s.len(),
{
    if s.len() > 0 {
        assert(all_digits(s.take(s.len() - 1)));
        lemma_digits_val_nonneg(s.take(s.len() - 1));
    }
}

/// Dropping trailing digits never grows the value of an all-digit string.
pub proof fn lemma_digits_val_prefix_le(s: Seq<char>, k: int)
    requires
        all_digits(s),
        0 <= k <= s.len(),
    ensures
        digits_val(s.take(k)) <= digits_val(s),
    decreases s.len() - k,
{
    if k == s.len() {
        assert(s.take(k) =~= s);
    } else {
        let t = s.take(k + 1);
        assert(t.take(k) =~= s.take(k));
        assert(all_digits(s.take(k)));
        lemma_digits_val_nonneg(s.take(k));
        assert(digits_val(t) == digits_val(s.take(k)) * 10 + digit_val(s[k]));
        lemma_digits_val_prefix_le(s, k + 1);
    }
}

/// An index before which `c` does not occur, and at which `c` stands (or the
/// end), is exactly `first_at`.
pub proof fn lemma_first_at_is(s: Seq<char>, c: char, i: int)
    requires
        0 <= i <= s.len(),
        forall|k: int| 0 <= k < i ==> s[k] != c,
        i < s.len() ==> s[i] == c,
    ensures
        first_at(s, c) == i,
    decreases s.len(),
{
    if i == 0 {
    } else {
        assert(s[0] != c);
        let t = s.skip(1);
        assert(forall|k: int| 0 <= k < i - 1 ==> t[k] == s[k + 1] && s[k + 1] != c);
        assert(i - 1 < t.len() ==> t[i - 1] == s[i]);
        lemma_first_at_is(t, c, i - 1);
    }
}

/// Runtime test for a decimal digit.
fn is_digit_char(c: char) -> (r: bool)
    ensures
        r == is_digit(c),
{
    let u = c as u32;
    48 <= u && u <= 57
}

/// The value of a digit character.
fn digit_value(c: char) -> (r: u64)
    requires
        is_digit(c),
    ensures
        r as int == digit_val(c),
        r < 10,
{
    (c as u32 as u64) - 48
}

/// The first occurrence of `c` at or after `from`.
fn find_char_from(s: &str, c: char, from: usize) -> (i: usize)
    requires
        from <= s@.len(),
    ensures
        from <= i <= s@.len(),
        forall|k: int| from <= k < i ==> s@[k] != c,
        i < s@.len() ==> s@[i as int] == c,
{
    let len = s.unicode_len();
    let mut i: usize = from;
    while i < len
        invariant
            from <= i <= len,
            len == s@.len(),
            forall|k: int| from <= k < i ==> s@[k] != c,
        decreases len - i,
    {
        if s.get_char(i) == c {
            return i;
        }
        i += 1;
    }
    len
}

/// Reads the digits of `s` between `from` and `to`; succeeds exactly when
/// the range is a nonempty digit string whose value is at most `cap`.
fn scan_digits_val(s: &str, from: usize, to: usize, cap: u64) -> (r: Option<u64>)
    requires
        from <= to <= s@.len(),
        cap <= 0x1000_0000_0000_0000,
    ensures
        match r {
            Some(v) => from < to && all_digits(s@.subrange(from as int, to as int)) && v as int
                == digits_val(s@.subrange(from as int, to as int)) && v <= cap,
            None => !(from < to && all_digits(s@.subrange(from as int, to as int)) && digits_val(
                s@.subrange(from as int, to as int),
            ) <= cap),
        },
{
    if from == to {
        return None;
    }
    let ghost t = s@.subrange(from as int, to as int);
    let mut i: usize = from;
    let mut mag: u64 = 0;
    while i < to
        invariant
            from <= i <= to <= s@.len(),
            cap <= 0x1000_0000_0000_0000,
            t == s@.subrange(from as int, to as int),
            forall|k: int| from <= k < i ==> is_digit(s@[k]),
            mag as int == digits_val(s@.subrange(from as int, i as int)),
            mag <= cap,
        decreases to - i,
    {
        let c = s.get_char(i);
        if !is_digit_char(c) {
            proof {
                assert(t[i - from] == s@[i as int]);
                assert(!all_digits(t));
            }
            return None;
        }
        let d = digit_value(c);
        proof {
            let prev = s@.subrange(from as int, i as int);
            let cur = s@.subrange(from as int, i + 1);
            assert(cur.take(cur.len() - 1) =~= prev);
            assert(cur[cur.len() - 1] == s@[i as int]);
            assert(digits_val(cur) == digits_val(prev) * 10 + digit_val(s@[i as int]));
        }
        let next = mag * 10 + d;
        if next > cap {
            proof {
                if all_digits(t) && digits_val(t) <= cap {
                    lemma_digits_val_prefix_le(t, i + 1 - from);
                    assert(t.take(i + 1 - from) =~= s@.subrange(from as int, i + 1));
                }
            }
            return None;
        }
        mag = next;
        i += 1;
    }
    proof {
        assert(s@.subrange(from as int, i as int) =~= t);
        assert(forall|k: int| 0 <= k < t.len() ==> t[k] == s@[k + from]);
    }
    Some(mag)
}

/// Whether every character between `from` and `to` is a digit.
fn all_digits_range(s: &str, from: usize, to: usize) -> (r: bool)
    requires
        from <= to <= s@.len(),
    ensures
        r == all_digits(s@.subrange(from as int, to as int)),
{
    let ghost t = s@.subrange(from as int, to as int);
    let mut i: usize = from;
    while i < to
        invariant
            from <= i <= to <= s@.len(),
            t == s@.subrange(from as int, to as int),
            forall|k: int| from <= k < i ==> is_digit(s@[k]),
        decreases to - i,
    {
        if !is_digit_char(s.get_char(i)) {
            proof {
                assert(t[i - from] == s@[i as int]);
            }
            return false;
        }
        i += 1;
    }
    proof {
        assert(forall|k: int| 0 <= k < t.len() ==> t[k] == s@[k + from]);
    }
    true
}

/// Reads a signed decimal integer in the range of `i32`, as the flag and
/// sound fields use it.
pub fn parse_i32_str(s: &str) -> (r: Option<i32>)
    ensures
        match spec_parse_i32(s@) {
            Some(v) => r == Some(v as i32),
            None => r is None,
        },
{
    let len = s.unicode_len();
    if len == 0 {
        return None;
    }
    let first = s.get_char(0);
    let neg = first == '-';
    let start: usize = if first == '-' || first == '+' {
        1
    } else {
        0
    };
    let ghost body = if start == 1 {
        s@.skip(1)
    } else {
        s@
    };
    proof {
        assert(body =~= s@.subrange(start as int, len as int));
    }
    match scan_digits_val(s, start, len, 0x8000_0000) {
        None => {
            proof {
                if spec_parse_i32(s@) is Some {
                    lemma_digits_val_nonneg(body);
                }
            }
            None
        },
        Some(mag) => {
            if neg {
                if mag == 0x8000_0000 {
                    Some(i32::MIN)
                } else {
                    Some(-(mag as i32))
                }
            } else {
                if mag == 0x8000_0000 {
                    None
                } else {
                    Some(mag as i32)
                }
            }
        },
    }
}

/// Reads a temperature field into hundredths of a degree.
pub fn parse_temp_centi(s: &str) -> (r: Option<i64>)
    ensures
        match spec_parse_temp_centi(s@) {
            Some(v) => r == Some(v as i64),
            None => r is None,
        },
{
    let len = s.unicode_len();
    if len == 0 {
        return None;
    }
    let first = s.get_char(0);
    let neg = first == '-';
    let start: usize = if first == '-' || first == '+' {
        1
    } else {
        0
    };
    let ghost body = if start == 1 {
        s@.skip(1)
    } else {
        s@
    };
    proof {
        assert(body =~= s@.subrange(start as int, len as int));
    }
    let dot = find_char_from(s, '.', start);
    proof {
        assert(forall|k: int| 0 <= k < body.len() ==> body[k] == s@[k + start]);
        lemma_first_at_is(body, '.', dot - start);
        assert(body.take(dot - start) =~= s@.subrange(start as int, dot as int));
    }
    let ip_val = match scan_digits_val(s, start, dot, 999_999_999) {
        None => {
            return None;
        },
        Some(v) => v,
    };
    let mut centi: u64 = ip_val * 100;
    if dot < len {
        let fstart = dot + 1;
        proof {
            assert(body.skip(dot - start + 1) =~= s@.subrange(fstart as int, len as int));
        }
        if fstart >= len {
            return None;
        }
        if !all_digits_range(s, fstart, len) {
            return None;
        }
        let c0 = s.get_char(fstart);
        proof {
            assert(s@.subrange(fstart as int, len as int)[0] == s@[fstart as int]);
        }
        centi = centi + digit_value(c0) * 10;
        if fstart + 1 < len {
            let c1 = s.get_char(fstart + 1);
            proof {
                assert(s@.subrange(fstart as int, len as int)[1] == s@[fstart + 1]);
            }
            centi = centi + digit_value(c1);
        }
    }
    let v: i64 = if neg {
        -(centi as i64)
    } else {
        centi as i64
    };
    Some(v)
}

/// Reads one device line into a reading stamped with `timestamp`; `None`
/// exactly for the lines that the grammar skips.
pub fn parse_line(line: &str, timestamp: i64) -> (r: Option<SensorReading>)
    ensures
        r == spec_parse_line(line@, timestamp),
{
    let len = line.unicode_len();
    let c1 = find_char_from(line, ',', 0);
    proof {
        lemma_first_at_is(line@, ',', c1 as int);
    }
    if c1 == len {
        return None;
    }
    let rest = line.substring_char(c1 + 1, len);
    proof {
        assert(rest@ =~= line@.skip(c1 + 1));
    }
    let rest_len = rest.unicode_len();
    let c2 = find_char_from(rest, ',', 0);
    proof {
        lemma_first_at_is(rest@, ',', c2 as int);
    }
    if c2 == rest_len {
        return None;
    }
    let f0 = line.substring_char(0, c1);
    let f1 = rest.substring_char(0, c2);
    let f2 = rest.substring_char(c2 + 1, rest_len);
    proof {
        assert(f0@ =~= line@.take(c1 as int));
        assert(f1@ =~= rest@.take(c2 as int));
        assert(f2@ =~= rest@.skip(c2 + 1));
    }
    let c3 = find_char_from(f2, ',', 0);
    proof {
        lemma_first_at_is(f2@, ',', c3 as int);
    }
    if c3 != f2.unicode_len() {
        return None;
    }
    let temp = match parse_temp_centi(trim_str(f0)) {
        None => {
            return None;
        },
        Some(t) => t,
    };
    let flag = match parse_i32_str(trim_str(f1)) {
        None => {
            return None;
        },
        Some(m) => m,
    };
    let sound = match parse_i32_str(trim_str(f2)) {
        None => {
            return None;
        },
        Some(v) => v,
    };
    Some(
        SensorReading {
            temperature_centi: temp,
            motion: flag != 0,
            sound_level: sound,
            timestamp,
        },
    )
}

} // verus!
