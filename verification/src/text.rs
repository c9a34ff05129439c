//! Small verified text utilities: string equality, ASCII trimming, and
//! decimal formatting of the integer quantities the library carries.

use vstd::prelude::*;

verus! {

/// The whitespace characters stripped from device line fields.
pub open spec fn is_space(c: char) -> bool {
    c == ' ' || c == '\t' || c == '\r' || c == '\n'
}

/// Runtime test for [`is_space`].
pub fn is_space_char(c: char) -> (r: bool)
    ensures
        r == is_space(c),
{
    c == ' ' || c == '\t' || c == '\r' || c == '\n'
}

/// Character-for-character string equality.
pub fn str_eq(a: &str, b: &str) -> (r: bool)
    ensures
        r == (a@ == b@),
{
    let alen = a.unicode_len();
    let blen = b.unicode_len();
    if alen != blen {
        return false;
    }
    let mut i: usize = 0;
    while i < alen
        invariant
            i <= alen,
            alen == a@.len(),
            alen == b@.len(),
            forall|k: int| 0 <= k < i ==> a@[k] == b@[k],
        decreases alen - i,
    {
        if a.get_char(i) != b.get_char(i) {
            return false;
        }
        i += 1;
    }
    proof {
        assert(a@ =~= b@);
    }
    true
}

/// Index of the first character that is not whitespace; the length when the
/// whole string is whitespace.
pub open spec fn trim_start_idx(s: Seq<char>) -> int
    decreases s.len(),
{
    if s.len() == 0 || !is_space(s[0]) {
        0
    } else {
        1 + trim_start_idx(s.skip(1))
    }
}

/// One past the index of the last character that is not whitespace; zero
/// when the whole string is whitespace.
pub open spec fn trim_end_idx(s: Seq<char>) -> int
    decreases s.len(),
{
    if s.len() == 0 || !is_space(s[s.len() - 1]) {
        s.len() as int
    } else {
        trim_end_idx(s.take(s.len() - 1))
    }
}

/// The string with leading and trailing whitespace removed.
pub open spec fn spec_trim(s: Seq<char>) -> Seq<char> {
    if trim_start_idx(s) <= trim_end_idx(s) {
        s.subrange(trim_start_idx(s), trim_end_idx(s))
    } else {
        Seq::empty()
    }
}

pub proof fn lemma_trim_end_idx_bounds(s: Seq<char>)
    ensures
        0 <= trim_end_idx(s) <= s.len(),
    decreases s.len(),
{
    if s.len() != 0 && is_space(s[s.len() - 1]) {
        lemma_trim_end_idx_bounds(s.take(s.len() - 1));
    }
}

/// An index with only whitespace before it and a non-whitespace character
/// (or the end) at it is exactly `trim_start_idx`.
pub proof fn lemma_trim_start_idx_is(s: Seq<char>, i: int)
    requires
        0 <= i <= s.len(),
        forall|k: int| 0 <= k < i ==> is_space(s[k]),
        i < s.len() ==> !is_space(s[i]),
    ensures
        trim_start_idx(s) == i,
    decreases s.len(),
{
    if i == 0 {
    } else {
        assert(is_space(s[0]));
        let t = s.skip(1);
        assert(forall|k: int| 0 <= k < i - 1 ==> s[k + 1] == t[k] && is_space(s[k + 1]));
        assert(i - 1 < t.len() ==> t[i - 1] == s[i]);
        lemma_trim_start_idx_is(t, i - 1);
    }
}

/// An index with only whitespace from it to the end and a non-whitespace
/// character just before it (or the start) is exactly `trim_end_idx`.
pub proof fn lemma_trim_end_idx_is(s: Seq<char>, j: int)
    requires
        0 <= j <= s.len(),
        forall|k: int| j <= k < s.len() ==> is_space(s[k]),
        j > 0 ==> !is_space(s[j - 1]),
    ensures
        trim_end_idx(s) == j,
    decreases s.len(),
{
    if j == s.len() {
    } else {
        assert(is_space(s[s.len() - 1]));
        let t = s.take(s.len() - 1);
        assert(forall|k: int| j <= k < t.len() ==> t[k] == s[k] && is_space(s[k]));
        assert(j > 0 ==> t[j - 1] == s[j - 1]);
        lemma_trim_end_idx_is(t, j);
    }
}

fn trim_start_pos(s: &str) -> (i: usize)
    ensures
        i as int == trim_start_idx(s@),
        i <= s@.len(),
        i < s@.len() ==> !is_space(s@[i as int]),
        forall|k: int| 0 <= k < i ==> is_space(s@[k]),
{
    let len = s.unicode_len();
    let mut i: usize = 0;
    while i < len
        invariant
            i <= len,
            len == s@.len(),
            forall|k: int| 0 <= k < i ==> is_space(s@[k]),
        decreases len - i,
    {
        if !is_space_char(s.get_char(i)) {
            proof {
                lemma_trim_start_idx_is(s@, i as int);
            }
            return i;
        }
        i += 1;
    }
    proof {
        lemma_trim_start_idx_is(s@, len as int);
    }
    len
}

fn trim_end_pos(s: &str, from: usize) -> (j: usize)
    requires
        from <= s@.len(),
        from < s@.len() ==> !is_space(s@[from as int]),
    ensures
        from <= j <= s@.len(),
        forall|k: int| j <= k < s@.len() ==> is_space(s@[k]),
        j > from ==> !is_space(s@[j - 1]),
{
    let len = s.unicode_len();
    let mut j: usize = len;
    while j > from
        invariant
            from <= j <= len,
            len == s@.len(),
            forall|k: int| j <= k < s@.len() ==> is_space(s@[k]),
        decreases j,
    {
        if !is_space_char(s.get_char(j - 1)) {
            return j;
        }
        j -= 1;
    }
    j
}

/// Removes leading and trailing whitespace.
pub fn trim_str(s: &str) -> (r: &str)
    ensures
        r@ == spec_trim(s@),
{
    let i = trim_start_pos(s);
    let j = trim_end_pos(s, i);
    proof {
        if i < s@.len() {
            assert(j > i) by {
                if j <= i {
                    assert(is_space(s@[i as int]));
                }
            }
            lemma_trim_end_idx_is(s@, j as int);
        } else {
            assert(j == i);
            lemma_trim_end_idx_bounds(s@);
            assert(s@.subrange(i as int, j as int) =~= Seq::<char>::empty());
            if trim_start_idx(s@) <= trim_end_idx(s@) {
                assert(trim_end_idx(s@) == s@.len()) by {
                    lemma_trim_end_idx_bounds(s@);
                }
                assert(s@.subrange(trim_start_idx(s@), trim_end_idx(s@)) =~= s@.subrange(
                    i as int,
                    j as int,
                ));
            }
        }
    }
    s.substring_char(i, j)
}

/// The decimal digit character of a value below ten.
pub open spec fn spec_digit(d: int) -> char {
    if d == 0 {
        '0'
    } else if d == 1 {
        '1'
    } else if d == 2 {
        '2'
    } else if d == 3 {
        '3'
    } else if d == 4 {
        '4'
    } else if d == 5 {
        '5'
    } else if d == 6 {
        '6'
    } else if d == 7 {
        '7'
    } else if d == 8 {
        '8'
    } else {
        '9'
    }
}

/// The lower-case hexadecimal digit character of a value below sixteen.
pub open spec fn spec_hex_digit(d: int) -> char {
    if d < 10 {
        spec_digit(d)
    } else if d == 10 {
        'a'
    } else if d == 11 {
        'b'
    } else if d == 12 {
        'c'
    } else if d == 13 {
        'd'
    } else if d == 14 {
        'e'
    } else {
        'f'
    }
}

/// Appends the hexadecimal digit character of `d`.
pub fn append_hex_digit(out: &mut String, d: u64)
    requires
        d < 16,
    ensures
        final(out)@ == old(out)@ + seq![spec_hex_digit(d as int)],
{
    if d < 10 {
        append_digit(out, d);
    } else {
        proof {
            reveal_strlit("a");
            reveal_strlit("b");
            reveal_strlit("c");
            reveal_strlit("d");
            reveal_strlit("e");
            reveal_strlit("f");
        }
        match d {
            10 => out.append("a"),
            11 => out.append("b"),
            12 => out.append("c"),
            13 => out.append("d"),
            14 => out.append("e"),
            _ => out.append("f"),
        }
        proof {
            assert(final(out)@ =~= old(out)@ + seq![spec_hex_digit(d as int)]);
        }
    }
}

/// Relies on std's `String::push`: it appends the given character to the
/// end of the string.
pub assume_specification[ String::push ](s: &mut String, c: char)
    ensures
        final(s)@ == old(s)@.push(c),
;

/// The decimal numeral of a natural number, most significant digit first.
pub open spec fn spec_u64_str(n: nat) -> Seq<char>
    decreases n,
{
    if n < 10 {
        seq![spec_digit(n as int)]
    } else {
        spec_u64_str(n / 10).push(spec_digit((n % 10) as int))
    }
}

/// The decimal numeral of an integer, with a leading minus sign when
/// negative.
pub open spec fn spec_i64_str(v: int) -> Seq<char> {
    if v < 0 {
        seq!['-'] + spec_u64_str((-v) as nat)
    } else {
        spec_u64_str(v as nat)
    }
}

fn append_digit(out: &mut String, d: u64)
    requires
        d < 10,
    ensures
        final(out)@ == old(out)@ + seq![spec_digit(d as int)],
{
    proof {
        reveal_strlit("0");
        reveal_strlit("1");
        reveal_strlit("2");
        reveal_strlit("3");
        reveal_strlit("4");
        reveal_strlit("5");
        reveal_strlit("6");
        reveal_strlit("7");
        reveal_strlit("8");
        reveal_strlit("9");
    }
    match d {
        0 => out.append("0"),
        1 => out.append("1"),
        2 => out.append("2"),
        3 => out.append("3"),
        4 => out.append("4"),
        5 => out.append("5"),
        6 => out.append("6"),
        7 => out.append("7"),
        8 => out.append("8"),
        _ => out.append("9"),
    }
    proof {
        assert(final(out)@ =~= old(out)@ + seq![spec_digit(d as int)]);
    }
}

/// Appends the decimal numeral of `n`.
pub fn append_u64(out: &mut String, n: u64)
    ensures
        final(out)@ == old(out)@ + spec_u64_str(n as nat),
    decreases n,
{
    if n < 10 {
        append_digit(out, n);
    } else {
        append_u64(out, n / 10);
        append_digit(out, n % 10);
        proof {
            assert(final(out)@ =~= old(out)@ + spec_u64_str(n as nat));
        }
    }
}

/// Appends the decimal numeral of `v`, sign included.
pub fn append_i64(out: &mut String, v: i64)
    ensures
        final(out)@ == old(out)@ + spec_i64_str(v as int),
{
    if v < 0 {
        proof {
            reveal_strlit("-");
        }
        out.append("-");
        let m: u64 = ((-(v + 1)) as u64) + 1;
        assert(m as nat == (-(v as int)) as nat);
        append_u64(out, m);
        proof {
            assert(final(out)@ =~= old(out)@ + spec_i64_str(v as int));
        }
    } else {
        append_u64(out, v as u64);
    }
}

/// The decimal rendering of a quantity of hundredths: the integer part, a
/// point, and one or two fractional digits (two only when the second is not
/// zero).
pub open spec fn spec_centi_str(c: int) -> Seq<char> {
    let m = if c < 0 {
        -c
    } else {
        c
    };
    let sign: Seq<char> = if c < 0 {
        seq!['-']
    } else {
        Seq::empty()
    };
    let frac = if m % 10 == 0 {
        seq![spec_digit((m % 100) / 10)]
    } else {
        seq![spec_digit((m % 100) / 10), spec_digit(m % 10)]
    };
    sign + spec_u64_str((m / 100) as nat) + seq!['.'] + frac
}

/// Appends the decimal rendering of a quantity of hundredths.
pub fn append_centi(out: &mut String, c: i64)
    ensures
        final(out)@ == old(out)@ + spec_centi_str(c as int),
{
    let m: u64 = if c < 0 {
        proof {
            reveal_strlit("-");
        }
        out.append("-");
        ((-(c + 1)) as u64) + 1
    } else {
        c as u64
    };
    append_u64(out, m / 100);
    proof {
        reveal_strlit(".");
    }
    out.append(".");
    append_digit(out, (m % 100) / 10);
    if m % 10 != 0 {
        append_digit(out, m % 10);
    }
    proof {
        assert(final(out)@ =~= old(out)@ + spec_centi_str(c as int));
    }
}

} // verus!
