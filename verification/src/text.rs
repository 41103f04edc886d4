//! String and number helpers: decimal formatting, decimal parsing,
//! newline-style joining, and URL path joining over plain strings.

use vstd::prelude::*;
use vstd::string::*;

verus! {

/// The character for one decimal digit value.
pub open spec fn digit_char(d: nat) -> char {
    if d == 0 {
        '0'
    } else if d == 1 {
        '1'
    } else if d == 2 {
        '2'
    } else if d == 3 {
        '3'
    } else if d == 4 {
        '4'
    } else if d == 5 {
        '5'
    } else if d == 6 {
        '6'
    } else if d == 7 {
        '7'
    } else if d == 8 {
        '8'
    } else {
        '9'
    }
}

/// Decimal representation of a natural number, most significant digit first,
/// with no leading zeros (a single `'0'` for zero).
pub open spec fn dec_str(n: nat) -> Seq<char>
    decreases n,
{
    if n < 10 {
        seq![digit_char(n)]
    } else {
        dec_str(n / 10) + seq![digit_char(n % 10)]
    }
}

/// Two-digit zero-padded decimal form of a number below one hundred.
pub open spec fn pad2(n: nat) -> Seq<char> {
    seq![digit_char(n / 10 % 10), digit_char(n % 10)]
}

/// Four-digit zero-padded decimal form of a number below ten thousand.
pub open spec fn pad4(n: nat) -> Seq<char> {
    seq![
        digit_char(n / 1000 % 10),
        digit_char(n / 100 % 10),
        digit_char(n / 10 % 10),
        digit_char(n % 10),
    ]
}

/// Decimal representation of a signed number: a leading `'-'` for negatives.
pub open spec fn dec_str_signed(n: int) -> Seq<char> {
    if n < 0 {
        seq!['-'] + dec_str((-n) as nat)
    } else {
        dec_str(n as nat)
    }
}

/// Appends the single digit `d` to `s`.
fn push_digit(s: &mut String, d: u8)
    requires
        d < 10,
    ensures
        final(s)@ == old(s)@ + seq![digit_char(d as nat)],
{
    proof {
        reveal_strlit("0");
        reveal_strlit("1");
        reveal_strlit("2");
        reveal_strlit("3");
        reveal_strlit("4");
        reveal_strlit("5");
        reveal_strlit("6");
        reveal_strlit("7");
        reveal_strlit("8");
        reveal_strlit("9");
    }
    match d {
        0 => {
            s.append("0");
            assert("0"@ =~= seq![digit_char(0)]);
        },
        1 => {
            s.append("1");
            assert("1"@ =~= seq![digit_char(1)]);
        },
        2 => {
            s.append("2");
            assert("2"@ =~= seq![digit_char(2)]);
        },
        3 => {
            s.append("3");
            assert("3"@ =~= seq![digit_char(3)]);
        },
        4 => {
            s.append("4");
            assert("4"@ =~= seq![digit_char(4)]);
        },
        5 => {
            s.append("5");
            assert("5"@ =~= seq![digit_char(5)]);
        },
        6 => {
            s.append("6");
            assert("6"@ =~= seq![digit_char(6)]);
        },
        7 => {
            s.append("7");
            assert("7"@ =~= seq![digit_char(7)]);
        },
        8 => {
            s.append("8");
            assert("8"@ =~= seq![digit_char(8)]);
        },
        _ => {
            s.append("9");
            assert("9"@ =~= seq![digit_char(9)]);
        },
    }
}

/// Appends the two-digit zero-padded form of `n` to `s`.
pub(crate) fn push_pad2(s: &mut String, n: u8)
    requires
        n < 100,
    ensures
        final(s)@ == old(s)@ + pad2(n as nat),
{
    push_digit(s, n / 10);
    push_digit(s, n % 10);
    proof {
        assert(s@ =~= old(s)@ + pad2(n as nat));
    }
}

/// Appends the four-digit zero-padded form of `n` to `s`.
pub(crate) fn push_pad4(s: &mut String, n: u16)
    requires
        n < 10000,
    ensures
        final(s)@ == old(s)@ + pad4(n as nat),
{
    push_digit(s, (n / 1000) as u8);
    push_digit(s, (n / 100 % 10) as u8);
    push_digit(s, (n / 10 % 10) as u8);
    push_digit(s, (n % 10) as u8);
    proof {
        assert(s@ =~= old(s)@ + pad4(n as nat));
    }
}

/// Appends the decimal form of `n` to `s`.
fn push_u64(s: &mut String, n: u64)
    ensures
        final(s)@ == old(s)@ + dec_str(n as nat),
    decreases n,
{
    if n < 10 {
        push_digit(s, n as u8);
    } else {
        push_u64(s, n / 10);
        push_digit(s, (n % 10) as u8);
    }
}

/// Decimal form of an unsigned number.
pub fn u64_to_string(n: u64) -> (r: String)
    ensures
        r@ == dec_str(n as nat),
{
    let mut r = String::new();
    push_u64(&mut r, n);
    proof {
        assert(r@ =~= dec_str(n as nat));
    }
    r
}

/// Decimal form of a signed number, with a leading `'-'` for negatives.
pub fn i64_to_string(n: i64) -> (r: String)
    ensures
        r@ == dec_str_signed(n as int),
{
    if n >= 0 {
        u64_to_string(n as u64)
    } else {
        let mag: u64 = (-(n as i128)) as u64;
        let mut r = String::new();
        proof {
            reveal_strlit("-");
        }
        r.append("-");
        push_u64(&mut r, mag);
        proof {
            assert("-"@ =~= seq!['-']);
            assert(r@ =~= dec_str_signed(n as int));
        }
        r
    }
}

/// Whether `c` is an ASCII decimal digit.
pub open spec fn is_digit_char(c: char) -> bool {
    48 <= c as int <= 57
}

/// The value of one ASCII decimal digit.
pub open spec fn digit_val(c: char) -> nat {
    (c as int - 48) as nat
}

/// Whether every character of `s` is an ASCII decimal digit.
pub open spec fn all_digits(s: Seq<char>) -> bool {
    forall|i: int| 0 <= i < s.len() ==> is_digit_char(s[i])
}

/// The number a digit string denotes, most significant digit first.
pub open spec fn digits_val(s: Seq<char>) -> nat
    decreases s.len(),
{
    if s.len() == 0 {
        0
    } else {
        digits_val(s.drop_last()) * 10 + digit_val(s.last())
    }
}

/// What parsing `s` as a signed decimal integer yields: an optional single
/// `'+'` or `'-'`, then one or more digits, and a value within the `i64`
/// range; anything else is rejected. This is the integer syntax `total_amount`
/// custom fields are read with.
pub open spec fn parse_i64_spec(s: Seq<char>) -> Option<i64> {
    if s.len() == 0 {
        None
    } else {
        let neg = s[0] == '-';
        let ds = if s[0] == '-' || s[0] == '+' {
            s.skip(1)
        } else {
            s
        };
        if ds.len() == 0 || !all_digits(ds) {
            None
        } else {
            let sv = if neg {
                -(digits_val(ds) as int)
            } else {
                digits_val(ds) as int
            };
            if i64::MIN <= sv <= i64::MAX {
                Some(sv as i64)
            } else {
                None
            }
        }
    }
}

/// A digit string denotes at least as much as any of its prefixes.
proof fn lemma_digits_val_prefix_le(s: Seq<char>, j: int)
    requires
        0 <= j <= s.len(),
    ensures
        digits_val(s.take(j)) <= digits_val(s),
    decreases s.len() - j,
{
    if j < s.len() {
        lemma_digits_val_prefix_le(s, j + 1);
        assert(s.take(j + 1).drop_last() =~= s.take(j));
        assert(digits_val(s.take(j + 1)) == digits_val(s.take(j)) * 10 + digit_val(s[j]));
        assert(digits_val(s.take(j)) <= digits_val(s.take(j)) * 10 + digit_val(s[j]));
    } else {
        assert(s.take(j) =~= s);
    }
}

/// The magnitude of `s` as a digit string, `None` where a non-digit occurs
/// or the value exceeds `u64`.
fn parse_digits_u64(s: &str, from: usize) -> (r: Option<u64>)
    requires
        from <= s@.len(),
    ensures
        (r matches Some(v) ==> all_digits(s@.skip(from as int)) && v == digits_val(
            s@.skip(from as int),
        )),
        (r is None ==> !all_digits(s@.skip(from as int)) || digits_val(s@.skip(from as int))
            > u64::MAX),
{
    let n = s.unicode_len();
    let ghost ds = s@.skip(from as int);
    let mut i: usize = from;
    let mut acc: u64 = 0;
    while i < n
        invariant
            from <= i <= n,
            n == s@.len(),
            ds == s@.skip(from as int),
            all_digits(ds.take(i - from)),
            acc == digits_val(ds.take(i - from)),
        decreases n - i,
    {
        let c = s.get_char(i);
        if !(c >= '0' && c <= '9') {
            proof {
                assert(ds[i - from] == s@[i as int]);
                assert(!is_digit_char(ds[i - from]));
            }
            return None;
        }
        let d: u32 = c as u32 - 48;
        proof {
            assert(ds.take(i - from + 1).drop_last() =~= ds.take(i - from));
            assert(ds.take(i - from + 1).last() == s@[i as int]);
        }
        let stepped = match acc.checked_mul(10) {
            Some(t) => t.checked_add(d as u64),
            None => None,
        };
        match stepped {
            Some(t) => {
                acc = t;
            },
            None => {
                proof {
                    assert(digits_val(ds.take(i - from + 1)) > u64::MAX);
                    lemma_digits_val_prefix_le(ds, i - from + 1);
                }
                return None;
            },
        }
        i = i + 1;
    }
    proof {
        assert(ds.take(n - from) =~= ds);
    }
    Some(acc)
}

/// Parses `s` as a signed decimal integer: an optional single `'+'` or `'-'`
/// sign, then one or more digits. Rejects empty input, stray characters, and
/// values outside the `i64` range.
pub fn parse_i64(s: &str) -> (r: Option<i64>)
    ensures
        r == parse_i64_spec(s@),
{
    let n = s.unicode_len();
    if n == 0 {
        return None;
    }
    let first = s.get_char(0);
    let neg = first == '-';
    let from: usize = if first == '-' || first == '+' {
        1
    } else {
        0
    };
    proof {
        if from == 0 {
            assert(s@.skip(0) =~= s@);
        }
    }
    if from >= n {
        return None;
    }
    match parse_digits_u64(s, from) {
        None => None,
        Some(mag) => {
            if neg {
                if mag <= 9223372036854775807u64 {
                    Some(-(mag as i64))
                } else if mag == 9223372036854775808u64 {
                    Some(i64::MIN)
                } else {
                    None
                }
            } else {
                if mag <= 9223372036854775807u64 {
                    Some(mag as i64)
                } else {
                    None
                }
            }
        },
    }
}

/// Compares two string slices by their characters.
pub fn str_eq(a: &str, b: &str) -> (r: bool)
    ensures
        r == (a@ == b@),
{
    let na = a.unicode_len();
    let nb = b.unicode_len();
    if na != nb {
        return false;
    }
    let mut i: usize = 0;
    while i < na
        invariant
            i <= na,
            na == a@.len(),
            na == b@.len(),
            forall|j: int| 0 <= j < i ==> a@[j] == b@[j],
        decreases na - i,
    {
        if a.get_char(i) != b.get_char(i) {
            return false;
        }
        i = i + 1;
    }
    proof {
        assert(a@ =~= b@);
    }
    true
}

/// Lexicographic order on strings by code point: the order `BTreeMap` keys
/// serialize in.
pub open spec fn chars_le(a: Seq<char>, b: Seq<char>) -> bool
    decreases a.len(),
{
    if a.len() == 0 {
        true
    } else if b.len() == 0 {
        false
    } else if a[0] == b[0] {
        chars_le(a.skip(1), b.skip(1))
    } else {
        (a[0] as int) < (b[0] as int)
    }
}

/// The order is total: of any two strings, one is less or equal to the other.
pub proof fn lemma_chars_le_total(a: Seq<char>, b: Seq<char>)
    ensures
        chars_le(a, b) || chars_le(b, a),
    decreases a.len(),
{
    if a.len() != 0 && b.len() != 0 && a[0] == b[0] {
        lemma_chars_le_total(a.skip(1), b.skip(1));
    }
}

/// The order is transitive.
pub proof fn lemma_chars_le_trans(a: Seq<char>, b: Seq<char>, c: Seq<char>)
    requires
        chars_le(a, b),
        chars_le(b, c),
    ensures
        chars_le(a, c),
    decreases a.len(),
{
    if a.len() != 0 && b.len() != 0 && c.len() != 0 && a[0] == b[0] && b[0] == c[0] {
        lemma_chars_le_trans(a.skip(1), b.skip(1), c.skip(1));
    }
}

/// Dropping an equal prefix of both strings keeps their order.
proof fn lemma_chars_le_skip_common(a: Seq<char>, b: Seq<char>, i: int)
    requires
        0 <= i <= a.len(),
        i <= b.len(),
        forall|j: int| 0 <= j < i ==> a[j] == b[j],
    ensures
        chars_le(a, b) == chars_le(a.skip(i), b.skip(i)),
    decreases i,
{
    if i > 0 {
        assert(a.len() > 0 && b.len() > 0 && a[0] == b[0]);
        assert forall|j: int| 0 <= j < i - 1 implies a.skip(1)[j] == b.skip(1)[j] by {
            assert(a.skip(1)[j] == a[j + 1]);
            assert(b.skip(1)[j] == b[j + 1]);
        }
        lemma_chars_le_skip_common(a.skip(1), b.skip(1), i - 1);
        assert(a.skip(1).skip(i - 1) =~= a.skip(i));
        assert(b.skip(1).skip(i - 1) =~= b.skip(i));
    } else {
        assert(a.skip(0) =~= a);
        assert(b.skip(0) =~= b);
    }
}

/// Compares two string slices in code-point order.
pub fn str_le(a: &str, b: &str) -> (r: bool)
    ensures
        r == chars_le(a@, b@),
{
    let na = a.unicode_len();
    let nb = b.unicode_len();
    let shorter: usize = if na < nb {
        na
    } else {
        nb
    };
    let mut i: usize = 0;
    while i < shorter
        invariant
            i <= shorter,
            na == a@.len(),
            nb == b@.len(),
            shorter <= na,
            shorter <= nb,
            forall|j: int| 0 <= j < i ==> a@[j] == b@[j],
        decreases shorter - i,
    {
        let ca = a.get_char(i);
        let cb = b.get_char(i);
        if ca != cb {
            proof {
                lemma_chars_le_skip_common(a@, b@, i as int);
                assert(a@.skip(i as int)[0] == a@[i as int]);
                assert(b@.skip(i as int)[0] == b@[i as int]);
            }
            return (ca as u32) < (cb as u32);
        }
        i = i + 1;
    }
    proof {
        lemma_chars_le_skip_common(a@, b@, shorter as int);
        if na <= nb {
            assert(a@.skip(shorter as int).len() == 0);
        } else {
            assert(b@.skip(shorter as int).len() == 0);
            assert(a@.skip(shorter as int).len() > 0);
        }
    }
    na <= nb
}

/// The parts joined with `sep` between consecutive parts.
pub open spec fn join_with(parts: Seq<Seq<char>>, sep: Seq<char>) -> Seq<char>
    decreases parts.len(),
{
    if parts.len() == 0 {
        Seq::empty()
    } else if parts.len() == 1 {
        parts[0]
    } else {
        join_with(parts.drop_last(), sep) + sep + parts.last()
    }
}

/// `base` with one trailing `'/'` removed, if it has one.
pub open spec fn strip_trailing_slash(s: Seq<char>) -> Seq<char> {
    if s.len() > 0 && s.last() == '/' {
        s.drop_last()
    } else {
        s
    }
}

/// The URL made of `base` (trailing slash tolerated) followed by `/<path>`
/// for each path segment, in order.
pub open spec fn joined_url(base: Seq<char>, paths: Seq<Seq<char>>) -> Seq<char>
    decreases paths.len(),
{
    if paths.len() == 0 {
        strip_trailing_slash(base)
    } else {
        joined_url(base, paths.drop_last()) + seq!['/'] + paths.last()
    }
}

/// Joins a base URL with fixed path segments. A single trailing slash on the
/// base is dropped so the result never holds a doubled separator.
pub fn join_url(base_url: &str, paths: &Vec<String>) -> (r: String)
    ensures
        r@ == joined_url(base_url@, paths.deep_view()),
{
    let n = base_url.unicode_len();
    let mut r = if n > 0 && base_url.get_char(n - 1) == '/' {
        base_url.substring_char(0, n - 1).to_owned()
    } else {
        base_url.to_owned()
    };
    proof {
        assert(r@ =~= strip_trailing_slash(base_url@));
        assert(paths.deep_view().take(0) =~= Seq::<Seq<char>>::empty());
    }
    let mut i: usize = 0;
    while i < paths.len()
        invariant
            i <= paths.len(),
            paths.deep_view().len() == paths.len(),
            r@ == joined_url(base_url@, paths.deep_view().take(i as int)),
        decreases paths.len() - i,
    {
        r.append("/");
        r.append(paths[i].as_str());
        proof {
            reveal_strlit("/");
            assert("/"@ =~= seq!['/']);
            let pv = paths.deep_view();
            assert(pv.take(i + 1).drop_last() =~= pv.take(i as int));
            assert(pv.take(i + 1).last() == pv[i as int]);
        }
        i = i + 1;
    }
    proof {
        assert(paths.deep_view().take(paths.len() as int) =~= paths.deep_view());
    }
    r
}

} // verus!
