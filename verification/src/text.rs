//! Verified text utilities: string comparison, substring search, file-name
//! extensions, and decimal rendering and parsing.

use vstd::prelude::*;
use vstd::string::StrSliceExecFns;
use vstd::string::StringExecFns;

verus! {

/// The decimal digit character for `d` (0 through 9).
pub open spec fn dec_digit(d: int) -> char {
    if d == 0 {
        '0'
    } else if d == 1 {
        '1'
    } else if d == 2 {
        '2'
    } else if d == 3 {
        '3'
    } else if d == 4 {
        '4'
    } else if d == 5 {
        '5'
    } else if d == 6 {
        '6'
    } else if d == 7 {
        '7'
    } else if d == 8 {
        '8'
    } else {
        '9'
    }
}

/// Decimal rendering of a non-negative integer, without sign or padding.
pub open spec fn dec_u(n: int) -> Seq<char>
    recommends
        n >= 0,
    decreases n,
{
    if n < 10 {
        seq![dec_digit(n)]
    } else {
        dec_u(n / 10) + seq![dec_digit(n % 10)]
    }
}

/// Decimal rendering of a signed integer: a minus sign for negatives,
/// then the digits.
pub open spec fn i64_dec(n: int) -> Seq<char> {
    if n < 0 {
        seq!['-'] + dec_u(-n)
    } else {
        dec_u(n)
    }
}

/// The one-character string for digit `d`.
fn digit_str(d: u64) -> (r: &'static str)
    requires
        d < 10,
    ensures
        r@ == seq![dec_digit(d as int)],
{
    let r: &'static str = if d == 0 {
        "0"
    } else if d == 1 {
        "1"
    } else if d == 2 {
        "2"
    } else if d == 3 {
        "3"
    } else if d == 4 {
        "4"
    } else if d == 5 {
        "5"
    } else if d == 6 {
        "6"
    } else if d == 7 {
        "7"
    } else if d == 8 {
        "8"
    } else {
        "9"
    };
    proof {
        reveal_strlit("0");
        reveal_strlit("1");
        reveal_strlit("2");
        reveal_strlit("3");
        reveal_strlit("4");
        reveal_strlit("5");
        reveal_strlit("6");
        reveal_strlit("7");
        reveal_strlit("8");
        reveal_strlit("9");
        assert(r@ =~= seq![dec_digit(d as int)]);
    }
    r
}

/// Renders a non-negative 64-bit integer in decimal.
pub fn u64_to_string(n: u64) -> (r: String)
    ensures
        r@ == dec_u(n as int),
    decreases n,
{
    if n < 10 {
        digit_str(n).to_owned()
    } else {
        let mut s = u64_to_string(n / 10);
        s.append(digit_str(n % 10));
        proof {
            assert(s@ =~= dec_u(n as int));
        }
        s
    }
}

/// Renders a signed 64-bit integer in decimal.
pub fn i64_to_string(n: i64) -> (r: String)
    ensures
        r@ == i64_dec(n as int),
{
    if n >= 0 {
        u64_to_string(n as u64)
    } else {
        let mag: u64 = if n == i64::MIN {
            9223372036854775808u64
        } else {
            (-n) as u64
        };
        let mut s = "-".to_owned();
        s.append(u64_to_string(mag).as_str());
        proof {
            reveal_strlit("-");
            assert(s@ =~= i64_dec(n as int));
        }
        s
    }
}

/// Character-wise string equality: true exactly when the two views agree.
pub fn str_eq(a: &str, b: &str) -> (r: bool)
    ensures
        r == (a@ == b@),
{
    let alen = a.unicode_len();
    let blen = b.unicode_len();
    if alen != blen {
        return false;
    }
    let mut i: usize = 0;
    while i < alen
        invariant
            0 <= i <= alen,
            alen as nat == a@.len(),
            alen as nat == b@.len(),
            forall|j: int| 0 <= j < i ==> a@[j] == b@[j],
        decreases alen - i,
    {
        if a.get_char(i) != b.get_char(i) {
            return false;
        }
        i += 1;
    }
    proof {
        assert(a@ =~= b@);
    }
    true
}

/// Whether `s` begins with `prefix`.
pub open spec fn has_prefix(s: Seq<char>, prefix: Seq<char>) -> bool {
    prefix.len() <= s.len() && s.subrange(0, prefix.len() as int) == prefix
}

/// Whether `s` has `needle` as a contiguous substring.
pub open spec fn has_substr(s: Seq<char>, needle: Seq<char>) -> bool {
    exists|i: int|
        0 <= i <= s.len() - needle.len() && #[trigger] s.subrange(i, i + needle.len() as int)
            == needle
}

/// Tests whether `s` starts with `prefix`.
pub fn starts_with(s: &str, prefix: &str) -> (r: bool)
    ensures
        r == has_prefix(s@, prefix@),
{
    let n = s.unicode_len();
    let p = prefix.unicode_len();
    if p > n {
        return false;
    }
    let head = s.substring_char(0, p);
    str_eq(head, prefix)
}

/// Tests whether `s` contains `needle` as a contiguous substring.
pub fn contains_substr(s: &str, needle: &str) -> (r: bool)
    ensures
        r == has_substr(s@, needle@),
{
    let n = s.unicode_len();
    let p = needle.unicode_len();
    if p > n {
        return false;
    }
    if p == 0 {
        proof {
            assert(s@.subrange(0, 0 + needle@.len() as int) =~= needle@);
        }
        return true;
    }
    let mut i: usize = 0;
    while i <= n - p
        invariant
            0 <= i <= n - p + 1,
            0 < p <= n,
            n as nat == s@.len(),
            p as nat == needle@.len(),
            forall|j: int| 0 <= j < i ==> #[trigger] s@.subrange(j, j + needle@.len() as int) != needle@,
        decreases n - p + 1 - i,
    {
        let w = s.substring_char(i, i + p);
        if str_eq(w, needle) {
            return true;
        }
        i += 1;
    }
    false
}

/// Whether `needle` occurs in `s` at position `i`.
pub open spec fn substr_at(s: Seq<char>, needle: Seq<char>, i: int) -> bool {
    0 <= i <= s.len() - needle.len() && s.subrange(i, i + needle.len() as int) == needle
}

/// The position of the first occurrence of `needle` at or after `i`, or -1
/// when there is none.
pub open spec fn find_from(s: Seq<char>, needle: Seq<char>, i: int) -> int
    decreases s.len() - needle.len() - i + 1,
{
    if i < 0 || i > s.len() - needle.len() {
        -1
    } else if substr_at(s, needle, i) {
        i
    } else {
        find_from(s, needle, i + 1)
    }
}

/// The position of the first occurrence of `needle` in `s`, or none.
#[verifier::loop_isolation(false)]
pub fn find_substr(s: &str, needle: &str) -> (r: Option<usize>)
    ensures
        match r {
            Some(j) => find_from(s@, needle@, 0) == j && substr_at(s@, needle@, j as int),
            None => find_from(s@, needle@, 0) == -1,
        },
{
    let n = s.unicode_len();
    let p = needle.unicode_len();
    if p > n {
        return None;
    }
    if p == 0 {
        proof {
            assert(s@.subrange(0, 0 + needle@.len() as int) =~= needle@);
        }
        return Some(0);
    }
    let mut i: usize = 0;
    while i <= n - p
        invariant
            0 <= i <= n - p + 1,
            0 < p <= n,
            n as nat == s@.len(),
            p as nat == needle@.len(),
            find_from(s@, needle@, 0) == find_from(s@, needle@, i as int),
        decreases n - p + 1 - i,
    {
        let w = s.substring_char(i, i + p);
        if str_eq(w, needle) {
            return Some(i);
        }
        i += 1;
    }
    None
}

/// What splitting `s` on a non-empty separator yields: the pieces between
/// the occurrences, in order, each occurrence consumed; a string without
/// the separator is one piece, and adjacent separators yield empty pieces.
pub open spec fn split_model(s: Seq<char>, sep: Seq<char>) -> Seq<Seq<char>>
    recommends
        sep.len() > 0,
    decreases s.len(),
{
    let j = find_from(s, sep, 0);
    if sep.len() == 0 || j < 0 || j > s.len() - sep.len() {
        seq![s]
    } else {
        seq![s.subrange(0, j)] + split_model(s.subrange(j + sep.len() as int, s.len() as int), sep)
    }
}

/// Splits `s` on a non-empty separator, per [`split_model`].
pub fn split_on(s: &str, sep: &str) -> (r: Vec<String>)
    requires
        sep@.len() > 0,
    ensures
        r.deep_view() == split_model(s@, sep@),
    decreases s@.len(),
{
    let n = s.unicode_len();
    let p = sep.unicode_len();
    match find_substr(s, sep) {
        None => {
            let mut out: Vec<String> = Vec::new();
            out.push(s.to_owned());
            proof {
                assert(out.deep_view() =~= split_model(s@, sep@));
            }
            out
        },
        Some(j) => {
            let head = s.substring_char(0, j);
            let tail = s.substring_char(j + p, n);
            let mut out: Vec<String> = Vec::new();
            out.push(head.to_owned());
            let mut rest = split_on(tail, sep);
            let ghost rest_view = rest.deep_view();
            out.append(&mut rest);
            proof {
                assert forall|t: int| 0 <= t < out@.len() implies out.deep_view()[t] == split_model(
                    s@,
                    sep@,
                )[t] by {
                    if t > 0 {
                        assert(out.deep_view()[t] == rest_view[t - 1]);
                    }
                }
                assert(out.deep_view() =~= split_model(s@, sep@));
            }
            out
        },
    }
}

/// The position of the last occurrence of `c` in `s`, or -1 when absent.
pub open spec fn last_index_of(s: Seq<char>, c: char) -> int
    decreases s.len(),
{
    if s.len() == 0 {
        -1
    } else if s[s.len() - 1] == c {
        s.len() - 1
    } else {
        last_index_of(s.drop_last(), c)
    }
}

proof fn lemma_last_index_is(s: Seq<char>, c: char, k: int)
    requires
        0 <= k < s.len(),
        s[k] == c,
        forall|j: int| k < j < s.len() ==> s[j] != c,
    ensures
        last_index_of(s, c) == k,
    decreases s.len(),
{
    if k == s.len() - 1 {
    } else {
        assert(s.drop_last()[k] == c);
        lemma_last_index_is(s.drop_last(), c, k);
    }
}

proof fn lemma_last_index_bound(s: Seq<char>, c: char, k: int)
    requires
        0 <= k,
        forall|j: int| k <= j < s.len() ==> s[j] != c,
    ensures
        last_index_of(s, c) < k,
    decreases s.len(),
{
    if s.len() == 0 {
    } else if s.len() <= k {
        lemma_all_below(s, c, k);
    } else {
        lemma_last_index_bound(s.drop_last(), c, k);
    }
}

proof fn lemma_last_index_range(s: Seq<char>, c: char)
    ensures
        -1 <= last_index_of(s, c) < s.len(),
    decreases s.len(),
{
    if s.len() == 0 {
    } else if s[s.len() - 1] == c {
    } else {
        lemma_last_index_range(s.drop_last(), c);
    }
}

proof fn lemma_all_below(s: Seq<char>, c: char, k: int)
    requires
        s.len() <= k,
    ensures
        last_index_of(s, c) < k,
    decreases s.len(),
{
    if s.len() == 0 {
    } else if s[s.len() - 1] == c {
    } else {
        lemma_all_below(s.drop_last(), c, k);
    }
}

/// The file-name extension of an identifier: what follows the last dot of
/// the final path segment. There is none when the segment has no dot, or
/// when its only dot is its first character (a hidden file).
pub open spec fn ext_spec(s: Seq<char>) -> Option<Seq<char>> {
    let d = last_index_of(s, '.');
    let sl = last_index_of(s, '/');
    if d > sl + 1 {
        Some(s.subrange(d + 1, s.len() as int))
    } else {
        None
    }
}

/// Returns the extension of `s`, per [`ext_spec`].
pub fn extension_of(s: &str) -> (r: Option<&str>)
    ensures
        match r {
            Some(e) => ext_spec(s@) == Some(e@),
            None => ext_spec(s@) is None,
        },
{
    let n = s.unicode_len();
    let mut i: usize = n;
    while i > 0
        invariant
            0 <= i <= n,
            n as nat == s@.len(),
            forall|j: int| i <= j < s@.len() ==> s@[j] != '.' && s@[j] != '/',
        decreases i,
    {
        let c = s.get_char(i - 1);
        if c == '/' {
            proof {
                lemma_last_index_is(s@, '/', i - 1 as int);
                lemma_last_index_bound(s@, '.', i as int);
            }
            return None;
        }
        if c == '.' {
            proof {
                lemma_last_index_is(s@, '.', i - 1 as int);
            }
            if i - 1 == 0 {
                proof {
                    lemma_last_index_range(s@, '/');
                }
                return None;
            }
            let before = s.get_char(i - 2);
            if before == '/' {
                proof {
                    lemma_last_index_is(s@, '/', i - 2 as int);
                }
                return None;
            }
            proof {
                lemma_last_index_bound(s@, '/', i - 2 as int);
            }
            return Some(s.substring_char(i, n));
        }
        i -= 1;
    }
    proof {
        lemma_last_index_bound(s@, '.', 0);
        lemma_last_index_range(s@, '/');
    }
    None
}

/// Whether `c` is a decimal digit.
pub open spec fn is_dec_digit(c: char) -> bool {
    '0' <= c && c <= '9'
}

/// The value of a decimal digit character.
pub open spec fn digit_val(c: char) -> int {
    c as int - '0' as int
}

/// Whether `s` is one or more decimal digits.
pub open spec fn all_digits(s: Seq<char>) -> bool {
    s.len() > 0 && forall|i: int| 0 <= i < s.len() ==> is_dec_digit(#[trigger] s[i])
}

/// The number denoted by a sequence of decimal digits.
pub open spec fn digits_val(s: Seq<char>) -> int
    decreases s.len(),
{
    if s.len() == 0 {
        0
    } else {
        digits_val(s.drop_last()) * 10 + digit_val(s.last())
    }
}

/// What parsing `s` as a 64-bit signed decimal integer yields: an optional
/// sign, then at least one digit, and the denoted number must be in range;
/// anything else does not parse.
pub open spec fn parse_i64_model(s: Seq<char>) -> Option<i64> {
    let digits = if s.len() > 0 && (s[0] == '-' || s[0] == '+') {
        s.drop_first()
    } else {
        s
    };
    let neg = s.len() > 0 && s[0] == '-';
    if all_digits(digits) {
        let v = digits_val(digits);
        if neg {
            if -v >= i64::MIN as int {
                Some((-v) as i64)
            } else {
                None
            }
        } else {
            if v <= i64::MAX as int {
                Some(v as i64)
            } else {
                None
            }
        }
    } else {
        None
    }
}

/// Parses `s` as a decimal 64-bit signed integer, per [`parse_i64_model`].
#[verifier::loop_isolation(false)]
pub fn parse_i64(s: &str) -> (r: Option<i64>)
    ensures
        r == parse_i64_model(s@),
{
    let n = s.unicode_len();
    if n == 0 {
        return None;
    }
    let c0 = s.get_char(0);
    let neg: bool = c0 == '-';
    let start: usize = if c0 == '-' || c0 == '+' {
        1
    } else {
        0
    };
    let ghost digits = if start == 1 {
        s@.drop_first()
    } else {
        s@
    };
    if n == start {
        proof {
            assert(!all_digits(digits));
        }
        return None;
    }
    // The accumulator equals the value read so far while that value still
    // fits in a u64, and otherwise only witnesses that it overflowed.
    let mut acc: u128 = 0;
    let mut i: usize = start;
    while i < n
        invariant
            start <= i <= n,
            digits == s@.subrange(start as int, n as int),
            digits.len() == n - start,
            forall|j: int| start <= j < i ==> is_dec_digit(#[trigger] s@[j]),
            ({
                let v = digits_val(s@.subrange(start as int, i as int));
                if v <= u64::MAX {
                    acc == v
                } else {
                    acc > u64::MAX
                }
            }),
        decreases n - i,
    {
        let c = s.get_char(i);
        let cv: u32 = c as u32;
        if cv < 48 || cv > 57 {
            proof {
                assert(digits[i - start] == s@[i as int]);
                assert(!is_dec_digit(digits[i - start]));
            }
            return None;
        }
        let d: u128 = (cv - 48) as u128;
        proof {
            let pre = s@.subrange(start as int, i as int);
            let cur = s@.subrange(start as int, i + 1 as int);
            assert(cur.drop_last() =~= pre);
            assert(cur.last() == s@[i as int]);
            assert(digits_val(cur) == digits_val(pre) * 10 + digit_val(s@[i as int]));
            assert(digits_val(pre) >= 0) by {
                lemma_digits_val_nonneg(pre);
            }
        }
        if acc <= u64::MAX as u128 {
            acc = acc * 10 + d;
        }
        i += 1;
    }
    proof {
        assert(s@.subrange(start as int, n as int) =~= digits);
        assert(all_digits(digits));
        lemma_digits_val_nonneg(digits);
    }
    if neg {
        if acc <= 9223372036854775808u128 {
            let m: u64 = acc as u64;
            if m == 9223372036854775808u64 {
                Some(i64::MIN)
            } else {
                Some(-(m as i64))
            }
        } else {
            None
        }
    } else {
        if acc <= i64::MAX as u128 {
            Some(acc as i64)
        } else {
            None
        }
    }
}

/// Digit sequences denote non-negative numbers.
proof fn lemma_digits_val_nonneg(s: Seq<char>)
    requires
        forall|i: int| 0 <= i < s.len() ==> is_dec_digit(#[trigger] s[i]),
    ensures
        digits_val(s) >= 0,
    decreases s.len(),
{
    if s.len() > 0 {
        lemma_digits_val_nonneg(s.drop_last());
    }
}

/// Whether one of the listed extension strings equals `e`.
pub open spec fn list_has(exts: Seq<&str>, e: Seq<char>) -> bool {
    exists|i: int| 0 <= i < exts.len() && exts[i]@ == e
}

/// Check whether an identifier's file extension matches any of the given
/// extensions.
pub fn extension_matches(identifier: &str, extensions: &[&str]) -> (r: bool)
    ensures
        r == match ext_spec(identifier@) {
            Some(e) => list_has(extensions@, e),
            None => false,
        },
{
    match extension_of(identifier) {
        None => false,
        Some(e) => str_in_list(e, extensions),
    }
}

/// Check whether a format hint string matches any of the given extensions.
pub fn hint_matches(hint: &str, extensions: &[&str]) -> (r: bool)
    ensures
        r == list_has(extensions@, hint@),
{
    str_in_list(hint, extensions)
}

/// Tests whether `s` equals one of the strings in `list`.
pub fn str_in_list(s: &str, list: &[&str]) -> (r: bool)
    ensures
        r == list_has(list@, s@),
{
    let mut i: usize = 0;
    while i < list.len()
        invariant
            0 <= i <= list@.len(),
            forall|j: int| 0 <= j < i ==> list@[j]@ != s@,
        decreases list@.len() - i,
    {
        let item: &str = list[i];
        if str_eq(item, s) {
            return true;
        }
        i += 1;
    }
    false
}

} // verus!
