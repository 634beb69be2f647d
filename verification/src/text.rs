//! Text helpers: decimal rendering and parsing of integers, and a few
//! character-level operations on strings.

use vstd::prelude::*;

verus! {

/// The character of a decimal digit `d` (0..=9).
pub open spec fn digit_char(d: int) -> char {
    (d + 48) as char
}

/// Whether `c` is an ASCII decimal digit.
pub open spec fn is_digit(c: char) -> bool {
    '0' <= c && c <= '9'
}

/// The numeric value of an ASCII digit.
pub open spec fn digit_value(c: char) -> int {
    (c as int) - 48
}

/// Decimal rendering of a natural number, most significant digit first.
pub open spec fn nat_decimal(n: nat) -> Seq<char>
    decreases n,
{
    if n < 10 {
        seq![digit_char(n as int)]
    } else {
        nat_decimal(n / 10).push(digit_char((n % 10) as int))
    }
}

/// Decimal rendering of an integer, with a leading `-` when negative.
pub open spec fn int_decimal(i: int) -> Seq<char> {
    if i < 0 {
        seq!['-'].add(nat_decimal((-i) as nat))
    } else {
        nat_decimal(i as nat)
    }
}

/// Whether every character of `s` is an ASCII digit.
pub open spec fn all_digits(s: Seq<char>) -> bool {
    forall|i: int| 0 <= i < s.len() ==> is_digit(#[trigger] s[i])
}

/// The value of a string of ASCII digits, read most significant first.
pub open spec fn digits_value(s: Seq<char>) -> int
    decreases s.len(),
{
    if s.len() == 0 {
        0
    } else {
        digits_value(s.drop_last()) * 10 + digit_value(s.last())
    }
}

/// The integer a text denotes as `str::parse` reads signed integers: an
/// optional sign (`+` or `-`) followed by at least one ASCII digit.
pub open spec fn parse_int_value(s: Seq<char>) -> Option<int> {
    if s.len() == 0 {
        None
    } else {
        let negative = s[0] == '-';
        let body = if s[0] == '+' || s[0] == '-' { s.drop_first() } else { s };
        if body.len() == 0 || !all_digits(body) {
            None
        } else {
            Some(if negative { -digits_value(body) } else { digits_value(body) })
        }
    }
}

/// What `str::parse::<i64>` gives: the integer the text denotes, when it
/// lies in the range of `i64`.
pub open spec fn parse_i64_spec(s: Seq<char>) -> Option<i64> {
    match parse_int_value(s) {
        Some(v) => if i64::MIN <= v && v <= i64::MAX {
            Some(v as i64)
        } else {
            None
        },
        None => None,
    }
}

/// What `str::parse::<i32>` gives: the integer the text denotes, when it
/// lies in the range of `i32`.
pub open spec fn parse_i32_spec(s: Seq<char>) -> Option<i32> {
    match parse_int_value(s) {
        Some(v) => if i32::MIN <= v && v <= i32::MAX {
            Some(v as i32)
        } else {
            None
        },
        None => None,
    }
}

/// Appends one character to a string.
#[verifier::external_body]
fn push_char(s: &mut String, c: char)
    ensures
        final(s)@ == old(s)@.push(c),
{
    s.push(c)
}

/// The character of digit `d`.
pub fn digit_to_char(d: u64) -> (c: char)
    requires
        d < 10,
    ensures
        c == digit_char(d as int),
{
    let b: u8 = (d as u8) + 48u8;
    b as char
}

/// Appends the decimal rendering of `n` to `s`.
pub fn push_decimal(s: &mut String, n: u64)
    ensures
        final(s)@ == old(s)@ + nat_decimal(n as nat),
    decreases n,
{
    if n >= 10 {
        push_decimal(s, n / 10);
    }
    let c = digit_to_char(n % 10);
    push_char(s, c);
    proof {
        if n < 10 {
            assert(nat_decimal(n as nat) =~= seq![digit_char(n as int)]);
        }
    }
    assert(s@ =~= old(s)@ + nat_decimal(n as nat));
}

/// Appends the decimal rendering of the signed integer `i` to `s`.
pub fn push_signed_decimal(s: &mut String, i: i64)
    ensures
        final(s)@ == old(s)@ + int_decimal(i as int),
{
    if i < 0 {
        push_char(s, '-');
        let wide: i128 = i as i128;
        let magnitude: u64 = (-wide) as u64;
        push_decimal(s, magnitude);
        assert(s@ =~= old(s)@ + int_decimal(i as int));
    } else {
        push_decimal(s, i as u64);
    }
}

/// The decimal rendering of an `i32`, as `format!("{}", i)` writes it.
pub fn i32_to_text(i: i32) -> (s: String)
    ensures
        s@ == int_decimal(i as int),
{
    let mut s = String::new();
    push_signed_decimal(&mut s, i as i64);
    assert(s@ =~= int_decimal(i as int));
    s
}

/// The decimal rendering of a `usize`.
pub fn usize_to_text(n: usize) -> (s: String)
    ensures
        s@ == nat_decimal(n as nat),
{
    let mut s = String::new();
    push_decimal(&mut s, n as u64);
    assert(s@ =~= nat_decimal(n as nat));
    s
}

/// Parses a string as `str::parse::<i32>` does.
pub fn parse_i32(s: &str) -> (r: Option<i32>)
    ensures
        r == parse_i32_spec(s@),
{
    match parse_i64(s) {
        Some(v) => {
            if v < -2147483648 || v > 2147483647 {
                None
            } else {
                Some(v as i32)
            }
        },
        None => None,
    }
}

/// Parses a string as `str::parse::<i64>` does.
pub fn parse_i64(s: &str) -> (r: Option<i64>)
    ensures
        r == parse_i64_spec(s@),
{
    let n = s.unicode_len();
    if n == 0 {
        return None;
    }
    let first = s.get_char(0);
    let negative = first == '-';
    let start: usize = if first == '+' || first == '-' { 1 } else { 0 };
    if start == n {
        return None;
    }
    let ghost body = if first == '+' || first == '-' { s@.drop_first() } else { s@ };
    assert(body =~= s@.subrange(start as int, n as int));
    // Accumulate the magnitude; anything above 2^63 is out of range either way.
    let mut acc: i128 = 0;
    let mut i: usize = start;
    while i < n
        invariant
            n == s@.len(),
            start <= i <= n,
            body == s@.subrange(start as int, n as int),
            s@.len() > 0,
            body == (if s@[0] == '+' || s@[0] == '-' { s@.drop_first() } else { s@ }),
            negative == (s@[0] == '-'),
            all_digits(s@.subrange(start as int, i as int)),
            acc == digits_value(s@.subrange(start as int, i as int)),
            0 <= acc <= 9223372036854775808,
        decreases n - i,
    {
        let c = s.get_char(i);
        if !('0' <= c && c <= '9') {
            assert(body[i - start] == c);
            assert(!all_digits(body));
            return None;
        }
        let d: i128 = (c as u32 as i128) - 48;
        let ghost prefix = s@.subrange(start as int, i as int);
        let ghost next = s@.subrange(start as int, i + 1);
        assert(next.drop_last() =~= prefix);
        assert(next.last() == c);
        if acc > 922337203685477580 || (acc == 922337203685477580 && d > 8) {
            // The magnitude already exceeds 2^63; every longer digit string does too.
            assert(digits_value(next) > 9223372036854775808) by {
                assert(digits_value(next) == acc * 10 + d);
            }
            // Either a later character is not a digit, or the value is too large.
            let rest_ok = digits_from(s, i + 1);
            proof {
                let rest = s@.subrange(i + 1, n as int);
                assert(body =~= next + rest);
                if rest_ok {
                    lemma_digits_append(next, rest);
                    assert(all_digits(body));
                } else {
                    let k = choose|k: int| 0 <= k < rest.len() && !is_digit(#[trigger] rest[k]);
                    assert(body[next.len() + k] == rest[k]);
                    assert(!all_digits(body));
                }
            }
            return None;
        }
        acc = acc * 10 + d;
        assert(all_digits(next));
        i = i + 1;
    }
    assert(s@.subrange(start as int, i as int) =~= body);
    if negative {
        if acc > 9223372036854775808 {
            return None;
        }
        Some((-acc) as i64)
    } else {
        if acc > 9223372036854775807 {
            return None;
        }
        Some(acc as i64)
    }
}

/// Whether `c` has the Unicode `White_Space` property, the set that
/// `char::is_whitespace` documents.
pub open spec fn is_white_space(c: char) -> bool {
    ('\u{9}' <= c && c <= '\u{d}') || c == ' ' || c == '\u{85}' || c == '\u{a0}' || c == '\u{1680}' || (
    '\u{2000}' <= c && c <= '\u{200a}') || c == '\u{2028}' || c == '\u{2029}' || c == '\u{202f}' || c
        == '\u{205f}' || c == '\u{3000}'
}

/// The text without its leading whitespace.
pub open spec fn trim_start_text(s: Seq<char>) -> Seq<char>
    decreases s.len(),
{
    if s.len() > 0 && is_white_space(s[0]) {
        trim_start_text(s.drop_first())
    } else {
        s
    }
}

/// The text without its trailing whitespace.
pub open spec fn trim_end_text(s: Seq<char>) -> Seq<char>
    decreases s.len(),
{
    if s.len() > 0 && is_white_space(s.last()) {
        trim_end_text(s.drop_last())
    } else {
        s
    }
}

/// `str::trim`'s result: the text without leading and trailing whitespace.
pub open spec fn trimmed(s: Seq<char>) -> Seq<char> {
    trim_end_text(trim_start_text(s))
}

/// `str::trim`: the slice without leading and trailing whitespace, which
/// its documentation defines by the Unicode `White_Space` property.
#[verifier::external_body]
pub(crate) fn trim(s: &str) -> (r: &str)
    ensures
        r@ == trimmed(s@),
{
    s.trim()
}

/// Whether the characters of `s` from position `from` on are all digits.
fn digits_from(s: &str, from: usize) -> (r: bool)
    requires
        from <= s@.len(),
    ensures
        r == all_digits(s@.subrange(from as int, s@.len() as int)),
{
    let n = s.unicode_len();
    let mut j = from;
    while j < n
        invariant
            n == s@.len(),
            from <= j <= n,
            all_digits(s@.subrange(from as int, j as int)),
        decreases n - j,
    {
        let c = s.get_char(j);
        if !('0' <= c && c <= '9') {
            assert(s@.subrange(from as int, n as int)[j - from] == c);
            return false;
        }
        assert(all_digits(s@.subrange(from as int, j + 1)));
        j = j + 1;
    }
    true
}

/// Appending digits never lowers the value of a digit string.
pub proof fn lemma_digits_append(p: Seq<char>, r: Seq<char>)
    requires
        all_digits(p),
        all_digits(r),
    ensures
        digits_value(p + r) >= digits_value(p),
        all_digits(p + r),
    decreases r.len(),
{
    lemma_digits_nonneg(p);
    if r.len() == 0 {
        assert(p + r =~= p);
    } else {
        let r2 = r.drop_last();
        assert(all_digits(r2));
        lemma_digits_append(p, r2);
        assert((p + r).drop_last() =~= p + r2);
        lemma_digits_nonneg(p + r2);
        assert(is_digit(r[r.len() - 1]));
        assert((p + r).last() == r.last());
    }
}

/// Digit strings have non-negative values.
pub proof fn lemma_digits_nonneg(s: Seq<char>)
    requires
        all_digits(s),
    ensures
        digits_value(s) >= 0,
    decreases s.len(),
{
    if s.len() > 0 {
        let t = s.drop_last();
        assert(all_digits(t));
        lemma_digits_nonneg(t);
        assert(is_digit(s[s.len() - 1]));
    }
}

/// Whether two string slices hold the same characters.
pub fn str_eq(a: &str, b: &str) -> (r: bool)
    ensures
        r == (a@ == b@),
{
    let n = a.unicode_len();
    let m = b.unicode_len();
    if n != m {
        return false;
    }
    let mut i: usize = 0;
    while i < n
        invariant
            n == a@.len(),
            m == b@.len(),
            n == m,
            0 <= i <= n,
            a@.subrange(0, i as int) == b@.subrange(0, i as int),
        decreases n - i,
    {
        let ca = a.get_char(i);
        let cb = b.get_char(i);
        if ca != cb {
            return false;
        }
        assert(a@.subrange(0, i + 1) =~= a@.subrange(0, i as int).push(ca));
        assert(b@.subrange(0, i + 1) =~= b@.subrange(0, i as int).push(cb));
        i = i + 1;
    }
    assert(a@ =~= a@.subrange(0, n as int));
    assert(b@ =~= b@.subrange(0, n as int));
    true
}

/// The characters of each string, in order.
pub open spec fn texts(v: Seq<String>) -> Seq<Seq<char>> {
    v.map_values(|s: String| s@)
}

/// Pushing a string pushes its characters.
pub proof fn lemma_texts_push(v: Seq<String>, x: String)
    ensures
        texts(v.push(x)) == texts(v).push(x@),
{
    assert(texts(v.push(x)) =~= texts(v).push(x@));
}

/// A copy of a string slice as an owned string.
pub fn owned(s: &str) -> (r: String)
    ensures
        r@ == s@,
{
    String::from_str(s)
}

/// A decimal rendering is a non-empty string of digits whose value is the
/// number rendered.
pub proof fn lemma_decimal_digits(n: nat)
    ensures
        nat_decimal(n).len() >= 1,
        all_digits(nat_decimal(n)),
        digits_value(nat_decimal(n)) == n,
    decreases n,
{
    let d = nat_decimal(n);
    if n < 10 {
        assert(d =~= seq![digit_char(n as int)]);
        assert(d.drop_last() =~= Seq::<char>::empty());
        assert(digits_value(d.drop_last()) == 0);
        assert((n + 48) as char as int == n + 48);
        assert(digit_value(d.last()) == n);
        assert(is_digit(d[0]));
    } else {
        lemma_decimal_digits(n / 10);
        let t = nat_decimal(n / 10);
        assert(d.drop_last() =~= t);
        assert(((n % 10) + 48) as char as int == (n % 10) + 48);
        assert(digit_value(d.last()) == n % 10);
        assert(digits_value(d) == digits_value(t) * 10 + n % 10);
        assert forall|i: int| 0 <= i < d.len() implies is_digit(#[trigger] d[i]) by {
            if i < t.len() {
                assert(d[i] == t[i]);
            }
        }
    }
}

/// Different numbers have different decimal renderings.
pub proof fn lemma_decimal_injective(a: nat, b: nat)
    requires
        nat_decimal(a) == nat_decimal(b),
    ensures
        a == b,
{
    lemma_decimal_digits(a);
    lemma_decimal_digits(b);
}

/// Printing an `i32` in decimal and parsing the text gives back the number.
pub proof fn law_printed_i32_parses_back(i: i32)
    ensures
        parse_i32_spec(int_decimal(i as int)) == Some(i),
{
    let s = int_decimal(i as int);
    if i < 0 {
        let m = (-(i as int)) as nat;
        lemma_decimal_digits(m);
        assert(s[0] == '-');
        assert(s.drop_first() =~= nat_decimal(m));
    } else {
        lemma_decimal_digits(i as nat);
        assert(is_digit(s[0]));
    }
}

} // verus!
