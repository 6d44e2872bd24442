//! Text helpers: whitespace trimming, ASCII case folding, and hexadecimal
//! digits as `u8::from_str_radix` reads them.

use vstd::prelude::*;
use vstd::string::{StrSliceExecFns, StringExecFns};

verus! {

/// Unicode `White_Space`, the property that `char::is_whitespace` and
/// `str::trim` use.
pub open spec fn is_whitespace(c: char) -> bool {
    let v = c as u32;
    ||| 0x9 <= v <= 0xd
    ||| v == 0x20
    ||| v == 0x85
    ||| v == 0xa0
    ||| v == 0x1680
    ||| 0x2000 <= v <= 0x200a
    ||| v == 0x2028
    ||| v == 0x2029
    ||| v == 0x202f
    ||| v == 0x205f
    ||| v == 0x3000
}

/// Computes [`is_whitespace`].
pub fn char_is_whitespace(c: char) -> (b: bool)
    ensures
        b == is_whitespace(c),
{
    let v = c as u32;
    (0x9 <= v && v <= 0xd) || v == 0x20 || v == 0x85 || v == 0xa0 || v == 0x1680 || (0x2000 <= v
        && v <= 0x200a) || v == 0x2028 || v == 0x2029 || v == 0x202f || v == 0x205f || v == 0x3000
}

/// Number of leading whitespace characters of `s`.
pub open spec fn leading_ws(s: Seq<char>) -> int
    decreases s.len(),
{
    if s.len() > 0 && is_whitespace(s[0]) {
        1 + leading_ws(s.drop_first())
    } else {
        0
    }
}

/// Number of trailing whitespace characters of `s`.
pub open spec fn trailing_ws(s: Seq<char>) -> int
    decreases s.len(),
{
    if s.len() > 0 && is_whitespace(s.last()) {
        1 + trailing_ws(s.drop_last())
    } else {
        0
    }
}

/// `s` without leading and trailing whitespace.
pub open spec fn trimmed(s: Seq<char>) -> Seq<char> {
    let a = leading_ws(s);
    if a == s.len() {
        Seq::empty()
    } else {
        s.subrange(a, s.len() - trailing_ws(s))
    }
}

proof fn lemma_leading_ws(s: Seq<char>, n: int)
    requires
        0 <= n <= s.len(),
        forall|i: int| 0 <= i < n ==> is_whitespace(#[trigger] s[i]),
        n == s.len() || !is_whitespace(s[n]),
    ensures
        leading_ws(s) == n,
    decreases n,
{
    if n > 0 {
        let t = s.drop_first();
        assert forall|i: int| 0 <= i < n - 1 implies is_whitespace(#[trigger] t[i]) by {
            assert(t[i] == s[i + 1]);
        }
        if n - 1 < t.len() {
            assert(t[n - 1] == s[n]);
        }
        lemma_leading_ws(t, n - 1);
    }
}

proof fn lemma_trailing_ws(s: Seq<char>, n: int)
    requires
        0 <= n <= s.len(),
        forall|i: int| s.len() - n <= i < s.len() ==> is_whitespace(#[trigger] s[i]),
        n == s.len() || !is_whitespace(s[s.len() - n - 1]),
    ensures
        trailing_ws(s) == n,
    decreases n,
{
    if n > 0 {
        let t = s.drop_last();
        assert forall|i: int| t.len() - (n - 1) <= i < t.len() implies is_whitespace(#[trigger] t[i]) by {
            assert(t[i] == s[i]);
        }
        if n - 1 < t.len() {
            assert(t[t.len() - (n - 1) - 1] == s[s.len() - n - 1]);
        }
        lemma_trailing_ws(t, n - 1);
    }
}

/// The characters of `s`.
pub fn chars_of(s: &str) -> (r: Vec<char>)
    ensures
        r@ == s@,
{
    let mut out: Vec<char> = Vec::new();
    for c in it: s.chars()
        invariant
            it.seq() == s@,
            out@ == it.seq().take(it.index() as int),
    {
        proof {
            assert(it.seq().take(it.index() + 1) =~= it.seq().take(it.index() as int).push(c));
        }
        out.push(c);
    }
    assert(s@.take(s@.len() as int) =~= s@);
    out
}

/// Returns `s` without leading and trailing whitespace, like `str::trim`.
pub fn trim(s: &str) -> (r: String)
    ensures
        r@ == trimmed(s@),
{
    let cs = chars_of(s);
    let n = cs.len();
    let mut a: usize = 0;
    while a < n && char_is_whitespace(cs[a])
        invariant
            a <= n,
            n == s@.len(),
            cs@ == s@,
            forall|i: int| 0 <= i < a ==> is_whitespace(#[trigger] s@[i]),
        decreases n - a,
    {
        a = a + 1;
    }
    proof {
        lemma_leading_ws(s@, a as int);
    }
    if a == n {
        return String::new();
    }
    let mut b: usize = 0;
    while b < n - a && char_is_whitespace(cs[n - 1 - b])
        invariant
            a < n,
            b <= n - a,
            n == s@.len(),
            cs@ == s@,
            !is_whitespace(s@[a as int]),
            forall|i: int| n - b <= i < n ==> is_whitespace(#[trigger] s@[i]),
        decreases n - a - b,
    {
        b = b + 1;
    }
    proof {
        lemma_trailing_ws(s@, b as int);
    }
    String::from_str(s.substring_char(a, n - b))
}

/// `a` and `b` are equal when ASCII letters are compared case-insensitively.
pub open spec fn eq_ignore_ascii_case_spec(a: Seq<char>, b: Seq<char>) -> bool {
    &&& a.len() == b.len()
    &&& forall|i: int| 0 <= i < a.len() ==> ascii_lower(#[trigger] a[i]) == ascii_lower(b[i])
}

/// The code point of `c`, with an ASCII upper-case letter mapped to lower case.
pub open spec fn ascii_lower(c: char) -> u32 {
    let v = c as u32;
    if 0x41 <= v <= 0x5a {
        (v + 32) as u32
    } else {
        v
    }
}

fn to_ascii_lower(c: char) -> (r: u32)
    ensures
        r == ascii_lower(c),
{
    let v = c as u32;
    if 0x41 <= v && v <= 0x5a {
        v + 32
    } else {
        v
    }
}

/// Compares two strings ignoring ASCII case, like `str::eq_ignore_ascii_case`.
pub fn eq_ignore_ascii_case(a: &str, b: &str) -> (r: bool)
    ensures
        r == eq_ignore_ascii_case_spec(a@, b@),
{
    let x = chars_of(a);
    let y = chars_of(b);
    if x.len() != y.len() {
        return false;
    }
    let mut i: usize = 0;
    while i < x.len()
        invariant
            x@ == a@,
            y@ == b@,
            x.len() == y.len(),
            i <= x.len(),
            forall|j: int| 0 <= j < i ==> ascii_lower(#[trigger] a@[j]) == ascii_lower(b@[j]),
        decreases x.len() - i,
    {
        if to_ascii_lower(x[i]) != to_ascii_lower(y[i]) {
            return false;
        }
        i = i + 1;
    }
    true
}

/// Value of an ASCII hexadecimal digit byte.
pub open spec fn hex_digit(b: u8) -> Option<u8> {
    if 0x30 <= b <= 0x39 {
        Some((b - 0x30) as u8)
    } else if 0x61 <= b <= 0x66 {
        Some((b - 0x61 + 10) as u8)
    } else if 0x41 <= b <= 0x46 {
        Some((b - 0x41 + 10) as u8)
    } else {
        None
    }
}

/// Value of hexadecimal digit bytes, most significant first.
pub open spec fn hex_digits_value(d: Seq<u8>) -> Option<int>
    decreases d.len(),
{
    if d.len() == 0 {
        Some(0)
    } else {
        match (hex_digits_value(d.drop_last()), hex_digit(d.last())) {
            (Some(v), Some(x)) => Some(v * 16 + x),
            _ => None,
        }
    }
}

/// `u8::from_str_radix(bytes, 16)`: an optional `+` followed by at least one
/// hexadecimal digit, with a value below 256.
pub open spec fn radix16_u8(s: Seq<u8>) -> Option<u8> {
    let digits = if s.len() > 0 && s[0] == 0x2b { s.drop_first() } else { s };
    if digits.len() == 0 {
        None
    } else {
        match hex_digits_value(digits) {
            Some(v) => if v < 256 { Some(v as u8) } else { None },
            None => None,
        }
    }
}

fn hex_digit_value(b: u8) -> (r: Option<u8>)
    ensures
        r == hex_digit(b),
{
    if 0x30 <= b && b <= 0x39 {
        Some(b - 0x30)
    } else if 0x61 <= b && b <= 0x66 {
        Some(b - 0x61 + 10)
    } else if 0x41 <= b && b <= 0x46 {
        Some(b - 0x41 + 10)
    } else {
        None
    }
}

/// Parses `s[from..to]` as `u8::from_str_radix(_, 16)` does, for one or two
/// bytes.
pub fn parse_radix16_u8(s: &[u8], from: usize, to: usize) -> (r: Option<u8>)
    requires
        from < to <= s@.len(),
        to - from <= 2,
    ensures
        r == radix16_u8(s@.subrange(from as int, to as int)),
{
    let ghost t = s@.subrange(from as int, to as int);
    if s[from] == 0x2b {
        let ghost d = t.drop_first();
        if to - from == 1 {
            assert(d.len() == 0);
            return None;
        }
        assert(d =~= seq![s@[to - 1]]);
        assert(d.drop_last() =~= Seq::<u8>::empty());
        assert(hex_digits_value(d.drop_last()) == Some(0int));
        assert(d.last() == s@[to - 1]);
        let r = hex_digit_value(s[to - 1]);
        assert(hex_digits_value(d) == match r { Some(x) => Some(x as int), None => None::<int> });
        return r;
    }
    if to - from == 1 {
        assert(t.drop_last() =~= Seq::<u8>::empty());
        assert(hex_digits_value(t.drop_last()) == Some(0int));
        assert(t.last() == s@[from as int]);
        let r = hex_digit_value(s[from]);
        assert(hex_digits_value(t) == match r { Some(x) => Some(x as int), None => None::<int> });
        return r;
    }
    assert(t.drop_last() =~= seq![s@[from as int]]);
    assert(t.drop_last().drop_last() =~= Seq::<u8>::empty());
    let h = hex_digit_value(s[from]);
    let l = hex_digit_value(s[from + 1]);
    let ghost hd = t.drop_last();
    assert(hd.last() == s@[from as int]);
    assert(t.last() == s@[from + 1]);
    assert(hex_digits_value(hd.drop_last()) == Some(0int));
    assert(hex_digits_value(hd) == match h { Some(x) => Some(x as int), None => None::<int> });
    match (h, l) {
        (Some(hi), Some(lo)) => {
            assert(hex_digits_value(t) == Some(hi * 16 + lo));
            Some(hi * 16 + lo)
        },
        _ => None,
    }
}

/// `index` splits `bytes` between characters, as `str::is_char_boundary`
/// decides it: an end, or a byte that is not a UTF-8 continuation byte.
pub open spec fn char_boundary(bytes: Seq<u8>, index: int) -> bool {
    index == 0 || index == bytes.len() || (0 < index < bytes.len() && !(0x80 <= bytes[index] <= 0xbf))
}

/// Computes [`char_boundary`].
pub fn is_char_boundary(bytes: &[u8], index: usize) -> (b: bool)
    requires
        index <= bytes@.len(),
    ensures
        b == char_boundary(bytes@, index as int),
{
    index == 0 || index == bytes.len() || !(0x80 <= bytes[index] && bytes[index] <= 0xbf)
}

/// Number of leading `#` bytes of `bytes`.
pub open spec fn leading_hashes(bytes: Seq<u8>) -> int
    decreases bytes.len(),
{
    if bytes.len() > 0 && bytes[0] == 0x23 {
        1 + leading_hashes(bytes.drop_first())
    } else {
        0
    }
}

/// Counts the leading `#` bytes, as `trim_start_matches('#')` strips them.
pub fn count_leading_hashes(bytes: &[u8]) -> (n: usize)
    ensures
        n == leading_hashes(bytes@),
        n <= bytes@.len(),
{
    let mut n: usize = 0;
    assert(bytes@.skip(0) =~= bytes@);
    while n < bytes.len() && bytes[n] == 0x23
        invariant
            n <= bytes@.len(),
            leading_hashes(bytes@) == n + leading_hashes(bytes@.skip(n as int)),
        decreases bytes.len() - n,
    {
        proof {
            assert(bytes@.skip(n as int).drop_first() =~= bytes@.skip(n + 1));
        }
        n = n + 1;
    }
    proof {
        if n < bytes.len() {
            assert(bytes@.skip(n as int)[0] == bytes@[n as int]);
        }
    }
    n
}

/// Value of a decimal digit character.
pub open spec fn decimal_digit(c: char) -> Option<int> {
    if '0' <= c && c <= '9' {
        Some((c as u32) - 0x30)
    } else {
        None
    }
}

/// Value of decimal digits, most significant first; `None` when some
/// character is not a digit.
pub open spec fn decimal_value(d: Seq<char>) -> Option<int>
    decreases d.len(),
{
    if d.len() == 0 {
        Some(0)
    } else {
        match (decimal_value(d.drop_last()), decimal_digit(d.last())) {
            (Some(v), Some(x)) => Some(v * 10 + x),
            _ => None,
        }
    }
}

/// `i64::from_str`: an optional `+` or `-`, then at least one decimal digit,
/// with a value that fits in `i64`.
pub open spec fn parse_i64_spec(s: Seq<char>) -> Option<i64> {
    let negative = s.len() > 0 && s[0] == '-';
    let digits = if s.len() > 0 && (s[0] == '+' || s[0] == '-') { s.drop_first() } else { s };
    if digits.len() == 0 {
        None
    } else {
        match decimal_value(digits) {
            Some(v) => {
                let signed = if negative { -v } else { v };
                if i64::MIN <= signed <= i64::MAX { Some(signed as i64) } else { None }
            },
            None => None,
        }
    }
}

/// `usize::from_str`: an optional `+`, then at least one decimal digit, with a
/// value that fits in `usize`.
pub open spec fn parse_usize_spec(s: Seq<char>) -> Option<usize> {
    let digits = if s.len() > 0 && s[0] == '+' { s.drop_first() } else { s };
    if digits.len() == 0 {
        None
    } else {
        match decimal_value(digits) {
            Some(v) => if v <= usize::MAX { Some(v as usize) } else { None },
            None => None,
        }
    }
}

proof fn lemma_decimal_value_nonneg(d: Seq<char>)
    ensures
        decimal_value(d) matches Some(v) ==> v >= 0,
    decreases d.len(),
{
    if d.len() > 0 {
        lemma_decimal_value_nonneg(d.drop_last());
    }
}

/// A number whose prefix is already above `bound` stays above it.
proof fn lemma_decimal_value_grows(d: Seq<char>, n: int, bound: int)
    requires
        0 <= n <= d.len(),
        bound >= 0,
        decimal_value(d.take(n)) matches Some(v) && v > bound,
        decimal_value(d) is Some,
    ensures
        decimal_value(d).unwrap() > bound,
    decreases d.len() - n,
{
    if n < d.len() {
        let t = d.take(n + 1);
        assert(t.drop_last() =~= d.take(n));
        lemma_decimal_value_prefix(d, n + 1);
        lemma_decimal_value_grows(d, n + 1, bound);
    } else {
        assert(d.take(n) =~= d);
    }
}

/// Every prefix of a sequence of digits is a sequence of digits.
proof fn lemma_decimal_value_prefix(d: Seq<char>, n: int)
    requires
        0 <= n <= d.len(),
        decimal_value(d) is Some,
    ensures
        decimal_value(d.take(n)) is Some,
    decreases d.len() - n,
{
    if n < d.len() {
        lemma_decimal_value_prefix(d, n + 1);
        assert(d.take(n + 1).drop_last() =~= d.take(n));
    } else {
        assert(d.take(n) =~= d);
    }
}

/// Reads the decimal digits `cs[from..]`: their value when it is at most
/// `limit`, `Err(true)` when they are all digits but the value is larger,
/// `Err(false)` when some character is not a digit.
fn read_decimal(cs: &Vec<char>, from: usize, limit: u64) -> (r: Result<u64, bool>)
    requires
        from <= cs@.len(),
    ensures
        match r {
            Ok(v) => decimal_value(cs@.skip(from as int)) == Some(v as int) && v <= limit,
            Err(true) => decimal_value(cs@.skip(from as int)) matches Some(v) && v > limit,
            Err(false) => decimal_value(cs@.skip(from as int)) is None,
        },
{
    let ghost d = cs@.skip(from as int);
    let mut acc: u64 = 0;
    let mut over = false;
    let mut i: usize = from;
    assert(d.take(0) =~= Seq::<char>::empty());
    while i < cs.len()
        invariant
            from <= i <= cs@.len(),
            d == cs@.skip(from as int),
            decimal_value(d.take(i - from)) is Some,
            !over ==> decimal_value(d.take(i - from)) == Some(acc as int) && acc <= limit,
            over ==> decimal_value(d.take(i - from)).unwrap() > limit,
        decreases cs.len() - i,
    {
        let c = cs[i];
        let ghost t = d.take(i - from + 1);
        assert(t.drop_last() =~= d.take(i - from));
        assert(t.last() == c);
        if !('0' <= c && c <= '9') {
            proof {
                assert(decimal_value(t) is None);
                if decimal_value(d) is Some {
                    lemma_decimal_value_prefix(d, i - from + 1);
                }
            }
            return Err(false);
        }
        let digit: u64 = (c as u32 - 0x30) as u64;
        proof {
            lemma_decimal_value_nonneg(d.take(i - from));
        }
        if !over {
            if digit > limit || acc > (limit - digit) / 10 {
                over = true;
                assert(acc * 10 + digit > limit) by (nonlinear_arith)
                    requires digit > limit || acc > (limit - digit) / 10, digit <= 9, limit >= 0, acc >= 0;
            } else {
                assert(acc * 10 + digit <= limit) by (nonlinear_arith)
                    requires acc <= (limit - digit) / 10, digit <= limit, acc >= 0;
                acc = acc * 10 + digit;
            }
        }
        i = i + 1;
    }
    assert(d.take(cs@.len() - from) =~= d);
    if over {
        Err(true)
    } else {
        Ok(acc)
    }
}

/// Parses a decimal `i64` as `str::parse::<i64>` does.
pub fn parse_i64(s: &str) -> (r: Option<i64>)
    ensures
        r == parse_i64_spec(s@),
{
    let cs = chars_of(s);
    let negative = cs.len() > 0 && cs[0] == '-';
    let from: usize = if cs.len() > 0 && (cs[0] == '+' || cs[0] == '-') { 1 } else { 0 };
    let ghost digits = cs@.skip(from as int);
    assert(from == 1 ==> digits =~= s@.drop_first());
    assert(from == 0 ==> digits =~= s@);
    if from == cs.len() {
        return None;
    }
    let limit: u64 = if negative { 9223372036854775808 } else { 9223372036854775807 };
    match read_decimal(&cs, from, limit) {
        Ok(v) => {
            if negative {
                if v == 9223372036854775808 {
                    Some(i64::MIN)
                } else {
                    Some(-(v as i64))
                }
            } else {
                Some(v as i64)
            }
        },
        Err(_) => None,
    }
}

/// Parses a decimal `usize` as `str::parse::<usize>` does.
pub fn parse_usize(s: &str) -> (r: Option<usize>)
    ensures
        r == parse_usize_spec(s@),
{
    let cs = chars_of(s);
    let from: usize = if cs.len() > 0 && cs[0] == '+' { 1 } else { 0 };
    let ghost digits = cs@.skip(from as int);
    assert(from == 1 ==> digits =~= s@.drop_first());
    assert(from == 0 ==> digits =~= s@);
    if from == cs.len() {
        return None;
    }
    match read_decimal(&cs, from, usize::MAX as u64) {
        Ok(v) => Some(v as usize),
        Err(_) => None,
    }
}

/// Whether two texts are equal.
pub fn str_equal(a: &str, b: &str) -> (r: bool)
    ensures
        r == (a@ == b@),
{
    let x = chars_of(a);
    let y = chars_of(b);
    if x.len() != y.len() {
        return false;
    }
    let mut i: usize = 0;
    while i < x.len()
        invariant
            x@ == a@,
            y@ == b@,
            x.len() == y.len(),
            i <= x.len(),
            forall|j: int| 0 <= j < i ==> a@[j] == b@[j],
        decreases x.len() - i,
    {
        if x[i] != y[i] {
            return false;
        }
        i = i + 1;
    }
    assert(a@ =~= b@);
    true
}

/// Whether `s` starts with `prefix`.
pub fn has_prefix(s: &str, prefix: &str) -> (r: bool)
    ensures
        r == (prefix@.len() <= s@.len() && s@.subrange(0, prefix@.len() as int) == prefix@),
{
    let x = chars_of(s);
    let p = chars_of(prefix);
    if p.len() > x.len() {
        return false;
    }
    let mut i: usize = 0;
    while i < p.len()
        invariant
            x@ == s@,
            p@ == prefix@,
            p.len() <= x.len(),
            i <= p.len(),
            forall|j: int| 0 <= j < i ==> s@[j] == prefix@[j],
        decreases p.len() - i,
    {
        if x[i] != p[i] {
            assert(s@.subrange(0, prefix@.len() as int)[i as int] != prefix@[i as int]);
            return false;
        }
        i = i + 1;
    }
    assert(s@.subrange(0, prefix@.len() as int) =~= prefix@);
    true
}

/// Number of leading `c` characters of `s`.
pub open spec fn leading_count(s: Seq<char>, c: char) -> int
    decreases s.len(),
{
    if s.len() > 0 && s[0] == c {
        1 + leading_count(s.drop_first(), c)
    } else {
        0
    }
}

/// `s` without its leading `c` characters, like `str::trim_start_matches(c)`.
pub fn trim_start_char(s: &str, c: char) -> (r: &str)
    ensures
        r@ == s@.skip(leading_count(s@, c)),
{
    let cs = chars_of(s);
    let mut n: usize = 0;
    assert(s@.skip(0) =~= s@);
    while n < cs.len() && cs[n] == c
        invariant
            cs@ == s@,
            n <= cs.len(),
            leading_count(s@, c) == n + leading_count(s@.skip(n as int), c),
        decreases cs.len() - n,
    {
        proof {
            assert(s@.skip(n as int).drop_first() =~= s@.skip(n + 1));
        }
        n = n + 1;
    }
    proof {
        if n < cs.len() {
            assert(s@.skip(n as int)[0] == s@[n as int]);
        }
    }
    s.substring_char(n, cs.len())
}

/// `needle` occurs in `hay` starting at `i`.
pub open spec fn occurs_at(hay: Seq<char>, needle: Seq<char>, i: int) -> bool {
    0 <= i && i + needle.len() <= hay.len() && hay.subrange(i, i + needle.len()) == needle
}

/// Whether `needle` occurs in `hay`, like `str::contains`.
pub fn contains_text(hay: &str, needle: &str) -> (r: bool)
    ensures
        r == exists|i: int| occurs_at(hay@, needle@, i),
{
    let h = chars_of(hay);
    let n = chars_of(needle);
    if n.len() > h.len() {
        assert forall|i: int| !occurs_at(hay@, needle@, i) by {}
        return false;
    }
    let mut i: usize = 0;
    while i <= h.len() - n.len()
        invariant
            h@ == hay@,
            n@ == needle@,
            n.len() <= h.len(),
            i <= h.len() - n.len() + 1,
            forall|k: int| 0 <= k < i ==> !occurs_at(hay@, needle@, k),
        decreases h.len() - n.len() + 1 - i,
    {
        let mut j: usize = 0;
        let mut same = true;
        while j < n.len()
            invariant
                h@ == hay@,
                n@ == needle@,
                i + n.len() <= h.len(),
                j <= n.len(),
                same == forall|k: int| 0 <= k < j ==> hay@[i + k] == needle@[k],
            decreases n.len() - j,
        {
            if h[i + j] != n[j] {
                same = false;
            }
            j = j + 1;
        }
        if same {
            assert(hay@.subrange(i as int, i + needle@.len()) =~= needle@);
            assert(occurs_at(hay@, needle@, i as int));
            return true;
        }
        proof {
            if occurs_at(hay@, needle@, i as int) {
                let k = choose|k: int| 0 <= k < n.len() && hay@[i + k] != needle@[k];
                assert(hay@.subrange(i as int, i + needle@.len())[k] == hay@[i + k]);
            }
        }
        i = i + 1;
    }
    assert forall|k: int| !occurs_at(hay@, needle@, k) by {
        if occurs_at(hay@, needle@, k) {
            assert(k < i);
        }
    }
    false
}

/// What `str::to_lowercase` gives for a text: full Unicode lower-case mapping.
pub uninterp spec fn lowercase_text(s: Seq<char>) -> Seq<char>;

/// Calls `str::to_lowercase`; the result is `lowercase_text` of the text. The
/// Unicode case tables are left to std.
#[verifier::external_body]
pub(crate) fn to_lowercase(s: &str) -> (r: String)
    ensures
        r@ == lowercase_text(s@),
{
    s.to_lowercase()
}

/// The decimal digit character of `d` (`0 <= d < 10`).
pub open spec fn digit_char(d: int) -> char {
    (0x30 + d) as char
}

/// The decimal digits of `n`, most significant first, without leading zeros.
pub open spec fn digits_of(n: nat) -> Seq<char>
    decreases n,
{
    if n < 10 {
        seq![digit_char(n as int)]
    } else {
        digits_of(n / 10).push(digit_char((n % 10) as int))
    }
}

/// `v` written in decimal, with a leading `-` when it is negative, as
/// `i64::to_string` writes it.
pub open spec fn decimal_text(v: int) -> Seq<char> {
    if v < 0 {
        seq!['-'] + digits_of((-v) as nat)
    } else {
        digits_of(v as nat)
    }
}

proof fn lemma_digit_char(d: int)
    requires
        0 <= d < 10,
    ensures
        decimal_digit(digit_char(d)) == Some(d),
        '0' <= digit_char(d) <= '9',
{
    assert(digit_char(d) as u32 == 0x30 + d);
}

proof fn lemma_digits_of(n: nat)
    ensures
        digits_of(n).len() >= 1,
        decimal_value(digits_of(n)) == Some(n as int),
        '0' <= digits_of(n)[0] <= '9',
    decreases n,
{
    if n >= 10 {
        lemma_digits_of(n / 10);
        lemma_digit_char((n % 10) as int);
        assert(digits_of(n).drop_last() =~= digits_of(n / 10));
        assert(digits_of(n).last() == digit_char((n % 10) as int));
        assert(n / 10 * 10 + n % 10 == n);
    } else {
        lemma_digit_char(n as int);
        assert(seq![digit_char(n as int)].drop_last() =~= Seq::<char>::empty());
        assert(decimal_value(Seq::<char>::empty()) == Some(0int));
    }
}

/// A number written by [`format_i64`] reads back as the same number.
pub proof fn law_decimal_text_parses_back(v: i64)
    ensures
        parse_i64_spec(decimal_text(v as int)) == Some(v),
{
    if v < 0 {
        let t = decimal_text(v as int);
        lemma_digits_of((-v) as nat);
        assert(t.drop_first() =~= digits_of((-v) as nat));
    } else {
        lemma_digits_of(v as nat);
    }
}

/// Decimal digit characters, in order of value.
const DECIMAL_DIGITS: &'static str = "0123456789";

fn digit_text(d: u64) -> (t: &'static str)
    requires
        d < 10,
    ensures
        t@ == seq![digit_char(d as int)],
{
    proof {
        reveal_strlit("0123456789");
    }
    let t = DECIMAL_DIGITS.substring_char(d as usize, d as usize + 1);
    assert(t@ =~= seq![DECIMAL_DIGITS@[d as int]]);
    t
}

fn digits_text(n: u64) -> (s: String)
    ensures
        s@ == digits_of(n as nat),
    decreases n,
{
    if n < 10 {
        String::from_str(digit_text(n))
    } else {
        let s = digits_text(n / 10).concat(digit_text(n % 10));
        assert(s@ =~= digits_of(n as nat));
        s
    }
}

/// Writes `v` in decimal, as `v.to_string()` does.
pub fn format_i64(v: i64) -> (s: String)
    ensures
        s@ == decimal_text(v as int),
{
    if v < 0 {
        let magnitude: u64 = (0i128 - v as i128) as u64;
        proof {
            reveal_strlit("-");
        }
        let s = String::from_str("-").concat(digits_text(magnitude).as_str());
        assert(s@ =~= decimal_text(v as int));
        s
    } else {
        digits_text(v as u64)
    }
}

} // verus!
