//! Plain text operations: trimming, comparing, and writing and reading decimal numbers.

use vstd::arithmetic::div_mod;
use vstd::arithmetic::power;
use vstd::prelude::*;
use vstd::string::*;
use vstd::utf8;

verus! {

/// The code points that Unicode gives the property `White_Space`.
pub open spec fn white_space(c: char) -> bool {
    ||| '\u{9}' <= c <= '\u{d}'
    ||| c == ' '
    ||| c == '\u{85}'
    ||| c == '\u{a0}'
    ||| c == '\u{1680}'
    ||| '\u{2000}' <= c <= '\u{200a}'
    ||| c == '\u{2028}'
    ||| c == '\u{2029}'
    ||| c == '\u{202f}'
    ||| c == '\u{205f}'
    ||| c == '\u{3000}'
}

/// What is left of `s` when its leading white space is dropped.
pub open spec fn trim_start(s: Seq<char>) -> Seq<char>
    decreases s.len(),
{
    if s.len() > 0 && white_space(s[0]) {
        trim_start(s.drop_first())
    } else {
        s
    }
}

/// What is left of `s` when its trailing white space is dropped.
pub open spec fn trim_end(s: Seq<char>) -> Seq<char>
    decreases s.len(),
{
    if s.len() > 0 && white_space(s.last()) {
        trim_end(s.drop_last())
    } else {
        s
    }
}

/// What is left of `s` when the white space at both ends is dropped.
pub open spec fn trimmed(s: Seq<char>) -> Seq<char> {
    trim_end(trim_start(s))
}

/// Whether `c` is white space.
pub fn is_white_space(c: char) -> (r: bool)
    ensures
        r == white_space(c),
        r == (9 <= c as u32 <= 13 || c as u32 == 32 || c as u32 == 133 || c as u32 == 160 || c as u32
            == 5760 || 8192 <= c as u32 <= 8202 || c as u32 == 8232 || c as u32 == 8233 || c as u32
            == 8239 || c as u32 == 8287 || c as u32 == 12288),
{
    ('\u{9}' <= c && c <= '\u{d}') || c == ' ' || c == '\u{85}' || c == '\u{a0}' || c == '\u{1680}'
        || ('\u{2000}' <= c && c <= '\u{200a}') || c == '\u{2028}' || c == '\u{2029}' || c
        == '\u{202f}' || c == '\u{205f}' || c == '\u{3000}'
}

/// The characters of `s`, in order.
pub fn chars_of(s: &str) -> (v: Vec<char>)
    ensures
        v@ == s@,
{
    let mut v: Vec<char> = Vec::new();
    for c in it: s.chars()
        invariant
            it.seq() == s@,
            v@ == s@.take(it.index() as int),
    {
        v.push(c);
    }
    assert(s@.take(s@.len() as int) =~= s@);
    v
}

/// Drops the white space at both ends of `s`.
pub fn trim(s: &str) -> (r: &str)
    ensures
        r@ == trimmed(s@),
        exists|i: int, j: int|
            {
                &&& 0 <= i <= j <= s@.len()
                &&& r@ == #[trigger] s@.subrange(i, j)
                &&& forall|k: int| 0 <= k < i ==> white_space(#[trigger] s@[k])
                &&& forall|k: int| j <= k < s@.len() ==> white_space(#[trigger] s@[k])
                &&& i < j ==> !white_space(s@[i]) && !white_space(s@[j - 1])
            },
{
    let v = chars_of(s);
    let mut i: usize = 0;
    assert(s@.skip(0) =~= s@);
    while i < v.len() && is_white_space(v[i])
        invariant
            v@ == s@,
            i <= v.len(),
            trim_start(s@) == trim_start(s@.skip(i as int)),
        decreases v.len() - i,
    {
        assert(s@.skip(i as int).drop_first() =~= s@.skip(i + 1));
        i += 1;
    }
    assert(trim_start(s@) == s@.skip(i as int));
    let mut j: usize = v.len();
    assert(s@.subrange(i as int, j as int) =~= s@.skip(i as int));
    while i < j && is_white_space(v[j - 1])
        invariant
            v@ == s@,
            i <= j <= v.len(),
            trimmed(s@) == trim_end(s@.subrange(i as int, j as int)),
        decreases j,
    {
        assert(s@.subrange(i as int, j as int).drop_last() =~= s@.subrange(i as int, j - 1));
        j -= 1;
    }
    proof {
        trimmed_is_the_middle(s@);
    }
    s.substring_char(i, j)
}

/// Whether `a` and `b` hold the same characters.
pub fn same(a: &str, b: &str) -> (r: bool)
    ensures
        r == (a@ == b@),
{
    let va = chars_of(a);
    let vb = chars_of(b);
    if va.len() != vb.len() {
        return false;
    }
    let mut i: usize = 0;
    while i < va.len()
        invariant
            va@ == a@,
            vb@ == b@,
            va.len() == vb.len(),
            i <= va.len(),
            forall|k: int| 0 <= k < i ==> va@[k] == vb@[k],
        decreases va.len() - i,
    {
        if va[i] != vb[i] {
            assert(a@[i as int] != b@[i as int]);
            return false;
        }
        i += 1;
    }
    assert(a@ =~= b@);
    true
}

/// Whether `s` begins with `prefix`.
pub fn starts_with(s: &str, prefix: &str) -> (r: bool)
    ensures
        r == prefix@.is_prefix_of(s@),
{
    let vs = chars_of(s);
    let vp = chars_of(prefix);
    if vp.len() > vs.len() {
        return false;
    }
    let mut i: usize = 0;
    while i < vp.len()
        invariant
            vs@ == s@,
            vp@ == prefix@,
            vp.len() <= vs.len(),
            i <= vp.len(),
            forall|k: int| 0 <= k < i ==> vp@[k] == vs@[k],
        decreases vp.len() - i,
    {
        if vp[i] != vs[i] {
            assert(s@.subrange(0, prefix@.len() as int)[i as int] != prefix@[i as int]);
            return false;
        }
        i += 1;
    }
    assert(prefix@ =~= s@.subrange(0, prefix@.len() as int));
    true
}

/// What follows `prefix` in `s`, if `s` begins with it.
pub open spec fn stripped(s: Seq<char>, prefix: Seq<char>) -> Option<Seq<char>> {
    if prefix.is_prefix_of(s) {
        Some(s.skip(prefix.len() as int))
    } else {
        None
    }
}

/// What follows `prefix` in `s`, if `s` begins with it.
pub fn strip_prefix<'a>(s: &'a str, prefix: &str) -> (r: Option<&'a str>)
    ensures
        match r {
            Some(rest) => stripped(s@, prefix@) == Some(rest@) && s@ == prefix@ + rest@,
            None => stripped(s@, prefix@) is None && !prefix@.is_prefix_of(s@),
        },
{
    proof {
        stripping_undoes_prefixing(s@, prefix@);
    }
    if starts_with(s, prefix) {
        let rest = s.substring_char(prefix.unicode_len(), s.unicode_len());
        assert(rest@ =~= s@.skip(prefix@.len() as int));
        Some(rest)
    } else {
        None
    }
}

/// What is stripped of a prefix is what stood behind it.
pub proof fn stripping_undoes_prefixing(s: Seq<char>, prefix: Seq<char>)
    ensures
        stripped(prefix + s, prefix) == Some(s),
        stripped(s, prefix) matches Some(rest) ==> s == prefix + rest,
        stripped(s, prefix) is None <==> !prefix.is_prefix_of(s),
{
    assert(prefix.is_prefix_of(prefix + s)) by {
        assert((prefix + s).subrange(0, prefix.len() as int) =~= prefix);
    }
    assert((prefix + s).skip(prefix.len() as int) =~= s);
    if prefix.is_prefix_of(s) {
        assert(s =~= prefix + s.skip(prefix.len() as int));
    }
}

/// The order of code points, character by character; a prefix comes first.
pub open spec fn text_le(a: Seq<char>, b: Seq<char>) -> bool
    decreases a.len(),
{
    if a.len() == 0 {
        true
    } else if b.len() == 0 {
        false
    } else if a[0] == b[0] {
        text_le(a.drop_first(), b.drop_first())
    } else {
        a[0] < b[0]
    }
}

/// Whether `a` stands before or level with `b` in the order of code points.
pub fn precedes(a: &str, b: &str) -> (r: bool)
    ensures
        r == text_le(a@, b@),
{
    let va = chars_of(a);
    let vb = chars_of(b);
    let mut i: usize = 0;
    assert(a@.skip(0) =~= a@);
    assert(b@.skip(0) =~= b@);
    while i < va.len() && i < vb.len() && va[i] == vb[i]
        invariant
            va@ == a@,
            vb@ == b@,
            i <= va.len(),
            i <= vb.len(),
            text_le(a@, b@) == text_le(a@.skip(i as int), b@.skip(i as int)),
        decreases va.len() - i,
    {
        assert(a@.skip(i as int).drop_first() =~= a@.skip(i + 1));
        assert(b@.skip(i as int).drop_first() =~= b@.skip(i + 1));
        i += 1;
    }
    if i >= va.len() {
        true
    } else if i >= vb.len() {
        false
    } else {
        va[i] < vb[i]
    }
}

/// The first place at which two texts differ decides their order, by the code points there; a text
/// that ends there comes first.
pub proof fn first_difference_decides(a: Seq<char>, b: Seq<char>, i: int)
    requires
        0 <= i <= a.len(),
        i <= b.len(),
        a.take(i) == b.take(i),
        i < a.len() && i < b.len() ==> a[i] != b[i],
    ensures
        text_le(a, b) == (i == a.len() || (i < b.len() && a[i] < b[i])),
    decreases a.len(),
{
    if i > 0 {
        assert(a.take(i)[0] == a[0] && b.take(i)[0] == b[0]);
        assert(a.drop_first().take(i - 1) =~= a.take(i).drop_first());
        assert(b.drop_first().take(i - 1) =~= b.take(i).drop_first());
        first_difference_decides(a.drop_first(), b.drop_first(), i - 1);
    }
}

/// Texts that stand level in the order of code points are the same.
pub proof fn text_le_antisymmetric(a: Seq<char>, b: Seq<char>)
    requires
        text_le(a, b),
        text_le(b, a),
    ensures
        a == b,
    decreases a.len(),
{
    if a.len() > 0 && b.len() > 0 {
        text_le_antisymmetric(a.drop_first(), b.drop_first());
        assert(a =~= seq![a[0]] + a.drop_first());
        assert(b =~= seq![b[0]] + b.drop_first());
    }
}

/// The order of code points is total.
pub proof fn text_le_total(a: Seq<char>, b: Seq<char>)
    ensures
        text_le(a, b) || text_le(b, a),
    decreases a.len(),
{
    if a.len() > 0 && b.len() > 0 && a[0] == b[0] {
        text_le_total(a.drop_first(), b.drop_first());
    }
}

/// The order of code points is transitive.
pub proof fn text_le_transitive(a: Seq<char>, b: Seq<char>, c: Seq<char>)
    requires
        text_le(a, b),
        text_le(b, c),
    ensures
        text_le(a, c),
    decreases a.len(),
{
    if a.len() > 0 && b.len() > 0 && c.len() > 0 && a[0] == b[0] && b[0] == c[0] {
        text_le_transitive(a.drop_first(), b.drop_first(), c.drop_first());
    }
}

/// The digit that stands for `d`.
pub open spec fn digit(d: int) -> char {
    ('0' as int + d) as char
}

/// Whether `c` is one of the ten ASCII digits.
pub open spec fn is_digit(c: char) -> bool {
    '0' <= c <= '9'
}

/// Whether every character of `s` is a digit.
pub open spec fn all_digits(s: Seq<char>) -> bool {
    forall|i: int| 0 <= i < s.len() ==> is_digit(#[trigger] s[i])
}

/// `n` in decimal digits, without leading zeros.
pub open spec fn decimal(n: nat) -> Seq<char>
    decreases n,
{
    if n < 10 {
        seq![digit(n as int)]
    } else {
        decimal(n / 10).push(digit((n % 10) as int))
    }
}

/// The number that a run of digits stands for.
pub open spec fn number(s: Seq<char>) -> nat
    decreases s.len(),
{
    if s.len() == 0 {
        0
    } else {
        number(s.drop_last()) * 10 + (s.last() as nat - '0' as nat) as nat
    }
}

/// The digits of a number: what follows an optional plus sign.
pub open spec fn unsigned_part(s: Seq<char>) -> Seq<char> {
    if s.len() > 0 && s[0] == '+' {
        s.skip(1)
    } else {
        s
    }
}

/// The 64-bit number that `s` spells: an optional plus sign and at least one digit,
/// nothing else, and no more than 64 bits.
pub open spec fn parsed_u64(s: Seq<char>) -> Option<u64> {
    let digits = unsigned_part(s);
    if digits.len() > 0 && all_digits(digits) && number(digits) <= u64::MAX {
        Some(number(digits) as u64)
    } else {
        None
    }
}

/// `String::push` appends the character to the end of the string.
pub assume_specification[ String::push ](s: &mut String, c: char)
    ensures
        final(s)@ == old(s)@.push(c),
;

/// The texts `a`, `b` and `c`, one behind the other.
pub fn concat3(a: &str, b: &str, c: &str) -> (r: String)
    ensures
        r@ == a@ + b@ + c@,
{
    let mut r = a.to_owned();
    r.append(b);
    r.append(c);
    r
}

/// The texts `a`, `b`, `c`, `d` and `e`, one behind the other.
pub fn concat5(a: &str, b: &str, c: &str, d: &str, e: &str) -> (r: String)
    ensures
        r@ == a@ + b@ + c@ + d@ + e@,
{
    let mut r = concat3(a, b, c);
    r.append(d);
    r.append(e);
    r
}

/// Writes `n` in decimal digits.
pub fn decimal_text(n: u64) -> (r: String)
    ensures
        r@ == decimal(n as nat),
    decreases n,
{
    let mut r: String = if n < 10 {
        String::new()
    } else {
        decimal_text(n / 10)
    };
    let d: u8 = (n % 10) as u8;
    r.push((48u8 + d) as char);
    assert(r@ =~= decimal(n as nat));
    r
}

/// Longer runs of digits stand for numbers at least as large.
proof fn number_grows(s: Seq<char>, k: int)
    requires
        0 <= k <= s.len(),
    ensures
        number(s.take(k)) <= number(s),
    decreases s.len(),
{
    if k < s.len() {
        number_grows(s.drop_last(), k);
        assert(s.drop_last().take(k) =~= s.take(k));
    } else {
        assert(s.take(k) =~= s);
    }
}

/// Reads a 64-bit number: an optional plus sign and decimal digits.
pub fn parse_u64(s: &str) -> (r: Option<u64>)
    ensures
        r == parsed_u64(s@),
{
    let v = chars_of(s);
    let start: usize = if v.len() > 0 && v[0] == '+' {
        1
    } else {
        0
    };
    let ghost digits = unsigned_part(s@);
    assert(digits =~= s@.skip(start as int));
    if start == v.len() {
        return None;
    }
    let mut n: u64 = 0;
    let mut i: usize = start;
    assert(digits.take(0) =~= Seq::<char>::empty());
    while i < v.len()
        invariant
            v@ == s@,
            start <= i <= v.len(),
            digits == unsigned_part(s@),
            digits == s@.skip(start as int),
            forall|k: int| 0 <= k < i - start ==> is_digit(digits[k]),
            n == number(digits.take(i - start)),
        decreases v.len() - i,
    {
        let c = v[i];
        assert(c == digits[i - start]);
        if !('0' <= c && c <= '9') {
            return None;
        }
        let d: u64 = (c as u32 - '0' as u32) as u64;
        assert(digits.take(i + 1 - start).drop_last() =~= digits.take(i - start));
        assert(number(digits.take(i + 1 - start)) == n * 10 + d);
        if n > (u64::MAX - d) / 10 {
            proof {
                number_grows(digits, i + 1 - start);
            }
            return None;
        }
        n = n * 10 + d;
        i += 1;
    }
    assert(digits.take(digits.len() as int) =~= digits);
    Some(n)
}

/// The digit of `n` that stands for tens to the power of `k` is at place `k` from the end, and the
/// first digit is no zero that could be left out.
pub proof fn decimal_is_positional(n: nat, k: nat)
    requires
        k < decimal(n).len(),
    ensures
        decimal(n)[decimal(n).len() - 1 - k] as int == 48 + (n as int / power::pow(10, k)) % 10,
        decimal(n)[0] == '0' ==> n == 0 && decimal(n).len() == 1,
        power::pow(10, decimal(n).len()) > n,
    decreases n,
{
    reveal(power::pow);
    power::lemma_pow0(10);
    power::lemma_pow1(10);
    if n < 10 {
        assert(n as int / power::pow(10, 0) == n as int);
    } else {
        let rest = n / 10;
        let len = decimal(n).len();
        decimal_is_digits(rest);
        decimal_is_positional(rest, 0);
        assert(decimal(n)[0] == decimal(rest)[0]);
        if k == 0 {
            assert(n as int / power::pow(10, 0) == n as int);
        } else {
            decimal_is_positional(rest, (k - 1) as nat);
            power::lemma_pow_positive(10, (k - 1) as nat);
            div_mod::lemma_div_denominator(n as int, 10, power::pow(10, (k - 1) as nat));
            assert(decimal(n)[len - 1 - k] == decimal(rest)[decimal(rest).len() - 1 - (k - 1)]);
        }
    }
}

/// Digits without a zero in front are the decimal digits of the number that they stand for.
pub proof fn digits_are_decimal(s: Seq<char>)
    requires
        s.len() > 0,
        all_digits(s),
        s.len() > 1 ==> s[0] != '0',
    ensures
        decimal(number(s)) == s,
    decreases s.len(),
{
    if s.len() == 1 {
        assert(s.drop_last() =~= Seq::<char>::empty());
        assert(number(Seq::<char>::empty()) == 0);
        assert(is_digit(s[0]));
        assert(decimal(number(s)) =~= s);
    } else {
        let rest = s.drop_last();
        assert forall|i: int| 0 <= i < rest.len() implies is_digit(#[trigger] rest[i]) by {
            assert(rest[i] == s[i]);
        }
        digits_are_decimal(rest);
        assert(is_digit(s[s.len() - 1]));
        assert(is_digit(s[0]));
        no_zero_in_front(rest);
        assert(number(s) / 10 == number(rest));
        assert(decimal(number(s)) =~= s);
    }
}

proof fn no_zero_in_front(s: Seq<char>)
    requires
        s.len() > 0,
        all_digits(s),
        s[0] != '0',
    ensures
        number(s) > 0,
    decreases s.len(),
{
    assert(is_digit(s[0]));
    if s.len() > 1 {
        let rest = s.drop_last();
        assert forall|i: int| 0 <= i < rest.len() implies is_digit(#[trigger] rest[i]) by {
            assert(rest[i] == s[i]);
        }
        no_zero_in_front(rest);
    } else {
        assert(number(s.drop_last()) == 0);
    }
}

/// A zero in front of a number changes nothing, nor does one plus sign. Text with anything but
/// digits behind the sign is no number, and neither is none at all.
pub proof fn numbers_are_read_exactly(digits: Seq<char>, other: Seq<char>, k: int)
    requires
        digits.len() > 0,
        all_digits(digits),
        0 <= k < other.len(),
        !('0' <= other[k] <= '9'),
        k > 0 || other[0] != '+' || other.len() == 1,
    ensures
        parsed_u64(seq!['0'] + digits) == parsed_u64(digits),
        parsed_u64(seq!['+'] + digits) == parsed_u64(digits),
        parsed_u64(other) is None,
        parsed_u64(seq![]) is None,
{
    let zero = seq!['0'] + digits;
    let plus = seq!['+'] + digits;
    assert(is_digit(digits[0]));
    assert(unsigned_part(digits) =~= digits);
    assert(unsigned_part(zero) =~= zero);
    assert(unsigned_part(plus) =~= digits);
    assert forall|i: int| 0 <= i < zero.len() implies is_digit(#[trigger] zero[i]) by {
        if i > 0 {
            assert(zero[i] == digits[i - 1]);
        }
    }
    zero_adds_nothing(digits);
    let part = unsigned_part(other);
    if part.len() > 0 && all_digits(part) {
        if other[0] == '+' {
            assert(part[k - 1] == other[k]);
        } else {
            assert(part[k] == other[k]);
        }
    }
}

proof fn zero_adds_nothing(s: Seq<char>)
    ensures
        number(seq!['0'] + s) == number(s),
    decreases s.len(),
{
    let zero = seq!['0'] + s;
    if s.len() == 0 {
        assert(zero.drop_last() =~= Seq::<char>::empty());
        assert(number(Seq::<char>::empty()) == 0);
    } else {
        assert(zero.drop_last() =~= seq!['0'] + s.drop_last());
        zero_adds_nothing(s.drop_last());
    }
}

/// A number of more than 64 bits is not read.
pub proof fn large_numbers_are_not_read(n: nat)
    requires
        n > u64::MAX,
    ensures
        parsed_u64(decimal(n)) is None,
{
    decimal_is_digits(n);
    let s = decimal(n);
    assert(is_digit(s[0]));
    assert(unsigned_part(s) =~= s);
}

/// Different numbers are written differently.
pub proof fn decimals_differ(a: nat, b: nat)
    requires
        a != b,
    ensures
        decimal(a) != decimal(b),
{
    decimal_is_digits(a);
    decimal_is_digits(b);
}

/// A number in decimal has no white space to trim.
pub proof fn decimal_is_bare(n: nat)
    ensures
        trimmed(decimal(n)) == decimal(n),
{
    decimal_is_digits(n);
    let s = decimal(n);
    assert(is_digit(s[0]) && is_digit(s[s.len() - 1]));
}

/// What is written in decimal reads back as the same number.
pub proof fn decimal_reads_back(n: u64)
    ensures
        parsed_u64(decimal(n as nat)) == Some(n),
{
    decimal_is_digits(n as nat);
    let s = decimal(n as nat);
    assert(is_digit(s[0]));
    assert(unsigned_part(s) =~= s);
}

proof fn decimal_is_digits(n: nat)
    ensures
        decimal(n).len() > 0,
        all_digits(decimal(n)),
        number(decimal(n)) == n,
    decreases n,
{
    if n < 10 {
        assert(decimal(n).drop_last() =~= Seq::<char>::empty());
        assert(number(Seq::<char>::empty()) == 0);
    } else {
        decimal_is_digits(n / 10);
        assert(decimal(n).drop_last() =~= decimal(n / 10));
        assert forall|i: int| 0 <= i < decimal(n).len() implies is_digit(decimal(n)[i]) by {
            if i < decimal(n / 10).len() {
                assert(decimal(n)[i] == decimal(n / 10)[i]);
            }
        }
    }
}

/// Trimmed text has no white space at either end.
pub proof fn trimmed_has_bare_ends(s: Seq<char>)
    ensures
        trimmed(s).len() > 0 ==> !white_space(trimmed(s)[0]) && !white_space(trimmed(s).last()),
{
    trim_start_is_bare(s);
    trim_end_keeps_front(trim_start(s));
}

/// Trimming takes away white space at the ends, all of it, and nothing else.
pub proof fn trimmed_is_the_middle(s: Seq<char>)
    ensures
        exists|i: int, j: int|
            {
                &&& 0 <= i <= j <= s.len()
                &&& trimmed(s) == #[trigger] s.subrange(i, j)
                &&& forall|k: int| 0 <= k < i ==> white_space(#[trigger] s[k])
                &&& forall|k: int| j <= k < s.len() ==> white_space(#[trigger] s[k])
                &&& i < j ==> !white_space(s[i]) && !white_space(s[j - 1])
            },
        trimmed(s).len() == 0 <==> forall|k: int|
            0 <= k < s.len() ==> white_space(#[trigger] s[k]),
{
    let i = trim_start_place(s);
    let rest = trim_start(s);
    let n = trim_end_place(rest);
    trimmed_has_bare_ends(s);
    let j = i + n;
    assert(trimmed(s) =~= s.subrange(i, j));
    assert forall|k: int| j <= k < s.len() implies white_space(#[trigger] s[k]) by {
        assert(s[k] == rest[k - i]);
    }
    if i < j {
        assert(trimmed(s)[0] == s[i]);
        assert(trimmed(s).last() == s[j - 1]);
    }
}

proof fn trim_start_place(s: Seq<char>) -> (i: int)
    ensures
        0 <= i <= s.len(),
        trim_start(s) == s.skip(i),
        forall|k: int| 0 <= k < i ==> white_space(#[trigger] s[k]),
    decreases s.len(),
{
    if s.len() > 0 && white_space(s[0]) {
        let rest = s.drop_first();
        let i = trim_start_place(rest) + 1;
        assert(rest.skip(i - 1) =~= s.skip(i));
        assert forall|k: int| 0 <= k < i implies white_space(#[trigger] s[k]) by {
            if k > 0 {
                assert(s[k] == rest[k - 1]);
            }
        }
        i
    } else {
        assert(s.skip(0) =~= s);
        0
    }
}

proof fn trim_end_place(s: Seq<char>) -> (n: int)
    ensures
        0 <= n <= s.len(),
        trim_end(s) == s.take(n),
        forall|k: int| n <= k < s.len() ==> white_space(#[trigger] s[k]),
    decreases s.len(),
{
    if s.len() > 0 && white_space(s.last()) {
        let rest = s.drop_last();
        let n = trim_end_place(rest);
        assert(rest.take(n) =~= s.take(n));
        assert forall|k: int| n <= k < s.len() implies white_space(#[trigger] s[k]) by {
            if k < s.len() - 1 {
                assert(s[k] == rest[k]);
            }
        }
        n
    } else {
        assert(s.take(s.len() as int) =~= s);
        s.len() as int
    }
}

/// Trimming trimmed text changes nothing.
pub proof fn trimming_twice(s: Seq<char>)
    ensures
        trimmed(trimmed(s)) == trimmed(s),
{
    trimmed_has_bare_ends(s);
}

proof fn trim_start_is_bare(s: Seq<char>)
    ensures
        trim_start(s).len() > 0 ==> !white_space(trim_start(s)[0]),
    decreases s.len(),
{
    if s.len() > 0 && white_space(s[0]) {
        trim_start_is_bare(s.drop_first());
    }
}

proof fn trim_end_keeps_front(s: Seq<char>)
    ensures
        trim_end(s).len() > 0 ==> trim_end(s)[0] == s[0] && !white_space(trim_end(s).last()),
        trim_end(s).len() <= s.len(),
    decreases s.len(),
{
    if s.len() > 0 && white_space(s.last()) {
        trim_end_keeps_front(s.drop_last());
    }
}

/// The bytes of two texts in a row are the bytes of each in a row.
pub proof fn bytes_of_concat(a: Seq<char>, b: Seq<char>)
    ensures
        utf8::encode_utf8(a + b) == utf8::encode_utf8(a) + utf8::encode_utf8(b),
    decreases a.len(),
{
    if a.len() == 0 {
        assert(a + b =~= b);
        assert(utf8::encode_utf8(a) + utf8::encode_utf8(b) =~= utf8::encode_utf8(b));
    } else {
        bytes_of_concat(a.drop_first(), b);
        assert((a + b).drop_first() =~= a.drop_first() + b);
        let first = utf8::encode_scalar(a[0] as u32);
        assert((a + b)[0] == a[0]);
        assert(first + (utf8::encode_utf8(a.drop_first()) + utf8::encode_utf8(b)) =~= (first
            + utf8::encode_utf8(a.drop_first())) + utf8::encode_utf8(b));
    }
}

/// Every character takes at least one byte and at most four.
pub proof fn bytes_per_char(s: Seq<char>)
    ensures
        s.len() <= utf8::encode_utf8(s).len() <= 4 * s.len(),
    decreases s.len(),
{
    if s.len() > 0 {
        bytes_per_char(s.drop_first());
    }
}

}
