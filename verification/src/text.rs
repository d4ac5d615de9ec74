//! Small helpers on text, stated over sequences of characters.

use vstd::prelude::*;

verus! {

/// The characters of `s`, in order.
pub fn to_chars(s: &str) -> (chars: Vec<char>)
    ensures
        chars@ == s@,
{
    let n = s.unicode_len();
    let mut chars: Vec<char> = Vec::new();
    let mut i: usize = 0;
    while i < n
        invariant
            n == s@.len(),
            i <= n,
            chars@ == s@.subrange(0, i as int),
        decreases n - i,
    {
        chars.push(s.get_char(i));
        i += 1;
    }
    chars
}

/// Builds a string from characters through `String::from_iter`; the result
/// holds exactly the given characters in the given order.
#[verifier::external_body]
pub(crate) fn from_chars(chars: &Vec<char>) -> (s: String)
    ensures
        s@ == chars@,
{
    String::from_iter(chars.iter())
}

/// Whether `s` ends with `suffix`.
pub open spec fn spec_ends_with(s: Seq<char>, suffix: Seq<char>) -> bool {
    s.len() >= suffix.len() && s.subrange(s.len() - suffix.len(), s.len() as int) == suffix
}

/// Whether `s` starts with `prefix`.
pub open spec fn spec_starts_with(s: Seq<char>, prefix: Seq<char>) -> bool {
    s.len() >= prefix.len() && s.subrange(0, prefix.len() as int) == prefix
}

/// Tests whether the characters of `s` end with those of `suffix`.
pub fn ends_with(s: &Vec<char>, suffix: &Vec<char>) -> (found: bool)
    ensures
        found == spec_ends_with(s@, suffix@),
{
    if s.len() < suffix.len() {
        return false;
    }
    let base = s.len() - suffix.len();
    let mut i: usize = 0;
    while i < suffix.len()
        invariant
            base + suffix.len() == s.len(),
            i <= suffix.len(),
            forall|j: int| 0 <= j < i ==> s@[base + j] == suffix@[j],
        decreases suffix.len() - i,
    {
        if s[base + i] != suffix[i] {
            assert(s@.subrange(base as int, s.len() as int)[i as int] != suffix@[i as int]);
            return false;
        }
        i += 1;
    }
    assert(s@.subrange(base as int, s.len() as int) =~= suffix@);
    true
}

/// Tests whether the characters of `s` start with those of `prefix`.
pub fn starts_with(s: &Vec<char>, prefix: &Vec<char>) -> (found: bool)
    ensures
        found == spec_starts_with(s@, prefix@),
{
    if s.len() < prefix.len() {
        return false;
    }
    let mut i: usize = 0;
    while i < prefix.len()
        invariant
            prefix.len() <= s.len(),
            i <= prefix.len(),
            forall|j: int| 0 <= j < i ==> s@[j] == prefix@[j],
        decreases prefix.len() - i,
    {
        if s[i] != prefix[i] {
            assert(s@.subrange(0, prefix.len() as int)[i as int] != prefix@[i as int]);
            return false;
        }
        i += 1;
    }
    assert(s@.subrange(0, prefix.len() as int) =~= prefix@);
    true
}

/// Tests whether two strings hold the same characters.
pub fn same_text(a: &str, b: &str) -> (same: bool)
    ensures
        same == (a@ == b@),
{
    let x = to_chars(a);
    let y = to_chars(b);
    if x.len() != y.len() {
        return false;
    }
    let mut i: usize = 0;
    while i < x.len()
        invariant
            x@ == a@,
            y@ == b@,
            x.len() == y.len(),
            i <= x.len(),
            forall|j: int| 0 <= j < i ==> x@[j] == y@[j],
        decreases x.len() - i,
    {
        if x[i] != y[i] {
            assert(a@[i as int] != b@[i as int]);
            return false;
        }
        i += 1;
    }
    assert(x@ =~= y@);
    true
}

/// The character of the decimal digit `d`.
pub open spec fn spec_digit(d: nat) -> char
    recommends
        d < 10,
{
    if d == 0 {
        '0'
    } else if d == 1 {
        '1'
    } else if d == 2 {
        '2'
    } else if d == 3 {
        '3'
    } else if d == 4 {
        '4'
    } else if d == 5 {
        '5'
    } else if d == 6 {
        '6'
    } else if d == 7 {
        '7'
    } else if d == 8 {
        '8'
    } else {
        '9'
    }
}

/// The decimal digits of `n`, most significant first, without leading
/// zeros; the single digit zero for zero.
pub open spec fn spec_decimal(n: nat) -> Seq<char>
    decreases n,
{
    if n < 10 {
        seq![spec_digit(n)]
    } else {
        spec_decimal(n / 10).push(spec_digit(n % 10))
    }
}

/// The decimal digits of a number are at least one, and from ten on at
/// least two.
pub proof fn lemma_decimal_len(n: nat)
    ensures
        spec_decimal(n).len() >= 1,
        n >= 10 ==> spec_decimal(n).len() >= 2,
    decreases n,
{
    if n >= 10 {
        lemma_decimal_len(n / 10);
    }
}

/// Different digits have different characters.
pub proof fn lemma_digit_injective(a: nat, b: nat)
    requires
        a < 10,
        b < 10,
        spec_digit(a) == spec_digit(b),
    ensures
        a == b,
{
}

/// Different numbers have different decimal digits.
pub proof fn lemma_decimal_injective(a: nat, b: nat)
    requires
        spec_decimal(a) == spec_decimal(b),
    ensures
        a == b,
    decreases a,
{
    lemma_decimal_len(a);
    lemma_decimal_len(b);
    if a < 10 && b < 10 {
        assert(spec_decimal(a)[0] == spec_digit(a));
        assert(spec_decimal(b)[0] == spec_digit(b));
        lemma_digit_injective(a, b);
    } else if a >= 10 && b >= 10 {
        let x = spec_decimal(a / 10);
        let y = spec_decimal(b / 10);
        assert(spec_decimal(a) == x.push(spec_digit(a % 10)));
        assert(spec_decimal(b) == y.push(spec_digit(b % 10)));
        assert(x.push(spec_digit(a % 10)).drop_last() =~= x);
        assert(y.push(spec_digit(b % 10)).drop_last() =~= y);
        assert(x.push(spec_digit(a % 10)).last() == spec_digit(a % 10));
        assert(y.push(spec_digit(b % 10)).last() == spec_digit(b % 10));
        lemma_digit_injective(a % 10, b % 10);
        lemma_decimal_injective(a / 10, b / 10);
    } else {
        assert(spec_decimal(a).len() != spec_decimal(b).len()) by {
            if a < 10 {
                assert(spec_decimal(a).len() == 1);
            } else {
                assert(spec_decimal(b).len() == 1);
            }
        }
    }
}

/// The character of a decimal digit.
pub fn digit(d: u8) -> (c: char)
    requires
        d < 10,
    ensures
        c == spec_digit(d as nat),
{
    if d == 0 {
        '0'
    } else if d == 1 {
        '1'
    } else if d == 2 {
        '2'
    } else if d == 3 {
        '3'
    } else if d == 4 {
        '4'
    } else if d == 5 {
        '5'
    } else if d == 6 {
        '6'
    } else if d == 7 {
        '7'
    } else if d == 8 {
        '8'
    } else {
        '9'
    }
}

/// Renders an unsigned number in decimal digits, most significant first,
/// without sign or leading zeros.
pub fn decimal(n: u128) -> (s: String)
    ensures
        s@ == spec_decimal(n as nat),
{
    let mut digits: Vec<char> = Vec::new();
    let mut rest: u128 = n;
    while rest >= 10
        invariant
            spec_decimal(n as nat) == spec_decimal(rest as nat) + digits@,
        decreases rest,
    {
        let d = digit((rest % 10) as u8);
        let ghost before = digits@;
        digits.insert(0, d);
        assert(spec_decimal(rest as nat) == spec_decimal((rest / 10) as nat).push(d));
        assert(spec_decimal((rest / 10) as nat).push(d) + before =~= spec_decimal(
            (rest / 10) as nat,
        ) + digits@);
        rest = rest / 10;
    }
    let d = digit(rest as u8);
    let ghost before = digits@;
    digits.insert(0, d);
    assert(spec_decimal(rest as nat) + before =~= digits@);
    from_chars(&digits)
}

/// Place of the first `c` in `s`, or the length of `s` if there is none.
pub open spec fn spec_find(s: Seq<char>, c: char) -> int
    decreases s.len(),
{
    if s.len() == 0 {
        0
    } else if s[0] == c {
        0
    } else {
        1 + spec_find(s.drop_first(), c)
    }
}

/// The first `c` stands at `i` when no `c` stands before `i` and either one
/// stands at `i` or `s` ends there.
pub proof fn lemma_find(s: Seq<char>, c: char, i: int)
    requires
        0 <= i <= s.len(),
        forall|j: int| 0 <= j < i ==> s[j] != c,
        i < s.len() ==> s[i] == c,
    ensures
        spec_find(s, c) == i,
    decreases i,
{
    if i > 0 {
        let rest = s.drop_first();
        assert forall|j: int| 0 <= j < i - 1 implies rest[j] != c by {
            assert(rest[j] == s[j + 1]);
        }
        lemma_find(rest, c, i - 1);
    }
}

/// What stands in `s` before its first `c`: all of `s` if it holds none.
pub open spec fn spec_before(s: Seq<char>, c: char) -> Seq<char> {
    s.subrange(0, spec_find(s, c))
}

/// Finds the place of the first `c` in `s`.
pub fn find(s: &Vec<char>, c: char) -> (i: usize)
    ensures
        i == spec_find(s@, c),
        i <= s.len(),
{
    let mut i: usize = 0;
    while i < s.len() && s[i] != c
        invariant
            i <= s.len(),
            forall|j: int| 0 <= j < i ==> s@[j] != c,
        decreases s.len() - i,
    {
        i += 1;
    }
    proof {
        lemma_find(s@, c, i as int);
    }
    i
}

/// Copies the characters of `s` from `from` up to `to`.
pub fn slice(s: &Vec<char>, from: usize, to: usize) -> (part: Vec<char>)
    requires
        from <= to <= s.len(),
    ensures
        part@ == s@.subrange(from as int, to as int),
{
    let mut part: Vec<char> = Vec::new();
    let mut i: usize = from;
    while i < to
        invariant
            from <= i <= to <= s.len(),
            part@ == s@.subrange(from as int, i as int),
        decreases to - i,
    {
        part.push(s[i]);
        i += 1;
    }
    part
}

/// `s` without the characters equal to `c`.
pub open spec fn spec_without(s: Seq<char>, c: char) -> Seq<char>
    decreases s.len(),
{
    if s.len() == 0 {
        Seq::empty()
    } else if s.last() == c {
        spec_without(s.drop_last(), c)
    } else {
        spec_without(s.drop_last(), c).push(s.last())
    }
}

/// Removes every character equal to `c` from `s`.
pub fn without(s: &str, c: char) -> (kept: String)
    ensures
        kept@ == spec_without(s@, c),
{
    let chars = to_chars(s);
    let mut kept: Vec<char> = Vec::new();
    let mut i: usize = 0;
    while i < chars.len()
        invariant
            i <= chars.len(),
            kept@ == spec_without(chars@.subrange(0, i as int), c),
        decreases chars.len() - i,
    {
        assert(chars@.subrange(0, i + 1).drop_last() =~= chars@.subrange(0, i as int));
        if chars[i] != c {
            kept.push(chars[i]);
        }
        i += 1;
    }
    assert(chars@.subrange(0, chars.len() as int) =~= chars@);
    from_chars(&kept)
}

/// The first line of `s`: what stands before the first line feed, without
/// the carriage return that may precede that line feed. A carriage return
/// at the end of a text without line feed belongs to the line.
pub open spec fn spec_first_line(s: Seq<char>) -> Seq<char> {
    let end = spec_find(s, '\n');
    if end < s.len() && end > 0 && s[end - 1] == '\r' {
        s.subrange(0, end - 1)
    } else {
        s.subrange(0, end)
    }
}

/// The first line of `s`, without its line ending.
pub fn first_line(s: &str) -> (line: String)
    ensures
        line@ == spec_first_line(s@),
{
    let chars = to_chars(s);
    let end = find(&chars, '\n');
    if end < chars.len() && end > 0 && chars[end - 1] == '\r' {
        from_chars(&slice(&chars, 0, end - 1))
    } else {
        from_chars(&slice(&chars, 0, end))
    }
}

/// `s` without the white space at its start and at its end, as the standard
/// library's `str::trim` gives it.
pub uninterp spec fn spec_trim(s: Seq<char>) -> Seq<char>;

/// Takes the white space off both ends of `s` with `str::trim`. The result
/// depends on the text alone and is given the name `spec_trim`.
#[verifier::external_body]
pub(crate) fn trim(s: &str) -> (trimmed: String)
    ensures
        trimmed@ == spec_trim(s@),
{
    s.trim().to_string()
}

/// Whether a character is one of the ten decimal digits.
pub open spec fn spec_is_digit(c: char) -> bool {
    48 <= c as u32 <= 57
}

/// The number that a decimal digit stands for; zero for other characters.
pub open spec fn spec_digit_value(c: char) -> nat {
    if spec_is_digit(c) {
        (c as u32 - 48) as nat
    } else {
        0
    }
}

/// Whether a text holds decimal digits only.
pub open spec fn spec_all_digits(s: Seq<char>) -> bool {
    forall|i: int| 0 <= i < s.len() ==> spec_is_digit(#[trigger] s[i])
}

/// The number that a text of decimal digits spells.
pub open spec fn spec_value(s: Seq<char>) -> nat
    decreases s.len(),
{
    if s.len() == 0 {
        0
    } else {
        spec_value(s.drop_last()) * 10 + spec_digit_value(s.last())
    }
}

/// A text without the plus sign that may open it.
pub open spec fn spec_unsigned(s: Seq<char>) -> Seq<char> {
    if s.len() > 0 && s[0] == '+' {
        s.subrange(1, s.len() as int)
    } else {
        s
    }
}

/// The number that a text spells: the text is a plus sign or none, then
/// one decimal digit or more and nothing else, and the number fits in 32
/// bits. Nothing for any other text.
pub open spec fn spec_parse_u32(s: Seq<char>) -> Option<u32> {
    let digits = spec_unsigned(s);
    if digits.len() > 0 && spec_all_digits(digits) && spec_value(digits) <= u32::MAX {
        Some(spec_value(digits) as u32)
    } else {
        None
    }
}

/// The start of a text spells no larger a number than the whole text.
pub proof fn lemma_value_of_prefix(s: Seq<char>, k: int)
    requires
        0 <= k <= s.len(),
    ensures
        spec_value(s.subrange(0, k)) <= spec_value(s),
    decreases s.len() - k,
{
    if k < s.len() {
        assert(s.drop_last().subrange(0, k) =~= s.subrange(0, k));
        lemma_value_of_prefix(s.drop_last(), k);
    } else {
        assert(s.subrange(0, k) =~= s);
    }
}

/// Reads a number in decimal digits, as `str::parse` reads one into 32
/// bits without sign.
pub fn parse_u32(s: &str) -> (n: Option<u32>)
    ensures
        n == spec_parse_u32(s@),
{
    let chars = to_chars(s);
    let start: usize = if chars.len() > 0 && chars[0] == '+' {
        1
    } else {
        0
    };
    let ghost digits = spec_unsigned(s@);
    assert(digits =~= chars@.subrange(start as int, chars.len() as int));
    if start == chars.len() {
        return None;
    }
    let mut value: u64 = 0;
    let mut i: usize = start;
    assert(digits.subrange(0, 0) =~= Seq::<char>::empty());
    while i < chars.len()
        invariant
            start <= i <= chars.len(),
            digits == spec_unsigned(s@),
            digits == chars@.subrange(start as int, chars.len() as int),
            forall|j: int| 0 <= j < i - start ==> spec_is_digit(#[trigger] digits[j]),
            value == spec_value(digits.subrange(0, i - start)),
            value <= u32::MAX,
        decreases chars.len() - i,
    {
        let code = chars[i] as u32;
        assert(digits[i - start] == chars@[i as int]);
        if code < 48 || code > 57 {
            assert(!spec_is_digit(digits[i - start]));
            return None;
        }
        assert(digits.subrange(0, i - start + 1).drop_last() =~= digits.subrange(0, i - start));
        assert(digits.subrange(0, i - start + 1).last() == digits[i - start]);
        value = value * 10 + (code - 48) as u64;
        assert(value == spec_value(digits.subrange(0, i - start + 1)));
        if value > u32::MAX as u64 {
            proof {
                lemma_value_of_prefix(digits, i - start + 1);
            }
            return None;
        }
        i += 1;
    }
    assert(digits.subrange(0, digits.len() as int) =~= digits);
    Some(value as u32)
}

} // verus!
