//! Character-level helpers shared by the name grammar and the name builder.
//!
//! Text is modelled as a sequence of characters. Lengths that are compared
//! with a filesystem limit are counted in UTF-8 bytes, see [`byte_len`].

use vstd::prelude::*;

verus! {

/// Appends one character to a string.
///
/// Wraps `String::push`: the string afterwards is the string before with `c`
/// added at the end.
#[verifier::external_body]
pub(crate) fn push_char(s: &mut String, c: char)
    ensures
        final(s)@ == old(s)@.push(c),
{
    s.push(c);
}

/// The characters of a string, in order.
pub fn chars_of(s: &str) -> (out: Vec<char>)
    ensures
        out@ == s@,
{
    broadcast use vstd::string::group_string_axioms;

    let mut out: Vec<char> = Vec::new();
    for c in it: s.chars()
        invariant
            it.seq() == s@,
            out@ == s@.take(it.index()),
    {
        out.push(c);
    }
    out
}

/// The string made of the given characters.
pub fn string_of(chars: &Vec<char>) -> (out: String)
    ensures
        out@ == chars@,
{
    let mut out = String::new();
    let mut i: usize = 0;
    while i < chars.len()
        invariant
            i <= chars.len(),
            out@ == chars@.take(i as int),
        decreases chars.len() - i,
    {
        push_char(&mut out, chars[i]);
        i += 1;
    }
    out
}

/// Appends all of `tail` to `buf`.
pub fn extend_chars(buf: &mut Vec<char>, tail: &Vec<char>)
    ensures
        final(buf)@ == old(buf)@ + tail@,
{
    let mut i: usize = 0;
    while i < tail.len()
        invariant
            i <= tail.len(),
            buf@ == old(buf)@ + tail@.take(i as int),
        decreases tail.len() - i,
    {
        buf.push(tail[i]);
        i += 1;
    }
}

/// Appends the characters of `tail` to `buf`.
pub fn extend_str(buf: &mut Vec<char>, tail: &str)
    ensures
        final(buf)@ == old(buf)@ + tail@,
{
    let t = chars_of(tail);
    extend_chars(buf, &t);
}

/// A copy of `chars[from..to]`.
pub(crate) fn slice_chars(chars: &Vec<char>, from: usize, to: usize) -> (out: Vec<char>)
    requires
        from <= to <= chars.len(),
    ensures
        out@ == chars@.subrange(from as int, to as int),
{
    let mut out: Vec<char> = Vec::new();
    let mut i: usize = from;
    while i < to
        invariant
            from <= i <= to <= chars.len(),
            out@ == chars@.subrange(from as int, i as int),
        decreases to - i,
    {
        out.push(chars[i]);
        i += 1;
    }
    out
}

/// Whether two character vectors hold the same text.
pub fn same_chars(a: &Vec<char>, b: &Vec<char>) -> (same: bool)
    ensures
        same == (a@ == b@),
{
    if a.len() != b.len() {
        return false;
    }
    let mut i: usize = 0;
    while i < a.len()
        invariant
            a.len() == b.len(),
            i <= a.len(),
            a@.take(i as int) == b@.take(i as int),
        decreases a.len() - i,
    {
        if a[i] != b[i] {
            return false;
        }
        i += 1;
    }
    assert(a@ == a@.take(a.len() as int));
    assert(b@ == b@.take(b.len() as int));
    true
}

/// An ASCII decimal digit.
pub open spec fn is_digit(c: char) -> bool {
    '0' <= c <= '9'
}

/// Executable form of [`is_digit`].
pub fn is_digit_char(c: char) -> (r: bool)
    ensures
        r == is_digit(c),
{
    let v: u32 = c as u32;
    48 <= v && v <= 57
}

/// A character with the Unicode property White_Space.
pub open spec fn is_space(c: char) -> bool {
    let v = c as u32;
    ||| 0x09 <= v <= 0x0D
    ||| v == 0x20
    ||| v == 0x85
    ||| v == 0xA0
    ||| v == 0x1680
    ||| 0x2000 <= v <= 0x200A
    ||| v == 0x2028
    ||| v == 0x2029
    ||| v == 0x202F
    ||| v == 0x205F
    ||| v == 0x3000
}

/// Executable form of [`is_space`].
pub fn is_space_char(c: char) -> (r: bool)
    ensures
        r == is_space(c),
{
    let v: u32 = c as u32;
    (0x09 <= v && v <= 0x0D) || v == 0x20 || v == 0x85 || v == 0xA0 || v == 0x1680 || (0x2000 <= v
        && v <= 0x200A) || v == 0x2028 || v == 0x2029 || v == 0x202F || v == 0x205F || v == 0x3000
}

/// Every character of `s` is an ASCII digit.
pub open spec fn all_digits(s: Seq<char>) -> bool {
    forall|i: int| 0 <= i < s.len() ==> is_digit(#[trigger] s[i])
}

/// The number that a digit stands for.
pub open spec fn digit_value(c: char) -> nat {
    (c as u32 - 48) as nat
}

/// The digit that stands for `d`, for `d` below ten.
pub open spec fn digit_char(d: nat) -> char {
    ((d + 48) as u32) as char
}

/// The number written by a string of decimal digits, most significant first.
pub open spec fn decimal_value(s: Seq<char>) -> nat
    decreases s.len(),
{
    if s.len() == 0 {
        0
    } else {
        decimal_value(s.drop_last()) * 10 + digit_value(s.last())
    }
}

/// The decimal digits of `n`, without leading zeros (`"0"` for zero).
pub open spec fn decimal_digits(n: nat) -> Seq<char>
    decreases n,
{
    if n < 10 {
        seq![digit_char(n)]
    } else {
        decimal_digits(n / 10).push(digit_char(n % 10))
    }
}

/// Writing a number in decimal and reading it back gives the number.
pub proof fn lemma_decimal_round_trip(n: nat)
    ensures
        decimal_digits(n).len() >= 1,
        all_digits(decimal_digits(n)),
        decimal_value(decimal_digits(n)) == n,
    decreases n,
{
    if n < 10 {
        let s = decimal_digits(n);
        assert(decimal_value(s.drop_last()) == 0);
    } else {
        lemma_decimal_round_trip(n / 10);
        let s = decimal_digits(n);
        assert(s.drop_last() =~= decimal_digits(n / 10));
    }
}

/// A number below `10^k` has at most `k` digits.
pub proof fn lemma_decimal_digits_len(n: nat, k: nat, bound: nat)
    requires
        k >= 1,
        bound == vstd::arithmetic::power::pow(10, k),
        n < bound,
    ensures
        decimal_digits(n).len() <= k,
    decreases k,
{
    vstd::arithmetic::power::lemma_pow1(10);
    reveal(vstd::arithmetic::power::pow);
    if n >= 10 {
        let b2 = vstd::arithmetic::power::pow(10, (k - 1) as nat);
        lemma_decimal_digits_len(n / 10, (k - 1) as nat, b2 as nat);
    }
}

/// The decimal digits of a number.
pub fn format_u64(n: u64) -> (out: Vec<char>)
    ensures
        out@ == decimal_digits(n as nat),
        1 <= out@.len() <= 20,
        all_digits(out@),
{
    // Collect the digits least significant first, then reverse.
    let mut rev: Vec<char> = Vec::new();
    let mut rest: u64 = n;
    while rest >= 10
        invariant
            decimal_digits(n as nat) == decimal_digits(rest as nat) + rev@.reverse(),
        decreases rest,
    {
        let d: u64 = rest % 10;
        let c: char = digit_to_char(d as u32);
        rev.push(c);
        rest = rest / 10;
    }
    let mut out: Vec<char> = Vec::new();
    out.push(digit_to_char(rest as u32));
    let mut i: usize = rev.len();
    while i > 0
        invariant
            i <= rev.len(),
            out@ == decimal_digits(rest as nat) + rev@.reverse().take(rev.len() - i),
        decreases i,
    {
        i -= 1;
        out.push(rev[i]);
    }
    proof {
        assert(rev@.reverse().take(rev.len() as int) =~= rev@.reverse());
        lemma_decimal_round_trip(n as nat);
        assert(vstd::arithmetic::power::pow(10, 20) == 100_000_000_000_000_000_000) by {
            reveal_with_fuel(vstd::arithmetic::power::pow, 21);
        }
        lemma_decimal_digits_len(n as nat, 20, 100_000_000_000_000_000_000);
    }
    out
}

/// The decimal digits of a 32-bit number.
pub fn format_u32(n: u32) -> (out: Vec<char>)
    ensures
        out@ == decimal_digits(n as nat),
        1 <= out@.len() <= 10,
        all_digits(out@),
{
    proof {
        assert(vstd::arithmetic::power::pow(10, 10) == 10_000_000_000) by {
            reveal_with_fuel(vstd::arithmetic::power::pow, 11);
        }
        lemma_decimal_digits_len(n as nat, 10, 10_000_000_000);
    }
    format_u64(n as u64)
}

/// The decimal digits of a count.
pub fn format_usize(n: usize) -> (out: Vec<char>)
    ensures
        out@ == decimal_digits(n as nat),
        1 <= out@.len() <= 20,
        all_digits(out@),
{
    format_u64(n as u64)
}

/// The digit character for a value below ten.
fn digit_to_char(d: u32) -> (c: char)
    requires
        d < 10,
    ensures
        c == digit_char(d as nat),
        is_digit(c),
{
    let v: u8 = (d + 48) as u8;
    v as char
}

/// Reads `chars[from..to]` as a decimal number that fits in 32 bits.
///
/// Gives `None` when the range is empty, holds anything but ASCII digits, or
/// writes a number above `u32::MAX`.
pub(crate) fn parse_u32(chars: &Vec<char>, from: usize, to: usize) -> (out: Option<u32>)
    requires
        from <= to <= chars.len(),
    ensures
        out == decimal_u32(chars@.subrange(from as int, to as int)),
{
    let ghost s = chars@.subrange(from as int, to as int);
    if from == to {
        return None;
    }
    let mut acc: u64 = 0;
    let mut i: usize = from;
    while i < to
        invariant
            from <= i <= to <= chars.len(),
            s == chars@.subrange(from as int, to as int),
            all_digits(s.take(i - from)),
            acc == decimal_value(s.take(i - from)),
            acc <= u32::MAX,
        decreases to - i,
    {
        let c = chars[i];
        assert(c == s[i - from]);
        if !is_digit_char(c) {
            return None;
        }
        let d: u64 = (c as u32 - 48) as u64;
        let next: u64 = acc * 10 + d;
        proof {
            let t = s.take(i - from + 1);
            assert(t.drop_last() =~= s.take(i - from));
            assert(all_digits(t));
        }
        if next > 0xFFFF_FFFF {
            proof {
                lemma_decimal_value_grows(s, i - from + 1);
            }
            return None;
        }
        acc = next;
        i += 1;
    }
    assert(s.take(to - from) =~= s);
    Some(acc as u32)
}

/// What a digit string stands for as a 32-bit number, if it stands for one.
pub open spec fn decimal_u32(s: Seq<char>) -> Option<u32> {
    if s.len() > 0 && all_digits(s) && decimal_value(s) <= u32::MAX {
        Some(decimal_value(s) as u32)
    } else {
        None
    }
}

/// A digit string is worth at least as much as each of its prefixes.
pub proof fn lemma_decimal_value_grows(s: Seq<char>, k: int)
    requires
        0 <= k <= s.len(),
    ensures
        decimal_value(s.take(k)) <= decimal_value(s),
    decreases s.len() - k,
{
    if k == s.len() {
        assert(s.take(k) =~= s);
    } else {
        lemma_decimal_value_grows(s, k + 1);
        let t = s.take(k + 1);
        assert(t.drop_last() =~= s.take(k));
    }
}

/// How many characters at the start of `s` are whitespace.
pub open spec fn leading_spaces(s: Seq<char>) -> nat
    decreases s.len(),
{
    if s.len() > 0 && is_space(s[0]) {
        1 + leading_spaces(s.drop_first())
    } else {
        0
    }
}

/// The length of `s` once its trailing whitespace is cut off.
pub open spec fn trimmed_end(s: Seq<char>) -> nat
    decreases s.len(),
{
    if s.len() > 0 && is_space(s.last()) {
        trimmed_end(s.drop_last())
    } else {
        s.len()
    }
}

/// `s` without leading and trailing whitespace.
pub open spec fn trimmed(s: Seq<char>) -> Seq<char> {
    let body = s.take(trimmed_end(s) as int);
    body.skip(leading_spaces(body) as int)
}

/// `k` is the number of leading whitespace characters of `s`.
pub proof fn lemma_leading_spaces_is(s: Seq<char>, k: int)
    requires
        0 <= k <= s.len(),
        forall|i: int| 0 <= i < k ==> is_space(#[trigger] s[i]),
        k < s.len() ==> !is_space(s[k]),
    ensures
        leading_spaces(s) == k,
    decreases s.len(),
{
    if k > 0 {
        let t = s.drop_first();
        lemma_leading_spaces_is(t, k - 1);
    }
}

/// `k` is the length of `s` without its trailing whitespace.
pub proof fn lemma_trimmed_end_is(s: Seq<char>, k: int)
    requires
        0 <= k <= s.len(),
        forall|i: int| k <= i < s.len() ==> is_space(#[trigger] s[i]),
        k > 0 ==> !is_space(s[k - 1]),
    ensures
        trimmed_end(s) == k,
    decreases s.len(),
{
    if k < s.len() {
        lemma_trimmed_end_is(s.drop_last(), k);
    }
}

/// The first index in `from..to` that holds no whitespace, or `to`.
pub(crate) fn skip_spaces(chars: &Vec<char>, from: usize, to: usize) -> (at: usize)
    requires
        from <= to <= chars.len(),
    ensures
        at == from + leading_spaces(chars@.subrange(from as int, to as int)),
        from <= at <= to,
{
    let ghost s = chars@.subrange(from as int, to as int);
    let mut i: usize = from;
    while i < to && is_space_char(chars[i])
        invariant
            from <= i <= to <= chars.len(),
            s == chars@.subrange(from as int, to as int),
            forall|j: int| 0 <= j < i - from ==> is_space(#[trigger] s[j]),
        decreases to - i,
    {
        i += 1;
    }
    proof {
        lemma_leading_spaces_is(s, i - from);
    }
    i
}

/// The end of `from..to` once trailing whitespace is cut off.
pub(crate) fn skip_spaces_back(chars: &Vec<char>, from: usize, to: usize) -> (at: usize)
    requires
        from <= to <= chars.len(),
    ensures
        at == from + trimmed_end(chars@.subrange(from as int, to as int)),
        from <= at <= to,
{
    let ghost s = chars@.subrange(from as int, to as int);
    let mut i: usize = to;
    while i > from && is_space_char(chars[i - 1])
        invariant
            from <= i <= to <= chars.len(),
            s == chars@.subrange(from as int, to as int),
            forall|j: int| i - from <= j < s.len() ==> is_space(#[trigger] s[j]),
        decreases i,
    {
        i -= 1;
    }
    proof {
        lemma_trimmed_end_is(s, i - from);
    }
    i
}

/// A copy of `chars[from..to]` without leading and trailing whitespace.
pub(crate) fn trim_range(chars: &Vec<char>, from: usize, to: usize) -> (out: Vec<char>)
    requires
        from <= to <= chars.len(),
    ensures
        out@ == trimmed(chars@.subrange(from as int, to as int)),
{
    let end = skip_spaces_back(chars, from, to);
    let start = skip_spaces(chars, from, end);
    let out = slice_chars(chars, start, end);
    proof {
        let s = chars@.subrange(from as int, to as int);
        let body = s.take(trimmed_end(s) as int);
        assert(body =~= chars@.subrange(from as int, end as int));
    }
    out
}

/// `needle` stands in `hay` at index `i`.
pub open spec fn occurs_at(hay: Seq<char>, needle: Seq<char>, i: int) -> bool {
    &&& 0 <= i
    &&& i + needle.len() <= hay.len()
    &&& hay.subrange(i, i + needle.len()) == needle
}

/// `needle` stands somewhere in `hay`. The empty text stands in every text.
pub open spec fn contains_text(hay: Seq<char>, needle: Seq<char>) -> bool {
    exists|i: int| occurs_at(hay, needle, i)
}

/// Whether `needle` stands in `hay` at index `at`.
pub(crate) fn matches_at(hay: &Vec<char>, needle: &Vec<char>, at: usize) -> (r: bool)
    requires
        at <= hay.len(),
    ensures
        r == occurs_at(hay@, needle@, at as int),
{
    if needle.len() > hay.len() - at {
        return false;
    }
    let mut j: usize = 0;
    while j < needle.len()
        invariant
            j <= needle.len(),
            at + needle.len() <= hay.len(),
            forall|k: int| 0 <= k < j ==> hay@[at + k] == needle@[k],
        decreases needle.len() - j,
    {
        if hay[at + j] != needle[j] {
            return false;
        }
        j += 1;
    }
    assert(hay@.subrange(at as int, at + needle.len()) =~= needle@);
    true
}

/// Whether `needle` stands somewhere in `hay`.
pub fn contains_chars(hay: &Vec<char>, needle: &Vec<char>) -> (r: bool)
    ensures
        r == contains_text(hay@, needle@),
{
    let mut i: usize = 0;
    while i < hay.len()
        invariant
            i <= hay.len(),
            forall|k: int| 0 <= k < i ==> !occurs_at(hay@, needle@, k),
        decreases hay.len() - i,
    {
        if matches_at(hay, needle, i) {
            return true;
        }
        i += 1;
    }
    matches_at(hay, needle, i)
}

/// The first index in `from..to` that holds `c`, or `to` where none does.
pub(crate) fn find_char(chars: &Vec<char>, c: char, from: usize, to: usize) -> (at: usize)
    requires
        from <= to <= chars.len(),
    ensures
        from <= at <= to,
        forall|j: int| from <= j < at ==> chars@[j] != c,
        at < to ==> chars@[at as int] == c,
{
    let mut i: usize = from;
    while i < to && chars[i] != c
        invariant
            from <= i <= to <= chars.len(),
            forall|j: int| from <= j < i ==> chars@[j] != c,
        decreases to - i,
    {
        i += 1;
    }
    i
}

/// How many bytes the UTF-8 encoding of `c` takes.
pub open spec fn utf8_width(c: char) -> nat {
    let v = c as u32;
    if v < 0x80 {
        1
    } else if v < 0x800 {
        2
    } else if v < 0x10000 {
        3
    } else {
        4
    }
}

/// How many bytes the UTF-8 encoding of `s` takes.
pub open spec fn byte_len(s: Seq<char>) -> nat
    decreases s.len(),
{
    if s.len() == 0 {
        0
    } else {
        byte_len(s.drop_last()) + utf8_width(s.last())
    }
}

/// The byte length of a text is the sum of the byte lengths of its parts.
pub proof fn lemma_byte_len_concat(a: Seq<char>, b: Seq<char>)
    ensures
        byte_len(a + b) == byte_len(a) + byte_len(b),
    decreases b.len(),
{
    if b.len() > 0 {
        lemma_byte_len_concat(a, b.drop_last());
        assert((a + b).drop_last() =~= a + b.drop_last());
    }
}

/// A prefix takes no more bytes than the whole.
pub proof fn lemma_byte_len_prefix(s: Seq<char>, k: int)
    requires
        0 <= k <= s.len(),
    ensures
        byte_len(s.take(k)) <= byte_len(s),
{
    assert(s =~= s.take(k) + s.skip(k));
    lemma_byte_len_concat(s.take(k), s.skip(k));
}

/// Executable form of [`utf8_width`].
pub fn char_width(c: char) -> (w: usize)
    ensures
        w == utf8_width(c),
        1 <= w <= 4,
{
    let v: u32 = c as u32;
    if v < 0x80 {
        1
    } else if v < 0x800 {
        2
    } else if v < 0x10000 {
        3
    } else {
        4
    }
}

/// The byte length of `chars`.
pub fn byte_length(chars: &Vec<char>) -> (n: u128)
    ensures
        n == byte_len(chars@),
        n <= 4 * chars.len(),
{
    let mut n: u128 = 0;
    let mut i: usize = 0;
    while i < chars.len()
        invariant
            i <= chars.len(),
            n == byte_len(chars@.take(i as int)),
            n <= 4 * i,
        decreases chars.len() - i,
    {
        proof {
            let t = chars@.take(i + 1);
            assert(t.drop_last() =~= chars@.take(i as int));
        }
        n = n + char_width(chars[i]) as u128;
        i += 1;
    }
    assert(chars@.take(chars.len() as int) =~= chars@);
    n
}

/// The longest prefix of `s` that takes at most `budget` bytes, as a count of
/// characters.
pub open spec fn prefix_within(s: Seq<char>, budget: nat) -> nat
    decreases s.len(),
{
    if s.len() == 0 {
        0
    } else if byte_len(s) <= budget {
        s.len()
    } else {
        prefix_within(s.drop_last(), budget)
    }
}

/// What [`prefix_within`] gives: the prefix fits, and one more character
/// would not.
pub proof fn lemma_prefix_within(s: Seq<char>, budget: nat)
    ensures
        prefix_within(s, budget) <= s.len(),
        byte_len(s.take(prefix_within(s, budget) as int)) <= budget,
        prefix_within(s, budget) < s.len() ==> byte_len(
            s.take(prefix_within(s, budget) as int + 1),
        ) > budget,
    decreases s.len(),
{
    if s.len() > 0 && byte_len(s) <= budget {
        assert(s.take(s.len() as int) =~= s);
    } else if s.len() > 0 {
        let t = s.drop_last();
        lemma_prefix_within(t, budget);
        let k = prefix_within(t, budget) as int;
        assert(t.take(k) =~= s.take(k));
        if k < t.len() {
            assert(t.take(k + 1) =~= s.take(k + 1));
        } else {
            assert(s.take(k + 1) =~= s);
        }
    }
}

/// How many leading characters of `chars` fit in `budget` bytes.
pub fn fit_prefix(chars: &Vec<char>, budget: u128) -> (k: usize)
    ensures
        k == prefix_within(chars@, budget as nat),
        k <= chars.len(),
        byte_len(chars@.take(k as int)) <= budget,
{
    let mut used: u128 = 0;
    let mut i: usize = 0;
    while i < chars.len()
        invariant
            i <= chars.len(),
            used == byte_len(chars@.take(i as int)),
            used <= 4 * i,
            used <= budget,
        decreases chars.len() - i,
    {
        let w: u128 = char_width(chars[i]) as u128;
        proof {
            let t = chars@.take(i + 1);
            assert(t.drop_last() =~= chars@.take(i as int));
        }
        if used + w > budget {
            proof {
                lemma_prefix_within_is(chars@, budget as nat, i as int);
            }
            return i;
        }
        used = used + w;
        i += 1;
    }
    proof {
        lemma_prefix_within_is(chars@, budget as nat, chars.len() as int);
    }
    i
}

/// A prefix that fits, and that one more character would overfill, is the
/// longest that fits.
pub proof fn lemma_prefix_within_is(s: Seq<char>, budget: nat, k: int)
    requires
        0 <= k <= s.len(),
        byte_len(s.take(k)) <= budget,
        k < s.len() ==> byte_len(s.take(k + 1)) > budget,
    ensures
        prefix_within(s, budget) == k,
    decreases s.len(),
{
    if k == s.len() {
        assert(s.take(k) =~= s);
    } else {
        lemma_byte_len_prefix(s, k + 1);
        let t = s.drop_last();
        assert(t.take(k) =~= s.take(k));
        if k < t.len() {
            assert(t.take(k + 1) =~= s.take(k + 1));
        }
        lemma_prefix_within_is(t, budget, k);
    }
}

/// The first index at or after `from` where `needle` stands in `hay`, if it
/// stands anywhere from there on.
pub open spec fn first_occurrence_from(hay: Seq<char>, needle: Seq<char>, from: int) -> Option<int>
    decreases hay.len() - from,
{
    if from < 0 || from + needle.len() > hay.len() {
        None
    } else if occurs_at(hay, needle, from) {
        Some(from)
    } else if from >= hay.len() {
        None
    } else {
        first_occurrence_from(hay, needle, from + 1)
    }
}

/// The first index where `needle` stands in `hay`, if it stands anywhere.
pub open spec fn first_occurrence(hay: Seq<char>, needle: Seq<char>) -> Option<int> {
    first_occurrence_from(hay, needle, 0)
}

/// The first index where `needle` stands in `hay`.
pub fn find_chars(hay: &Vec<char>, needle: &Vec<char>) -> (at: Option<usize>)
    ensures
        match at {
            Some(i) => first_occurrence(hay@, needle@) == Some(i as int) && i + needle.len()
                <= hay.len(),
            None => first_occurrence(hay@, needle@) is None,
        },
{
    if needle.len() > hay.len() {
        return None;
    }
    let last: usize = hay.len() - needle.len();
    let mut i: usize = 0;
    while i <= last
        invariant
            last == hay.len() - needle.len(),
            i <= last + 1,
            first_occurrence_from(hay@, needle@, i as int) == first_occurrence(hay@, needle@),
        decreases last + 1 - i,
    {
        if matches_at(hay, needle, i) {
            return Some(i);
        }
        if i == last {
            assert(first_occurrence_from(hay@, needle@, i + 1) is None);
            return None;
        }
        i += 1;
    }
    None
}

/// The text in lower case, as Unicode defines it.
pub uninterp spec fn lowercased(text: Seq<char>) -> Seq<char>;

/// The text in lower case.
///
/// Wraps `str::to_lowercase`: the result is a function of the text.
#[verifier::external_body]
pub(crate) fn to_lower(text: &str) -> (out: String)
    ensures
        out@ == lowercased(text@),
{
    text.to_lowercase()
}

/// The number that a text writes as a 32-bit number, as numbers are read
/// from text: an optional `+` and then nothing but ASCII digits, of a value
/// that fits.
pub open spec fn plain_number(text: Seq<char>) -> Option<u32> {
    if text.len() > 0 && text[0] == '+' {
        decimal_u32(text.skip(1))
    } else {
        decimal_u32(text)
    }
}

/// Reads the first `to` characters as a number: see [`plain_number`].
pub(crate) fn parse_number(chars: &Vec<char>, to: usize) -> (out: Option<u32>)
    requires
        to <= chars.len(),
    ensures
        out == plain_number(chars@.take(to as int)),
{
    let ghost text = chars@.take(to as int);
    let from: usize = if to > 0 && chars[0] == '+' {
        1
    } else {
        0
    };
    proof {
        if from == 1 {
            assert(text.skip(1) =~= chars@.subrange(1, to as int));
        } else {
            assert(text =~= chars@.subrange(0, to as int));
        }
    }
    parse_u32(chars, from, to)
}

} // verus!
