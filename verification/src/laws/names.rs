//! Laws of names: classifying and building agree, building is
//! deterministic, a built name keeps within its limit, and the two schemes
//! share no name.

use crate::api::AnimeData;
use crate::parser::{
    classify, index_from, lemma_index_from_is, parse_anidb, parse_readable, suffix_start, tag_close,
    AniDbName, ParsedName,
};
use crate::rename::{
    anidb_name, ellipsis, fixed_width, id_suffix, is_control, raw_name, readable_name, sanitized,
    sanitized_body, shortened_title, tag_prefix, truncated_name, year_tail, NameBuildResult,
};
use crate::text::{
    byte_len, decimal_digits, decimal_u32, is_digit, is_space, leading_spaces,
    lemma_byte_len_concat, lemma_decimal_round_trip, lemma_leading_spaces_is, lemma_prefix_within,
    prefix_within,
};
use vstd::prelude::*;

verus! {

/// A series tag that a name can carry: it is not empty and holds no `]`.
pub open spec fn valid_tag(tag: Option<Seq<char>>) -> bool {
    match tag {
        Some(t) => t.len() > 0 && !t.contains(']'),
        None => true,
    }
}

/// A compact name that is built from a tag and an id is classified as a
/// compact name with that tag and that id.
pub proof fn lemma_anidb_name_round_trip(tag: Option<Seq<char>>, id: u32)
    requires
        valid_tag(tag),
    ensures
        classify(anidb_name(tag, id)) == Some(
            ParsedName::AniDb(AniDbName { tag, id, name: anidb_name(tag, id) }),
        ),
{
    let digits = decimal_digits(id as nat);
    let s = anidb_name(tag, id);
    lemma_decimal_round_trip(id as nat);
    assert(is_digit(digits[digits.len() - 1]));
    assert(s.last() == digits[digits.len() - 1]);
    assert(suffix_start(s) is None);
    assert(parse_readable(s) is None);
    match tag {
        Some(t) => {
            let close = 1 + t.len() as int;
            assert(s =~= seq!['['] + t + seq![']', ' '] + digits);
            assert forall|j: int| 1 <= j < close implies s[j] != ']' by {
                assert(s[j] == t[j - 1]);
                assert(t.contains(t[j - 1]));
            }
            assert(s[close] == ']');
            lemma_index_from_is(s, ']', 1, close);
            assert(tag_close(s) == Some(close));
            let rest = s.skip(close + 1);
            assert(rest =~= seq![' '] + digits);
            assert(is_space(rest[0]));
            assert(rest[1] == digits[0]);
            assert(is_digit(digits[0]));
            lemma_leading_spaces_is(rest, 1);
            assert(s.skip(close + 2) =~= digits);
            assert(s.subrange(1, close) =~= t);
        },
        None => {
            assert(s =~= digits);
            assert(is_digit(digits[0]));
            assert(tag_close(s) is None);
        },
    }
}

/// The tag of a classified name is one that a name can carry.
pub proof fn lemma_classified_tag_is_valid(name: Seq<char>)
    requires
        classify(name) is Some,
    ensures
        valid_tag(classify(name)->0.tag()),
{
    match tag_close(name) {
        Some(close) => {
            lemma_no_close_before(name, 1, close);
            let t = name.subrange(1, close);
            assert(!t.contains(']')) by {
                if t.contains(']') {
                    let j = choose|j: int| 0 <= j < t.len() && t[j] == ']';
                    assert(name[j + 1] == ']');
                }
            }
        },
        None => {},
    }
}

/// No `]` stands between `from` and the first `]` at or after `from`.
proof fn lemma_no_close_before(s: Seq<char>, from: int, close: int)
    requires
        0 <= from,
        index_from(s, ']', from) == close,
    ensures
        forall|j: int| from <= j < close ==> s[j] != ']',
    decreases s.len() - from,
{
    if from < s.len() && s[from] != ']' {
        lemma_no_close_before(s, from + 1, close);
    }
}

/// Classifying a compact name and building a name again from its tag and id
/// gives a name that is classified with the same tag and the same id.
pub proof fn lemma_classify_then_rebuild(name: Seq<char>)
    requires
        classify(name) matches Some(ParsedName::AniDb(_)),
    ensures
        ({
            let tag = classify(name)->0.tag();
            let id = classify(name)->0.id();
            classify(anidb_name(tag, id)) == Some(
                ParsedName::AniDb(AniDbName { tag, id, name: anidb_name(tag, id) }),
            )
        }),
{
    lemma_classified_tag_is_valid(name);
    lemma_anidb_name_round_trip(classify(name)->0.tag(), classify(name)->0.id());
}

/// What [`crate::rename::build_human_readable_name`] promises of its result.
pub open spec fn is_built_name(
    tag: Option<Seq<char>>,
    info: AnimeData,
    max_length: nat,
    result: NameBuildResult,
) -> bool {
    (result.name@, result.truncated) == readable_name(tag, info, max_length)
}

/// Name building is deterministic: two results for the same tag, metadata
/// and limit hold the same name and the same mark.
pub proof fn lemma_build_is_deterministic(
    tag: Option<Seq<char>>,
    info: AnimeData,
    max_length: nat,
    first: NameBuildResult,
    second: NameBuildResult,
)
    requires
        is_built_name(tag, info, max_length, first),
        is_built_name(tag, info, max_length, second),
    ensures
        first.name@ == second.name@,
        first.truncated == second.truncated,
{
}

/// The least limit under which every name fits: the fixed parts of a
/// shortened name (tag prefix, year, id suffix and the space before it) and
/// three bytes for the ellipsis.
pub open spec fn minimal_width(tag: Option<Seq<char>>, info: AnimeData) -> nat {
    fixed_width(tag, info) + 3
}

/// Under a limit of at least [`minimal_width`], a built name takes no more
/// bytes than the limit.
pub proof fn lemma_name_within_limit(tag: Option<Seq<char>>, info: AnimeData, max_length: nat)
    requires
        max_length >= minimal_width(tag, info),
    ensures
        byte_len(readable_name(tag, info, max_length).0) <= max_length,
{
    let full = sanitized(crate::rename::raw_name(tag, info));
    if byte_len(full) > max_length {
        let fixed = fixed_width(tag, info);
        let available = (max_length - fixed) as nat;
        let title = sanitized(info.title);
        let short = shortened_title(title, available);
        assert(byte_len(ellipsis()) == 3) by {
            reveal_with_fuel(byte_len, 4);
            assert(ellipsis().drop_last() =~= seq!['.', '.']);
            assert(seq!['.', '.'].drop_last() =~= seq!['.']);
            assert(seq!['.'].drop_last() =~= Seq::<char>::empty());
        }
        assert(byte_len(short) <= available) by {
            if byte_len(title) > available {
                let room = (available - 3) as nat;
                lemma_prefix_within(title, room);
                lemma_byte_len_concat(title.take(prefix_within(title, room) as int), ellipsis());
            }
        }
        assert(byte_len(seq![' ']) == 1) by {
            reveal_with_fuel(byte_len, 2);
            assert(seq![' '].drop_last() =~= Seq::<char>::empty());
        }
        let a = tag_prefix(tag);
        let b = year_tail(info.year);
        let c = id_suffix(info.id);
        lemma_byte_len_concat(a, short);
        lemma_byte_len_concat(a + short, b);
        lemma_byte_len_concat(a + short + b, seq![' ']);
        lemma_byte_len_concat(a + short + b + seq![' '], c);
        assert(truncated_name(tag, info, max_length) == a + short + b + seq![' '] + c);
    }
}

/// A name that was not shortened takes no more bytes than the limit,
/// whatever the limit is.
pub proof fn lemma_full_name_within_limit(
    tag: Option<Seq<char>>,
    info: AnimeData,
    max_length: nat,
)
    requires
        !readable_name(tag, info, max_length).1,
    ensures
        byte_len(readable_name(tag, info, max_length).0) <= max_length,
{
}

/// A name that ends with a digit.
pub open spec fn ends_with_digit(name: Seq<char>) -> bool {
    name.len() > 0 && is_digit(name.last())
}

/// A name that ends with `]`.
pub open spec fn ends_with_bracket(name: Seq<char>) -> bool {
    name.len() > 0 && name.last() == ']'
}

/// No more characters at the start of a text are whitespace than the text
/// has.
proof fn lemma_leading_spaces_bound(s: Seq<char>)
    ensures
        leading_spaces(s) <= s.len(),
    decreases s.len(),
{
    if s.len() > 0 {
        lemma_leading_spaces_bound(s.drop_first());
    }
}

/// A name of the compact scheme ends with a digit.
pub proof fn lemma_compact_name_ends_with_digit(name: Seq<char>)
    requires
        classify(name) matches Some(ParsedName::AniDb(_)),
    ensures
        ends_with_digit(name),
{
    // The name is read as compact: behind the tag stand digits and nothing else.
    assert(parse_anidb(name) is Some);
    match tag_close(name) {
        Some(close) => {
            let behind = name.skip(close + 1);
            lemma_leading_spaces_bound(behind);
            let start = close + 1 + leading_spaces(behind);
            let digits = name.skip(start);
            assert(decimal_u32(digits) is Some);
            assert(digits.last() == name.last());
        },
        None => {
            assert(decimal_u32(name) is Some);
        },
    }
}

/// A name of the readable scheme ends with `]`.
pub proof fn lemma_readable_name_ends_with_bracket(name: Seq<char>)
    requires
        classify(name) matches Some(ParsedName::HumanReadable(_)),
    ensures
        ends_with_bracket(name),
{
    assert(suffix_start(name) is Some);
}

/// A compact name that is built ends with a digit.
pub proof fn lemma_built_compact_name_ends_with_digit(tag: Option<Seq<char>>, id: u32)
    ensures
        ends_with_digit(anidb_name(tag, id)),
{
    let digits = decimal_digits(id as nat);
    lemma_decimal_round_trip(id as nat);
    assert(is_digit(digits[digits.len() - 1]));
    assert(anidb_name(tag, id).last() == digits[digits.len() - 1]);
}

/// A readable name that is built ends with `]`, shortened or not.
pub proof fn lemma_built_readable_name_ends_with_bracket(
    tag: Option<Seq<char>>,
    info: AnimeData,
    max_length: nat,
)
    ensures
        ends_with_bracket(readable_name(tag, info, max_length).0),
{
    let suffix = id_suffix(info.id);
    assert(suffix.last() == ']');
    // The full name: the `]` at its end is kept when the name is made safe.
    let raw = raw_name(tag, info);
    assert(raw.last() == ']');
    assert(sanitized_body(raw).last() == ']');
    // The shortened name ends with the id suffix in both of its forms.
    assert(truncated_name(tag, info, max_length).last() == ']');
}

/// A character that filesystems refuse in a name.
pub open spec fn is_refused(c: char) -> bool {
    c == '/' || c == '\\' || c == ':' || c == '*' || c == '?' || c == '"' || c == '<' || c == '>'
        || c == '|'
}

/// A text that is safe as a name: it holds no character that filesystems
/// refuse, no backtick and no control character, and a space stands only
/// between two characters that are no spaces.
pub open spec fn is_safe(name: Seq<char>) -> bool {
    &&& forall|i: int|
        0 <= i < name.len() ==> !is_refused(#[trigger] name[i]) && name[i] != '`' && !is_control(
            name[i],
        )
    &&& forall|i: int|
        0 <= i < name.len() && #[trigger] name[i] == ' ' ==> 0 < i < name.len() - 1 && name[i - 1]
            != ' '
}

/// What is made safe, but for a space that may be left at the end, holds no
/// character that filesystems refuse, and no space at the start or behind a
/// space.
proof fn lemma_sanitized_body_is_safe(s: Seq<char>)
    ensures
        forall|i: int|
            0 <= i < sanitized_body(s).len() ==> !is_refused(#[trigger] sanitized_body(s)[i])
                && sanitized_body(s)[i] != '`' && !is_control(sanitized_body(s)[i]),
        forall|i: int|
            0 <= i < sanitized_body(s).len() && #[trigger] sanitized_body(s)[i] == ' ' ==> 0 < i
                && sanitized_body(s)[i - 1] != ' ',
    decreases s.len(),
{
    if s.len() > 0 {
        lemma_sanitized_body_is_safe(s.drop_last());
        let before = sanitized_body(s.drop_last());
        let body = sanitized_body(s);
        assert forall|i: int| 0 <= i < body.len() implies !is_refused(#[trigger] body[i])
            && body[i] != '`' && !is_control(body[i]) by {
            if i < before.len() {
                assert(body[i] == before[i]);
            }
        }
        assert forall|i: int| 0 <= i < body.len() && #[trigger] body[i] == ' ' implies 0 < i
            && body[i - 1] != ' ' by {
            if i < before.len() {
                assert(body[i] == before[i]);
                assert(body[i - 1] == before[i - 1]);
            }
        }
    }
}

/// What is made safe is safe.
pub proof fn lemma_sanitized_is_safe(s: Seq<char>)
    ensures
        is_safe(sanitized(s)),
{
    lemma_sanitized_body_is_safe(s);
    let body = sanitized_body(s);
    let name = sanitized(s);
    assert forall|i: int| 0 <= i < name.len() implies !is_refused(#[trigger] name[i]) && name[i]
        != '`' && !is_control(name[i]) by {
        assert(name[i] == body[i]);
    }
    assert forall|i: int| 0 <= i < name.len() && #[trigger] name[i] == ' ' implies 0 < i
        < name.len() - 1 && name[i - 1] != ' ' by {
        assert(name[i] == body[i]);
        assert(name[i - 1] == body[i - 1]);
    }
}

/// A built name that was not shortened is safe.
pub proof fn lemma_full_name_is_safe(tag: Option<Seq<char>>, info: AnimeData, max_length: nat)
    requires
        !readable_name(tag, info, max_length).1,
    ensures
        is_safe(readable_name(tag, info, max_length).0),
{
    lemma_sanitized_is_safe(raw_name(tag, info));
}

} // verus!
