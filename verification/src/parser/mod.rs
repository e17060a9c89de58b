//! Recognises a directory name as one of the two naming schemes.
//!
//! The compact scheme is an optional bracketed series tag followed by a bare
//! decimal id. The readable scheme is an optional bracketed series tag, a
//! title part, an optional four-digit year in parentheses and a mandatory
//! `[catalog-<id>]` suffix. The grammar is stated by [`classify`]; the
//! executable functions are proved to compute it.

mod types;

use crate::text::{
    chars_of, decimal_u32, digit_value, find_char, is_digit, is_digit_char, leading_spaces,
    parse_u32, same_chars, skip_spaces, skip_spaces_back, slice_chars, string_of, trim_range,
    trimmed, trimmed_end,
};
use vstd::prelude::*;

pub use types::{
    clone_opt_string, opt_text, AniDbFormat, AniDbName, DirectoryFormat, HumanReadableFormat,
    ParseError, ParsedDirectory, ParsedName, ReadableName,
};

verus! {

/// The full-width solidus that stands between the two titles.
pub const TITLE_SEPARATOR: char = '\u{FF0F}';

/// The text `[catalog-` that opens the id suffix.
pub open spec fn id_prefix() -> Seq<char> {
    seq!['[', 'c', 'a', 't', 'a', 'l', 'o', 'g', '-']
}

/// The first index at or after `from` where `s` holds `c`; the length of `s`
/// where it holds none.
pub open spec fn index_from(s: Seq<char>, c: char, from: int) -> int
    decreases s.len() - from,
{
    if from < 0 || from >= s.len() {
        s.len() as int
    } else if s[from] == c {
        from
    } else {
        index_from(s, c, from + 1)
    }
}

/// Where the run of digits that ends just before `end` starts.
pub open spec fn digit_run_start(s: Seq<char>, end: int) -> int
    decreases end,
{
    if 0 < end <= s.len() && is_digit(s[end - 1]) {
        digit_run_start(s, end - 1)
    } else {
        end
    }
}

/// The index of the `]` that closes a leading series tag: `s` starts with
/// `[`, and at least one character stands before the first `]`.
pub open spec fn tag_close(s: Seq<char>) -> Option<int> {
    if s.len() > 0 && s[0] == '[' {
        let close = index_from(s, ']', 1);
        if 1 < close < s.len() {
            Some(close)
        } else {
            None
        }
    } else {
        None
    }
}

/// Where the suffix `[catalog-<digits>]` starts, if `s` ends with one.
pub open spec fn suffix_start(s: Seq<char>) -> Option<int> {
    if s.len() > 0 && s.last() == ']' {
        let digits = digit_run_start(s, s.len() - 1);
        if digits < s.len() - 1 && digits >= 9 && s.subrange(digits - 9, digits) == id_prefix() {
            Some(digits - 9)
        } else {
            None
        }
    } else {
        None
    }
}

/// `m` holds a year marker `(dddd)` at index `at`.
pub open spec fn is_year_marker(m: Seq<char>, at: int) -> bool {
    &&& 0 <= at
    &&& at + 6 <= m.len()
    &&& m[at] == '('
    &&& is_digit(m[at + 1])
    &&& is_digit(m[at + 2])
    &&& is_digit(m[at + 3])
    &&& is_digit(m[at + 4])
    &&& m[at + 5] == ')'
}

/// The year that a marker at `at` writes.
pub open spec fn year_value(m: Seq<char>, at: int) -> u16 {
    (digit_value(m[at + 1]) * 1000 + digit_value(m[at + 2]) * 100 + digit_value(m[at + 3]) * 10
        + digit_value(m[at + 4])) as u16
}

/// Splits what stands between tag and suffix: the length of the title part,
/// and the year. The title part is what precedes the optional year marker
/// and the whitespace around it.
pub open spec fn title_cut(m: Seq<char>) -> (int, Option<u16>) {
    let end = trimmed_end(m) as int;
    if is_year_marker(m, end - 6) {
        (trimmed_end(m.take(end - 6)) as int, Some(year_value(m, end - 6)))
    } else {
        (end, None)
    }
}

/// The title part and the year of `s[start..suffix]`. The title part cannot
/// hold a line feed.
pub open spec fn title_region(s: Seq<char>, start: int, suffix: int) -> Option<
    (Seq<char>, Option<u16>),
> {
    let m = s.subrange(start, suffix);
    let (cut, year) = title_cut(m);
    let raw = m.take(cut);
    if raw.contains('\n') {
        None
    } else {
        Some((raw, year))
    }
}

/// The shape of a readable name: tag, untrimmed title part, year. A leading
/// tag is taken where the rest then still has the shape; else the name is
/// read without a tag.
pub open spec fn readable_shape(s: Seq<char>) -> Option<
    (Option<Seq<char>>, Seq<char>, Option<u16>),
> {
    match suffix_start(s) {
        None => None,
        Some(suffix) => {
            let tagged = match tag_close(s) {
                None => None,
                Some(close) => if close + 1 <= suffix {
                    let start = close + 1 + leading_spaces(s.subrange(close + 1, suffix));
                    match title_region(s, start, suffix) {
                        None => None,
                        Some((raw, year)) => Some((Some(s.subrange(1, close)), raw, year)),
                    }
                } else {
                    None
                },
            };
            if tagged is Some {
                tagged
            } else {
                match title_region(s, 0, suffix) {
                    None => None,
                    Some((raw, year)) => Some((None, raw, year)),
                }
            }
        },
    }
}

/// Splits a title part at the separator into main and alternate title, each
/// trimmed. What follows a second separator is dropped. An alternate title
/// equal to the main title is dropped.
pub open spec fn split_titles_spec(t: Seq<char>) -> (Seq<char>, Option<Seq<char>>) {
    let first = index_from(t, TITLE_SEPARATOR, 0);
    if first == t.len() {
        (trimmed(t), None)
    } else {
        let second = index_from(t, TITLE_SEPARATOR, first + 1);
        let main = trimmed(t.subrange(0, first));
        let alt = trimmed(t.subrange(first + 1, second));
        if main == alt {
            (main, None)
        } else {
            (main, Some(alt))
        }
    }
}

/// What `s` is as a readable name, or `None` where it is none: it has the
/// readable shape, its id fits in 32 bits and its main title is not empty.
pub open spec fn parse_readable(s: Seq<char>) -> Option<ReadableName> {
    match readable_shape(s) {
        None => None,
        Some((tag, raw, year)) => {
            let suffix = suffix_start(s)->0;
            let id = decimal_u32(s.subrange(suffix + 9, s.len() - 1));
            let (title, alt_title) = split_titles_spec(trimmed(raw));
            if id is None || title.len() == 0 {
                None
            } else {
                Some(ReadableName { tag, title, alt_title, year, id: id->0, name: s })
            }
        },
    }
}

/// What `s` is as a compact name, or `None` where it is none: an optional
/// tag, optional whitespace, then nothing but the digits of an id that fits
/// in 32 bits.
pub open spec fn parse_anidb(s: Seq<char>) -> Option<AniDbName> {
    match tag_close(s) {
        Some(close) => {
            let start = close + 1 + leading_spaces(s.skip(close + 1));
            match decimal_u32(s.skip(start)) {
                Some(id) => Some(AniDbName { tag: Some(s.subrange(1, close)), id, name: s }),
                None => None,
            }
        },
        None => match decimal_u32(s) {
            Some(id) => Some(AniDbName { tag: None, id, name: s }),
            None => None,
        },
    }
}

/// What a directory name is: the readable scheme is tried first, then the
/// compact one.
pub open spec fn classify(s: Seq<char>) -> Option<ParsedName> {
    match parse_readable(s) {
        Some(r) => Some(ParsedName::HumanReadable(r)),
        None => match parse_anidb(s) {
            Some(a) => Some(ParsedName::AniDb(a)),
            None => None,
        },
    }
}

/// `k` is the first index at or after `from` that holds `c`.
pub proof fn lemma_index_from_is(s: Seq<char>, c: char, from: int, k: int)
    requires
        0 <= from <= k <= s.len(),
        forall|j: int| from <= j < k ==> s[j] != c,
        k < s.len() ==> s[k] == c,
    ensures
        index_from(s, c, from) == k,
    decreases k - from,
{
    if from < k {
        lemma_index_from_is(s, c, from + 1, k);
    }
}

/// `k` is where the digit run before `end` starts.
pub proof fn lemma_digit_run_is(s: Seq<char>, end: int, k: int)
    requires
        0 <= k <= end <= s.len(),
        forall|j: int| k <= j < end ==> is_digit(#[trigger] s[j]),
        k > 0 ==> !is_digit(s[k - 1]),
    ensures
        digit_run_start(s, end) == k,
    decreases end - k,
{
    if k < end {
        lemma_digit_run_is(s, end - 1, k);
    }
}

/// Finds the `]` that closes a leading series tag.
fn find_tag_close(chars: &Vec<char>) -> (r: Option<usize>)
    ensures
        match r {
            Some(close) => tag_close(chars@) == Some(close as int) && 1 < close < chars.len(),
            None => tag_close(chars@) is None,
        },
{
    if chars.len() == 0 || chars[0] != '[' {
        return None;
    }
    let close = find_char(chars, ']', 1, chars.len());
    proof {
        lemma_index_from_is(chars@, ']', 1, close as int);
    }
    if 1 < close && close < chars.len() {
        Some(close)
    } else {
        None
    }
}

/// Finds where the id suffix starts.
fn find_suffix(chars: &Vec<char>) -> (r: Option<usize>)
    ensures
        match r {
            Some(at) => suffix_start(chars@) == Some(at as int) && at + 11 <= chars.len(),
            None => suffix_start(chars@) is None,
        },
{
    let n = chars.len();
    if n == 0 || chars[n - 1] != ']' {
        return None;
    }
    let mut d: usize = n - 1;
    while d > 0 && is_digit_char(chars[d - 1])
        invariant
            d <= n - 1,
            n == chars.len(),
            forall|j: int| d <= j < n - 1 ==> is_digit(#[trigger] chars@[j]),
        decreases d,
    {
        d -= 1;
    }
    proof {
        lemma_digit_run_is(chars@, n - 1, d as int);
    }
    if d < n - 1 && d >= 9 && chars[d - 9] == '[' && chars[d - 8] == 'c' && chars[d - 7] == 'a'
        && chars[d - 6] == 't' && chars[d - 5] == 'a' && chars[d - 4] == 'l' && chars[d - 3]
        == 'o' && chars[d - 2] == 'g' && chars[d - 1] == '-' {
        assert(chars@.subrange(d - 9, d as int) =~= id_prefix());
        Some(d - 9)
    } else {
        None
    }
}

/// The value of the digit `c`.
fn digit_of(c: char) -> (d: u16)
    requires
        is_digit(c),
    ensures
        d == digit_value(c),
        d <= 9,
{
    (c as u32 - 48) as u16
}

/// Splits `chars[start..suffix]` into title part and year.
fn cut_title(chars: &Vec<char>, start: usize, suffix: usize) -> (r: Option<(usize, Option<u16>)>)
    requires
        start <= suffix <= chars.len(),
    ensures
        match r {
            Some((end, year)) => start <= end <= suffix && title_region(
                chars@,
                start as int,
                suffix as int,
            ) == Some((chars@.subrange(start as int, end as int), year)),
            None => title_region(chars@, start as int, suffix as int) is None,
        },
{
    let ghost m = chars@.subrange(start as int, suffix as int);
    let end = skip_spaces_back(chars, start, suffix);
    let mut cut = end;
    let mut year: Option<u16> = None;
    if end - start >= 6 && chars[end - 6] == '(' && is_digit_char(chars[end - 5]) && is_digit_char(
        chars[end - 4],
    ) && is_digit_char(chars[end - 3]) && is_digit_char(chars[end - 2]) && chars[end - 1] == ')' {
        let value: u16 = digit_of(chars[end - 5]) * 1000 + digit_of(chars[end - 4]) * 100
            + digit_of(chars[end - 3]) * 10 + digit_of(chars[end - 2]);
        year = Some(value);
        cut = skip_spaces_back(chars, start, end - 6);
        proof {
            let at = end - 6 - start;
            assert(m.take(at) =~= chars@.subrange(start as int, end - 6));
        }
    }
    let ghost raw = m.take(cut - start);
    let line_feed = find_char(chars, '\n', start, cut);
    if line_feed < cut {
        assert(raw[line_feed - start] == '\n');
        None
    } else {
        Some((cut, year))
    }
}

/// Splits a title part into main and alternate title.
fn split_title_chars(t: &Vec<char>) -> (r: (Vec<char>, Option<Vec<char>>))
    ensures
        r.0@ == split_titles_spec(t@).0,
        match r.1 {
            Some(alt) => split_titles_spec(t@).1 == Some(alt@),
            None => split_titles_spec(t@).1 is None,
        },
{
    let n = t.len();
    let first = find_char(t, TITLE_SEPARATOR, 0, n);
    proof {
        lemma_index_from_is(t@, TITLE_SEPARATOR, 0, first as int);
    }
    if first == n {
        assert(t@.subrange(0, n as int) =~= t@);
        return (trim_range(t, 0, n), None);
    }
    let second = find_char(t, TITLE_SEPARATOR, first + 1, n);
    proof {
        lemma_index_from_is(t@, TITLE_SEPARATOR, first + 1, second as int);
    }
    let main = trim_range(t, 0, first);
    let alt = trim_range(t, first + 1, second);
    if same_chars(&main, &alt) {
        (main, None)
    } else {
        (main, Some(alt))
    }
}

/// Splits a title part at the separator into main and alternate title.
pub fn split_titles(titles: &str) -> (r: (String, Option<String>))
    ensures
        r.0@ == split_titles_spec(titles@).0,
        opt_text(r.1) == split_titles_spec(titles@).1,
{
    let t = chars_of(titles);
    let (main, alt) = split_title_chars(&t);
    let alt_text = match alt {
        Some(a) => Some(string_of(&a)),
        None => None,
    };
    (string_of(&main), alt_text)
}

/// The readable shape of `chars`: tag bounds, title bounds, year, suffix.
struct Shape {
    tag: Option<(usize, usize)>,
    title: (usize, usize),
    year: Option<u16>,
    suffix: usize,
}

/// Finds the readable shape of a name.
fn find_shape(chars: &Vec<char>) -> (r: Option<Shape>)
    ensures
        match r {
            Some(shape) => {
                &&& suffix_start(chars@) == Some(shape.suffix as int)
                &&& shape.suffix + 11 <= chars.len()
                &&& shape.title.0 <= shape.title.1 <= shape.suffix
                &&& (shape.tag matches Some(tag) ==> 1 == tag.0 < tag.1 < chars.len())
                &&& readable_shape(chars@) == Some(
                    (
                        match shape.tag {
                            Some(tag) => Some(chars@.subrange(tag.0 as int, tag.1 as int)),
                            None => None,
                        },
                        chars@.subrange(shape.title.0 as int, shape.title.1 as int),
                        shape.year,
                    ),
                )
            },
            None => readable_shape(chars@) is None,
        },
{
    let suffix = match find_suffix(chars) {
        Some(at) => at,
        None => {
            return None;
        },
    };
    if let Some(close) = find_tag_close(chars) {
        if close + 1 <= suffix {
            let start = skip_spaces(chars, close + 1, suffix);
            if let Some((end, year)) = cut_title(chars, start, suffix) {
                return Some(Shape { tag: Some((1, close)), title: (start, end), year, suffix });
            }
        }
    }
    match cut_title(chars, 0, suffix) {
        Some((end, year)) => Some(Shape { tag: None, title: (0, end), year, suffix }),
        None => None,
    }
}

/// Reads a name in the readable scheme.
fn parse_readable_chars(name: &str, chars: &Vec<char>) -> (r: Option<HumanReadableFormat>)
    requires
        chars@ == name@,
    ensures
        match r {
            Some(f) => parse_readable(name@) == Some(f@),
            None => parse_readable(name@) is None,
        },
{
    let shape = match find_shape(chars) {
        Some(shape) => shape,
        None => {
            return None;
        },
    };
    let id = match parse_u32(chars, shape.suffix + 9, chars.len() - 1) {
        Some(id) => id,
        None => {
            return None;
        },
    };
    let title_part = trim_range(chars, shape.title.0, shape.title.1);
    let (main, alt) = split_title_chars(&title_part);
    if main.len() == 0 {
        return None;
    }
    let series_tag = match shape.tag {
        Some(tag) => Some(string_of(&slice_chars(chars, tag.0, tag.1))),
        None => None,
    };
    let title_en = match alt {
        Some(a) => Some(string_of(&a)),
        None => None,
    };
    Some(
        HumanReadableFormat {
            series_tag,
            title_jp: string_of(&main),
            title_en,
            release_year: shape.year,
            anidb_id: id,
            original_name: name.to_owned(),
        },
    )
}

/// Reads a name in the compact scheme.
fn parse_anidb_chars(name: &str, chars: &Vec<char>) -> (r: Option<AniDbFormat>)
    requires
        chars@ == name@,
    ensures
        match r {
            Some(f) => parse_anidb(name@) == Some(f@),
            None => parse_anidb(name@) is None,
        },
{
    let n = chars.len();
    match find_tag_close(chars) {
        Some(close) => {
            let start = skip_spaces(chars, close + 1, n);
            match parse_u32(chars, start, n) {
                Some(id) => Some(
                    AniDbFormat {
                        series_tag: Some(string_of(&slice_chars(chars, 1, close))),
                        anidb_id: id,
                        original_name: name.to_owned(),
                    },
                ),
                None => None,
            }
        },
        None => {
            assert(chars@.subrange(0, n as int) =~= chars@);
            match parse_u32(chars, 0, n) {
                Some(id) => Some(
                    AniDbFormat {
                        series_tag: None,
                        anidb_id: id,
                        original_name: name.to_owned(),
                    },
                ),
                None => None,
            }
        },
    }
}

/// Reads a name in the compact scheme: `[<series>] <id>` or a bare `<id>`.
pub fn try_parse_anidb(name: &str) -> (r: Option<AniDbFormat>)
    ensures
        match r {
            Some(f) => parse_anidb(name@) == Some(f@),
            None => parse_anidb(name@) is None,
        },
{
    let chars = chars_of(name);
    parse_anidb_chars(name, &chars)
}

/// Reads a name in the readable scheme:
/// `[<series>] <title> ／ <alternate title> (<year>) [catalog-<id>]`.
pub fn try_parse_human_readable(name: &str) -> (r: Option<HumanReadableFormat>)
    ensures
        match r {
            Some(f) => parse_readable(name@) == Some(f@),
            None => parse_readable(name@) is None,
        },
{
    let chars = chars_of(name);
    parse_readable_chars(name, &chars)
}

/// Classifies a directory name. The readable scheme is tried first, then the
/// compact one; a name in neither is returned in the error.
pub fn parse_directory_name(name: &str) -> (result: Result<ParsedDirectory, ParseError>)
    ensures
        match result {
            Ok(parsed) => classify(name@) == Some(parsed@),
            Err(ParseError::UnrecognizedFormat(n)) => classify(name@) is None && n@ == name@,
        },
{
    let chars = chars_of(name);
    if let Some(parsed) = parse_readable_chars(name, &chars) {
        return Ok(ParsedDirectory::HumanReadable(parsed));
    }
    if let Some(parsed) = parse_anidb_chars(name, &chars) {
        return Ok(ParsedDirectory::AniDb(parsed));
    }
    Err(ParseError::UnrecognizedFormat(name.to_owned()))
}

} // verus!
