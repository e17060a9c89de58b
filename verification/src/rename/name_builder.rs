//! Builds directory names from a series tag and metadata.
//!
//! A readable name is `[<series>] <title> ／ <alternate title> (<year>)
//! [catalog-<id>]`, made safe for a filesystem and kept within a byte limit.
//! What is built is stated by [`readable_name`] and [`anidb_name`].

use crate::api::{AnimeData, AnimeInfo};
use crate::parser::{id_prefix, TITLE_SEPARATOR};
use crate::text::{
    byte_len, byte_length, chars_of, contains_chars, contains_text, decimal_digits, extend_chars,
    fit_prefix, format_u32, prefix_within, same_chars, slice_chars, string_of,
};
use vstd::prelude::*;

verus! {

/// Limits for name building.
#[derive(Debug, Clone)]
pub struct NameBuilderConfig {
    /// The most bytes that a name may take.
    pub max_length: usize,
}

impl Default for NameBuilderConfig {
    /// A limit of 255 bytes.
    fn default() -> (config: NameBuilderConfig)
        ensures
            config.max_length == 255,
    {
        NameBuilderConfig { max_length: 255 }
    }
}

/// A built name, and whether it had to be shortened.
#[derive(Debug, Clone)]
pub struct NameBuildResult {
    pub name: String,
    pub truncated: bool,
}

/// The text of an optional string slice.
pub open spec fn opt_str(o: Option<&str>) -> Option<Seq<char>> {
    match o {
        Some(s) => Some(s@),
        None => None,
    }
}

/// A control character: these are dropped from names.
pub open spec fn is_control(c: char) -> bool {
    c as u32 <= 0x1F || c as u32 == 0x7F
}

/// What a character becomes in a name: a character that filesystems refuse
/// becomes its full-width look-alike, a backtick becomes an apostrophe, and
/// every other character stays.
pub open spec fn replacement(c: char) -> char {
    if c == '/' {
        '\u{FF0F}'
    } else if c == '\\' {
        '\u{FF3C}'
    } else if c == ':' {
        '\u{FF1A}'
    } else if c == '*' {
        '\u{FF0A}'
    } else if c == '?' {
        '\u{FF1F}'
    } else if c == '"' {
        '\u{FF02}'
    } else if c == '<' {
        '\u{FF1C}'
    } else if c == '>' {
        '\u{FF1E}'
    } else if c == '|' {
        '\u{FF5C}'
    } else if c == '`' {
        '\''
    } else {
        c
    }
}

/// `s` made safe, but for a space that may be left at the end: control
/// characters are dropped, a space at the start or after a space is dropped,
/// and every other character is replaced by [`replacement`].
pub open spec fn sanitized_body(s: Seq<char>) -> Seq<char>
    decreases s.len(),
{
    if s.len() == 0 {
        Seq::empty()
    } else {
        let before = sanitized_body(s.drop_last());
        let c = s.last();
        if is_control(c) {
            before
        } else if c == ' ' {
            if before.len() == 0 || before.last() == ' ' {
                before
            } else {
                before.push(' ')
            }
        } else {
            before.push(replacement(c))
        }
    }
}

/// `s` made safe for a filesystem: [`sanitized_body`] without the space at
/// its end.
pub open spec fn sanitized(s: Seq<char>) -> Seq<char> {
    let body = sanitized_body(s);
    if body.len() > 0 && body.last() == ' ' {
        body.drop_last()
    } else {
        body
    }
}

/// The title part: the main title alone, unless an alternate title is there,
/// is not empty, differs from the main title and does not stand in it; then
/// both, with the separator between spaces.
pub open spec fn title_part(main: Seq<char>, alt: Option<Seq<char>>) -> Seq<char> {
    match alt {
        Some(a) => if a.len() > 0 && a != main && !contains_text(main, a) {
            main + seq![' ', TITLE_SEPARATOR, ' '] + a
        } else {
            main
        },
        None => main,
    }
}

/// `[<tag>] ` for a tag, nothing for none.
pub open spec fn tag_prefix(tag: Option<Seq<char>>) -> Seq<char> {
    match tag {
        Some(t) => seq!['['] + t + seq![']', ' '],
        None => Seq::empty(),
    }
}

/// ` (<year>)` for a year, nothing for none.
pub open spec fn year_tail(year: Option<u16>) -> Seq<char> {
    match year {
        Some(y) => seq![' ', '('] + decimal_digits(y as nat) + seq![')'],
        None => Seq::empty(),
    }
}

/// `[catalog-<id>]`.
pub open spec fn id_suffix(id: u32) -> Seq<char> {
    id_prefix() + decimal_digits(id as nat) + seq![']']
}

/// Whether the year is written out: there is one, and its digits stand in
/// neither title.
pub open spec fn year_shown(info: AnimeData) -> bool {
    match info.year {
        Some(y) => {
            let digits = decimal_digits(y as nat);
            !contains_text(info.title, digits) && !(match info.alt_title {
                Some(a) => contains_text(a, digits),
                None => false,
            })
        },
        None => false,
    }
}

/// The full name before it is made safe: tag, title part, year and id
/// suffix, with one space between them.
pub open spec fn raw_name(tag: Option<Seq<char>>, info: AnimeData) -> Seq<char> {
    tag_prefix(tag) + title_part(info.title, info.alt_title) + (if year_shown(info) {
        year_tail(info.year)
    } else {
        Seq::empty()
    }) + seq![' '] + id_suffix(info.id)
}

/// The marker that stands for what was cut off.
pub open spec fn ellipsis() -> Seq<char> {
    seq!['.', '.', '.']
}

/// The bytes that a shortened name spends on everything but the title: tag
/// prefix, year, the space before the suffix, and the suffix.
pub open spec fn fixed_width(tag: Option<Seq<char>>, info: AnimeData) -> nat {
    byte_len(tag_prefix(tag)) + byte_len(year_tail(info.year)) + 1 + byte_len(id_suffix(info.id))
}

/// A title cut to `available` bytes: the title itself where it fits, else
/// its longest prefix that leaves three bytes for the ellipsis, and the
/// ellipsis.
pub open spec fn shortened_title(title: Seq<char>, available: nat) -> Seq<char> {
    if byte_len(title) > available {
        let room: nat = if available >= 3 {
            (available - 3) as nat
        } else {
            0
        };
        title.take(prefix_within(title, room) as int) + ellipsis()
    } else {
        title
    }
}

/// The shortened form of a name. The alternate title is dropped. Where the
/// fixed parts leave room, the safe main title is cut to that room; where
/// they leave none, the name is the first three characters of the main
/// title, the ellipsis and the id suffix.
pub open spec fn truncated_name(tag: Option<Seq<char>>, info: AnimeData, max_length: nat) -> Seq<
    char,
> {
    let fixed = fixed_width(tag, info);
    if fixed >= max_length {
        let head = if info.title.len() < 3 {
            info.title
        } else {
            info.title.take(3)
        };
        head + ellipsis() + seq![' '] + id_suffix(info.id)
    } else {
        tag_prefix(tag) + shortened_title(sanitized(info.title), (max_length - fixed) as nat)
            + year_tail(info.year) + seq![' '] + id_suffix(info.id)
    }
}

/// The readable name for a tag and metadata under a byte limit, and whether
/// it was shortened: the safe full name where it fits, else the shortened
/// form.
pub open spec fn readable_name(tag: Option<Seq<char>>, info: AnimeData, max_length: nat) -> (
    Seq<char>,
    bool,
) {
    let full = sanitized(raw_name(tag, info));
    if byte_len(full) > max_length {
        (truncated_name(tag, info, max_length), true)
    } else {
        (full, false)
    }
}

/// The compact name: `[<tag>] <id>`, or the bare id without a tag.
pub open spec fn anidb_name(tag: Option<Seq<char>>, id: u32) -> Seq<char> {
    tag_prefix(tag) + decimal_digits(id as nat)
}

/// Executable form of [`is_control`].
fn is_control_char(c: char) -> (r: bool)
    ensures
        r == is_control(c),
{
    let v: u32 = c as u32;
    v <= 0x1F || v == 0x7F
}

/// Executable form of [`replacement`].
fn replace_char(c: char) -> (r: char)
    ensures
        r == replacement(c),
        r != ' ' || c == ' ',
{
    if c == '/' {
        '\u{FF0F}'
    } else if c == '\\' {
        '\u{FF3C}'
    } else if c == ':' {
        '\u{FF1A}'
    } else if c == '*' {
        '\u{FF0A}'
    } else if c == '?' {
        '\u{FF1F}'
    } else if c == '"' {
        '\u{FF02}'
    } else if c == '<' {
        '\u{FF1C}'
    } else if c == '>' {
        '\u{FF1E}'
    } else if c == '|' {
        '\u{FF5C}'
    } else if c == '`' {
        '\''
    } else {
        c
    }
}

/// Makes text safe for a filesystem.
fn sanitize_chars(name: &Vec<char>) -> (out: Vec<char>)
    ensures
        out@ == sanitized(name@),
{
    let mut out: Vec<char> = Vec::new();
    let mut i: usize = 0;
    while i < name.len()
        invariant
            i <= name.len(),
            out@ == sanitized_body(name@.take(i as int)),
        decreases name.len() - i,
    {
        let c = name[i];
        proof {
            let t = name@.take(i + 1);
            assert(t.drop_last() =~= name@.take(i as int));
        }
        if c == ' ' {
            if out.len() > 0 && out[out.len() - 1] != ' ' {
                out.push(' ');
            }
        } else if !is_control_char(c) {
            out.push(replace_char(c));
        }
        i += 1;
    }
    assert(name@.take(name.len() as int) =~= name@);
    if out.len() > 0 && out[out.len() - 1] == ' ' {
        out.pop();
    }
    out
}

/// Replaces each character that filesystems refuse with its full-width
/// look-alike, drops control characters, and leaves single spaces only
/// between other characters.
pub fn sanitize_filename(name: &str) -> (out: String)
    ensures
        out@ == sanitized(name@),
{
    let chars = chars_of(name);
    string_of(&sanitize_chars(&chars))
}

/// The characters of an optional string slice.
fn opt_chars(o: Option<&str>) -> (out: Option<Vec<char>>)
    ensures
        match out {
            Some(v) => opt_str(o) == Some(v@),
            None => opt_str(o) is None,
        },
{
    match o {
        Some(s) => Some(chars_of(s)),
        None => None,
    }
}

/// The view of optional characters.
pub open spec fn opt_view(o: Option<Vec<char>>) -> Option<Seq<char>> {
    match o {
        Some(v) => Some(v@),
        None => None,
    }
}

/// Builds the title part.
fn title_part_chars(main: &Vec<char>, alt: &Option<Vec<char>>) -> (out: Vec<char>)
    ensures
        out@ == title_part(main@, opt_view(*alt)),
{
    let mut out: Vec<char> = Vec::new();
    extend_chars(&mut out, main);
    if let Some(a) = alt {
        if a.len() > 0 && !same_chars(a, main) && !contains_chars(main, a) {
            out.push(' ');
            out.push(TITLE_SEPARATOR);
            out.push(' ');
            extend_chars(&mut out, a);
        }
    }
    out
}

/// The title part of a name: the main title, and the alternate title after
/// the separator where it adds something.
pub fn build_title_part(title_main: &str, title_en: Option<&str>) -> (out: String)
    ensures
        out@ == title_part(title_main@, opt_str(title_en)),
{
    let main = chars_of(title_main);
    let alt = opt_chars(title_en);
    string_of(&title_part_chars(&main, &alt))
}

/// Builds `[<tag>] `.
fn tag_prefix_chars(tag: &Option<Vec<char>>) -> (out: Vec<char>)
    ensures
        out@ == tag_prefix(opt_view(*tag)),
{
    let mut out: Vec<char> = Vec::new();
    if let Some(t) = tag {
        out.push('[');
        extend_chars(&mut out, t);
        out.push(']');
        out.push(' ');
    }
    out
}

/// Builds ` (<year>)`.
fn year_tail_chars(year: Option<u16>) -> (out: Vec<char>)
    ensures
        out@ == year_tail(year),
{
    let mut out: Vec<char> = Vec::new();
    if let Some(y) = year {
        out.push(' ');
        out.push('(');
        extend_chars(&mut out, &format_u32(y as u32));
        out.push(')');
    }
    out
}

/// Builds `[catalog-<id>]`.
fn id_suffix_chars(id: u32) -> (out: Vec<char>)
    ensures
        out@ == id_suffix(id),
{
    let mut out: Vec<char> = Vec::new();
    out.push('[');
    out.push('c');
    out.push('a');
    out.push('t');
    out.push('a');
    out.push('l');
    out.push('o');
    out.push('g');
    out.push('-');
    extend_chars(&mut out, &format_u32(id));
    out.push(']');
    out
}

/// Whether the year is written out.
fn year_is_shown(main: &Vec<char>, alt: &Option<Vec<char>>, year: Option<u16>) -> (r: bool)
    ensures
        r == year_shown(AnimeData { id: 0, title: main@, alt_title: opt_view(*alt), year }),
{
    match year {
        Some(y) => {
            let digits = format_u32(y as u32);
            if contains_chars(main, &digits) {
                false
            } else {
                match alt {
                    Some(a) => !contains_chars(a, &digits),
                    None => true,
                }
            }
        },
        None => false,
    }
}

/// Builds the shortened form of a name.
fn truncate_chars(
    tag: &Option<Vec<char>>,
    main: &Vec<char>,
    year: Option<u16>,
    id: u32,
    max_length: usize,
    Ghost(alt): Ghost<Option<Seq<char>>>,
) -> (out: Vec<char>)
    ensures
        out@ == truncated_name(
            opt_view(*tag),
            AnimeData { id, title: main@, alt_title: alt, year },
            max_length as nat,
        ),
{
    let suffix = id_suffix_chars(id);
    let prefix = tag_prefix_chars(tag);
    let year_part = year_tail_chars(year);
    let fixed: u128 = byte_length(&prefix) + byte_length(&year_part) + 1 + byte_length(&suffix);
    let mut out: Vec<char> = Vec::new();
    if fixed >= max_length as u128 {
        let head_len: usize = if main.len() < 3 {
            main.len()
        } else {
            3
        };
        let head = slice_chars(main, 0, head_len);
        extend_chars(&mut out, &head);
        out.push('.');
        out.push('.');
        out.push('.');
        out.push(' ');
        extend_chars(&mut out, &suffix);
        return out;
    }
    let available: u128 = max_length as u128 - fixed;
    let title = sanitize_chars(main);
    let mut short: Vec<char> = Vec::new();
    if byte_length(&title) > available {
        let room: u128 = if available >= 3 {
            available - 3
        } else {
            0
        };
        let keep = fit_prefix(&title, room);
        extend_chars(&mut short, &slice_chars(&title, 0, keep));
        short.push('.');
        short.push('.');
        short.push('.');
    } else {
        extend_chars(&mut short, &title);
    }
    extend_chars(&mut out, &prefix);
    extend_chars(&mut out, &short);
    extend_chars(&mut out, &year_part);
    out.push(' ');
    extend_chars(&mut out, &suffix);
    out
}

/// Shortens a name to fit `max_length` bytes while keeping tag, year and id:
/// see [`truncated_name`].
pub fn truncate_name(series_tag: Option<&str>, info: &AnimeInfo, max_length: usize) -> (out: String)
    ensures
        out@ == truncated_name(opt_str(series_tag), info@, max_length as nat),
{
    let tag = opt_chars(series_tag);
    let main = chars_of(info.title_main.as_str());
    let out = truncate_chars(
        &tag,
        &main,
        info.release_year,
        info.anidb_id,
        max_length,
        Ghost(info@.alt_title),
    );
    string_of(&out)
}

/// Builds the readable name for a directory: see [`readable_name`].
///
/// The name is the safe full name where that takes at most
/// `config.max_length` bytes, and the shortened form else; `truncated` says
/// which.
pub fn build_human_readable_name(
    series_tag: Option<&str>,
    info: &AnimeInfo,
    config: &NameBuilderConfig,
) -> (result: NameBuildResult)
    ensures
        (result.name@, result.truncated) == readable_name(
            opt_str(series_tag),
            info@,
            config.max_length as nat,
        ),
{
    let tag = opt_chars(series_tag);
    let main = chars_of(info.title_main.as_str());
    let alt = match &info.title_en {
        Some(a) => Some(chars_of(a.as_str())),
        None => None,
    };
    let mut raw: Vec<char> = Vec::new();
    extend_chars(&mut raw, &tag_prefix_chars(&tag));
    extend_chars(&mut raw, &title_part_chars(&main, &alt));
    if year_is_shown(&main, &alt, info.release_year) {
        extend_chars(&mut raw, &year_tail_chars(info.release_year));
    }
    raw.push(' ');
    extend_chars(&mut raw, &id_suffix_chars(info.anidb_id));
    proof {
        assert(raw@ =~= raw_name(opt_str(series_tag), info@));
    }
    let full = sanitize_chars(&raw);
    if byte_length(&full) > config.max_length as u128 {
        let short = truncate_chars(
            &tag,
            &main,
            info.release_year,
            info.anidb_id,
            config.max_length,
            Ghost(info@.alt_title),
        );
        NameBuildResult { name: string_of(&short), truncated: true }
    } else {
        NameBuildResult { name: string_of(&full), truncated: false }
    }
}

/// Builds the compact name for a directory: `[<tag>] <id>`, or the bare id.
pub fn build_anidb_name(series_tag: Option<&str>, anidb_id: u32) -> (out: String)
    ensures
        out@ == anidb_name(opt_str(series_tag), anidb_id),
{
    let tag = opt_chars(series_tag);
    let mut out: Vec<char> = Vec::new();
    extend_chars(&mut out, &tag_prefix_chars(&tag));
    extend_chars(&mut out, &format_u32(anidb_id));
    string_of(&out)
}

} // verus!
