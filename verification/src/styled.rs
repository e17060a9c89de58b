//! Styled text: what is written to the terminal, and in which style. The
//! library decides what is written; the caller renders it.

use crate::text::{chars_of, extend_chars, extend_str, string_of};
use vstd::prelude::*;

verus! {

/// How a piece of text looks on a terminal that shows colours.
#[derive(Debug, Clone, Copy, PartialEq, Eq, Structural)]
pub enum Style {
    Plain,
    Bold,
    Dimmed,
    Cyan,
    CyanBold,
    BrightCyanBold,
    BlueBold,
    Magenta,
    BrightMagenta,
    Green,
    GreenBold,
    Yellow,
    YellowBold,
    Red,
    RedBold,
}

/// A piece of text in one style.
#[derive(Debug, Clone, PartialEq, Eq)]
pub struct Span {
    pub text: String,
    pub style: Style,
}

/// Mathematical content of a [`Span`].
pub struct SpanData {
    pub text: Seq<char>,
    pub style: Style,
}

impl View for Span {
    type V = SpanData;

    open spec fn view(&self) -> SpanData {
        SpanData { text: self.text@, style: self.style }
    }
}

/// The content of the given spans, in order.
pub open spec fn spans_data(spans: Seq<Span>) -> Seq<SpanData> {
    Seq::new(spans.len(), |i: int| spans[i]@)
}

/// A piece of text in a style.
pub open spec fn styled(style: Style, text: Seq<char>) -> SpanData {
    SpanData { text, style }
}

/// A piece of plain text.
pub open spec fn plain(text: Seq<char>) -> SpanData {
    SpanData { text, style: Style::Plain }
}

/// The text of the given spans without their styles.
pub open spec fn plain_text(spans: Seq<SpanData>) -> Seq<char>
    decreases spans.len(),
{
    if spans.len() == 0 {
        Seq::empty()
    } else {
        plain_text(spans.drop_last()) + spans.last().text
    }
}

/// Appends a span.
pub fn put(out: &mut Vec<Span>, style: Style, text: &str)
    ensures
        spans_data(final(out)@) == spans_data(old(out)@).push(styled(style, text@)),
{
    out.push(Span { text: text.to_owned(), style });
}

/// The text of the given spans without their styles.
pub fn text_of(spans: &Vec<Span>) -> (out: String)
    ensures
        out@ == plain_text(spans_data(spans@)),
{
    let ghost all = spans_data(spans@);
    let mut buf: Vec<char> = Vec::new();
    let mut i: usize = 0;
    while i < spans.len()
        invariant
            i <= spans.len(),
            all == spans_data(spans@),
            buf@ == plain_text(all.take(i as int)),
        decreases spans.len() - i,
    {
        proof {
            let t = all.take(i + 1);
            assert(t.drop_last() =~= all.take(i as int));
        }
        extend_str(&mut buf, spans[i].text.as_str());
        i += 1;
    }
    assert(all.take(spans.len() as int) =~= all);
    string_of(&buf)
}

/// `count` times the character `c`.
pub open spec fn repeated(c: char, count: nat) -> Seq<char> {
    Seq::new(count, |i: int| c)
}

/// `count` times the character `c`.
pub fn repeat_char(c: char, count: usize) -> (out: String)
    ensures
        out@ == repeated(c, count as nat),
{
    let mut buf: Vec<char> = Vec::new();
    let mut i: usize = 0;
    while i < count
        invariant
            i <= count,
            buf@ == repeated(c, i as nat),
        decreases count - i,
    {
        buf.push(c);
        i += 1;
    }
    string_of(&buf)
}

/// Two texts, one after the other.
pub fn concat2(a: &str, b: &str) -> (out: String)
    ensures
        out@ == a@ + b@,
{
    let mut buf = chars_of(a);
    extend_str(&mut buf, b);
    string_of(&buf)
}

/// Three texts, one after the other.
pub fn concat3(a: &str, b: &str, c: &str) -> (out: String)
    ensures
        out@ == a@ + b@ + c@,
{
    let mut buf = chars_of(a);
    extend_str(&mut buf, b);
    extend_str(&mut buf, c);
    string_of(&buf)
}

/// Four texts, one after the other.
pub fn concat4(a: &str, b: &str, c: &str, d: &str) -> (out: String)
    ensures
        out@ == a@ + b@ + c@ + d@,
{
    let mut buf = chars_of(a);
    extend_str(&mut buf, b);
    extend_str(&mut buf, c);
    extend_str(&mut buf, d);
    string_of(&buf)
}

/// Five texts, one after the other.
pub fn concat5(a: &str, b: &str, c: &str, d: &str, e: &str) -> (out: String)
    ensures
        out@ == a@ + b@ + c@ + d@ + e@,
{
    let mut buf = chars_of(a);
    extend_str(&mut buf, b);
    extend_str(&mut buf, c);
    extend_str(&mut buf, d);
    extend_str(&mut buf, e);
    string_of(&buf)
}

/// The text `[current/total]`.
pub open spec fn counter_text(current: usize, total: usize) -> Seq<char> {
    "["@ + crate::text::decimal_digits(current as nat) + "/"@ + crate::text::decimal_digits(
        total as nat,
    ) + "]"@
}

/// The text `[current/total]`.
pub fn counter(current: usize, total: usize) -> (out: String)
    ensures
        out@ == counter_text(current, total),
{
    let mut buf = chars_of("[");
    extend_chars(&mut buf, &crate::text::format_usize(current));
    extend_str(&mut buf, "/");
    extend_chars(&mut buf, &crate::text::format_usize(total));
    extend_str(&mut buf, "]");
    string_of(&buf)
}

/// The text `[current/total] from -> to` and the end of the line.
pub open spec fn arrow_text(current: usize, total: usize, from: Seq<char>, to: Seq<char>) -> Seq<
    char,
> {
    counter_text(current, total) + " "@ + from + " -> "@ + to + "\n"@
}

/// The line `[current/total] from -> to`: one plain span without colours;
/// with colours the counter and the arrow in cyan and the old name dimmed.
pub open spec fn arrow_line(
    colors: bool,
    current: usize,
    total: usize,
    from: Seq<char>,
    to: Seq<char>,
) -> Seq<SpanData> {
    if colors {
        seq![
            styled(Style::Cyan, counter_text(current, total)),
            plain(" "@),
            styled(Style::Dimmed, from),
            plain(" "@),
            styled(Style::Cyan, "→"@),
            plain(" "@ + to + "\n"@),
        ]
    } else {
        seq![plain(arrow_text(current, total, from, to))]
    }
}

/// Appends the line `[current/total] from -> to`.
pub fn put_arrow_line(
    out: &mut Vec<Span>,
    colors: bool,
    current: usize,
    total: usize,
    from: &str,
    to: &str,
)
    ensures
        spans_data(final(out)@) == spans_data(old(out)@) + arrow_line(
            colors,
            current,
            total,
            from@,
            to@,
        ),
{
    let count = counter(current, total);
    if colors {
        put(out, Style::Cyan, count.as_str());
        put(out, Style::Plain, " ");
        put(out, Style::Dimmed, from);
        put(out, Style::Plain, " ");
        put(out, Style::Cyan, "→");
        put(out, Style::Plain, concat3(" ", to, "\n").as_str());
    } else {
        let head = concat3(count.as_str(), " ", from);
        put(out, Style::Plain, concat4(head.as_str(), " -> ", to, "\n").as_str());
    }
}

/// `text` with spaces before it, so that it is `width` characters long;
/// `text` itself where it is that long or longer.
pub open spec fn padded_left(text: Seq<char>, width: nat) -> Seq<char> {
    if text.len() >= width {
        text
    } else {
        repeated(' ', (width - text.len()) as nat) + text
    }
}

/// `text` with spaces before it, so that it is `width` characters long.
pub fn pad_left(text: &str, width: usize) -> (out: String)
    ensures
        out@ == padded_left(text@, width as nat),
{
    let chars = chars_of(text);
    if chars.len() >= width {
        text.to_owned()
    } else {
        concat2(repeat_char(' ', width - chars.len()).as_str(), text)
    }
}

} // verus!
