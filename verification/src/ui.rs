//! The lines that the tool writes for its user.
//!
//! In verbose mode the log says what happens, and all but errors is left
//! out here. With colours, parts of a line are styled; without, a line is
//! plain text.

use crate::styled::{
    arrow_line, concat2, concat3, concat4, concat5, counter, counter_text, pad_left, padded_left,
    plain, put, put_arrow_line, repeat_char, repeated, spans_data, styled, Span, SpanData, Style,
};
use crate::text::{byte_len, byte_length, chars_of};
use vstd::prelude::*;

verus! {

/// The first line of the banner.
pub const HEADER_LINE_1: &'static str =
    "              _     _ _     ____   __       _     _           ";

/// The second line of the banner.
pub const HEADER_LINE_2: &'static str =
    "   __ _ _ __ (_) __| | |__  |___ \\ / _| ___ | | __| | ___ _ __ ";

/// The third line of the banner.
pub const HEADER_LINE_3: &'static str =
    "  / _` | '_ \\| |/ _` | '_ \\   __) | |_ / _ \\| |/ _` |/ _ \\ '__|";

/// The fourth line of the banner.
pub const HEADER_LINE_4: &'static str =
    " | (_| | | | | | (_| | |_) | / __/|  _| (_) | | (_| |  __/ |   ";

/// The fifth line of the banner.
pub const HEADER_LINE_5: &'static str =
    "  \\__,_|_| |_|_|\\__,_|_.__/ |_____|_|  \\___/|_|\\__,_|\\___|_|   ";

/// The banner as plain text.
pub const ASCII_HEADER_PLAIN: &'static str =
    "\n              _     _ _     ____   __       _     _\n   __ _ _ __ (_) __| | |__  |___ \\ / _| ___ | | __| | ___ _ __\n  / _` | '_ \\| |/ _` | '_ \\   __) | |_ / _ \\| |/ _` |/ _ \\ '__|\n | (_| | | | | | (_| | |_) | / __/|  _| (_) | | (_| |  __/ |\n  \\__,_|_| |_|_|\\__,_|_.__/ |_____|_|  \\___/|_|\\__,_|\\___|_|\n";

/// The width of a boxed title, in characters.
pub const BOX_WIDTH: usize = 50;

/// How the tool writes.
#[derive(Debug, Clone)]
pub struct UiConfig {
    pub colors_enabled: bool,
    pub verbose: bool,
}

impl UiConfig {
    /// Writing in verbose mode or not, with colours or not.
    pub fn new(verbose: bool, colors_enabled: bool) -> (config: UiConfig)
        ensures
            config.verbose == verbose,
            config.colors_enabled == colors_enabled,
    {
        UiConfig { colors_enabled, verbose }
    }
}

/// What the tool has written for its user and not yet handed out.
pub struct Ui {
    config: UiConfig,
    out: Vec<Span>,
}

/// The line that says the version, set to the right.
pub open spec fn version_line(version: Seq<char>) -> Seq<char> {
    padded_left("v"@ + version, 64)
}

/// What [`Ui::print_header`] writes: in verbose mode the name and the
/// version; else the banner, with colours line by line, and the version.
pub open spec fn header_lines(verbose: bool, colors: bool, version: Seq<char>) -> Seq<SpanData> {
    if verbose {
        seq![plain("anidb2folder v"@ + version + "\n"@), plain("\n"@)]
    } else if colors {
        seq![
            plain("\n"@),
            styled(Style::BrightCyanBold, HEADER_LINE_1@),
            plain("\n"@),
            styled(Style::CyanBold, HEADER_LINE_2@),
            plain("\n"@),
            styled(Style::BlueBold, HEADER_LINE_3@),
            plain("\n"@),
            styled(Style::BrightMagenta, HEADER_LINE_4@),
            plain("\n"@),
            styled(Style::Magenta, HEADER_LINE_5@),
            plain("\n"@),
            styled(Style::Dimmed, version_line(version)),
            plain("\n"@),
            plain("\n"@),
        ]
    } else {
        seq![
            plain(ASCII_HEADER_PLAIN@ + "\n"@),
            plain(version_line(version) + "\n"@),
            plain("\n"@),
        ]
    }
}

/// What [`Ui::section`] writes.
pub open spec fn section_lines(colors: bool, title: Seq<char>) -> Seq<SpanData> {
    if colors {
        seq![plain("\n"@), styled(Style::Bold, title), plain("\n"@)]
    } else {
        seq![plain("\n"@), plain(title + "\n"@)]
    }
}

/// A line in one style: with colours the text in that style, without the
/// text as it is.
pub open spec fn toned_line(colors: bool, style: Style, text: Seq<char>) -> Seq<SpanData> {
    if colors {
        seq![styled(style, text), plain("\n"@)]
    } else {
        seq![plain(text + "\n"@)]
    }
}

/// A line behind a mark: with colours the mark in bold and the text in the
/// same colour, without the plain mark and the text.
pub open spec fn marked_line(
    colors: bool,
    mark: Seq<char>,
    mark_style: Style,
    text_style: Style,
    plain_mark: Seq<char>,
    text: Seq<char>,
) -> Seq<SpanData> {
    if colors {
        seq![styled(mark_style, mark), plain(" "@), styled(text_style, text), plain("\n"@)]
    } else {
        seq![plain(plain_mark + text + "\n"@)]
    }
}

/// What [`Ui::progress`] writes.
pub open spec fn progress_line(colors: bool, current: usize, total: usize, msg: Seq<char>) -> Seq<
    SpanData,
> {
    if colors {
        seq![styled(Style::Cyan, counter_text(current, total)), plain(" "@ + msg + "\n"@)]
    } else {
        seq![plain(counter_text(current, total) + " "@ + msg + "\n"@)]
    }
}

/// What [`Ui::step`] writes: the step and three dots, without ending the
/// line.
pub open spec fn step_start(colors: bool, msg: Seq<char>) -> Seq<SpanData> {
    if colors {
        seq![styled(Style::Dimmed, msg + "... "@)]
    } else {
        seq![plain(msg + "... "@)]
    }
}

/// What [`Ui::kv`] writes.
pub open spec fn kv_line(colors: bool, key: Seq<char>, value: Seq<char>) -> Seq<SpanData> {
    if colors {
        seq![styled(Style::Bold, key), plain(": "@ + value + "\n"@)]
    } else {
        seq![plain(key + ": "@ + value + "\n"@)]
    }
}

/// What [`Ui::separator`] writes.
pub open spec fn separator_line(colors: bool) -> Seq<SpanData> {
    if colors {
        seq![styled(Style::Dimmed, repeated('─', 50)), plain("\n"@)]
    } else {
        seq![plain(repeated('-', 50) + "\n"@)]
    }
}

/// The spaces before a boxed title: half of what the title and the two
/// sides of the box leave of [`BOX_WIDTH`], counted in bytes; none where
/// they leave nothing.
pub open spec fn box_padding(title: Seq<char>) -> nat {
    if byte_len(title) + 2 <= BOX_WIDTH {
        ((BOX_WIDTH - byte_len(title) - 2) / 2) as nat
    } else {
        0
    }
}

/// The spaces behind a boxed title: what is left of [`BOX_WIDTH`].
pub open spec fn box_trailing(title: Seq<char>) -> nat {
    if byte_len(title) + 2 <= BOX_WIDTH {
        (BOX_WIDTH - box_padding(title) - byte_len(title) - 2) as nat
    } else {
        0
    }
}

/// The middle line of a boxed title.
pub open spec fn box_title_line(title: Seq<char>) -> Seq<char> {
    "║"@ + repeated(' ', box_padding(title)) + title + repeated(' ', box_trailing(title)) + "║"@
}

/// What [`Ui::boxed_title`] writes: the title in a box of double lines.
pub open spec fn boxed_lines(colors: bool, title: Seq<char>) -> Seq<SpanData> {
    let top = "╔"@ + repeated('═', 48) + "╗"@;
    let bottom = "╚"@ + repeated('═', 48) + "╝"@;
    if colors {
        seq![
            styled(Style::Cyan, top),
            plain("\n"@),
            styled(Style::CyanBold, box_title_line(title)),
            plain("\n"@),
            styled(Style::Cyan, bottom),
            plain("\n"@),
        ]
    } else {
        seq![plain(top + "\n"@), plain(box_title_line(title) + "\n"@), plain(bottom + "\n"@)]
    }
}

/// What [`Ui::list_item`] writes.
pub open spec fn item_line(colors: bool, from: Seq<char>, to: Seq<char>) -> Seq<SpanData> {
    if colors {
        seq![
            plain("  "@),
            styled(Style::Dimmed, from),
            plain(" "@),
            styled(Style::Cyan, "→"@),
            plain(" "@),
            styled(Style::Bold, to),
            plain("\n"@),
        ]
    } else {
        seq![plain("  "@ + from + " -> "@ + to + "\n"@)]
    }
}

/// What [`Ui::list_done`] writes.
pub open spec fn done_line(colors: bool, from: Seq<char>, to: Seq<char>) -> Seq<SpanData> {
    if colors {
        seq![
            plain("  "@),
            styled(Style::Green, "✓"@),
            plain(" "@),
            styled(Style::Dimmed, from),
            plain(" "@),
            styled(Style::Green, "→"@),
            plain(" "@ + to + "\n"@),
        ]
    } else {
        seq![plain("  * "@ + from + " -> "@ + to + "\n"@)]
    }
}

impl Ui {
    /// What was written and not yet handed out.
    pub closed spec fn output(&self) -> Seq<SpanData> {
        spans_data(self.out@)
    }

    /// Whether lines are styled.
    pub closed spec fn colors(&self) -> bool {
        self.config.colors_enabled
    }

    /// Whether all but errors is left out.
    pub closed spec fn verbose(&self) -> bool {
        self.config.verbose
    }

    /// What `lines` add to the output: nothing in verbose mode.
    pub open spec fn shown(&self, lines: Seq<SpanData>) -> Seq<SpanData> {
        if self.verbose() {
            Seq::empty()
        } else {
            lines
        }
    }

    /// A user interface that has written nothing.
    pub fn new(config: UiConfig) -> (ui: Ui)
        ensures
            ui.output() == Seq::<SpanData>::empty(),
            ui.colors() == config.colors_enabled,
            ui.verbose() == config.verbose,
    {
        let ui = Ui { config, out: Vec::new() };
        ui
    }

    /// Hands out what was written.
    pub fn take_output(&mut self) -> (spans: Vec<Span>)
        ensures
            spans_data(spans@) == old(self).output(),
            final(self).output() == Seq::<SpanData>::empty(),
            final(self).colors() == old(self).colors(),
            final(self).verbose() == old(self).verbose(),
    {
        let mut spans: Vec<Span> = Vec::new();
        std::mem::swap(&mut spans, &mut self.out);
        spans
    }

    /// Writes a line in one style.
    fn put_toned(&mut self, style: Style, text: &str)
        ensures
            final(self).output() == old(self).output() + toned_line(
                old(self).colors(),
                style,
                text@,
            ),
            final(self).colors() == old(self).colors(),
            final(self).verbose() == old(self).verbose(),
    {
        if self.config.colors_enabled {
            put(&mut self.out, style, text);
            put(&mut self.out, Style::Plain, "\n");
        } else {
            put(&mut self.out, Style::Plain, concat2(text, "\n").as_str());
        }
    }

    /// Writes a line behind a mark.
    fn put_marked(
        &mut self,
        mark: &str,
        mark_style: Style,
        text_style: Style,
        plain_mark: &str,
        text: &str,
    )
        ensures
            final(self).output() == old(self).output() + marked_line(
                old(self).colors(),
                mark@,
                mark_style,
                text_style,
                plain_mark@,
                text@,
            ),
            final(self).colors() == old(self).colors(),
            final(self).verbose() == old(self).verbose(),
    {
        if self.config.colors_enabled {
            put(&mut self.out, mark_style, mark);
            put(&mut self.out, Style::Plain, " ");
            put(&mut self.out, text_style, text);
            put(&mut self.out, Style::Plain, "\n");
        } else {
            put(&mut self.out, Style::Plain, concat3(plain_mark, text, "\n").as_str());
        }
    }

    /// Writes the banner and the version of the tool.
    pub fn print_header(&mut self, version: &str)
        ensures
            final(self).output() == old(self).output() + header_lines(
                old(self).verbose(),
                old(self).colors(),
                version@,
            ),
            final(self).colors() == old(self).colors(),
            final(self).verbose() == old(self).verbose(),
    {
        if self.config.verbose {
            put(&mut self.out, Style::Plain, concat3("anidb2folder v", version, "\n").as_str());
            put(&mut self.out, Style::Plain, "\n");
            return;
        }
        let version_text = pad_left(concat2("v", version).as_str(), 64);
        if self.config.colors_enabled {
            put(&mut self.out, Style::Plain, "\n");
            put(&mut self.out, Style::BrightCyanBold, HEADER_LINE_1);
            put(&mut self.out, Style::Plain, "\n");
            put(&mut self.out, Style::CyanBold, HEADER_LINE_2);
            put(&mut self.out, Style::Plain, "\n");
            put(&mut self.out, Style::BlueBold, HEADER_LINE_3);
            put(&mut self.out, Style::Plain, "\n");
            put(&mut self.out, Style::BrightMagenta, HEADER_LINE_4);
            put(&mut self.out, Style::Plain, "\n");
            put(&mut self.out, Style::Magenta, HEADER_LINE_5);
            put(&mut self.out, Style::Plain, "\n");
            put(&mut self.out, Style::Dimmed, version_text.as_str());
            put(&mut self.out, Style::Plain, "\n");
        } else {
            put(&mut self.out, Style::Plain, concat2(ASCII_HEADER_PLAIN, "\n").as_str());
            put(&mut self.out, Style::Plain, concat2(version_text.as_str(), "\n").as_str());
        }
        put(&mut self.out, Style::Plain, "\n");
    }

    /// Writes a section heading after an empty line.
    pub fn section(&mut self, title: &str)
        ensures
            final(self).output() == old(self).output() + old(self).shown(
                section_lines(old(self).colors(), title@),
            ),
            final(self).colors() == old(self).colors(),
            final(self).verbose() == old(self).verbose(),
    {
        if self.config.verbose {
            return;
        }
        put(&mut self.out, Style::Plain, "\n");
        if self.config.colors_enabled {
            put(&mut self.out, Style::Bold, title);
            put(&mut self.out, Style::Plain, "\n");
        } else {
            put(&mut self.out, Style::Plain, concat2(title, "\n").as_str());
        }
    }

    /// Writes a line of information.
    pub fn info(&mut self, msg: &str)
        ensures
            final(self).output() == old(self).output() + old(self).shown(
                toned_line(old(self).colors(), Style::Cyan, msg@),
            ),
            final(self).colors() == old(self).colors(),
            final(self).verbose() == old(self).verbose(),
    {
        if self.config.verbose {
            return;
        }
        self.put_toned(Style::Cyan, msg);
    }

    /// Writes a line that reports a success.
    pub fn success(&mut self, msg: &str)
        ensures
            final(self).output() == old(self).output() + old(self).shown(
                marked_line(
                    old(self).colors(),
                    "✓"@,
                    Style::GreenBold,
                    Style::Green,
                    "* "@,
                    msg@,
                ),
            ),
            final(self).colors() == old(self).colors(),
            final(self).verbose() == old(self).verbose(),
    {
        if self.config.verbose {
            return;
        }
        self.put_marked("✓", Style::GreenBold, Style::Green, "* ", msg);
    }

    /// Writes a line that warns.
    pub fn warning(&mut self, msg: &str)
        ensures
            final(self).output() == old(self).output() + old(self).shown(
                marked_line(
                    old(self).colors(),
                    "!"@,
                    Style::YellowBold,
                    Style::Yellow,
                    "! "@,
                    msg@,
                ),
            ),
            final(self).colors() == old(self).colors(),
            final(self).verbose() == old(self).verbose(),
    {
        if self.config.verbose {
            return;
        }
        self.put_marked("!", Style::YellowBold, Style::Yellow, "! ", msg);
    }

    /// Writes a line that reports an error. Errors are written in verbose
    /// mode too.
    pub fn error(&mut self, msg: &str)
        ensures
            final(self).output() == old(self).output() + marked_line(
                old(self).colors(),
                "✗"@,
                Style::RedBold,
                Style::Red,
                "X "@,
                msg@,
            ),
            final(self).colors() == old(self).colors(),
            final(self).verbose() == old(self).verbose(),
    {
        self.put_marked("✗", Style::RedBold, Style::Red, "X ", msg);
    }

    /// Writes a line of less weight.
    pub fn dim(&mut self, msg: &str)
        ensures
            final(self).output() == old(self).output() + old(self).shown(
                toned_line(old(self).colors(), Style::Dimmed, msg@),
            ),
            final(self).colors() == old(self).colors(),
            final(self).verbose() == old(self).verbose(),
    {
        if self.config.verbose {
            return;
        }
        self.put_toned(Style::Dimmed, msg);
    }

    /// Writes a line `[current/total] message`.
    pub fn progress(&mut self, current: usize, total: usize, msg: &str)
        ensures
            final(self).output() == old(self).output() + old(self).shown(
                progress_line(old(self).colors(), current, total, msg@),
            ),
            final(self).colors() == old(self).colors(),
            final(self).verbose() == old(self).verbose(),
    {
        if self.config.verbose {
            return;
        }
        let count = counter(current, total);
        if self.config.colors_enabled {
            put(&mut self.out, Style::Cyan, count.as_str());
            put(&mut self.out, Style::Plain, concat3(" ", msg, "\n").as_str());
        } else {
            put(&mut self.out, Style::Plain, concat4(count.as_str(), " ", msg, "\n").as_str());
        }
    }

    /// Writes a line `[current/total] from -> to`.
    pub fn rename_progress(&mut self, current: usize, total: usize, from: &str, to: &str)
        ensures
            final(self).output() == old(self).output() + old(self).shown(
                arrow_line(old(self).colors(), current, total, from@, to@),
            ),
            final(self).colors() == old(self).colors(),
            final(self).verbose() == old(self).verbose(),
    {
        if self.config.verbose {
            return;
        }
        put_arrow_line(&mut self.out, self.config.colors_enabled, current, total, from, to);
    }

    /// Writes the start of a step, without ending the line.
    pub fn step(&mut self, msg: &str)
        ensures
            final(self).output() == old(self).output() + old(self).shown(
                step_start(old(self).colors(), msg@),
            ),
            final(self).colors() == old(self).colors(),
            final(self).verbose() == old(self).verbose(),
    {
        if self.config.verbose {
            return;
        }
        let text = concat2(msg, "... ");
        if self.config.colors_enabled {
            put(&mut self.out, Style::Dimmed, text.as_str());
        } else {
            put(&mut self.out, Style::Plain, text.as_str());
        }
    }

    /// Ends the line of a step.
    pub fn step_done(&mut self)
        ensures
            final(self).output() == old(self).output() + old(self).shown(
                toned_line(old(self).colors(), Style::Green, "done"@),
            ),
            final(self).colors() == old(self).colors(),
            final(self).verbose() == old(self).verbose(),
    {
        if self.config.verbose {
            return;
        }
        self.put_toned(Style::Green, "done");
    }

    /// Writes a line `key: value`.
    pub fn kv(&mut self, key: &str, value: &str)
        ensures
            final(self).output() == old(self).output() + old(self).shown(
                kv_line(old(self).colors(), key@, value@),
            ),
            final(self).colors() == old(self).colors(),
            final(self).verbose() == old(self).verbose(),
    {
        if self.config.verbose {
            return;
        }
        if self.config.colors_enabled {
            put(&mut self.out, Style::Bold, key);
            put(&mut self.out, Style::Plain, concat3(": ", value, "\n").as_str());
        } else {
            put(&mut self.out, Style::Plain, concat4(key, ": ", value, "\n").as_str());
        }
    }

    /// Writes an empty line.
    pub fn blank(&mut self)
        ensures
            final(self).output() == old(self).output() + old(self).shown(seq![plain("\n"@)]),
            final(self).colors() == old(self).colors(),
            final(self).verbose() == old(self).verbose(),
    {
        if self.config.verbose {
            return;
        }
        put(&mut self.out, Style::Plain, "\n");
    }

    /// Writes a line of fifty dashes.
    pub fn separator(&mut self)
        ensures
            final(self).output() == old(self).output() + old(self).shown(
                separator_line(old(self).colors()),
            ),
            final(self).colors() == old(self).colors(),
            final(self).verbose() == old(self).verbose(),
    {
        if self.config.verbose {
            return;
        }
        if self.config.colors_enabled {
            put(&mut self.out, Style::Dimmed, repeat_char('─', 50).as_str());
            put(&mut self.out, Style::Plain, "\n");
        } else {
            put(&mut self.out, Style::Plain, concat2(repeat_char('-', 50).as_str(), "\n").as_str());
        }
    }

    /// Writes a title in a box. A title that is too long for the box is
    /// written without spaces around it.
    pub fn boxed_title(&mut self, title: &str)
        ensures
            final(self).output() == old(self).output() + old(self).shown(
                boxed_lines(old(self).colors(), title@),
            ),
            final(self).colors() == old(self).colors(),
            final(self).verbose() == old(self).verbose(),
    {
        if self.config.verbose {
            return;
        }
        let length = byte_length(&chars_of(title));
        let mut padding: usize = 0;
        let mut trailing: usize = 0;
        if length + 2 <= BOX_WIDTH as u128 {
            let inner: usize = BOX_WIDTH - 2 - length as usize;
            padding = inner / 2;
            trailing = inner - padding;
        }
        let title_line = concat5(
            "║",
            repeat_char(' ', padding).as_str(),
            title,
            repeat_char(' ', trailing).as_str(),
            "║",
        );
        let top = concat3("╔", repeat_char('═', 48).as_str(), "╗");
        let bottom = concat3("╚", repeat_char('═', 48).as_str(), "╝");
        if self.config.colors_enabled {
            put(&mut self.out, Style::Cyan, top.as_str());
            put(&mut self.out, Style::Plain, "\n");
            put(&mut self.out, Style::CyanBold, title_line.as_str());
            put(&mut self.out, Style::Plain, "\n");
            put(&mut self.out, Style::Cyan, bottom.as_str());
            put(&mut self.out, Style::Plain, "\n");
        } else {
            put(&mut self.out, Style::Plain, concat2(top.as_str(), "\n").as_str());
            put(&mut self.out, Style::Plain, concat2(title_line.as_str(), "\n").as_str());
            put(&mut self.out, Style::Plain, concat2(bottom.as_str(), "\n").as_str());
        }
    }

    /// Writes a line `  from -> to`.
    pub fn list_item(&mut self, from: &str, to: &str)
        ensures
            final(self).output() == old(self).output() + old(self).shown(
                item_line(old(self).colors(), from@, to@),
            ),
            final(self).colors() == old(self).colors(),
            final(self).verbose() == old(self).verbose(),
    {
        if self.config.verbose {
            return;
        }
        if self.config.colors_enabled {
            put(&mut self.out, Style::Plain, "  ");
            put(&mut self.out, Style::Dimmed, from);
            put(&mut self.out, Style::Plain, " ");
            put(&mut self.out, Style::Cyan, "→");
            put(&mut self.out, Style::Plain, " ");
            put(&mut self.out, Style::Bold, to);
            put(&mut self.out, Style::Plain, "\n");
        } else {
            put(&mut self.out, Style::Plain, concat5("  ", from, " -> ", to, "\n").as_str());
        }
    }

    /// Writes a line `  * from -> to`.
    pub fn list_done(&mut self, from: &str, to: &str)
        ensures
            final(self).output() == old(self).output() + old(self).shown(
                done_line(old(self).colors(), from@, to@),
            ),
            final(self).colors() == old(self).colors(),
            final(self).verbose() == old(self).verbose(),
    {
        if self.config.verbose {
            return;
        }
        if self.config.colors_enabled {
            put(&mut self.out, Style::Plain, "  ");
            put(&mut self.out, Style::Green, "✓");
            put(&mut self.out, Style::Plain, " ");
            put(&mut self.out, Style::Dimmed, from);
            put(&mut self.out, Style::Plain, " ");
            put(&mut self.out, Style::Green, "→");
            put(&mut self.out, Style::Plain, concat3(" ", to, "\n").as_str());
        } else {
            put(&mut self.out, Style::Plain, concat5("  * ", from, " -> ", to, "\n").as_str());
        }
    }

    /// Whether all but errors is left out.
    pub fn is_verbose(&self) -> (r: bool)
        ensures
            r == self.verbose(),
    {
        self.config.verbose
    }

    /// Whether lines are styled.
    pub fn is_colors_enabled(&self) -> (r: bool)
        ensures
            r == self.colors(),
    {
        self.config.colors_enabled
    }
}

} // verus!
