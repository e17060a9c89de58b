//! Progress reports for the user while a batch is renamed or reverted.
//!
//! A silent reporter writes nothing: in verbose mode the log says what
//! happens.

use crate::styled::{
    arrow_line, concat2, concat3, plain, put, put_arrow_line, spans_data, styled, Span, SpanData,
    Style,
};
use crate::text::{decimal_digits, format_u32, format_usize, string_of};
use vstd::prelude::*;

verus! {

/// What was reported to the user and not yet handed out.
pub struct Progress {
    silent: bool,
    colors_enabled: bool,
    out: Vec<Span>,
}

/// The text that reports the start of a fetch.
pub open spec fn fetch_text(anidb_id: u32) -> Seq<char> {
    "Fetching metadata for "@ + decimal_digits(anidb_id as nat) + "..."@
}

/// What [`Progress::fetch_start`] writes, without ending the line.
pub open spec fn fetch_start_spans(colors: bool, anidb_id: u32) -> Seq<SpanData> {
    if colors {
        seq![styled(Style::Dimmed, fetch_text(anidb_id))]
    } else {
        seq![plain(fetch_text(anidb_id))]
    }
}

/// What [`Progress::fetch_complete`] writes.
pub open spec fn fetch_complete_spans(colors: bool) -> Seq<SpanData> {
    if colors {
        seq![plain(" "@), styled(Style::Green, "done"@), plain("\n"@)]
    } else {
        seq![plain(" done\n"@)]
    }
}

/// What [`Progress::warn`] writes.
pub open spec fn warn_spans(colors: bool, message: Seq<char>) -> Seq<SpanData> {
    if colors {
        seq![
            styled(Style::YellowBold, "!"@),
            plain(" "@),
            styled(Style::Yellow, message),
            plain("\n"@),
        ]
    } else {
        seq![plain("Warning: "@ + message + "\n"@)]
    }
}

/// What [`Progress::history_written`] writes.
pub open spec fn history_written_spans(colors: bool, path: Seq<char>) -> Seq<SpanData> {
    if colors {
        seq![styled(Style::Dimmed, "History saved to: "@ + path), plain("\n"@)]
    } else {
        seq![plain("History saved to: "@ + path + "\n"@)]
    }
}

/// The text that reports the start of a revert.
pub open spec fn revert_start_text(total: usize, from_timestamp: Seq<char>) -> Seq<char> {
    "Reverting "@ + decimal_digits(total as nat) + " directories from history ("@ + from_timestamp
        + ")"@
}

/// What [`Progress::revert_start`] writes.
pub open spec fn revert_start_spans(colors: bool, total: usize, from_timestamp: Seq<char>) -> Seq<
    SpanData,
> {
    if colors {
        seq![
            plain("\n"@),
            styled(Style::Bold, revert_start_text(total, from_timestamp)),
            plain("\n"@),
        ]
    } else {
        seq![plain("\n"@), plain(revert_start_text(total, from_timestamp) + "\n"@)]
    }
}

/// What [`Progress::revert_complete`] writes.
pub open spec fn revert_complete_spans(colors: bool, count: usize, dry_run: bool) -> Seq<SpanData> {
    let number = decimal_digits(count as nat);
    if dry_run {
        let text = "Dry run complete. "@ + number + " directories would be reverted."@;
        if colors {
            seq![plain("\n"@), styled(Style::Dimmed, text), plain("\n"@)]
        } else {
            seq![plain("\n"@), plain(text + "\n"@)]
        }
    } else if colors {
        seq![
            plain("\n"@),
            styled(Style::GreenBold, "✓"@),
            plain(" "@),
            styled(Style::Green, number + " directories restored"@),
            plain("\n"@),
        ]
    } else {
        seq![plain("\n"@), plain("Revert complete. "@ + number + " directories restored.\n"@)]
    }
}

impl Progress {
    /// What was reported and not yet handed out.
    pub closed spec fn output(&self) -> Seq<SpanData> {
        spans_data(self.out@)
    }

    /// Whether reports are styled.
    pub closed spec fn colors(&self) -> bool {
        self.colors_enabled
    }

    /// Whether nothing is reported.
    pub closed spec fn is_silent(&self) -> bool {
        self.silent
    }

    /// What `spans` add to the output: nothing where the reporter is silent.
    pub open spec fn shown(&self, spans: Seq<SpanData>) -> Seq<SpanData> {
        if self.is_silent() {
            Seq::empty()
        } else {
            spans
        }
    }

    /// A reporter that writes, with colours or not.
    pub fn new(colors_enabled: bool) -> (progress: Progress)
        ensures
            progress.output() == Seq::<SpanData>::empty(),
            !progress.is_silent(),
            progress.colors() == colors_enabled,
    {
        Progress::new_with_ui(false, colors_enabled)
    }

    /// A reporter beside the user interface: silent in verbose mode.
    pub fn new_with_ui(verbose: bool, colors_enabled: bool) -> (progress: Progress)
        ensures
            progress.output() == Seq::<SpanData>::empty(),
            progress.is_silent() == verbose,
            progress.colors() == colors_enabled,
    {
        let progress = Progress { silent: verbose, colors_enabled, out: Vec::new() };
        progress
    }

    /// A reporter that writes plain text.
    pub fn with_writer() -> (progress: Progress)
        ensures
            progress.output() == Seq::<SpanData>::empty(),
            !progress.is_silent(),
            !progress.colors(),
    {
        Progress::new_with_ui(false, false)
    }

    /// A reporter that writes nothing.
    pub fn silent() -> (progress: Progress)
        ensures
            progress.output() == Seq::<SpanData>::empty(),
            progress.is_silent(),
            !progress.colors(),
    {
        Progress::new_with_ui(true, false)
    }

    /// Hands out what was reported.
    pub fn take_output(&mut self) -> (spans: Vec<Span>)
        ensures
            spans_data(spans@) == old(self).output(),
            final(self).output() == Seq::<SpanData>::empty(),
            final(self).colors() == old(self).colors(),
            final(self).is_silent() == old(self).is_silent(),
    {
        let mut spans: Vec<Span> = Vec::new();
        std::mem::swap(&mut spans, &mut self.out);
        spans
    }

    /// Reports one rename of a batch.
    pub fn rename_progress(&mut self, current: usize, total: usize, from: &str, to: &str)
        ensures
            final(self).output() == old(self).output() + old(self).shown(
                arrow_line(old(self).colors(), current, total, from@, to@),
            ),
            final(self).colors() == old(self).colors(),
            final(self).is_silent() == old(self).is_silent(),
    {
        if self.silent {
            return;
        }
        put_arrow_line(&mut self.out, self.colors_enabled, current, total, from, to);
    }

    /// Reports that metadata is being fetched, without ending the line.
    pub fn fetch_start(&mut self, anidb_id: u32)
        ensures
            final(self).output() == old(self).output() + old(self).shown(
                fetch_start_spans(old(self).colors(), anidb_id),
            ),
            final(self).colors() == old(self).colors(),
            final(self).is_silent() == old(self).is_silent(),
    {
        if self.silent {
            return;
        }
        let id = string_of(&format_u32(anidb_id));
        let text = concat3("Fetching metadata for ", id.as_str(), "...");
        if self.colors_enabled {
            put(&mut self.out, Style::Dimmed, text.as_str());
        } else {
            put(&mut self.out, Style::Plain, text.as_str());
        }
    }

    /// Reports that the fetch is complete, on the line of its start.
    pub fn fetch_complete(&mut self)
        ensures
            final(self).output() == old(self).output() + old(self).shown(
                fetch_complete_spans(old(self).colors()),
            ),
            final(self).colors() == old(self).colors(),
            final(self).is_silent() == old(self).is_silent(),
    {
        if self.silent {
            return;
        }
        if self.colors_enabled {
            put(&mut self.out, Style::Plain, " ");
            put(&mut self.out, Style::Green, "done");
            put(&mut self.out, Style::Plain, "\n");
        } else {
            put(&mut self.out, Style::Plain, " done\n");
        }
    }

    /// Metadata came from the cache. This is not reported.
    pub fn using_cache(&mut self, anidb_id: u32)
        ensures
            *final(self) == *old(self),
    {
    }

    /// In a dry run, metadata would be fetched. This is not reported.
    pub fn would_fetch(&mut self, anidb_id: u32)
        ensures
            *final(self) == *old(self),
    {
    }

    /// Reports something that went wrong but did not stop the batch.
    pub fn warn(&mut self, message: &str)
        ensures
            final(self).output() == old(self).output() + old(self).shown(
                warn_spans(old(self).colors(), message@),
            ),
            final(self).colors() == old(self).colors(),
            final(self).is_silent() == old(self).is_silent(),
    {
        if self.silent {
            return;
        }
        if self.colors_enabled {
            put(&mut self.out, Style::YellowBold, "!");
            put(&mut self.out, Style::Plain, " ");
            put(&mut self.out, Style::Yellow, message);
            put(&mut self.out, Style::Plain, "\n");
        } else {
            put(&mut self.out, Style::Plain, concat3("Warning: ", message, "\n").as_str());
        }
    }

    /// Reports where the journal was written.
    pub fn history_written(&mut self, path: &str)
        ensures
            final(self).output() == old(self).output() + old(self).shown(
                history_written_spans(old(self).colors(), path@),
            ),
            final(self).colors() == old(self).colors(),
            final(self).is_silent() == old(self).is_silent(),
    {
        if self.silent {
            return;
        }
        if self.colors_enabled {
            put(&mut self.out, Style::Dimmed, concat2("History saved to: ", path).as_str());
            put(&mut self.out, Style::Plain, "\n");
        } else {
            put(&mut self.out, Style::Plain, concat3("History saved to: ", path, "\n").as_str());
        }
    }

    /// Reports that a revert begins.
    pub fn revert_start(&mut self, total: usize, from_timestamp: &str)
        ensures
            final(self).output() == old(self).output() + old(self).shown(
                revert_start_spans(old(self).colors(), total, from_timestamp@),
            ),
            final(self).colors() == old(self).colors(),
            final(self).is_silent() == old(self).is_silent(),
    {
        if self.silent {
            return;
        }
        put(&mut self.out, Style::Plain, "\n");
        let number = string_of(&format_usize(total));
        let head = concat3("Reverting ", number.as_str(), " directories from history (");
        let text = concat3(head.as_str(), from_timestamp, ")");
        if self.colors_enabled {
            put(&mut self.out, Style::Bold, text.as_str());
            put(&mut self.out, Style::Plain, "\n");
        } else {
            put(&mut self.out, Style::Plain, concat2(text.as_str(), "\n").as_str());
        }
    }

    /// Reports one revert.
    pub fn revert_progress(&mut self, current: usize, total: usize, from: &str, to: &str)
        ensures
            final(self).output() == old(self).output() + old(self).shown(
                arrow_line(old(self).colors(), current, total, from@, to@),
            ),
            final(self).colors() == old(self).colors(),
            final(self).is_silent() == old(self).is_silent(),
    {
        if self.silent {
            return;
        }
        put_arrow_line(&mut self.out, self.colors_enabled, current, total, from, to);
    }

    /// Reports that a revert is complete.
    pub fn revert_complete(&mut self, count: usize, dry_run: bool)
        ensures
            final(self).output() == old(self).output() + old(self).shown(
                revert_complete_spans(old(self).colors(), count, dry_run),
            ),
            final(self).colors() == old(self).colors(),
            final(self).is_silent() == old(self).is_silent(),
    {
        if self.silent {
            return;
        }
        put(&mut self.out, Style::Plain, "\n");
        let number = string_of(&format_usize(count));
        if dry_run {
            let text = concat3(
                "Dry run complete. ",
                number.as_str(),
                " directories would be reverted.",
            );
            if self.colors_enabled {
                put(&mut self.out, Style::Dimmed, text.as_str());
                put(&mut self.out, Style::Plain, "\n");
            } else {
                put(&mut self.out, Style::Plain, concat2(text.as_str(), "\n").as_str());
            }
        } else if self.colors_enabled {
            put(&mut self.out, Style::GreenBold, "✓");
            put(&mut self.out, Style::Plain, " ");
            put(
                &mut self.out,
                Style::Green,
                concat2(number.as_str(), " directories restored").as_str(),
            );
            put(&mut self.out, Style::Plain, "\n");
        } else {
            put(
                &mut self.out,
                Style::Plain,
                concat3("Revert complete. ", number.as_str(), " directories restored.\n").as_str(),
            );
        }
    }
}

} // verus!
