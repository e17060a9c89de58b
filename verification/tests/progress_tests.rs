use anidb2folder::progress::Progress;
use anidb2folder::styled::{text_of, Style};

fn create_test_progress() -> Progress {
    Progress::with_writer()
}

#[test]
fn test_rename_progress() {
    let mut progress = create_test_progress();

    progress.rename_progress(1, 3, "12345", "Anime Title [catalog-12345]");
    progress.rename_progress(2, 3, "67890", "Another Anime [catalog-67890]");

    let output = text_of(&progress.take_output());
    assert!(output.contains("[1/3]"));
    assert!(output.contains("[2/3]"));
}

#[test]
fn test_fetch_output() {
    let mut progress = create_test_progress();

    progress.fetch_start(12345);
    progress.fetch_complete();

    let output = text_of(&progress.take_output());
    assert!(output.contains("Fetching metadata for 12345"));
    assert!(output.contains("done"));
}

#[test]
fn test_cache_output_is_silent() {
    let mut progress = create_test_progress();

    progress.using_cache(12345);

    // Cache messages are now silent to reduce noise
    let output = text_of(&progress.take_output());
    assert!(output.is_empty());
}

#[test]
fn test_progress_plain_lines_are_exact() {
    let mut progress = create_test_progress();

    progress.rename_progress(1, 3, "12345", "Anime Title [catalog-12345]");
    progress.fetch_start(7);
    progress.fetch_complete();
    progress.warn("Name truncated for 7: Title");
    progress.history_written("/anime/anidb2folder-history-20260115-103045.json");
    progress.revert_start(2, "2026-01-15 10:30:45 UTC");
    progress.revert_progress(2, 2, "b", "a");
    progress.revert_complete(2, false);
    progress.revert_complete(1, true);

    let output = text_of(&progress.take_output());
    assert_eq!(
        output,
        "[1/3] 12345 -> Anime Title [catalog-12345]\n\
         Fetching metadata for 7... done\n\
         Warning: Name truncated for 7: Title\n\
         History saved to: /anime/anidb2folder-history-20260115-103045.json\n\
         \nReverting 2 directories from history (2026-01-15 10:30:45 UTC)\n\
         [2/2] b -> a\n\
         \nRevert complete. 2 directories restored.\n\
         \nDry run complete. 1 directories would be reverted.\n"
    );
}

#[test]
fn test_progress_silent_writes_nothing() {
    let mut progress = Progress::silent();

    progress.rename_progress(1, 3, "a", "b");
    progress.fetch_start(1);
    progress.fetch_complete();
    progress.warn("w");
    progress.history_written("p");
    progress.revert_start(1, "t");
    progress.revert_progress(1, 1, "a", "b");
    progress.revert_complete(1, false);

    assert!(progress.take_output().is_empty());

    let mut verbose = Progress::new_with_ui(true, true);
    verbose.warn("w");
    assert!(verbose.take_output().is_empty());
}

#[test]
fn test_progress_colored_spans() {
    let mut progress = Progress::new(true);

    progress.warn("careful");

    let spans = progress.take_output();
    assert_eq!(spans.len(), 4);
    assert_eq!(spans[0].text, "!");
    assert_eq!(spans[0].style, Style::YellowBold);
    assert_eq!(spans[1].text, " ");
    assert_eq!(spans[1].style, Style::Plain);
    assert_eq!(spans[2].text, "careful");
    assert_eq!(spans[2].style, Style::Yellow);
    assert_eq!(spans[3].text, "\n");
    assert!(progress.take_output().is_empty());
}
