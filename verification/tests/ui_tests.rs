use anidb2folder::styled::{text_of, Style};
use anidb2folder::ui::{Ui, UiConfig};

fn create_test_ui(verbose: bool) -> Ui {
    let config = UiConfig {
        colors_enabled: false,
        verbose,
    };
    Ui::new(config)
}

#[test]
fn test_ui_plain_output() {
    let mut ui = create_test_ui(false);
    ui.success("Test success");

    let output = text_of(&ui.take_output());
    assert!(output.contains("Test success"));
    assert!(output.contains("*")); // Plain checkmark
}

#[test]
fn test_ui_verbose_mode_skips_decorations() {
    let mut ui = create_test_ui(true);
    ui.info("Should not appear");
    ui.section("Should not appear");
    ui.progress(1, 10, "Should not appear");

    let output = text_of(&ui.take_output());
    assert!(output.is_empty());
}

#[test]
fn test_ui_error_shown_in_verbose() {
    let mut ui = create_test_ui(true);
    ui.error("This error should appear");

    let output = text_of(&ui.take_output());
    assert!(output.contains("This error should appear"));
}

#[test]
fn test_ui_config_new() {
    let config = UiConfig::new(true, false);
    assert!(config.verbose);
    assert!(!config.colors_enabled);

    let ui = Ui::new(UiConfig::new(false, true));
    assert!(!ui.is_verbose());
    assert!(ui.is_colors_enabled());
}

#[test]
fn test_ui_plain_lines_are_exact() {
    let mut ui = create_test_ui(false);
    ui.section("Renaming");
    ui.info("info");
    ui.success("ok");
    ui.warning("hm");
    ui.error("bad");
    ui.dim("quiet");
    ui.progress(2, 5, "working");
    ui.rename_progress(1, 2, "12345", "Title [catalog-12345]");
    ui.step("Scanning /anime");
    ui.step_done();
    ui.kv("Found", "2 directories");
    ui.blank();
    ui.separator();
    ui.list_item("a", "b");
    ui.list_done("c", "d");

    let output = text_of(&ui.take_output());
    assert_eq!(
        output,
        "\nRenaming\n\
         info\n\
         * ok\n\
         ! hm\n\
         X bad\n\
         quiet\n\
         [2/5] working\n\
         [1/2] 12345 -> Title [catalog-12345]\n\
         Scanning /anime... done\n\
         Found: 2 directories\n\
         \n\
         --------------------------------------------------\n\
         \x20 a -> b\n\
         \x20 * c -> d\n"
    );
}

#[test]
fn test_ui_boxed_title() {
    let mut ui = create_test_ui(false);
    ui.boxed_title("DRY RUN");

    let output = text_of(&ui.take_output());
    let lines: Vec<&str> = output.lines().collect();
    assert_eq!(lines.len(), 3);
    assert_eq!(lines[0], format!("╔{}╗", "═".repeat(48)));
    assert_eq!(lines[1], format!("║{}DRY RUN{}║", " ".repeat(20), " ".repeat(21)));
    assert_eq!(lines[2], format!("╚{}╝", "═".repeat(48)));

    // A title that leaves no room is written without spaces around it.
    let long = "x".repeat(60);
    ui.boxed_title(&long);
    let output = text_of(&ui.take_output());
    let lines: Vec<&str> = output.lines().collect();
    assert_eq!(lines[1], format!("║{}║", long));
}

#[test]
fn test_ui_header() {
    let mut ui = create_test_ui(true);
    ui.print_header("0.1.0");
    assert_eq!(text_of(&ui.take_output()), "anidb2folder v0.1.0\n\n");

    let mut ui = create_test_ui(false);
    ui.print_header("0.1.0");
    let output = text_of(&ui.take_output());
    assert!(output.starts_with("\n              _     _ _     ____"));
    let expected_version = format!("{:>64}\n\n", "v0.1.0");
    assert!(output.ends_with(&expected_version));

    let mut ui = Ui::new(UiConfig::new(false, true));
    ui.print_header("0.1.0");
    let spans = ui.take_output();
    assert_eq!(spans[1].style, Style::BrightCyanBold);
    assert_eq!(spans[11].style, Style::Dimmed);
    assert_eq!(spans[11].text, format!("{:>64}", "v0.1.0"));
}

#[test]
fn test_ui_colored_spans() {
    let mut ui = Ui::new(UiConfig::new(false, true));
    ui.success("fine");

    let spans = ui.take_output();
    assert_eq!(spans.len(), 4);
    assert_eq!(spans[0].text, "✓");
    assert_eq!(spans[0].style, Style::GreenBold);
    assert_eq!(spans[2].text, "fine");
    assert_eq!(spans[2].style, Style::Green);
}
