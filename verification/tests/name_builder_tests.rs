use anidb2folder::api::AnimeInfo;
use anidb2folder::rename::{
    build_anidb_name, build_human_readable_name, sanitize_filename, NameBuilderConfig,
};

fn create_test_info(
    id: u32,
    title_main: &str,
    title_en: Option<&str>,
    year: Option<u16>,
) -> AnimeInfo {
    AnimeInfo {
        anidb_id: id,
        title_main: title_main.to_string(),
        title_en: title_en.map(|s| s.to_string()),
        release_year: year,
    }
}

// ============ Basic Name Building ============

#[test]
fn test_build_name_full() {
    let info = create_test_info(1, "Cowboy Bebop", Some("Cowboy Bebop"), Some(1998));

    let result = build_human_readable_name(Some("AS0"), &info, &NameBuilderConfig::default());

    // Same title shouldn't be duplicated
    assert_eq!(result.name, "[AS0] Cowboy Bebop (1998) [catalog-1]");
    assert!(!result.truncated);
}

#[test]
fn test_build_name_different_titles() {
    let info = create_test_info(1, "Kauboi Bibappu", Some("Cowboy Bebop"), Some(1998));

    let result = build_human_readable_name(Some("AS0"), &info, &NameBuilderConfig::default());

    assert_eq!(
        result.name,
        "[AS0] Kauboi Bibappu ／ Cowboy Bebop (1998) [catalog-1]"
    );
    assert!(!result.truncated);
}

#[test]
fn test_build_name_no_series() {
    let info = create_test_info(12345, "Naruto", None, Some(2002));

    let result = build_human_readable_name(None, &info, &NameBuilderConfig::default());

    assert_eq!(result.name, "Naruto (2002) [catalog-12345]");
}

#[test]
fn test_build_name_no_year() {
    let info = create_test_info(999, "Unknown Anime", None, None);

    let result = build_human_readable_name(None, &info, &NameBuilderConfig::default());

    assert_eq!(result.name, "Unknown Anime [catalog-999]");
}

#[test]
fn test_build_name_same_titles_not_duplicated() {
    let info = create_test_info(69, "One Piece", Some("One Piece"), Some(1999));

    let result = build_human_readable_name(None, &info, &NameBuilderConfig::default());

    // Should not include duplicate title
    assert_eq!(result.name, "One Piece (1999) [catalog-69]");
}

// ============ EN Title Contained in JP Title ============

#[test]
fn test_en_title_contained_in_jp_uses_only_jp() {
    // JP title contains EN title (e.g., "Vakhiin/Vakhii" contains "Vakhii")
    let info = create_test_info(123, "Vakhiin/Vakhii", Some("Vakhii"), Some(2020));

    let result = build_human_readable_name(None, &info, &NameBuilderConfig::default());

    // Should use only JP title since EN is contained within it
    assert_eq!(result.name, "Vakhiin／Vakhii (2020) [catalog-123]");
    assert!(!result.name.contains(" ／ Vakhii")); // No separate EN title
}

#[test]
fn test_en_title_substring_of_jp_uses_only_jp() {
    let info = create_test_info(456, "Mobile Suit Gundam", Some("Gundam"), Some(1979));

    let result = build_human_readable_name(None, &info, &NameBuilderConfig::default());

    // EN "Gundam" is substring of JP "Mobile Suit Gundam"
    assert_eq!(result.name, "Mobile Suit Gundam (1979) [catalog-456]");
}

#[test]
fn test_jp_title_not_containing_en_shows_both() {
    let info = create_test_info(789, "Shingeki no Kyojin", Some("Attack on Titan"), Some(2013));

    let result = build_human_readable_name(None, &info, &NameBuilderConfig::default());

    // EN is not contained in JP, so both should appear
    assert_eq!(
        result.name,
        "Shingeki no Kyojin ／ Attack on Titan (2013) [catalog-789]"
    );
}

// ============ Year Already in Title ============

#[test]
fn test_year_in_main_title_not_duplicated() {
    let info = create_test_info(100, "Anime 2020", None, Some(2020));

    let result = build_human_readable_name(None, &info, &NameBuilderConfig::default());

    // Year is already in title, should not add (2020) suffix
    assert_eq!(result.name, "Anime 2020 [catalog-100]");
    assert!(!result.name.contains("(2020)"));
}

#[test]
fn test_year_in_en_title_not_duplicated() {
    let info = create_test_info(101, "Anime Movie", Some("Anime Movie 2021"), Some(2021));

    let result = build_human_readable_name(None, &info, &NameBuilderConfig::default());

    // Year is in EN title, should not add (2021) suffix
    assert!(!result.name.contains("(2021)"));
}

#[test]
fn test_different_year_in_title_still_adds_correct_year() {
    // Title has "2019" but release year is 2020
    let info = create_test_info(102, "Anime 2019 Remaster", None, Some(2020));

    let result = build_human_readable_name(None, &info, &NameBuilderConfig::default());

    // 2019 != 2020, so year should be added
    assert!(result.name.contains("(2020)"));
    assert_eq!(
        result.name,
        "Anime 2019 Remaster (2020) [catalog-102]"
    );
}

#[test]
fn test_year_not_in_title_adds_year() {
    let info = create_test_info(103, "Normal Anime", None, Some(2023));

    let result = build_human_readable_name(None, &info, &NameBuilderConfig::default());

    // No year in title, should add (2023)
    assert_eq!(result.name, "Normal Anime (2023) [catalog-103]");
}

// ============ Character Sanitization - Fullwidth Replacements ============

#[test]
fn test_replace_forward_slash() {
    let result = sanitize_filename("Title/Subtitle");
    assert_eq!(result, "Title／Subtitle");
}

#[test]
fn test_replace_backslash() {
    let result = sanitize_filename("Path\\Name");
    assert_eq!(result, "Path＼Name");
}

#[test]
fn test_replace_colon() {
    let result = sanitize_filename("Title: Subtitle");
    assert_eq!(result, "Title： Subtitle");
}

#[test]
fn test_replace_asterisk() {
    let result = sanitize_filename("Rating: *****");
    assert_eq!(result, "Rating： ＊＊＊＊＊");
}

#[test]
fn test_replace_question_mark() {
    let result = sanitize_filename("What?");
    assert_eq!(result, "What？");
}

#[test]
fn test_replace_quotes() {
    let result = sanitize_filename("\"Title\"");
    assert_eq!(result, "＂Title＂");
}

#[test]
fn test_replace_angle_brackets() {
    let result = sanitize_filename("<Title>");
    assert_eq!(result, "＜Title＞");
}

#[test]
fn test_replace_pipe() {
    let result = sanitize_filename("A|B");
    assert_eq!(result, "A｜B");
}

#[test]
fn test_replace_backtick_with_single_quote() {
    let result = sanitize_filename("It`s a test");
    assert_eq!(result, "It's a test");
}

#[test]
fn test_multiple_backticks() {
    let result = sanitize_filename("`Hello` `World`");
    assert_eq!(result, "'Hello' 'World'");
}

// ============ Multiple Replacements ============

#[test]
fn test_multiple_replacements() {
    let result = sanitize_filename("Title: Part 1/2 <Special>");
    assert_eq!(result, "Title： Part 1／2 ＜Special＞");
}

#[test]
fn test_all_invalid_chars_replaced() {
    let input = "/\\:*?\"<>|`";
    let result = sanitize_filename(input);
    assert_eq!(result, "／＼：＊？＂＜＞｜'");
}

// ============ Whitespace Handling ============

#[test]
fn test_trim_leading_spaces() {
    let result = sanitize_filename("  Title");
    assert_eq!(result, "Title");
}

#[test]
fn test_trim_trailing_spaces() {
    let result = sanitize_filename("Title  ");
    assert_eq!(result, "Title");
}

#[test]
fn test_collapse_multiple_spaces() {
    let result = sanitize_filename("Title   With    Spaces");
    assert_eq!(result, "Title With Spaces");
}

#[test]
fn test_only_spaces() {
    let result = sanitize_filename("     ");
    assert_eq!(result, "");
}

// ============ Control Characters ============

#[test]
fn test_remove_null_character() {
    let result = sanitize_filename("Title\0Name");
    assert_eq!(result, "TitleName");
}

#[test]
fn test_remove_control_characters() {
    let result = sanitize_filename("Title\x01\x02\x03Name");
    assert_eq!(result, "TitleName");
}

#[test]
fn test_remove_tab_and_newline() {
    let result = sanitize_filename("Title\tWith\nNewline");
    assert_eq!(result, "TitleWithNewline");
}

// ============ Unicode Preservation ============

#[test]
fn test_unicode_preserved() {
    let input = "日本語タイトル";
    let result = sanitize_filename(input);
    assert_eq!(result, input);
}

#[test]
fn test_mixed_unicode_and_invalid() {
    let result = sanitize_filename("アニメ: Title/日本");
    assert_eq!(result, "アニメ： Title／日本");
}

// ============ No Changes Needed ============

#[test]
fn test_no_changes_needed() {
    let input = "Normal Title (2020) [catalog-12345]";
    let result = sanitize_filename(input);
    assert_eq!(result, input);
}

// ============ Full Name Building with Sanitization ============

#[test]
fn test_build_name_with_special_chars() {
    let info = create_test_info(123, "Title: With/Special*Chars?", None, Some(2020));

    let result = build_human_readable_name(None, &info, &NameBuilderConfig::default());

    // Special chars should be replaced with fullwidth
    assert!(result.name.contains("Title："));
    assert!(result.name.contains("／"));
    assert!(result.name.contains("＊"));
    assert!(result.name.contains("？"));
    assert_eq!(
        result.name,
        "Title： With／Special＊Chars？ (2020) [catalog-123]"
    );
}

#[test]
fn test_build_name_with_backticks() {
    let info = create_test_info(200, "It`s My Life", None, Some(2022));

    let result = build_human_readable_name(None, &info, &NameBuilderConfig::default());

    assert_eq!(result.name, "It's My Life (2022) [catalog-200]");
}

// ============ Truncation ============

#[test]
fn test_build_name_truncation() {
    let long_title = "A".repeat(300);
    let info = create_test_info(1, &long_title, None, Some(2020));

    let config = NameBuilderConfig { max_length: 100 };
    let result = build_human_readable_name(None, &info, &config);

    assert!(result.truncated);
    assert!(result.name.len() <= 100);
    assert!(result.name.contains("..."));
    assert!(result.name.ends_with("[catalog-1]"));
}

// ============ AniDB Name Building ============

#[test]
fn test_build_anidb_name_with_series() {
    let result = build_anidb_name(Some("AS0"), 12345);
    assert_eq!(result, "[AS0] 12345");
}

#[test]
fn test_build_anidb_name_without_series() {
    let result = build_anidb_name(None, 12345);
    assert_eq!(result, "12345");
}

// ============ Edges ============

#[test]
fn test_sanitize_edges() {
    // A delete character is a control character too.
    assert_eq!(sanitize_filename("a\x7fb"), "ab");
    // Control characters between spaces do not keep the spaces apart.
    assert_eq!(sanitize_filename("a \t b"), "a b");
    assert_eq!(sanitize_filename(" \n "), "");
    // Other whitespace than the space stays.
    assert_eq!(sanitize_filename("a\u{3000}\u{3000}b"), "a\u{3000}\u{3000}b");
    // What is made safe stays as it is when made safe again.
    for name in ["  a  /  b  ", "Title: Part 1/2 <Special>", "x`y|z", "\u{ff0f}"] {
        let once = sanitize_filename(name);
        assert_eq!(sanitize_filename(&once), once);
    }
    assert_eq!(sanitize_filename(""), "");
}

#[test]
fn test_build_name_edges() {
    // An empty alternate title is left out.
    let info = create_test_info(1, "Title", Some(""), None);
    let result = build_human_readable_name(None, &info, &NameBuilderConfig::default());
    assert_eq!(result.name, "Title [catalog-1]");

    // The tag is made safe with the rest of the name.
    let info = create_test_info(1, "Title", None, None);
    let result = build_human_readable_name(Some("a/b"), &info, &NameBuilderConfig::default());
    assert_eq!(result.name, "[a／b] Title [catalog-1]");

    // The year in the alternate title counts even where that title is left out.
    let info = create_test_info(1, "Title 1999 Remaster", Some("1999"), Some(1999));
    let result = build_human_readable_name(None, &info, &NameBuilderConfig::default());
    assert_eq!(result.name, "Title 1999 Remaster [catalog-1]");

    // An empty title leaves the suffix alone.
    let info = create_test_info(1, "", None, None);
    let result = build_human_readable_name(None, &info, &NameBuilderConfig::default());
    assert_eq!(result.name, "[catalog-1]");

    // A name that takes as many bytes as allowed is not shortened.
    let info = create_test_info(1, "日本", None, None);
    let full = "日本 [catalog-1]";
    assert_eq!(full.len(), 18);
    let result = build_human_readable_name(None, &info, &NameBuilderConfig { max_length: 18 });
    assert_eq!(result.name, full);
    assert!(!result.truncated);
    let result = build_human_readable_name(None, &info, &NameBuilderConfig { max_length: 17 });
    // Five bytes are left for the title: two beside the ellipsis, which hold
    // no character of three bytes.
    assert!(result.truncated);
    assert_eq!(result.name, "... [catalog-1]");
    assert!(result.name.len() <= 17);

    assert_eq!(NameBuilderConfig::default().max_length, 255);
}

#[test]
fn test_alternate_title_is_dropped_before_the_main_title_is_cut() {
    let info = create_test_info(1, "Shingeki no Kyojin", Some("Attack on Titan"), Some(2013));
    let result = build_human_readable_name(None, &info, &NameBuilderConfig { max_length: 40 });
    assert_eq!(result.name, "Shingeki no Kyojin (2013) [catalog-1]");
    assert!(result.truncated);
}

#[test]
fn test_build_anidb_name_edges() {
    assert_eq!(build_anidb_name(None, 0), "0");
    assert_eq!(build_anidb_name(None, u32::MAX), "4294967295");
    assert_eq!(build_anidb_name(Some(""), 7), "[] 7");
}
