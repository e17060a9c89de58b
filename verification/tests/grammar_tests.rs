//! The name grammar, held against the patterns that describe it.

use anidb2folder::parser::{
    parse_directory_name, split_titles, try_parse_anidb, try_parse_human_readable, ParseError,
    ParsedDirectory,
};
use regex::Regex;

fn compact_pattern() -> Regex {
    Regex::new(r"^(?:\[([^\]]+)\]\s*)?(\d+)$").unwrap()
}

fn readable_pattern() -> Regex {
    Regex::new(r"^(?:\[([^\]]+)\]\s*)?(.*?)\s*(?:\((\d{4})\))?\s*\[catalog-(\d+)\]$").unwrap()
}

fn title_split_pattern() -> Regex {
    Regex::new(r"\s*／\s*").unwrap()
}

type Compact = (Option<String>, u32);
type Readable = (Option<String>, String, Option<String>, Option<u16>, u32);

fn compact_by_pattern(name: &str) -> Option<Compact> {
    let captures = compact_pattern().captures(name)?;
    let tag = captures.get(1).map(|m| m.as_str().to_string());
    let id: u32 = captures.get(2)?.as_str().parse().ok()?;
    Some((tag, id))
}

fn titles_by_pattern(titles: &str) -> (String, Option<String>) {
    let parts: Vec<&str> = title_split_pattern().split(titles).collect();
    match parts.len() {
        0 => (String::new(), None),
        1 => (parts[0].trim().to_string(), None),
        _ => {
            let main = parts[0].trim().to_string();
            let alt = parts[1].trim().to_string();
            if main == alt {
                (main, None)
            } else {
                (main, Some(alt))
            }
        }
    }
}

fn readable_by_pattern(name: &str) -> Option<Readable> {
    let captures = readable_pattern().captures(name)?;
    let tag = captures.get(1).map(|m| m.as_str().to_string());
    let titles_part = captures.get(2)?.as_str().trim();
    let year: Option<u16> = captures.get(3).and_then(|m| m.as_str().parse().ok());
    let id: u32 = captures.get(4)?.as_str().parse().ok()?;
    let (main, alt) = titles_by_pattern(titles_part);
    if main.is_empty() {
        return None;
    }
    Some((tag, main, alt, year, id))
}

fn check(name: &str) {
    let compact = try_parse_anidb(name).map(|f| (f.series_tag, f.anidb_id));
    assert_eq!(compact, compact_by_pattern(name), "compact reading of {:?}", name);

    let readable = try_parse_human_readable(name)
        .map(|f| (f.series_tag, f.title_jp, f.title_en, f.release_year, f.anidb_id));
    assert_eq!(readable, readable_by_pattern(name), "readable reading of {:?}", name);

    match parse_directory_name(name) {
        Ok(ParsedDirectory::HumanReadable(f)) => {
            assert!(readable_by_pattern(name).is_some());
            assert_eq!(f.original_name, name);
        }
        Ok(ParsedDirectory::AniDb(f)) => {
            assert!(readable_by_pattern(name).is_none());
            assert!(compact_by_pattern(name).is_some());
            assert_eq!(f.original_name, name);
        }
        Err(ParseError::UnrecognizedFormat(n)) => {
            assert!(readable_by_pattern(name).is_none());
            assert!(compact_by_pattern(name).is_none());
            assert_eq!(n, name);
        }
    }
}

#[test]
fn test_grammar_on_chosen_names() {
    let names = [
        "",
        " ",
        "12345",
        "0",
        "007",
        "4294967295",
        "4294967296",
        "99999999999999999999999",
        "12345 ",
        " 12345",
        "12a45",
        "[AS0] 12345",
        "[AS0]12345",
        "[AS0] \t 12345",
        "[AS0]\n12345",
        "[AS0]\u{3000}12345",
        "[] 12345",
        "[] [catalog-1]",
        "[AS0] ",
        "[AS0]",
        "[AS0 12345",
        "AS0] 12345",
        "[A][B] 12345",
        "[A]] 12345",
        "[[A] 12345",
        "[A\nB] 12345",
        "Naruto (2002) [catalog-12345]",
        "Naruto(2002)[catalog-12345]",
        "Naruto  (2002)  [catalog-12345]",
        "Naruto (2002)\n[catalog-12345]",
        "Naruto\n(2002) [catalog-12345]",
        "Naru\nto (2002) [catalog-12345]",
        "Naruto (200) [catalog-12345]",
        "Naruto (20022) [catalog-12345]",
        "Naruto (2002 ) [catalog-12345]",
        "Naruto (2002) (2003) [catalog-12345]",
        "Naruto (2002)(2003) [catalog-12345]",
        "(2002) [catalog-12345]",
        "[T] (2002) [catalog-12345]",
        "[T](2002)[catalog-12345]",
        " (2002) [catalog-12345]",
        "[catalog-12345]",
        " [catalog-12345]",
        "[T] [catalog-12345]",
        "[T][catalog-12345]",
        "x[catalog-12345]",
        "[x [catalog-5]",
        "[x] y] z [catalog-5]",
        "Title [catalog-]",
        "Title [catalog-12a]",
        "Title [catalog-12] ",
        "Title [catalog-12]]",
        "Title [Anidb-12]",
        "Title catalog-12]",
        "Title [catalog-4294967295]",
        "Title [catalog-4294967296]",
        "Title [catalog-007]",
        "Title [catalog-1] [catalog-2]",
        "[catalog-1] [catalog-2]",
        "[catalog-1][catalog-2]",
        "One Piece ／ One Piece (1999) [catalog-69]",
        "One Piece／Wan Pisu (1999) [catalog-69]",
        "A ／ B ／ C [catalog-1]",
        "A ／  ／ C [catalog-1]",
        "A ／ [catalog-1]",
        "／ B [catalog-1]",
        "／ [catalog-1]",
        "／／ [catalog-1]",
        " ／ A [catalog-1]",
        "A / B [catalog-1]",
        "[AS0] Cowboyu Bebopu ／ Cowboy Bebop (1998) [catalog-1]",
        "[FMA] Fullmetal Alchemist [catalog-54321]",
        "Steins;Gate (Anime) (2011) [catalog-7729]",
        "86 (2021) [catalog-15587]",
        "86 [catalog-15587]",
        "日本語タイトル (2020) [catalog-1]",
        "[日本] タイトル ／ Title (2020) [catalog-1]",
        "Title\u{a0}(2020)\u{2003}[catalog-1]",
        "\u{a0}Title [catalog-1]",
        "Title\r(2020) [catalog-1]",
        "Title\r\n[catalog-1]",
        "Random Folder Name",
        "[AS0] Random",
        "Title (2020)",
        "Title (2020) [catalog-1] extra",
    ];
    for name in names {
        check(name);
    }
}

#[test]
fn test_grammar_on_generated_names() {
    // Every name of up to four pieces, from pieces that matter to the grammar.
    let pieces = ["[", "]", "T", " ", "(2020)", "[catalog-7]", "12", "／", "\n", "(", ")"];
    let mut names: Vec<String> = vec![String::new()];
    let mut start = 0;
    for _ in 0..4 {
        let end = names.len();
        for i in start..end {
            for piece in pieces {
                let mut name = names[i].clone();
                name.push_str(piece);
                names.push(name);
            }
        }
        start = end;
    }
    assert_eq!(names.len(), 1 + 11 + 121 + 1331 + 14641);
    let compact = compact_pattern();
    let readable = readable_pattern();
    for name in &names {
        // The patterns are compiled once: this runs through many names.
        let expected_compact = compact.captures(name).and_then(|c| {
            let id: u32 = c.get(2)?.as_str().parse().ok()?;
            Some((c.get(1).map(|m| m.as_str().to_string()), id))
        });
        let got = try_parse_anidb(name).map(|f| (f.series_tag, f.anidb_id));
        assert_eq!(got, expected_compact, "compact reading of {:?}", name);

        let expected_readable = readable.captures(name).and_then(|c| {
            let id: u32 = c.get(4)?.as_str().parse().ok()?;
            let year: Option<u16> = c.get(3).and_then(|m| m.as_str().parse().ok());
            let (main, alt) = titles_by_pattern(c.get(2)?.as_str().trim());
            if main.is_empty() {
                return None;
            }
            Some((c.get(1).map(|m| m.as_str().to_string()), main, alt, year, id))
        });
        let got = try_parse_human_readable(name)
            .map(|f| (f.series_tag, f.title_jp, f.title_en, f.release_year, f.anidb_id));
        assert_eq!(got, expected_readable, "readable reading of {:?}", name);
    }
}

#[test]
fn test_split_titles_against_pattern() {
    let titles = [
        "",
        "A",
        " A ",
        "A ／ B",
        "A／B",
        "A  ／  B",
        "A ／ A",
        "A ／ B ／ C",
        "A ／ ／ C",
        "／",
        "／ B",
        "A ／",
        "A\n／\tB",
        "A\u{3000}／\u{a0}B",
        "A / B",
    ];
    for title in titles {
        assert_eq!(split_titles(title), titles_by_pattern(title), "titles of {:?}", title);
    }
}

#[test]
fn test_readable_scheme_is_tried_first() {
    // A batch of the two examples is classified name by name.
    assert!(matches!(
        parse_directory_name("12345"),
        Ok(ParsedDirectory::AniDb(_))
    ));
    assert!(matches!(
        parse_directory_name("Naruto (2002) [catalog-67890]"),
        Ok(ParsedDirectory::HumanReadable(_))
    ));
    match parse_directory_name("Random Folder Name") {
        Err(e) => assert_eq!(
            e.message(),
            "Directory name does not match any known format: Random Folder Name"
        ),
        Ok(_) => panic!("a name in neither scheme is refused"),
    }
}
