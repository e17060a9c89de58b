use anidb2folder::parser::{parse_directory_name, DirectoryFormat, ParseError, ParsedDirectory};

#[test]
fn test_parse_anidb_simple() {
    let result = parse_directory_name("12345").unwrap();
    match result {
        ParsedDirectory::AniDb(f) => {
            assert_eq!(f.anidb_id, 12345);
            assert!(f.series_tag.is_none());
        }
        _ => panic!("Expected AniDB format"),
    }
}

#[test]
fn test_parse_anidb_with_series() {
    let result = parse_directory_name("[AS0] 12345").unwrap();
    match result {
        ParsedDirectory::AniDb(f) => {
            assert_eq!(f.anidb_id, 12345);
            assert_eq!(f.series_tag, Some("AS0".to_string()));
        }
        _ => panic!("Expected AniDB format"),
    }
}

#[test]
fn test_parse_anidb_with_long_series() {
    let result = parse_directory_name("[My Favorite Series] 67890").unwrap();
    match result {
        ParsedDirectory::AniDb(f) => {
            assert_eq!(f.anidb_id, 67890);
            assert_eq!(f.series_tag, Some("My Favorite Series".to_string()));
        }
        _ => panic!("Expected AniDB format"),
    }
}

#[test]
fn test_parse_human_readable_full() {
    let result =
        parse_directory_name("[AS0] Cowboyu Bebopu ／ Cowboy Bebop (1998) [catalog-1]").unwrap();

    match result {
        ParsedDirectory::HumanReadable(f) => {
            assert_eq!(f.series_tag, Some("AS0".to_string()));
            assert_eq!(f.title_jp, "Cowboyu Bebopu");
            assert_eq!(f.title_en, Some("Cowboy Bebop".to_string()));
            assert_eq!(f.release_year, Some(1998));
            assert_eq!(f.anidb_id, 1);
        }
        _ => panic!("Expected human-readable format"),
    }
}

#[test]
fn test_parse_human_readable_no_series() {
    let result = parse_directory_name("Naruto (2002) [catalog-12345]").unwrap();

    match result {
        ParsedDirectory::HumanReadable(f) => {
            assert!(f.series_tag.is_none());
            assert_eq!(f.title_jp, "Naruto");
            assert!(f.title_en.is_none());
            assert_eq!(f.release_year, Some(2002));
            assert_eq!(f.anidb_id, 12345);
        }
        _ => panic!("Expected human-readable format"),
    }
}

#[test]
fn test_parse_human_readable_no_year() {
    let result = parse_directory_name("[FMA] Fullmetal Alchemist [catalog-54321]").unwrap();

    match result {
        ParsedDirectory::HumanReadable(f) => {
            assert_eq!(f.series_tag, Some("FMA".to_string()));
            assert_eq!(f.title_jp, "Fullmetal Alchemist");
            assert!(f.release_year.is_none());
            assert_eq!(f.anidb_id, 54321);
        }
        _ => panic!("Expected human-readable format"),
    }
}

#[test]
fn test_parse_human_readable_same_titles() {
    let result = parse_directory_name("One Piece ／ One Piece (1999) [catalog-69]").unwrap();

    match result {
        ParsedDirectory::HumanReadable(f) => {
            assert_eq!(f.title_jp, "One Piece");
            assert!(f.title_en.is_none()); // Duplicates collapsed
            assert_eq!(f.release_year, Some(1999));
        }
        _ => panic!("Expected human-readable format"),
    }
}

#[test]
fn test_parse_unrecognized() {
    let result = parse_directory_name("Random Folder Name");
    assert!(matches!(result, Err(ParseError::UnrecognizedFormat(_))));
}

#[test]
fn test_parse_title_with_parentheses() {
    let result = parse_directory_name("Steins;Gate (Anime) (2011) [catalog-7729]").unwrap();

    match result {
        ParsedDirectory::HumanReadable(f) => {
            assert_eq!(f.title_jp, "Steins;Gate (Anime)");
            assert_eq!(f.release_year, Some(2011));
        }
        _ => panic!("Expected human-readable format"),
    }
}

#[test]
fn test_parse_title_with_numbers() {
    let result = parse_directory_name("86 (2021) [catalog-15587]").unwrap();

    match result {
        ParsedDirectory::HumanReadable(f) => {
            assert_eq!(f.title_jp, "86");
            assert_eq!(f.release_year, Some(2021));
        }
        _ => panic!("Expected human-readable format"),
    }
}

#[test]
fn test_parsed_directory_methods() {
    let anidb = parse_directory_name("[S1] 123").unwrap();
    assert_eq!(anidb.format(), DirectoryFormat::AniDb);
    assert_eq!(anidb.anidb_id(), 123);
    assert_eq!(anidb.series_tag(), Some("S1"));
    assert_eq!(anidb.original_name(), "[S1] 123");

    let human = parse_directory_name("Test (2020) [catalog-456]").unwrap();
    assert_eq!(human.format(), DirectoryFormat::HumanReadable);
    assert_eq!(human.anidb_id(), 456);
    assert!(human.series_tag().is_none());
}
