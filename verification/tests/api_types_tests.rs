use anidb2folder::api::{AnimeInfo, ApiConfig, ApiError};

#[test]
fn test_anime_info_creation() {
    let info = AnimeInfo {
        anidb_id: 1,
        title_main: "Cowboy Bebop".to_string(),
        title_en: Some("Cowboy Bebop".to_string()),
        release_year: Some(1998),
    };

    assert_eq!(info.anidb_id, 1);
    assert_eq!(info.title_main, "Cowboy Bebop");
    assert_eq!(info.title_en, Some("Cowboy Bebop".to_string()));
    assert_eq!(info.release_year, Some(1998));
}

#[test]
fn test_anime_info_optional_fields() {
    let info = AnimeInfo {
        anidb_id: 2,
        title_main: "Some Anime".to_string(),
        title_en: None,
        release_year: None,
    };

    assert!(info.title_en.is_none());
    assert!(info.release_year.is_none());
}

#[test]
fn test_api_config_default() {
    let config = ApiConfig::default();

    assert!(config.client_name.is_empty());
    assert_eq!(config.client_version, 1);
    assert_eq!(config.timeout_secs, 30);
    assert_eq!(config.max_retries, 3);
    assert_eq!(config.min_request_interval_secs, 2);
}

#[test]
fn test_api_config_new() {
    let config = ApiConfig::new("myclient", 2);

    assert_eq!(config.client_name, "myclient");
    assert_eq!(config.client_version, 2);
    assert!(!config.client_name.is_empty());
}

#[test]
fn test_api_config_is_configured() {
    let unconfigured = ApiConfig::default();
    assert!(!unconfigured.is_configured());

    let configured = ApiConfig::new("myclient", 1);
    assert!(configured.is_configured());
}

#[test]
fn test_api_error_display() {
    let err = ApiError::NotFound(12345);
    assert!(err.message().contains("12345"));

    let err = ApiError::RateLimited;
    assert!(err.message().contains("Rate limited"));

    let err = ApiError::MaxRetriesExceeded { attempts: 3 };
    assert!(err.message().contains("3 attempts"));
}
