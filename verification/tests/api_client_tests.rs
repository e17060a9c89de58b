use anidb2folder::api::{
    after_failure, anime_from_tokens, backoff, config_from_env, no_attempts, parse_anime_xml,
    parse_error_response, read_response, read_tokens, request_url, user_agent, ApiConfig, ApiError,
    RateLimiter, RetryDecision, XmlToken,
};

fn test_config() -> ApiConfig {
    ApiConfig::new("testclient", 1)
}

#[test]
fn test_client_requires_config() {
    assert!(!ApiConfig::default().is_configured());
    assert!(test_config().is_configured());
}

#[test]
fn test_parse_anime_xml_full_data() {
    let xml = r#"<?xml version="1.0" encoding="UTF-8"?>
    <anime id="1" restricted="false">
        <titles>
            <title xml:lang="x-jat" type="main">Cowboy Bebop</title>
            <title xml:lang="en" type="official">Cowboy Bebop</title>
            <title xml:lang="ja" type="official">カウボーイビバップ</title>
        </titles>
        <startdate>1998-04-03</startdate>
    </anime>"#;

    let result = parse_anime_xml(1, xml).unwrap();

    assert_eq!(result.anidb_id, 1);
    assert_eq!(result.title_main, "Cowboy Bebop");
    assert_eq!(result.title_en, Some("Cowboy Bebop".to_string()));
    assert_eq!(result.release_year, Some(1998));
}

#[test]
fn test_parse_anime_xml_no_english() {
    let xml = r#"<?xml version="1.0" encoding="UTF-8"?>
    <anime id="2">
        <titles>
            <title xml:lang="x-jat" type="main">Some Japanese Title</title>
        </titles>
    </anime>"#;

    let result = parse_anime_xml(2, xml).unwrap();

    assert_eq!(result.title_main, "Some Japanese Title");
    assert!(result.title_en.is_none());
    assert!(result.release_year.is_none());
}

#[test]
fn test_parse_anime_xml_year_only() {
    let xml = r#"<?xml version="1.0" encoding="UTF-8"?>
    <anime id="3">
        <titles>
            <title xml:lang="x-jat" type="main">Test Anime</title>
        </titles>
        <startdate>2020</startdate>
    </anime>"#;

    let result = parse_anime_xml(3, xml).unwrap();

    assert_eq!(result.release_year, Some(2020));
}

#[test]
fn test_parse_anime_xml_no_main_title_uses_official() {
    let xml = r#"<?xml version="1.0" encoding="UTF-8"?>
    <anime id="4">
        <titles>
            <title xml:lang="x-jat" type="official">Fallback Romaji Title</title>
            <title xml:lang="en" type="official">English Title</title>
        </titles>
    </anime>"#;

    let result = parse_anime_xml(4, xml).unwrap();

    assert_eq!(result.title_main, "Fallback Romaji Title");
    assert_eq!(result.title_en, Some("English Title".to_string()));
}

#[test]
fn test_parse_anime_xml_missing_title_error() {
    let xml = r#"<?xml version="1.0" encoding="UTF-8"?>
    <anime id="5">
        <titles>
        </titles>
    </anime>"#;

    let result = parse_anime_xml(5, xml);

    assert!(matches!(
        result,
        Err(ApiError::IncompleteData { anidb_id: 5, .. })
    ));
    if let Err(e) = result {
        assert_eq!(e.message(), "Incomplete data for anime 5: missing main title");
    }
}

#[test]
fn test_parse_anime_xml_main_title_wins_over_official() {
    // The main title stands after the official one and still wins; a later
    // official title does not take its place.
    let xml = r#"<anime id="6">
        <titles>
            <title xml:lang="x-jat" type="official">Official</title>
            <title xml:lang="x-jat" type="main">Main &amp; More</title>
            <title xml:lang="x-jat" type="official">Later</title>
            <title type="main">No language</title>
            <title xml:lang="en" type="synonym">Other</title>
        </titles>
        <startdate>+1999-01-02</startdate>
    </anime>
    <title xml:lang="x-jat" type="main">Outside</title>"#;

    let result = parse_anime_xml(6, xml).unwrap();

    assert_eq!(result.title_main, "Main & More");
    assert!(result.title_en.is_none());
    assert_eq!(result.release_year, Some(1999));
}

#[test]
fn test_parse_anime_xml_start_date_that_is_no_year() {
    for (date, year) in [
        ("unknown", None),
        ("-1998", None),
        ("99999-01-01", None),
        ("65535", Some(65535u16)),
        ("0098-01", Some(98)),
        ("19 98", None),
    ] {
        let xml = format!(
            "<anime><titles><title xml:lang=\"x-jat\" type=\"main\">T</title></titles>\
             <startdate>{}</startdate></anime>",
            date
        );
        assert_eq!(parse_anime_xml(1, &xml).unwrap().release_year, year, "{}", date);
    }
}

#[test]
fn test_parse_anime_xml_not_well_formed() {
    let result = parse_anime_xml(7, "<anime><titles></anime>");
    match result {
        Err(ApiError::ParseError(m)) => {
            assert!(m.starts_with("XML parse error at position "), "{}", m)
        }
        other => panic!("expected a parse error, got {:?}", other),
    }
}

#[test]
fn test_read_tokens() {
    let tokens = read_tokens("<a x=\"1\" y='2'> hi <b/></a><!-- c -->");
    assert_eq!(
        tokens,
        vec![
            XmlToken::Open {
                name: "a".to_string(),
                attributes: vec![
                    ("x".to_string(), "1".to_string()),
                    ("y".to_string(), "2".to_string())
                ],
            },
            XmlToken::Text("hi".to_string()),
            XmlToken::Open { name: "b".to_string(), attributes: vec![] },
            XmlToken::Close { name: "a".to_string() },
            XmlToken::Other,
            XmlToken::End,
        ]
    );
    assert_eq!(read_tokens(""), vec![XmlToken::End]);
}

#[test]
fn test_read_tokens_leaves_out_attributes_that_are_not_well_formed() {
    let tokens = read_tokens("<tag key='value' key='dup' another=''>&lt;b&gt;</tag>");
    assert_eq!(
        tokens,
        vec![
            XmlToken::Open {
                name: "tag".to_string(),
                attributes: vec![
                    ("key".to_string(), "value".to_string()),
                    ("another".to_string(), "".to_string())
                ],
            },
            XmlToken::Text("<b>".to_string()),
            XmlToken::Close { name: "tag".to_string() },
            XmlToken::End,
        ]
    );
}

#[test]
fn test_parse_anime_xml_title_with_repeated_attribute() {
    let xml = "<anime><titles>\
               <title type=\"main\" type=\"official\" xml:lang=\"x-jat\">Kept</title>\
               </titles></anime>";
    let info = parse_anime_xml(3, xml).unwrap();
    assert_eq!(info.title_main, "Kept");
    assert_eq!(info.title_en, None);
}

#[test]
fn test_anime_from_tokens_stops_at_end() {
    let title = |text: &str| {
        vec![
            XmlToken::Open {
                name: "title".to_string(),
                attributes: vec![
                    ("type".to_string(), "official".to_string()),
                    ("xml:lang".to_string(), "en".to_string()),
                    ("type".to_string(), "main".to_string()),
                ],
            },
            XmlToken::Text(text.to_string()),
            XmlToken::Close { name: "title".to_string() },
        ]
    };
    let mut tokens = vec![XmlToken::Open { name: "titles".to_string(), attributes: vec![] }];
    tokens.extend(title("First"));
    tokens.push(XmlToken::End);
    tokens.extend(title("Behind the end"));
    tokens.push(XmlToken::Invalid { position: 3, reason: "late".to_string() });

    let info = anime_from_tokens(9, &tokens).unwrap();
    // The last `type` of a title counts.
    assert_eq!(info.title_main, "First");
    assert_eq!(info.anidb_id, 9);

    let tokens = vec![XmlToken::Invalid { position: 12, reason: "ill-formed".to_string() }];
    match anime_from_tokens(9, &tokens) {
        Err(ApiError::ParseError(m)) => {
            assert_eq!(m, "XML parse error at position 12: ill-formed")
        }
        other => panic!("expected a parse error, got {:?}", other),
    }
    assert!(matches!(
        anime_from_tokens(9, &Vec::new()),
        Err(ApiError::IncompleteData { anidb_id: 9, .. })
    ));
}

#[test]
fn test_parse_error_response_not_found() {
    let body = "<error>Anime not found</error>";

    let result = parse_error_response(body, 99999);

    assert!(matches!(result, Err(ApiError::NotFound(99999))));
}

#[test]
fn test_parse_error_response_banned() {
    let body = "<error>Banned: Client version outdated</error>";

    let result = parse_error_response(body, 1);

    assert!(matches!(result, Err(ApiError::Banned(_))));
    if let Err(ApiError::Banned(m)) = result {
        assert_eq!(m, "Banned: Client version outdated");
    }
}

#[test]
fn test_parse_error_response_generic() {
    let body = "<error>Unknown error occurred</error>";

    let result = parse_error_response(body, 1);

    assert!(matches!(result, Err(ApiError::ServerError(_))));
}

#[test]
fn test_parse_error_response_edge_cases() {
    // The case of the message is of no account.
    assert!(matches!(
        parse_error_response("<error>NO SUCH ANIME</error>", 5),
        Err(ApiError::NotFound(5))
    ));
    assert!(matches!(
        parse_error_response("<x><error>Client not registered</error></x>", 5),
        Err(ApiError::Banned(_))
    ));
    // Without a message that is closed, the whole body is the message.
    for body in ["<error>anime not found", "</error><error>banned", "nothing", ""] {
        match parse_error_response(body, 5) {
            Err(ApiError::ServerError(m)) => assert_eq!(m, body),
            other => panic!("expected a server error, got {:?}", other),
        }
    }
    match parse_error_response("<error></error>", 5) {
        Err(ApiError::ServerError(m)) => assert_eq!(m, ""),
        other => panic!("expected a server error, got {:?}", other),
    }
}

#[test]
fn test_read_response() {
    assert!(matches!(
        read_response(1, 429, "<error>Anime not found</error>"),
        Err(ApiError::RateLimited)
    ));
    assert!(matches!(
        read_response(1, 200, "<error>Anime not found</error>"),
        Err(ApiError::NotFound(1))
    ));
    let xml = "<anime><titles><title xml:lang=\"x-jat\" type=\"main\">T</title></titles></anime>";
    assert_eq!(read_response(1, 200, xml).unwrap().title_main, "T");
    assert!(matches!(
        read_response(1, 500, "<anime/>"),
        Err(ApiError::IncompleteData { .. })
    ));
}

#[test]
fn test_rate_limiter() {
    let mut limiter = RateLimiter::new(100);

    // The first request goes at once, the second waits for the interval.
    assert_eq!(limiter.wait_if_needed(1_000), 0);
    assert_eq!(limiter.wait_if_needed(1_000), 100);
    // The request counts as made after the wait.
    assert_eq!(limiter.wait_if_needed(1_150), 50);
    assert_eq!(limiter.wait_if_needed(1_300), 0);
    assert_eq!(limiter.wait_if_needed(1_399), 1);
    assert_eq!(limiter.wait_if_needed(1_500), 0);
    // A clock that went back counts as no time passed.
    assert_eq!(limiter.wait_if_needed(10), 100);
    // No overflow at the end of time.
    let mut limiter = RateLimiter::new(100);
    assert_eq!(limiter.wait_if_needed(u64::MAX), 0);
    assert_eq!(limiter.wait_if_needed(u64::MAX), 100);
}

#[test]
fn test_retry_policy() {
    // What may pass is tried again, with a wait that doubles.
    for (attempt, wait) in [(1u32, 1u64), (2, 2), (3, 4), (4, 8)] {
        match after_failure(attempt, 5, ApiError::Timeout) {
            RetryDecision::Retry { wait_seconds } => assert_eq!(wait_seconds, wait),
            other => panic!("expected a retry, got {:?}", other),
        }
    }
    assert!(matches!(
        after_failure(1, 3, ApiError::RateLimited),
        RetryDecision::Retry { wait_seconds: 1 }
    ));
    assert!(matches!(
        after_failure(2, 3, ApiError::NetworkError("reset".to_string())),
        RetryDecision::Retry { wait_seconds: 2 }
    ));
    // The last attempt is final.
    assert!(matches!(
        after_failure(3, 3, ApiError::Timeout),
        RetryDecision::GiveUp(ApiError::Timeout)
    ));
    // What cannot pass is final at once.
    assert!(matches!(
        after_failure(1, 3, ApiError::NotFound(7)),
        RetryDecision::GiveUp(ApiError::NotFound(7))
    ));
    assert!(matches!(
        after_failure(1, 3, ApiError::Banned("x".to_string())),
        RetryDecision::GiveUp(ApiError::Banned(_))
    ));
    assert!(matches!(
        after_failure(1, 3, ApiError::ParseError("x".to_string())),
        RetryDecision::GiveUp(ApiError::ParseError(_))
    ));
    assert!(matches!(
        after_failure(1, 3, ApiError::ServerError("x".to_string())),
        RetryDecision::GiveUp(ApiError::ServerError(_))
    ));
    assert!(matches!(
        after_failure(1, 3, ApiError::NotConfigured),
        RetryDecision::GiveUp(ApiError::NotConfigured)
    ));
    assert!(matches!(
        no_attempts(0),
        ApiError::MaxRetriesExceeded { attempts: 0 }
    ));
}

#[test]
fn test_backoff() {
    assert_eq!(backoff(0), 1);
    assert_eq!(backoff(1), 1);
    assert_eq!(backoff(2), 2);
    assert_eq!(backoff(11), 1024);
    assert_eq!(backoff(64), 1 << 63);
    assert_eq!(backoff(65), u64::MAX);
    assert_eq!(backoff(1000), u64::MAX);
}

#[test]
fn test_request_url() {
    let config = ApiConfig::new("myclient", 2);
    assert_eq!(
        request_url(&config, 12345),
        "http://api.anidb.net:9001/httpapi?request=anime&client=myclient&clientver=2&protover=1&aid=12345"
    );
    assert_eq!(user_agent(&config), "myclient/2");
}

#[test]
fn test_config_from_env_defaults() {
    // Neither setting is there
    let config = config_from_env(None, None);

    assert!(config.client_name.is_empty());
    assert_eq!(config.client_version, 1);
    assert!(!config.is_configured());
}

#[test]
fn test_config_from_env_with_values() {
    let config = config_from_env(Some("testclient".to_string()), Some("2".to_string()));

    assert_eq!(config.client_name, "testclient");
    assert_eq!(config.client_version, 2);
    assert!(config.is_configured());
}

#[test]
fn test_config_from_env_version_that_is_no_number() {
    for (text, version) in [
        ("", 1u32),
        ("two", 1),
        ("2 ", 1),
        ("-2", 1),
        ("+2", 2),
        ("+", 1),
        ("007", 7),
        ("4294967295", 4294967295),
        ("4294967296", 1),
        ("٣", 1),
    ] {
        let config = config_from_env(Some("c".to_string()), Some(text.to_string()));
        assert_eq!(config.client_version, version, "{:?}", text);
        assert_eq!(config.client_version, text.parse::<u32>().unwrap_or(1), "{:?}", text);
        assert_eq!(config.timeout_secs, 30);
        assert_eq!(config.max_retries, 3);
        assert_eq!(config.min_request_interval_secs, 2);
    }
}
