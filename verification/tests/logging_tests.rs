use anidb2folder::logging::{level_for, shows_target, LogLevel};

#[test]
fn test_verbosity_level_mapping() {
    assert_eq!(level_for(0u8), LogLevel::Warn);
    assert_eq!(level_for(1u8), LogLevel::Info);
    assert_eq!(level_for(2u8), LogLevel::Debug);
    assert_eq!(level_for(3u8), LogLevel::Trace);
}

#[test]
fn test_verbosity_beyond_three_is_trace() {
    assert_eq!(level_for(4), LogLevel::Trace);
    assert_eq!(level_for(255), LogLevel::Trace);
}

#[test]
fn test_log_target_shown_from_second_level() {
    assert!(!shows_target(0));
    assert!(!shows_target(1));
    assert!(shows_target(2));
    assert!(shows_target(3));
}
