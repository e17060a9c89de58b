use anidb2folder::cli::{Args, Command};

fn args() -> Args {
    Args::default()
}

#[test]
fn test_args_default() {
    let args = args();
    assert!(args.target_dir.is_none());
    assert!(!args.dry);
    assert_eq!(args.verbose, 0);
    assert_eq!(args.max_length, 255);
    assert_eq!(args.cache_expiry, 30);
    assert!(!args.is_complete());
    assert!(!args.is_verbose());
    assert_eq!(args.command(), Command::Nothing);
}

#[test]
fn test_missing_target_dir() {
    let mut a = args();
    a.dry = true;
    a.verbose = 2;
    assert!(!a.is_complete());
    assert!(a.is_verbose());

    a.target_dir = Some("/anime".to_string());
    assert!(a.is_complete());
    assert_eq!(a.command(), Command::Rename("/anime".to_string()));
}

#[test]
fn test_revert_flag_takes_the_directory_along() {
    let mut a = args();
    a.revert = Some("/anime/h.json".to_string());
    assert!(a.is_complete());
    assert_eq!(
        a.command(),
        Command::Revert { history_file: "/anime/h.json".to_string(), target_dir: None }
    );

    a.target_dir = Some("/anime".to_string());
    assert_eq!(
        a.command(),
        Command::Revert {
            history_file: "/anime/h.json".to_string(),
            target_dir: Some("/anime".to_string())
        }
    );
}

#[test]
fn test_cache_commands_come_first() {
    let mut a = args();
    a.target_dir = Some("/anime".to_string());
    a.revert = Some("/anime/h.json".to_string());
    a.cache_prune = Some("/p".to_string());
    assert_eq!(a.command(), Command::CachePrune("/p".to_string()));
    a.cache_clear = Some("/c".to_string());
    assert_eq!(a.command(), Command::CacheClear("/c".to_string()));
    a.cache_info = Some("/i".to_string());
    assert_eq!(a.command(), Command::CacheInfo("/i".to_string()));
}
