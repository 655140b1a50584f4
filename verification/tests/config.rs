use csm::csmrc::{Config, ConfigError, CsmrcFile};

#[test]
fn default_config_downloads_and_runs() {
    let config = Config::default();
    assert_eq!(config.mamba_root_prefix, None);
    assert!(!config.noop_mode);
    assert_eq!(config.cache_dir, None);
    assert!(config.download_micromamba);
}

#[test]
fn no_home_directory_gives_the_defaults() {
    assert_eq!(Config::from_csmrc(CsmrcFile::NoHome), Ok(Config::default()));
}

#[test]
fn missing_file_gives_the_defaults() {
    assert_eq!(Config::from_csmrc(CsmrcFile::Missing), Ok(Config::default()));
}

#[test]
fn unreadable_file_is_an_error() {
    let found = CsmrcFile::Unreadable("Permission denied (os error 13)".to_string());
    assert_eq!(
        Config::from_csmrc(found),
        Err(ConfigError::Unreadable("Permission denied (os error 13)".to_string()))
    );
}

#[test]
fn invalid_file_is_an_error() {
    let found = CsmrcFile::Invalid("noop_mode: invalid type".to_string());
    assert_eq!(
        Config::from_csmrc(found),
        Err(ConfigError::Invalid("noop_mode: invalid type".to_string()))
    );
}

#[test]
fn parsed_file_is_taken_as_it_is() {
    let parsed = Config {
        mamba_root_prefix: Some("/opt/mamba".to_string()),
        noop_mode: false,
        cache_dir: Some("/tmp/cache".to_string()),
        download_micromamba: false,
    };
    assert_eq!(Config::from_csmrc(CsmrcFile::Parsed(parsed.clone())), Ok(parsed));
}

#[test]
fn command_line_turns_noop_mode_on() {
    let config = Config::default().with_noop(true);
    assert!(config.noop_mode);
    assert_eq!(config.mamba_root_prefix, None);
    assert_eq!(config.cache_dir, None);
    assert!(config.download_micromamba);
}

#[test]
fn command_line_never_turns_noop_mode_off() {
    let from_file = Config { noop_mode: true, ..Config::default() };
    assert!(from_file.clone().with_noop(false).noop_mode);
    assert!(from_file.with_noop(true).noop_mode);
    assert!(!Config::default().with_noop(false).noop_mode);
}
