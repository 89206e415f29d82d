use kerr::config::{
    cache_dir_from, config_dir_from, config_file_in, get_cache_dir, get_config_dir,
    session_file_in, ConfigError, ServerConfig,
};

#[test]
fn test_admin_hash_verification() {
    let config = ServerConfig {
        server_url: "https://example.com".to_string(),
        admin_password: "test_password".to_string(),
    };

    let hash = config.get_admin_hash();
    assert!(config.verify_admin_hash(&hash));
    assert!(!config.verify_admin_hash("wrong_hash"));
}

#[test]
fn admin_hash_is_blake3_hex_of_password() {
    let config = ServerConfig {
        server_url: "https://example.com".to_string(),
        admin_password: "test_password".to_string(),
    };
    let expected = blake3::hash(b"test_password").to_hex().to_string();
    assert_eq!(config.get_admin_hash(), expected);
    assert_eq!(config.get_admin_hash().len(), 64);
    assert!(!config.verify_admin_hash(&expected.to_uppercase()));
}

#[test]
fn config_and_session_files_are_in_the_directory() {
    assert_eq!(config_file_in("/home/u/.config/kerr"), "/home/u/.config/kerr/config.json");
    assert_eq!(config_file_in("/home/u/.config/kerr/"), "/home/u/.config/kerr/config.json");
    assert_eq!(session_file_in("/cfg"), "/cfg/session.json");
}

#[test]
fn test_config_dir_from_found_and_missing() {
    assert_eq!(
        config_dir_from(Some("/home/alice/.config/kerr".to_string())),
        Ok("/home/alice/.config/kerr".to_string())
    );
    assert_eq!(config_dir_from(None), Err(ConfigError::NoConfigDir));
}

#[test]
fn test_cache_dir_from_found_and_missing() {
    assert_eq!(
        cache_dir_from(Some("/home/alice/.cache/kerr".to_string())),
        Ok("/home/alice/.cache/kerr".to_string())
    );
    assert_eq!(cache_dir_from(None), Err(ConfigError::NoCacheDir));
}

#[test]
fn test_platform_dirs_are_non_empty() {
    match get_config_dir() {
        Ok(d) => assert!(!d.is_empty()),
        Err(e) => assert_eq!(e, ConfigError::NoConfigDir),
    }
    match get_cache_dir() {
        Ok(d) => assert!(!d.is_empty()),
        Err(e) => assert_eq!(e, ConfigError::NoCacheDir),
    }
}
