use ezcfg::config::Config;
use ezcfg::error::ReadConfigError;
use ezcfg::read_config::check_config_kind;
use ezcfg::read_config::config_file_candidates;
use ezcfg::read_config::read_config;

#[test]
fn test_creation() {
    let links = vec![
        ("a.txt".to_string(), "b.txt".to_string()),
        ("c.txt".to_string(), "d.txt".to_string()),
    ];
    let _config = Config::new(links, false);
}

#[test]
fn new_keeps_links_and_rewrite() {
    let links = vec![("a".to_string(), "b".to_string())];
    let config = Config::new(links.clone(), true);
    assert_eq!(config.links, links);
    assert!(config.rewrite);
}

#[test]
fn default_config_is_empty() {
    let config = Config::default();
    assert_eq!(config.links.len(), 0);
    assert!(!config.rewrite);
}

#[test]
fn candidates_are_joined_onto_the_working_directory() {
    let candidates = config_file_candidates("/work");
    assert_eq!(
        candidates,
        vec!["/work/.ezcfg.toml".to_string(), "/work/.ezcfg/ezcfg.toml".to_string()]
    );
}

#[test]
fn only_toml_is_a_supported_config_kind() {
    assert_eq!(check_config_kind("a/b.toml", "toml"), Ok(()));
    assert_eq!(
        check_config_kind("a/b.unknown", "unknown"),
        Err(ReadConfigError::UnsupportedConfigFile("a/b.unknown".to_string()))
    );
}

#[test]
fn read_config_picks_the_first_existing_candidate() {
    assert_eq!(read_config(&vec![false, true]), Some(1));
    assert_eq!(read_config(&vec![true, true]), Some(0));
    assert_eq!(read_config(&vec![false, false]), None);
    assert_eq!(read_config(&vec![]), None);
}
