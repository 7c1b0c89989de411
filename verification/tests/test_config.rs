use engai::config::{expand_tilde_with, join_path, Config, ServerConfig, StorageConfig};

#[test]
fn test_default_config() {
    let config = Config::default();

    assert_eq!(config.server.port, 3000);
    assert_eq!(config.server.host, "127.0.0.1");
    assert_eq!(config.ai.provider, "kimi");
    assert_eq!(config.learning.daily_new_words, 20);
    assert_eq!(config.learning.daily_review_limit, 100);
    assert_eq!(config.learning.default_deck, "01_vocab");
    assert_eq!(config.storage.db_path, "~/.engai/engai.db");
    assert_eq!(config.storage.docs_path, "./docs");
}

#[test]
fn test_config_dir() {
    let dir = Config::config_dir().expect("failed to determine home directory");
    let dir = String::from_utf8_lossy(&dir).to_string();
    let last = std::path::Path::new(&dir).file_name().unwrap().to_string_lossy().to_string();
    assert_eq!(last, ".engai");
}

#[test]
fn test_config_file_path() {
    let path = Config::config_file_path().expect("failed to determine home directory");
    let path = String::from_utf8_lossy(&path).to_string();
    let last = std::path::Path::new(&path).file_name().unwrap().to_string_lossy().to_string();
    assert_eq!(last, "config.toml");
    assert!(
        path.contains(".engai"),
        "config file path should contain .engai"
    );
}

#[test]
fn default_prompts_and_parts() {
    assert_eq!(engai::config::default_prompts_path(), "./prompts");
    assert_eq!(StorageConfig::default().prompts_path, "./prompts");
    assert_eq!(ServerConfig::default().port, 3000);
    let c = Config::default();
    assert_eq!(c.ai.api_key, "");
    assert_eq!(c.ai.model, "");
    assert_eq!(c.ai.base_url, "");
}

#[test]
fn join_follows_path_rules() {
    assert_eq!(join_path(b"/home/u", b".engai"), b"/home/u/.engai".to_vec());
    assert_eq!(join_path(b"/home/u/", b".engai"), b"/home/u/.engai".to_vec());
    assert_eq!(join_path(b"", b"x"), b"x".to_vec());
    assert_eq!(join_path(b"/home/u", b"/etc"), b"/etc".to_vec());
    assert_eq!(Config::config_file_path_in(b"/h"), b"/h/.engai/config.toml".to_vec());
    assert_eq!(Config::config_dir_in(b"/h/"), b"/h/.engai".to_vec());
    assert_eq!(engai::config::join_text("/tmp/p", "a.md"), "/tmp/p/a.md");
}

#[test]
fn tilde_expansion() {
    let home = Some(b"/home/u".to_vec());
    assert_eq!(expand_tilde_with("~/.engai/engai.db", home.clone()), b"/home/u/.engai/engai.db".to_vec());
    assert_eq!(expand_tilde_with("~/.engai/engai.db", None), b"~/.engai/engai.db".to_vec());
    assert_eq!(expand_tilde_with("./docs", home.clone()), b"./docs".to_vec());
    assert_eq!(expand_tilde_with("~x", home), b"~x".to_vec());
    let c = Config::default();
    assert_eq!(c.docs_path(), b"./docs".to_vec());
    assert_eq!(c.prompts_path(), b"./prompts".to_vec());
    assert!(c.db_path().ends_with(b".engai/engai.db"));
}

#[test]
fn home_that_is_not_utf8_is_kept_byte_for_byte() {
    let home = Some(vec![b'/', 0xff, 0xfe]);
    assert_eq!(expand_tilde_with("~/db", home), vec![b'/', 0xff, 0xfe, b'/', b'd', b'b']);
    assert_eq!(Config::config_dir_in(&[b'/', 0xff]), vec![b'/', 0xff, b'/', b'.', b'e', b'n', b'g', b'a', b'i']);
}

#[test]
fn api_key_comes_from_settings_first() {
    let mut c = Config::default();
    assert_eq!(c.resolve_api_key(Some("env".to_string())), "env");
    assert_eq!(c.resolve_api_key(None), "");
    c.ai.api_key = "set".to_string();
    assert_eq!(c.resolve_api_key(Some("env".to_string())), "set");
}
