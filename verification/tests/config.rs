use otrack::config::{contains_name, BlacklistConfig, Config, GeneralConfig, WorkAppsConfig};

fn config_with_path(path: &str) -> Config {
    Config {
        general: GeneralConfig {
            database_path: path.to_string(),
            idle_timeout: 300,
            grace_period: 30,
        },
        blacklist: BlacklistConfig { apps: vec!["discord".to_string()], block_during_focus: true },
        work_apps: WorkAppsConfig { apps: vec![] },
    }
}

#[test]
fn default_config_values() {
    let c = Config::default_config();
    assert_eq!(c.general.database_path, "~/.local/share/otrack/usage.db");
    assert_eq!(c.general.idle_timeout, 300);
    assert_eq!(c.general.grace_period, 30);
    assert_eq!(c.blacklist.apps, vec!["discord", "slack", "spotify"]);
    assert!(c.blacklist.block_during_focus);
    assert_eq!(c.work_apps.apps, vec!["foot", "neovim", "zed"]);
}

#[test]
fn db_path_expands_home() {
    let c = Config::default_config();
    assert_eq!(c.db_path("/home/ana"), "/home/ana/.local/share/otrack/usage.db");
    assert_eq!(c.db_path(""), "/.local/share/otrack/usage.db");
}

#[test]
fn db_path_keeps_other_paths() {
    assert_eq!(config_with_path("/var/lib/usage.db").db_path("/home/ana"), "/var/lib/usage.db");
    assert_eq!(config_with_path("~").db_path("/home/ana"), "~");
    assert_eq!(config_with_path("~bob/usage.db").db_path("/home/ana"), "~bob/usage.db");
    assert_eq!(config_with_path("").db_path("/home/ana"), "");
    assert_eq!(config_with_path("~/").db_path("/h"), "/h/");
}

#[test]
fn db_path_replaces_only_the_leading_tilde() {
    assert_eq!(config_with_path("~/a~b/c").db_path("/h"), "/h/a~b/c");
}

#[test]
fn blacklist_lookup() {
    let c = Config::default_config();
    assert!(c.is_blacklisted(&"slack".to_string()));
    assert!(!c.is_blacklisted(&"Slack".to_string()));
    assert!(!c.is_blacklisted(&"zed".to_string()));
    assert!(contains_name(&vec!["a".to_string(), "b".to_string()], &"b".to_string()));
    assert!(!contains_name(&Vec::new(), &"b".to_string()));
}
