use wireman::config::{
    default_autosave, expanded_or_unchanged, shell_expand, Config, HistoryConfig, LogLevel, LoggingConfig,
    ServerConfig, TlsConfig,
};

fn config(includes: Vec<&str>, files: Vec<&str>) -> Config {
    Config {
        includes: includes.into_iter().map(String::from).collect(),
        files: files.into_iter().map(String::from).collect(),
        history: HistoryConfig::default(),
        server: ServerConfig::default(),
        logging: LoggingConfig::default(),
        tls: TlsConfig::default(),
    }
}

#[test]
fn builders_keep_their_arguments() {
    let server = ServerConfig::new("http://localhost:50051");
    assert_eq!(server.default_address, "http://localhost:50051");
    let history = HistoryConfig::new("/Users/test", false, true);
    assert_eq!(history.directory, "/Users/test");
    assert!(!history.autosave);
    assert!(history.disabled);
    let tls = TlsConfig::new(Some("cert.pem".to_string()));
    assert_eq!(tls.custom_cert, Some("cert.pem".to_string()));
    let logging = LoggingConfig::new(LogLevel::Debug, "/Users");
    assert_eq!(logging.level, LogLevel::Debug);
    assert_eq!(logging.directory, "/Users");
}

#[test]
fn defaults_are_empty_with_autosave_on() {
    assert!(default_autosave());
    let history = HistoryConfig::default();
    assert_eq!(history.directory, "");
    assert!(history.autosave);
    assert!(!history.disabled);
    assert_eq!(ServerConfig::default().default_address, "");
    assert_eq!(TlsConfig::default().custom_cert, None);
    assert_eq!(LoggingConfig::default().level, LogLevel::Info);
    assert_eq!(LoggingConfig::default().directory, "");
    assert_eq!(LogLevel::default(), LogLevel::Info);
    assert_eq!(LoggingConfig::file_name(), "wireman.log");
}

#[test]
fn paths_without_variables_are_left_alone() {
    let cfg = config(vec!["/Users/myworkspace", "relative/dir"], vec!["api.proto", "internal.proto"]);
    assert_eq!(cfg.includes(), vec!["/Users/myworkspace".to_string(), "relative/dir".to_string()]);
    assert_eq!(cfg.files(), vec!["api.proto".to_string(), "internal.proto".to_string()]);
    assert_eq!(HistoryConfig::new("/Users/test", true, false).directory_expanded(), "/Users/test");
    assert_eq!(LoggingConfig::new(LogLevel::Warn, "/var/log").directory_expanded(), "/var/log");
    assert!(config(vec![], vec![]).includes().is_empty());
}

#[test]
fn variables_are_expanded() {
    let cfg = config(vec!["${WIREMAN_TEST_SURELY_UNSET_VARIABLE:-fallback}/workspace"], vec![]);
    assert_eq!(cfg.includes(), vec!["fallback/workspace".to_string()]);
    assert_eq!(
        shell_expand(&"a/${WIREMAN_TEST_SURELY_UNSET_VARIABLE:-b}/c".to_string()),
        "a/b/c"
    );
}

#[test]
fn paths_with_an_unset_variable_stay_as_written() {
    let cfg = config(vec![], vec!["$WIREMAN_TEST_SURELY_UNSET_VARIABLE/api.proto"]);
    assert_eq!(cfg.files(), vec!["$WIREMAN_TEST_SURELY_UNSET_VARIABLE/api.proto".to_string()]);
}

#[test]
fn expanded_or_unchanged_prefers_the_expansion() {
    let written = "$HOME/x".to_string();
    assert_eq!(expanded_or_unchanged(&written, Some("/home/me/x".to_string())), "/home/me/x");
    assert_eq!(expanded_or_unchanged(&written, None), "$HOME/x");
}

#[test]
fn test_shell_expand() {
    let cfg = Config {
        includes: vec!["$HOME/workspace".to_string()],
        files: vec![],
        tls: TlsConfig::default(),
        server: ServerConfig::default(),
        logging: LoggingConfig::default(),
        history: HistoryConfig::default(),
    };
    let got = cfg.includes();
    let home = shellexpand::env("$HOME").unwrap();
    assert_eq!(got.first(), Some(&format!("{home}/workspace")));
}
