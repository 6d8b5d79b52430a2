use cleanweb::rules::{load_rules, render_rules, Config, ConfigError};

fn sources_of(config: &Config) -> Vec<(String, String)> {
    let mut out = Vec::new();
    let mut i: usize = 0;
    while i < config.len() {
        let (host, param) = config.rule_sources(i);
        out.push((host.to_string(), param.to_string()));
        i += 1;
    }
    out
}

fn default_sources() -> Vec<(String, String)> {
    vec![
        ("twitter.com".to_string(), "t|s".to_string()),
        (".*".to_string(), "utm_.*".to_string()),
    ]
}

#[test]
fn missing_store_falls_back_to_the_two_defaults() {
    let config = load_rules(None).expect("defaults should load");
    assert_eq!(config.len(), 2);
    assert_eq!(sources_of(&config), default_sources());
}

#[test]
fn empty_store_falls_back_to_the_two_defaults() {
    let config = load_rules(Some("")).expect("defaults should load");
    assert_eq!(sources_of(&config), default_sources());
}

#[test]
fn stored_rows_load_in_order() {
    let text = "twitter.com,t|s\n.*,utm_.*\n";
    let config = load_rules(Some(text)).expect("rows should load");
    assert_eq!(sources_of(&config), default_sources());
}

#[test]
fn rendered_rules_load_back_identically() {
    let config = load_rules(None).expect("defaults should load");
    let text = render_rules(&config);
    let reloaded = load_rules(Some(&text)).expect("rendered text should load");
    assert_eq!(sources_of(&reloaded), default_sources());
}

#[test]
fn comma_in_a_pattern_survives_the_rule_file() {
    let rows = vec![("a{1,2}".to_string(), "^x$".to_string())];
    let config = Config::from_rows(&rows).expect("pattern should compile");
    let text = render_rules(&config);
    let reloaded = load_rules(Some(&text)).expect("rendered text should load");
    assert_eq!(sources_of(&reloaded), vec![("a{1,2}".to_string(), "^x$".to_string())]);
}

#[test]
fn invalid_pattern_is_rejected() {
    let text = "x.com,[unclosed\n";
    match load_rules(Some(text)) {
        Err(ConfigError::InvalidPattern) => {}
        other => panic!("expected InvalidPattern, got {:?}", other.map(|_| ())),
    }
    let rows = vec![("(".to_string(), "a".to_string())];
    match Config::from_rows(&rows) {
        Err(ConfigError::InvalidPattern) => {}
        other => panic!("expected InvalidPattern, got {:?}", other.map(|_| ())),
    }
}

#[test]
fn malformed_rows_are_rejected() {
    match load_rules(Some("a,b\nc\n")) {
        Err(ConfigError::InvalidCsv) => {}
        other => panic!("expected InvalidCsv, got {:?}", other.map(|_| ())),
    }
    match load_rules(Some("a\nb\n")) {
        Err(ConfigError::InvalidCsv) => {}
        other => panic!("expected InvalidCsv, got {:?}", other.map(|_| ())),
    }
}

#[test]
fn config_error_variants_are_distinct() {
    assert_ne!(ConfigError::InvalidCsv, ConfigError::InvalidPattern);
    assert_ne!(ConfigError::InvalidPattern, ConfigError::IOFailure);
    assert_ne!(ConfigError::InvalidCsv, ConfigError::IOFailure);
}

#[test]
fn rule_matching_is_reachable_from_the_config() {
    let config = load_rules(None).expect("defaults should load");
    assert!(config.strips("twitter.com", "t"));
    assert!(config.strips("twitter.com", "s"));
    assert!(!config.strips("twitter.com", "id"));
    assert!(config.strips("example.com", "utm_source"));
    assert!(!config.strips("example.com", "keep"));
}
