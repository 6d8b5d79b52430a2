use cleanweb::rewrite::{rewrite, RewriteOutcome};
use cleanweb::rules::{load_rules, Config};

fn config_of(rules: &[(&str, &str)]) -> Config {
    let rows: Vec<(String, String)> = rules
        .iter()
        .map(|(h, p)| (h.to_string(), p.to_string()))
        .collect();
    Config::from_rows(&rows).expect("patterns should compile")
}

fn default_config() -> Config {
    load_rules(None).expect("built-in defaults should compile")
}

fn changed_text(outcome: RewriteOutcome) -> String {
    match outcome {
        RewriteOutcome::Changed(s) => s,
        RewriteOutcome::Unchanged => panic!("expected a changed outcome"),
    }
}

fn assert_unchanged(outcome: RewriteOutcome) {
    match outcome {
        RewriteOutcome::Unchanged => {}
        RewriteOutcome::Changed(s) => panic!("expected an unchanged outcome, got {}", s),
    }
}

#[test]
fn non_url_text_passes_through() {
    let config = default_config();
    assert_unchanged(rewrite(&config, "not a url at all"));
    assert_unchanged(rewrite(&config, "hello utm_source=1"));
    assert_unchanged(rewrite(&config, ""));
}

#[test]
fn hostless_url_is_never_mutated() {
    let config = default_config();
    assert_unchanged(rewrite(&config, "mailto:user@example.com?utm_source=a&t=1"));
    assert_unchanged(rewrite(&config, "data:text/plain,utm_source=x"));
}

#[test]
fn rules_are_unioned_not_short_circuited() {
    let config = config_of(&[(".*", "^a$"), (".*", "^b$")]);
    let out = changed_text(rewrite(&config, "https://x.com/?a=1&b=2&c=3"));
    assert_eq!(out, "https://x.com/?c=3");
}

#[test]
fn retained_parameters_keep_their_order() {
    let config = config_of(&[(".*", "^b$")]);
    let out = changed_text(rewrite(&config, "https://x.com/?z=1&b=2&a=3&m=4"));
    assert_eq!(out, "https://x.com/?z=1&a=3&m=4");
}

#[test]
fn empty_query_collapses_without_question_mark() {
    let config = config_of(&[("x.com", "t")]);
    let out = changed_text(rewrite(&config, "https://x.com/?t=1"));
    assert_eq!(out, "https://x.com/");
}

#[test]
fn duplicate_keys_are_all_stripped() {
    let config = config_of(&[("x.com", "^t$")]);
    let out = changed_text(rewrite(&config, "https://x.com/?t=1&t=2"));
    assert_eq!(out, "https://x.com/");
}

#[test]
fn default_rules_end_to_end() {
    let config = default_config();
    let out = changed_text(rewrite(&config, "https://twitter.com/u/status?t=abc&s=1&id=5"));
    assert_eq!(out, "https://twitter.com/u/status?id=5");
    let out = changed_text(rewrite(&config, "https://example.com/?utm_source=x&keep=1"));
    assert_eq!(out, "https://example.com/?keep=1");
}

#[test]
fn already_clean_url_stays_unchanged() {
    let config = default_config();
    assert_unchanged(rewrite(&config, "https://example.com/?keep=1"));
    assert_unchanged(rewrite(&config, "https://example.com/"));
}

#[test]
fn rewriting_twice_changes_nothing_more() {
    let config = default_config();
    let once = changed_text(rewrite(
        &config,
        "https://twitter.com/u/status?t=abc&s=1&id=5",
    ));
    assert_unchanged(rewrite(&config, &once));

    let config = config_of(&[(".*", "^b$")]);
    let once = changed_text(rewrite(&config, "https://x.com/?z=1&b=2&a=3"));
    assert_unchanged(rewrite(&config, &once));
}

#[test]
fn decoded_pairs_are_reencoded_canonically() {
    let config = config_of(&[("x.com", "^t$")]);
    let out = changed_text(rewrite(&config, "https://x.com/?t=1&a=b%20c"));
    assert_eq!(out, "https://x.com/?a=b+c");
}

#[test]
fn fragment_survives_a_collapsed_query() {
    let config = config_of(&[("x.com", "^t$")]);
    let out = changed_text(rewrite(&config, "https://x.com/?t=1#frag"));
    assert_eq!(out, "https://x.com/#frag");
}

#[test]
fn encoded_delimiters_in_values_stay_encoded() {
    let config = config_of(&[("x.com", "^t$")]);
    let out = changed_text(rewrite(&config, "https://x.com/?t=1&a=x%3Dy%26z"));
    assert_eq!(out, "https://x.com/?a=x%3Dy%26z");
}

#[test]
fn bracketed_hosts_match_patterns_too() {
    let config = config_of(&[(".*", "^utm_")]);
    let out = changed_text(rewrite(&config, "https://[::1]:8080/?utm_source=a&k=1"));
    assert_eq!(out, "https://[::1]:8080/?k=1");
}

#[test]
fn matching_is_pattern_defined_not_whole_key() {
    // Patterns are unanchored searches: the default `t|s` pattern strips any
    // key containing a `t` or an `s` on matching hosts.
    let config = default_config();
    let out = changed_text(rewrite(&config, "https://twitter.com/?state=5&id=3"));
    assert_eq!(out, "https://twitter.com/?id=3");
}

#[test]
fn host_pattern_limits_the_rule() {
    let config = config_of(&[("x.com", "^t$")]);
    assert_unchanged(rewrite(&config, "https://other.org/?t=1"));
    let out = changed_text(rewrite(&config, "https://x.com/path?t=1&u=2"));
    assert_eq!(out, "https://x.com/path?u=2");
}
