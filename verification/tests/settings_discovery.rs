use leptosfmt::discovery::{candidate_in, discover, discovery_notice, DiscoveryWalk};
use leptosfmt::expand::glob_pattern_for;
use leptosfmt::settings::{apply_overrides, choose_config_source, default_settings,
    resolve_settings, ConfigSource};

#[test]
fn defaults_when_no_config_resolves() {
    let s = resolve_settings(None, None, None).expect("no config file never fails");
    assert_eq!(s.max_width, 100);
    assert_eq!(s.tab_spaces, 4);
    assert_eq!(s.macro_names, vec!["leptos::view".to_string(), "view".to_string()]);
}

#[test]
fn config_file_wins_over_defaults() {
    let s = resolve_settings(Some("max_width = 80"), None, None).expect("well-formed config");
    assert_eq!(s.max_width, 80);
    assert_eq!(s.tab_spaces, 4);
}

#[test]
fn explicit_override_wins_over_config_file() {
    // The file says width 80; the explicit flag says 100; the flag wins.
    let s = resolve_settings(Some("max_width = 80"), Some(100), None)
        .expect("well-formed config");
    assert_eq!(s.max_width, 100);
    assert_eq!(s.tab_spaces, 4);
}

#[test]
fn overrides_apply_without_a_config_file() {
    let s = resolve_settings(None, Some(120), Some(2)).expect("no config file never fails");
    assert_eq!(s.max_width, 120);
    assert_eq!(s.tab_spaces, 2);
}

#[test]
fn malformed_config_is_fatal() {
    assert!(resolve_settings(Some("max_width = "), None, None).is_err());
    assert!(resolve_settings(Some("not toml at all ["), Some(100), None).is_err());
}

#[test]
fn overrides_keep_every_other_field() {
    let base = default_settings();
    let expected_macros = base.macro_names.clone();
    let s = apply_overrides(base, Some(90), None);
    assert_eq!(s.max_width, 90);
    assert_eq!(s.tab_spaces, 4);
    assert_eq!(s.macro_names, expected_macros);
}

#[test]
fn config_settings_parse_both_known_fields() {
    let s = resolve_settings(Some("max_width = 64\ntab_spaces = 8"), None, None)
        .expect("well-formed config");
    assert_eq!(s.max_width, 64);
    assert_eq!(s.tab_spaces, 8);
}

#[test]
fn explicit_config_path_is_used_in_place_of_discovery() {
    match choose_config_source(Some("custom.toml".to_string())) {
        ConfigSource::Explicit(path) => assert_eq!(path, "custom.toml"),
        ConfigSource::Discover => panic!("an explicit path must bypass discovery"),
    }
    assert!(matches!(choose_config_source(None), ConfigSource::Discover));
}

#[test]
fn walk_visits_every_ancestor_and_stops_at_root() {
    let mut w = DiscoveryWalk::start(vec!["home".to_string(), "user".to_string()]);
    assert_eq!(w.candidate(), "/home/user/leptosfmt.toml");
    assert!(w.ascend());
    assert_eq!(w.candidate(), "/home/leptosfmt.toml");
    assert!(w.ascend());
    // The root itself is still checked, then the walk ends cleanly.
    assert_eq!(w.candidate(), "/leptosfmt.toml");
    assert!(!w.ascend());
    assert_eq!(w.candidate(), "/leptosfmt.toml");
}

#[test]
fn discovery_without_the_file_anywhere_returns_none() {
    let start = vec!["a".to_string(), "b".to_string(), "c".to_string()];
    let present = vec![false, false, false, false];
    assert!(discover(&start, &present).is_none());
}

#[test]
fn discovery_returns_the_first_hit_walking_upward() {
    let start = vec!["a".to_string(), "b".to_string()];
    let present = vec![false, true, true];
    assert_eq!(discover(&start, &present), Some("/a/leptosfmt.toml".to_string()));
}

#[test]
fn discovery_from_the_root_checks_exactly_the_root() {
    assert_eq!(
        discover(&vec![], &vec![true]),
        Some("/leptosfmt.toml".to_string())
    );
    assert!(discover(&vec![], &vec![false]).is_none());
}

#[test]
fn candidate_prefixes_follow_the_segments() {
    let segs = vec!["srv".to_string(), "www".to_string(), "site".to_string()];
    assert_eq!(candidate_in(&segs, 3), "/srv/www/site/leptosfmt.toml");
    assert_eq!(candidate_in(&segs, 1), "/srv/leptosfmt.toml");
    assert_eq!(candidate_in(&segs, 0), "/leptosfmt.toml");
}

#[test]
fn discovery_notice_names_the_path() {
    assert_eq!(
        discovery_notice("/home/user/leptosfmt.toml"),
        "Discovered config at /home/user/leptosfmt.toml"
    );
}

#[test]
fn directory_inputs_rewrite_to_recursive_source_patterns() {
    assert_eq!(glob_pattern_for("examples/site", true), "examples/site/**/*.rs");
    assert_eq!(glob_pattern_for("src/*.rs", false), "src/*.rs");
    assert_eq!(glob_pattern_for("lib.rs", false), "lib.rs");
}
