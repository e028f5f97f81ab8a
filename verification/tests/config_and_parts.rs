use xdotter::config::{config_document, default_config, parse_config, Config};
use xdotter::log::{level_for, LogLevel};
use xdotter::paths::{expand_tilde, is_abs, join_path, path_under};
use xdotter::report::ErrorKind;
use xdotter::run_mode::{init_run_mode, RunArgs};

fn pairs(v: &[(String, String)]) -> Vec<(&str, &str)> {
    v.iter().map(|p| (p.0.as_str(), p.1.as_str())).collect()
}

#[test]
fn parse_reads_both_tables() {
    let text = "[links]\n\"a.txt\" = \"~/.a\"\n[dependencies]\ngo = \"testdata/go\"\n";
    let c = parse_config(text).unwrap();
    assert_eq!(pairs(&c.links), vec![("a.txt", "~/.a")]);
    assert_eq!(pairs(&c.dependencies), vec![("go", "testdata/go")]);
}

#[test]
fn parse_treats_absent_tables_as_empty() {
    let c = parse_config("").unwrap();
    assert!(c.links.is_empty());
    assert!(c.dependencies.is_empty());
}

#[test]
fn parse_ignores_unknown_tables() {
    let c = parse_config("[extra]\nx = \"y\"\n[links]\na = \"~/.a\"\n").unwrap();
    assert_eq!(pairs(&c.links), vec![("a", "~/.a")]);
}

#[test]
fn parse_rejects_a_document_that_is_not_toml() {
    assert_eq!(parse_config("not = toml ["), Err(ErrorKind::ConfigMalformed));
}

#[test]
fn parse_rejects_a_non_table_links_value() {
    assert_eq!(parse_config("links = 3\n"), Err(ErrorKind::ConfigMalformed));
}

#[test]
fn parse_rejects_a_non_string_link_entry() {
    assert_eq!(
        parse_config("[links]\na = 3\n"),
        Err(ErrorKind::ConfigMalformed)
    );
}

#[test]
fn default_configuration_has_the_example_entries() {
    let c = default_config();
    assert_eq!(pairs(&c.dependencies), vec![("go", "testdata/go")]);
    assert_eq!(pairs(&c.links), vec![("testdata/mm", "~/.cache/mm")]);
}

#[test]
fn default_configuration_round_trips_through_a_document() {
    let c = default_config();
    let doc = config_document(&c).unwrap();
    let back = parse_config(doc.as_str()).unwrap();
    assert_eq!(pairs(&back.dependencies), pairs(&c.dependencies));
    assert_eq!(pairs(&back.links), pairs(&c.links));
}

#[test]
fn serialized_document_holds_real_toml_tables() {
    let c = Config {
        dependencies: vec![("a".to_string(), "b".to_string())],
        links: vec![("x/y".to_string(), "~/.z".to_string())],
    };
    let doc = config_document(&c).unwrap();
    assert!(doc.contains("[dependencies]"));
    assert!(doc.contains("[links]"));
    let back = parse_config(doc.as_str()).unwrap();
    assert_eq!(pairs(&back.links), vec![("x/y", "~/.z")]);
    assert_eq!(pairs(&back.dependencies), vec![("a", "b")]);
}

#[test]
fn tilde_is_expanded_only_at_the_start() {
    assert_eq!(expand_tilde("~/.a", "/home/u"), "/home/u/.a");
    assert_eq!(expand_tilde("/x/~y", "/home/u"), "/x/~y");
    assert_eq!(expand_tilde("plain", "/home/u"), "plain");
    assert_eq!(expand_tilde("~", "/home/u"), "/home/u");
}

#[test]
fn join_keeps_absolute_and_resolves_relative_paths() {
    assert_eq!(join_path("/d", "a.txt"), "/d/a.txt");
    assert_eq!(join_path("/d", "/etc/x"), "/etc/x");
    assert!(is_abs("/etc/x"));
    assert!(!is_abs("etc/x"));
    assert!(!is_abs(""));
}

#[test]
fn path_under_is_strict_prefix_with_separator() {
    assert!(path_under("/d", "/d/x"));
    assert!(path_under("/d", "/d/x/y"));
    assert!(!path_under("/d", "/d"));
    assert!(!path_under("/d", "/dx"));
    assert!(!path_under("/d", "/e/x"));
}

#[test]
fn run_mode_mirrors_the_arguments() {
    let a = RunArgs {
        config: "xdotter.toml".to_string(),
        verbose: false,
        dry_run: true,
        interactive: false,
        force: true,
        quiet: false,
    };
    let m = init_run_mode(&a);
    assert!(m.dry_run);
    assert!(!m.interactive);
    assert!(m.force);
}

#[test]
fn default_arguments_match_the_conventional_file() {
    let a = RunArgs::default();
    assert_eq!(a.config, "xdotter.toml");
    assert!(a.verbose);
    assert!(!a.dry_run);
    assert!(!a.interactive);
    assert!(!a.force);
    assert!(!a.quiet);
}

#[test]
fn log_levels_order_and_filter() {
    assert!(LogLevel::Trace < LogLevel::Debug);
    assert!(LogLevel::Info < LogLevel::Verbose);
    assert!(LogLevel::Error < LogLevel::Fatal);
    assert!(LogLevel::Fatal < LogLevel::Off);
    assert!(LogLevel::Error.at_least(&LogLevel::Info));
    assert!(!LogLevel::Debug.at_least(&LogLevel::Info));
    assert_eq!(level_for(true, false), LogLevel::Trace);
    assert_eq!(level_for(false, true), LogLevel::Error);
    assert_eq!(level_for(true, true), LogLevel::Error);
    assert_eq!(level_for(false, false), LogLevel::Info);
}
