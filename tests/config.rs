use batch_analyzer::config::{resolve_name, resolve_prefix, Config, ConfigError};

fn s(v: &str) -> Option<String> {
    Some(v.to_string())
}

#[test]
fn environment_name_wins_over_flag() {
    assert_eq!(resolve_name(s("env"), s("flag")), Ok("env".to_string()));
}

#[test]
fn flag_name_used_without_environment() {
    assert_eq!(resolve_name(None, s("flag")), Ok("flag".to_string()));
    assert_eq!(resolve_name(s(""), s("flag")), Ok("flag".to_string()));
}

#[test]
fn missing_name_is_an_error() {
    assert_eq!(resolve_name(None, None), Err(ConfigError::MissingName));
    assert_eq!(resolve_name(s(""), s("")), Err(ConfigError::MissingName));
}

#[test]
fn prefix_defaults_to_report() {
    assert_eq!(resolve_prefix(None), "report");
    assert_eq!(resolve_prefix(s("audit")), "audit");
}

#[test]
fn config_resolution() {
    let c = Config::resolve(None, s("run"), "urls.txt".to_string(), "reports".to_string(), None)
        .ok()
        .unwrap();
    assert_eq!(c.name, "run");
    assert_eq!(c.input_file, "urls.txt");
    assert_eq!(c.reports_root, "reports");
    assert_eq!(c.report_prefix, "report");
    let e = Config::resolve(None, None, "urls.txt".to_string(), "reports".to_string(), s("p"));
    assert!(matches!(e, Err(ConfigError::MissingName)));
}
