use receipt_printer::config::load_printer_config;
use receipt_printer::config::parse_port;
use receipt_printer::config::resolve_config;
use receipt_printer::config::EnvVars;
use receipt_printer::json::read_file_fields;
use receipt_printer::json::FileFields;

fn no_env() -> EnvVars {
    EnvVars { simulate: None, host: None, port: None }
}

#[test]
fn defaults_when_nothing_is_set() {
    let config = resolve_config(&no_env(), &None);
    assert_eq!(config.host, "127.0.0.1");
    assert_eq!(config.port, 9100);
    assert!(config.simulate);
}

#[test]
fn env_tier_full() {
    let env = EnvVars {
        simulate: Some("false".to_string()),
        host: Some("10.0.0.5".to_string()),
        port: Some("9100".to_string()),
    };
    let config = resolve_config(&env, &None);
    assert_eq!(config.host, "10.0.0.5");
    assert_eq!(config.port, 9100);
    assert!(!config.simulate);
}

#[test]
fn env_tier_wins_over_file() {
    let env = EnvVars {
        simulate: Some("true".to_string()),
        host: None,
        port: None,
    };
    let fields = FileFields {
        host: Some("printer.local".to_string()),
        port: Some(515),
        simulate: Some(false),
    };
    let config = resolve_config(&env, &Some(fields));
    assert_eq!(config.host, "127.0.0.1");
    assert_eq!(config.port, 9100);
    assert!(config.simulate);
}

#[test]
fn env_simulate_is_true_only_for_the_exact_string() {
    for value in ["true"] {
        let env = EnvVars { simulate: Some(value.to_string()), host: None, port: None };
        assert!(resolve_config(&env, &None).simulate);
    }
    for value in ["TRUE", "True", "1", "yes", "", "false"] {
        let env = EnvVars { simulate: Some(value.to_string()), host: None, port: None };
        assert!(!resolve_config(&env, &None).simulate);
    }
}

#[test]
fn env_port_falls_back_when_unparsable() {
    for bad in ["", "abc", "91a0", "-1", "65536", "99999", " 9100"] {
        let env = EnvVars {
            simulate: Some("true".to_string()),
            host: None,
            port: Some(bad.to_string()),
        };
        assert_eq!(resolve_config(&env, &None).port, 9100, "port text {:?}", bad);
    }
    let env = EnvVars {
        simulate: Some("true".to_string()),
        host: None,
        port: Some("515".to_string()),
    };
    assert_eq!(resolve_config(&env, &None).port, 515);
}

#[test]
fn parse_port_exact() {
    assert_eq!(parse_port("0"), Some(0));
    assert_eq!(parse_port("9100"), Some(9100));
    assert_eq!(parse_port("65535"), Some(65535));
    assert_eq!(parse_port("007"), Some(7));
    assert_eq!(parse_port("65536"), None);
    assert_eq!(parse_port("123456789123456789"), None);
    assert_eq!(parse_port(""), None);
    assert_eq!(parse_port("12 "), None);
}

#[test]
fn parse_port_accepts_one_leading_plus_as_std_does() {
    // The same strings through std's own u16 parsing, for comparison.
    for text in ["+1", "+9100", "+65535", "+65536", "+", "++1", "+-1", "1+", "-1"] {
        assert_eq!(parse_port(text), text.parse::<u16>().ok(), "port text {:?}", text);
    }
    assert_eq!(parse_port("+9100"), Some(9100));
    assert_eq!(parse_port("+"), None);
    assert_eq!(parse_port("++1"), None);
}

#[test]
fn file_tier_full() {
    let content = r#"{"host": "printer.local", "port": 515, "simulate": false}"#;
    let fields = read_file_fields(content).expect("well-formed JSON");
    let config = resolve_config(&no_env(), &Some(fields));
    assert_eq!(config.host, "printer.local");
    assert_eq!(config.port, 515);
    assert!(!config.simulate);
}

#[test]
fn file_tier_per_field_defaults() {
    let fields = read_file_fields("{}").expect("well-formed JSON");
    let config = resolve_config(&no_env(), &Some(fields));
    assert_eq!(config.host, "127.0.0.1");
    assert_eq!(config.port, 9100);
    assert!(config.simulate);
}

#[test]
fn file_tier_wrong_types_fall_back() {
    let content = r#"{"host": 5, "port": "515", "simulate": "no"}"#;
    let fields = read_file_fields(content).expect("well-formed JSON");
    assert_eq!(fields.host, None);
    assert_eq!(fields.port, None);
    assert_eq!(fields.simulate, None);
    let config = resolve_config(&no_env(), &Some(fields));
    assert_eq!(config.host, "127.0.0.1");
    assert_eq!(config.port, 9100);
    assert!(config.simulate);
}

#[test]
fn file_port_out_of_range_is_defaulted() {
    let fields = read_file_fields(r#"{"port": 99999}"#).expect("well-formed JSON");
    assert_eq!(fields.port, Some(99999));
    let config = resolve_config(&no_env(), &Some(fields));
    assert_eq!(config.port, 9100);
}

#[test]
fn malformed_file_falls_through_to_defaults() {
    assert!(read_file_fields("not json at all").is_none());
    assert!(read_file_fields(r#"{"port": }"#).is_none());
    let config = resolve_config(&no_env(), &None);
    assert_eq!(config.host, "127.0.0.1");
    assert_eq!(config.port, 9100);
    assert!(config.simulate);
}

#[test]
fn non_object_json_gives_field_defaults() {
    let fields = read_file_fields("[1, 2, 3]").expect("well-formed JSON");
    assert_eq!(fields.host, None);
    assert_eq!(fields.port, None);
    assert_eq!(fields.simulate, None);
}

#[test]
fn load_uses_the_file_text_when_env_is_unset() {
    let content = r#"{"host": "printer.local", "port": 515, "simulate": false}"#.to_string();
    let config = load_printer_config(&no_env(), &Some(content));
    assert_eq!(config.host, "printer.local");
    assert_eq!(config.port, 515);
    assert!(!config.simulate);
}

#[test]
fn load_ignores_the_file_text_when_env_is_set() {
    let env = EnvVars { simulate: Some("true".to_string()), host: None, port: None };
    let content = r#"{"host": "printer.local", "port": 515, "simulate": false}"#.to_string();
    let config = load_printer_config(&env, &Some(content));
    assert_eq!(config.host, "127.0.0.1");
    assert_eq!(config.port, 9100);
    assert!(config.simulate);
}

#[test]
fn load_falls_back_to_defaults_without_usable_text() {
    for content in [None, Some("{ not json".to_string())] {
        let config = load_printer_config(&no_env(), &content);
        assert_eq!(config.host, "127.0.0.1");
        assert_eq!(config.port, 9100);
        assert!(config.simulate);
    }
}
