use runtipi_cli::env::{env_lookup, parse_env_line};

#[test]
fn env_lines() {
    assert_eq!(parse_env_line("INTERNAL_IP=10.0.0.2"), Some(("INTERNAL_IP".to_string(), "10.0.0.2".to_string())));
    assert_eq!(parse_env_line("A=b=c"), Some(("A".to_string(), "b=c".to_string())));
    assert_eq!(parse_env_line("EMPTY="), Some(("EMPTY".to_string(), String::new())));
    assert_eq!(parse_env_line("=value"), None);
    assert_eq!(parse_env_line("no separator"), None);
    assert_eq!(parse_env_line(""), None);
}

#[test]
fn env_lookup_takes_last_entry() {
    let entries = vec![
        ("TIPI_VERSION".to_string(), "v1.5.0".to_string()),
        ("NGINX_PORT".to_string(), "80".to_string()),
        ("NGINX_PORT".to_string(), "8080".to_string()),
    ];
    assert_eq!(env_lookup(&entries, "NGINX_PORT").map(|s| s.as_str()), Some("8080"));
    assert_eq!(env_lookup(&entries, "TIPI_VERSION").map(|s| s.as_str()), Some("v1.5.0"));
    assert_eq!(env_lookup(&entries, "INTERNAL_IP"), None);
    assert_eq!(env_lookup(&vec![], "X"), None);
}
