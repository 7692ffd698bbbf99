use ferrisland::config::{parse_ipv4, parse_port, Config, HostAddr, Server};
use ferrisland::report::write_source;
use ferrisland::text::{parse_decimal, split_on};

#[test]
fn split_keeps_empty_tokens() {
    let t = split_on("a b", ' ');
    assert_eq!(t, vec!["a".to_string(), "b".to_string()]);
    let t = split_on("a  b", ' ');
    assert_eq!(t, vec!["a".to_string(), "".to_string(), "b".to_string()]);
    let t = split_on("", ' ');
    assert_eq!(t, vec!["".to_string()]);
    let t = split_on(" a ", ' ');
    assert_eq!(t, vec!["".to_string(), "a".to_string(), "".to_string()]);
}

#[test]
fn decimal_parsing_is_exact() {
    assert_eq!(parse_decimal("0", 65535), Some(0));
    assert_eq!(parse_decimal("3000", 65535), Some(3000));
    assert_eq!(parse_decimal("007", 65535), Some(7));
    assert_eq!(parse_decimal("65535", 65535), Some(65535));
    assert_eq!(parse_decimal("65536", 65535), None);
    assert_eq!(parse_decimal("", 65535), None);
    assert_eq!(parse_decimal("12a", 65535), None);
    assert_eq!(parse_decimal("-1", 65535), None);
    assert_eq!(parse_decimal("999999999999999999999", 65535), None);
}

#[test]
fn ipv4_parsing_is_exact() {
    assert_eq!(parse_ipv4("0.0.0.0"), Some(HostAddr { a: 0, b: 0, c: 0, d: 0 }));
    assert_eq!(parse_ipv4("127.0.0.1"), Some(HostAddr { a: 127, b: 0, c: 0, d: 1 }));
    assert_eq!(parse_ipv4("255.255.255.255"), Some(HostAddr { a: 255, b: 255, c: 255, d: 255 }));
    assert_eq!(parse_ipv4("256.0.0.1"), None);
    assert_eq!(parse_ipv4("1.2.3"), None);
    assert_eq!(parse_ipv4("1.2.3.4.5"), None);
    assert_eq!(parse_ipv4("a.b.c.d"), None);
    assert_eq!(parse_ipv4(""), None);
    assert_eq!(parse_ipv4("1..2.3"), None);
}

#[test]
fn port_parsing_is_bounded() {
    assert_eq!(parse_port("2222"), Some(2222));
    assert_eq!(parse_port("65536"), None);
}

#[test]
fn server_from_env_values_uses_defaults() {
    let server = Server::from_env_values(None, None).unwrap();
    assert_eq!(server.host, HostAddr { a: 0, b: 0, c: 0, d: 0 });
    assert_eq!(server.port, 3000);
}

#[test]
fn server_from_env_values_parses_given_values() {
    let server =
        Server::from_env_values(Some("127.0.0.1".to_string()), Some("2222".to_string())).unwrap();
    assert_eq!(server.host, HostAddr { a: 127, b: 0, c: 0, d: 1 });
    assert_eq!(server.port, 2222);
}

#[test]
fn bad_host_value_names_its_variable() {
    let err = Server::from_env_values(Some("localhost".to_string()), None).unwrap_err();
    assert_eq!(err.var, "FERRISLAND_SERVER_HOST");
    assert_eq!(err.value, "localhost");
    assert_eq!(
        err.message(),
        "failed to parse environment variable `FERRISLAND_SERVER_HOST` \
         (value: `localhost`) into `IpAddr`"
    );
}

#[test]
fn bad_port_value_names_its_variable() {
    let err = Server::from_env_values(None, Some("70000".to_string())).unwrap_err();
    assert_eq!(err.var, "FERRISLAND_SERVER_PORT");
    assert_eq!(err.value, "70000");
}

#[test]
fn config_wraps_server() {
    let config = Config::from_env_values(None, Some("8080".to_string())).unwrap();
    assert_eq!(config.server.port, 8080);
}

#[test]
fn source_chain_renders_numbered_lines() {
    let messages = vec![
        "failed to parse `RUST_LOG` environment variable".to_string(),
        "error parsing level filter".to_string(),
    ];
    let rendered = write_source(&messages, 0);
    assert_eq!(
        rendered,
        "\n    0: failed to parse `RUST_LOG` environment variable\n    1: error parsing level filter"
    );
}

#[test]
fn source_chain_numbering_starts_where_asked() {
    let messages = vec!["deep cause".to_string()];
    assert_eq!(write_source(&messages, 12), "\n    12: deep cause");
    assert_eq!(write_source(&Vec::new(), 0), "");
}
