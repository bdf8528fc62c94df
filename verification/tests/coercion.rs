//! The scalar coercions and the strict and lossy tag parsers.

use leptos_config::Env;
use leptos_config::LeptosConfigError;
use leptos_config::ReloadWSProtocol;
use leptos_config::SocketAddress;
use leptos_config::default_output_name;
use leptos_config::env_from_str;
use leptos_config::strutil::parse_bool;
use leptos_config::strutil::parse_u32;
use leptos_config::strutil::replace_dashes;
use leptos_config::parse_socket_address;
use leptos_config::ws_from_str;

#[test]
fn strict_deployment_tag_rejects_unknown_input() {
    let err = env_from_str("staging").unwrap_err();
    assert!(matches!(err, LeptosConfigError::EnvVarError(_)));
}

#[test]
fn lossy_deployment_tag_falls_back_to_dev() {
    assert_eq!(Env::parse_lossy("staging"), Env::DEV);
    assert_eq!(Env::parse_lossy("production"), Env::PROD);
}

#[test]
fn deployment_tag_is_case_insensitive() {
    assert_eq!(env_from_str("DEV").unwrap(), Env::DEV);
    assert_eq!(env_from_str("Development").unwrap(), Env::DEV);
    assert_eq!(env_from_str("PROD").unwrap(), Env::PROD);
    assert_eq!(env_from_str("Production").unwrap(), Env::PROD);
}

#[test]
fn strict_transport_tag_rejects_unknown_input() {
    let err = ws_from_str("h2").unwrap_err();
    assert!(matches!(err, LeptosConfigError::EnvVarError(_)));
}

#[test]
fn lossy_transport_tag_falls_back_to_ws() {
    assert_eq!(ReloadWSProtocol::parse_lossy("h2"), ReloadWSProtocol::WS);
    assert_eq!(ReloadWSProtocol::parse_lossy("WSS"), ReloadWSProtocol::WSS);
}

#[test]
fn transport_tag_is_case_insensitive() {
    assert_eq!(ws_from_str("WS").unwrap(), ReloadWSProtocol::WS);
    assert_eq!(ws_from_str("Wss").unwrap(), ReloadWSProtocol::WSS);
}

#[test]
fn socket_addresses_parse_exactly() {
    assert_eq!(
        parse_socket_address("1.2.3.4:9000"),
        Some(SocketAddress { ip_a: 1, ip_b: 2, ip_c: 3, ip_d: 4, port: 9000 })
    );
    assert_eq!(
        parse_socket_address("255.255.255.255:65535"),
        Some(SocketAddress { ip_a: 255, ip_b: 255, ip_c: 255, ip_d: 255, port: 65535 })
    );
    assert_eq!(
        parse_socket_address("0.0.0.0:0"),
        Some(SocketAddress { ip_a: 0, ip_b: 0, ip_c: 0, ip_d: 0, port: 0 })
    );
    // leading zeroes are allowed in the port, not in octets
    assert_eq!(
        parse_socket_address("1.2.3.4:08080"),
        Some(SocketAddress { ip_a: 1, ip_b: 2, ip_c: 3, ip_d: 4, port: 8080 })
    );
    assert_eq!(parse_socket_address("01.2.3.4:80"), None);
    assert_eq!(parse_socket_address("1.2.3:80"), None);
    assert_eq!(parse_socket_address("1.2.3.4.5:80"), None);
    assert_eq!(parse_socket_address("1.2.3.4"), None);
    assert_eq!(parse_socket_address("256.0.0.1:80"), None);
    assert_eq!(parse_socket_address("1.2.3.4:65536"), None);
    assert_eq!(parse_socket_address("1.2.3.4:999999"), None);
    assert_eq!(parse_socket_address("localhost:80"), None);
    assert_eq!(parse_socket_address(""), None);
}

#[test]
fn unsigned_integers_parse_exactly() {
    assert_eq!(parse_u32("3001"), Some(3001));
    assert_eq!(parse_u32("+42"), Some(42));
    assert_eq!(parse_u32("0042"), Some(42));
    assert_eq!(parse_u32("0"), Some(0));
    assert_eq!(parse_u32("4294967295"), Some(u32::MAX));
    assert_eq!(parse_u32("4294967296"), None);
    assert_eq!(parse_u32("99999999999999999999"), None);
    assert_eq!(parse_u32(""), None);
    assert_eq!(parse_u32("+"), None);
    assert_eq!(parse_u32("-1"), None);
    assert_eq!(parse_u32("12a"), None);
}

#[test]
fn booleans_accept_only_the_literal_tokens() {
    assert_eq!(parse_bool("true"), Some(true));
    assert_eq!(parse_bool("false"), Some(false));
    assert_eq!(parse_bool("True"), None);
    assert_eq!(parse_bool("1"), None);
    assert_eq!(parse_bool(""), None);
}

#[test]
fn default_output_name_turns_dashes_into_underscores() {
    assert_eq!(replace_dashes("my-cool-app"), "my_cool_app");
    assert_eq!(default_output_name(), "leptos_config");
}
