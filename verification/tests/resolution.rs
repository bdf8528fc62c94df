//! End-to-end behaviour of the layered resolver.

use leptos_config::Env;
use leptos_config::LeptosConfigError;
use leptos_config::LeptosOptions;
use leptos_config::ReloadWSProtocol;
use leptos_config::SocketAddress;
use leptos_config::get_config_from_env;
use leptos_config::get_config_from_str;

fn pairs(list: &[(&str, &str)]) -> Vec<(String, String)> {
    list.iter().map(|(k, v)| (k.to_string(), v.to_string())).collect()
}

fn no_env() -> Vec<(String, String)> {
    Vec::new()
}

const SINGULAR_DOC: &str = "\
[package]
name = \"demo\"

[package.metadata.leptos]
site-root = \"my_root\"
reload-port = 8001
site-addr = \"1.2.3.4:9000\"
env = \"prod\"
hash-files = true
";

#[test]
fn singular_marker_resolves_block_values() {
    let opts = get_config_from_str(SINGULAR_DOC, &no_env()).unwrap();
    assert_eq!(opts.site_root, "my_root");
    assert_eq!(opts.reload_port, 8001);
    assert_eq!(
        opts.site_addr,
        SocketAddress { ip_a: 1, ip_b: 2, ip_c: 3, ip_d: 4, port: 9000 }
    );
    assert_eq!(opts.env, Env::PROD);
    assert!(opts.hash_files);
    // unspecified fields stay at their defaults
    assert_eq!(opts.output_name, "leptos_config");
    assert_eq!(opts.site_pkg_dir, "pkg");
    assert_eq!(opts.not_found_path, "/404");
    assert_eq!(opts.hash_file, "hash.txt");
    assert_eq!(opts.reload_external_port, None);
    assert_eq!(opts.reload_ws_protocol, ReloadWSProtocol::WS);
}

#[test]
fn plural_marker_resolves_identically() {
    let doc = SINGULAR_DOC.replace("[package.metadata.leptos]", "[[workspace.metadata.leptos]]");
    let singular = get_config_from_str(SINGULAR_DOC, &no_env()).unwrap();
    let plural = get_config_from_str(&doc, &no_env()).unwrap();
    assert_eq!(singular, plural);
}

#[test]
fn missing_marker_fails_with_section_not_found() {
    let doc = "[package]\nname = \"demo\"\n";
    let err = get_config_from_str(doc, &no_env()).unwrap_err();
    assert!(matches!(err, LeptosConfigError::ConfigSectionNotFound));
}

#[test]
fn marker_must_begin_a_line() {
    let doc = "prefix [package.metadata.leptos]\nsite-root = \"x\"\n";
    let err = get_config_from_str(doc, &no_env()).unwrap_err();
    assert!(matches!(err, LeptosConfigError::ConfigSectionNotFound));
}

#[test]
fn singular_marker_takes_precedence() {
    let doc = "\
[[workspace.metadata.leptos]]
site-root = \"from_workspace\"

[package.metadata.leptos]
site-root = \"from_package\"
";
    let opts = get_config_from_str(doc, &no_env()).unwrap();
    assert_eq!(opts.site_root, "from_package");
}

#[test]
fn parse_error_reports_original_line_number() {
    // the malformed value sits on line 3 of the original document
    let doc = "# a manifest\n[package.metadata.leptos]\nsite-root = !bad\n";
    let err = get_config_from_str(doc, &no_env()).unwrap_err();
    match err {
        LeptosConfigError::ConfigError(msg) => {
            assert!(msg.contains("line 3"), "unexpected message: {msg}");
        }
        other => panic!("expected a parse error, got {other:?}"),
    }
}

#[test]
fn environment_overrides_document_value() {
    let env = pairs(&[("LEPTOS_SITE_ADDR", "9.9.9.9:1111")]);
    let opts = get_config_from_str(SINGULAR_DOC, &env).unwrap();
    assert_eq!(
        opts.site_addr,
        SocketAddress { ip_a: 9, ip_b: 9, ip_c: 9, ip_d: 9, port: 1111 }
    );
    // document values not overridden stay
    assert_eq!(opts.site_root, "my_root");
}

#[test]
fn underscore_document_keys_are_equivalent() {
    let doc = "[package.metadata.leptos]\nsite_root = \"under\"\nRELOAD_PORT = 7777\n";
    let opts = get_config_from_str(doc, &no_env()).unwrap();
    assert_eq!(opts.site_root, "under");
    assert_eq!(opts.reload_port, 7777);
}

#[test]
fn hash_file_name_variable_overrides_document() {
    let doc = "[package.metadata.leptos]\nhash-file = \"doc.txt\"\n";
    let env = pairs(&[("LEPTOS_HASH_FILE_NAME", "env.txt")]);
    let opts = get_config_from_str(doc, &env).unwrap();
    assert_eq!(opts.hash_file, "env.txt");
}

#[test]
fn bad_document_value_is_a_deserialization_error() {
    let doc = "[package.metadata.leptos]\nreload-port = \"not-a-number\"\n";
    let err = get_config_from_str(doc, &no_env()).unwrap_err();
    assert!(matches!(err, LeptosConfigError::ConfigError(_)));
}

#[test]
fn defaults_from_empty_environment() {
    let conf = get_config_from_env(&no_env()).unwrap();
    let opts = conf.leptos_options;
    assert_eq!(opts, LeptosOptions::default());
    assert_eq!(opts.env, Env::DEV);
    assert_eq!(opts.reload_port, 3001);
    assert!(!opts.hash_files);
    assert_eq!(opts.output_name, "leptos_config");
    assert_eq!(opts.site_root, ".");
    assert_eq!(
        opts.site_addr,
        SocketAddress { ip_a: 127, ip_b: 0, ip_c: 0, ip_d: 1, port: 3000 }
    );
}

#[test]
fn default_values_round_trip_through_environment() {
    let env = pairs(&[
        ("LEPTOS_OUTPUT_NAME", "leptos_config"),
        ("LEPTOS_SITE_ROOT", "."),
        ("LEPTOS_SITE_PKG_DIR", "pkg"),
        ("LEPTOS_ENV", "DEV"),
        ("LEPTOS_SITE_ADDR", "127.0.0.1:3000"),
        ("LEPTOS_RELOAD_PORT", "3001"),
        ("LEPTOS_RELOAD_WS_PROTOCOL", "ws"),
        ("LEPTOS_NOT_FOUND_PATH", "/404"),
        ("LEPTOS_HASH_FILE_NAME", "hash.txt"),
        ("LEPTOS_HASH_FILES", "false"),
    ]);
    let conf = get_config_from_env(&env).unwrap();
    assert_eq!(conf.leptos_options, LeptosOptions::default());
}

#[test]
fn environment_layer_fills_every_field() {
    let env = pairs(&[
        ("LEPTOS_OUTPUT_NAME", "my_app"),
        ("LEPTOS_SITE_ROOT", "target/site"),
        ("LEPTOS_SITE_PKG_DIR", "wasm"),
        ("LEPTOS_ENV", "production"),
        ("LEPTOS_SITE_ADDR", "0.0.0.0:80"),
        ("LEPTOS_RELOAD_PORT", "4001"),
        ("LEPTOS_RELOAD_EXTERNAL_PORT", "443"),
        ("LEPTOS_RELOAD_WS_PROTOCOL", "wss"),
        ("LEPTOS_NOT_FOUND_PATH", "/missing"),
        ("LEPTOS_HASH_FILE_NAME", "sums.txt"),
        ("LEPTOS_HASH_FILES", "true"),
    ]);
    let opts = get_config_from_env(&env).unwrap().leptos_options;
    assert_eq!(opts.output_name, "my_app");
    assert_eq!(opts.site_root, "target/site");
    assert_eq!(opts.site_pkg_dir, "wasm");
    assert_eq!(opts.env, Env::PROD);
    assert_eq!(
        opts.site_addr,
        SocketAddress { ip_a: 0, ip_b: 0, ip_c: 0, ip_d: 0, port: 80 }
    );
    assert_eq!(opts.reload_port, 4001);
    assert_eq!(opts.reload_external_port, Some(443));
    assert_eq!(opts.reload_ws_protocol, ReloadWSProtocol::WSS);
    assert_eq!(opts.not_found_path, "/missing");
    assert_eq!(opts.hash_file, "sums.txt");
    assert!(opts.hash_files);
}

#[test]
fn bad_environment_port_is_an_env_var_error() {
    let env = pairs(&[("LEPTOS_RELOAD_PORT", "abc")]);
    let err = get_config_from_env(&env).unwrap_err();
    assert!(matches!(err, LeptosConfigError::EnvVarError(_)));
}

#[test]
fn bad_environment_address_is_an_env_var_error() {
    let env = pairs(&[("LEPTOS_SITE_ADDR", "localhost")]);
    let err = get_config_from_env(&env).unwrap_err();
    assert!(matches!(err, LeptosConfigError::EnvVarError(_)));
}

#[test]
fn error_messages_are_exposed() {
    let err = LeptosConfigError::ConfigSectionNotFound;
    assert!(!err.message().is_empty());
    let err = LeptosConfigError::EnvVarError("boom".to_string());
    assert_eq!(err.message(), "boom");
}
