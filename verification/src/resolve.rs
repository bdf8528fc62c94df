//! The public resolution paths: from a manifest document's text with
//! environment overrides, and from the environment alone. The document's
//! settings block is located and extracted here, parsed by the outside
//! TOML parser behind a trusted wrapper, and merged by the verified
//! layered resolver.

use vstd::prelude::*;

use crate::errors::LeptosConfigError;
use crate::options::ConfFile;
use crate::options::LeptosOptions;
use crate::options::options_from_sources;
use crate::options::options_of;
use crate::options::sources_ok;
use crate::options::env_ok;
use crate::options::env_options_of;
use crate::section::extract_settings_block;
use crate::section::extract_spec;
use crate::section::locate_section;
use crate::section::locate_spec;
use crate::sources::pairs_view;

verus! {

/// What the outside TOML parser makes of a document: its top-level
/// key/value pairs with each value rendered back to raw text, or the
/// parse-error message. The result depends on the text alone.
pub uninterp spec fn toml_parse(text: Seq<char>) -> Result<Seq<(Seq<char>, Seq<char>)>, Seq<char>>;

/// Relies on `toml::Table`'s `FromStr` impl: it parses TOML text into
/// its top-level key/value table deterministically (the table is ordered
/// by key), and reports malformed input with a message citing the line
/// and column of the fault. Each value is rendered back to raw text:
/// a TOML string as its content, every other value in TOML notation.
#[verifier::external_body]
fn parse_toml_pairs(text: &str) -> (r: Result<Vec<(String, String)>, String>)
    ensures
        r is Ok <==> toml_parse(text@) is Ok,
        r is Ok ==> pairs_view(r->Ok_0@) == toml_parse(text@)->Ok_0,
        r is Err ==> r->Err_0@ == toml_parse(text@)->Err_0,
{
    let table: toml::Table = match text.parse() {
        Ok(t) => t,
        Err(e) => {
            return Err(e.to_string());
        },
    };
    let mut out: Vec<(String, String)> = Vec::new();
    for entry in table {
        let raw = match entry.1 {
            toml::Value::String(s) => s,
            other => other.to_string(),
        };
        out.push((entry.0, raw));
    }
    Ok(out)
}

/// Resolves the settings from a manifest document's text, with the given
/// environment pairs layered on top of the document's values. Fails with
/// `ConfigSectionNotFound` exactly when no anchor marker occurs
/// line-anchored in the text; otherwise the block is extracted
/// line-preservingly, parsed, and merged under
/// default < document < environment precedence.
pub fn get_config_from_str(text: &str, env: &Vec<(String, String)>) -> (r: Result<
    LeptosOptions,
    LeptosConfigError,
>)
    ensures
        (r is Err && r->Err_0 is ConfigSectionNotFound) <==> locate_spec(text@) is None,
        locate_spec(text@) is Some ==> ({
            let start = locate_spec(text@)->Some_0.0;
            let marker = locate_spec(text@)->Some_0.1;
            match toml_parse(extract_spec(text@, marker, start)) {
                Result::Err(m) => r is Err && r->Err_0 is ConfigError && r->Err_0->ConfigError_0@
                    == m,
                Result::Ok(pairs) => {
                    &&& (r is Ok <==> sources_ok(pairs, pairs_view(env@)))
                    &&& (r is Ok ==> r->Ok_0@ == options_of(pairs, pairs_view(env@)))
                    &&& (r is Err ==> r->Err_0 is ConfigError)
                },
            }
        }),
{
    match locate_section(text) {
        None => Err(LeptosConfigError::ConfigSectionNotFound),
        Some((start, singular)) => {
            let marker: &str = if singular {
                "[package.metadata.leptos]"
            } else {
                "[[workspace.metadata.leptos]]"
            };
            proof {
                reveal_strlit("[package.metadata.leptos]");
                reveal_strlit("[[workspace.metadata.leptos]]");
            }
            let extracted = extract_settings_block(text, marker, start);
            match parse_toml_pairs(extracted.as_str()) {
                Err(msg) => Err(LeptosConfigError::ConfigError(msg)),
                Ok(pairs) => options_from_sources(&pairs, env),
            }
        },
    }
}

/// Resolves the settings from the environment pairs alone; this path
/// never consults a document and never reports a missing section.
pub fn get_config_from_env(env: &Vec<(String, String)>) -> (r: Result<ConfFile, LeptosConfigError>)
    ensures
        r is Ok <==> env_ok(pairs_view(env@)),
        r is Ok ==> r->Ok_0.leptos_options@ == env_options_of(pairs_view(env@)),
        r is Err ==> r->Err_0 is EnvVarError,
{
    match LeptosOptions::try_from_env(env) {
        Ok(leptos_options) => Ok(ConfFile { leptos_options }),
        Err(e) => Err(e),
    }
}

} // verus!
