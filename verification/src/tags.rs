//! The two closed-vocabulary enumerated tags: the deployment environment
//! and the reload-websocket transport. Each tag has a strict parser that
//! rejects unknown input with a typed error, and a lossy parser that
//! falls back to the tag's default.

use vstd::prelude::*;

use crate::errors::LeptosConfigError;
use crate::strutil::lower;
use crate::strutil::str_eq_lower;

verus! {

/// The deployment environment the application runs in.
#[derive(Debug, Clone, Copy, PartialEq, Eq, Structural)]
pub enum Env {
    PROD,
    DEV,
}

/// The websocket transport used for hot reloading.
#[derive(Debug, Clone, Copy, PartialEq, Eq, Structural)]
pub enum ReloadWSProtocol {
    WS,
    WSS,
}

/// Case-insensitive alias table of the deployment tag.
pub open spec fn parse_env_spec(s: Seq<char>) -> Option<Env> {
    let l = lower(s);
    if l == "dev"@ || l == "development"@ {
        Some(Env::DEV)
    } else if l == "prod"@ || l == "production"@ {
        Some(Env::PROD)
    } else {
        None
    }
}

/// Case-insensitive alias table of the transport tag.
pub open spec fn parse_ws_spec(s: Seq<char>) -> Option<ReloadWSProtocol> {
    let l = lower(s);
    if l == "ws"@ {
        Some(ReloadWSProtocol::WS)
    } else if l == "wss"@ {
        Some(ReloadWSProtocol::WSS)
    } else {
        None
    }
}

/// Looks the input up in the deployment-tag alias table.
pub fn parse_env_opt(input: &str) -> (r: Option<Env>)
    ensures
        r == parse_env_spec(input@),
{
    if str_eq_lower(input, "dev") || str_eq_lower(input, "development") {
        Some(Env::DEV)
    } else if str_eq_lower(input, "prod") || str_eq_lower(input, "production") {
        Some(Env::PROD)
    } else {
        None
    }
}

/// Looks the input up in the transport-tag alias table.
pub fn parse_ws_opt(input: &str) -> (r: Option<ReloadWSProtocol>)
    ensures
        r == parse_ws_spec(input@),
{
    if str_eq_lower(input, "ws") {
        Some(ReloadWSProtocol::WS)
    } else if str_eq_lower(input, "wss") {
        Some(ReloadWSProtocol::WSS)
    } else {
        None
    }
}

/// Strict deployment-tag coercion: unknown input is a typed error.
pub fn env_from_str(input: &str) -> (r: Result<Env, LeptosConfigError>)
    ensures
        r is Ok <==> parse_env_spec(input@) is Some,
        r is Ok ==> r->Ok_0 == parse_env_spec(input@)->Some_0,
        r is Err ==> r->Err_0 is EnvVarError && r->Err_0->EnvVarError_0@ == input@
            + " is not a supported environment. Use either `dev` or `production`."@,
{
    match parse_env_opt(input) {
        Some(e) => Ok(e),
        None => Err(
            LeptosConfigError::EnvVarError(
                String::from_str(input).concat(
                    " is not a supported environment. Use either `dev` or `production`.",
                ),
            ),
        ),
    }
}

/// Strict transport-tag coercion: unknown input is a typed error.
pub fn ws_from_str(input: &str) -> (r: Result<ReloadWSProtocol, LeptosConfigError>)
    ensures
        r is Ok <==> parse_ws_spec(input@) is Some,
        r is Ok ==> r->Ok_0 == parse_ws_spec(input@)->Some_0,
        r is Err ==> r->Err_0 is EnvVarError && r->Err_0->EnvVarError_0@ == input@
            + " is not a supported websocket protocol. Use only `ws` or `wss`."@,
{
    match parse_ws_opt(input) {
        Some(p) => Ok(p),
        None => Err(
            LeptosConfigError::EnvVarError(
                String::from_str(input).concat(
                    " is not a supported websocket protocol. Use only `ws` or `wss`.",
                ),
            ),
        ),
    }
}

impl Env {
    /// Lossy deployment-tag coercion: unknown input falls back to `DEV`.
    pub fn parse_lossy(input: &str) -> (r: Env)
        ensures
            r == match parse_env_spec(input@) {
                Some(e) => e,
                None => Env::DEV,
            },
    {
        match parse_env_opt(input) {
            Some(e) => e,
            None => Env::DEV,
        }
    }
}

impl ReloadWSProtocol {
    /// Lossy transport-tag coercion: unknown input falls back to `WS`.
    pub fn parse_lossy(input: &str) -> (r: ReloadWSProtocol)
        ensures
            r == match parse_ws_spec(input@) {
                Some(p) => p,
                None => ReloadWSProtocol::WS,
            },
    {
        match parse_ws_opt(input) {
            Some(p) => p,
            None => ReloadWSProtocol::WS,
        }
    }
}

impl Default for Env {
    /// The deployment tag when no layer sets one: development.
    fn default() -> (r: Self)
        ensures
            r == Env::DEV,
    {
        Env::DEV
    }
}

impl Default for ReloadWSProtocol {
    /// The transport when no layer sets one: plain websockets.
    fn default() -> (r: Self)
        ensures
            r == ReloadWSProtocol::WS,
    {
        ReloadWSProtocol::WS
    }
}

} // verus!
