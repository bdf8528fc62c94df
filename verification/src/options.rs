//! The resolved settings object, its compiled-in defaults, and the two
//! resolution paths: from the merged document and environment layers,
//! and from the environment alone. Precedence is always
//! default < document < environment.

use vstd::prelude::*;

use crate::addr::SocketAddress;
use crate::addr::default_site_addr;
use crate::addr::parse_sock_spec;
use crate::addr::parse_socket_address;
use crate::errors::LeptosConfigError;
use crate::sources::lookup_exact;
use crate::sources::lookup_norm;
use crate::sources::merged_lookup;
use crate::sources::merged_src;
use crate::sources::env_lookup;
use crate::sources::pairs_view;
use crate::strutil::dash_to_underscore;
use crate::strutil::parse_bool;
use crate::strutil::parse_bool_spec;
use crate::strutil::parse_u32;
use crate::strutil::parse_u32_spec;
use crate::strutil::replace_dashes;
use crate::tags::Env;
use crate::tags::ReloadWSProtocol;
use crate::tags::env_from_str;
use crate::tags::parse_env_spec;
use crate::tags::parse_ws_spec;
use crate::tags::ws_from_str;

verus! {

/// The resolved configuration: an immutable value object.
#[derive(Debug, Clone)]
pub struct LeptosOptions {
    /// The name of the generated output artefacts; dashes become
    /// underscores so the name stays a usable identifier.
    pub output_name: String,
    /// The path all generated site files live under.
    pub site_root: String,
    /// The directory of the generated package files, under the site root.
    pub site_pkg_dir: String,
    /// The deployment environment the application runs in.
    pub env: Env,
    /// The socket address the site is served from.
    pub site_addr: SocketAddress,
    /// The port the reload watcher listens on.
    pub reload_port: u32,
    /// The reload port as seen by the client, when it differs.
    pub reload_external_port: Option<u32>,
    /// The websocket transport used for hot reloading.
    pub reload_ws_protocol: ReloadWSProtocol,
    /// The route of the custom not-found page.
    pub not_found_path: String,
    /// The file name of the generated hash listing.
    pub hash_file: String,
    /// Whether generated files get content hashes in their names.
    pub hash_files: bool,
}

/// The mathematical image of a settings object.
#[verifier::ext_equal]
pub ghost struct OptionsView {
    pub output_name: Seq<char>,
    pub site_root: Seq<char>,
    pub site_pkg_dir: Seq<char>,
    pub env: Env,
    pub site_addr: SocketAddress,
    pub reload_port: u32,
    pub reload_external_port: Option<u32>,
    pub reload_ws_protocol: ReloadWSProtocol,
    pub not_found_path: Seq<char>,
    pub hash_file: Seq<char>,
    pub hash_files: bool,
}

impl View for LeptosOptions {
    type V = OptionsView;

    open spec fn view(&self) -> OptionsView {
        OptionsView {
            output_name: self.output_name@,
            site_root: self.site_root@,
            site_pkg_dir: self.site_pkg_dir@,
            env: self.env,
            site_addr: self.site_addr,
            reload_port: self.reload_port,
            reload_external_port: self.reload_external_port,
            reload_ws_protocol: self.reload_ws_protocol,
            not_found_path: self.not_found_path@,
            hash_file: self.hash_file@,
            hash_files: self.hash_files,
        }
    }
}

impl PartialEq for LeptosOptions {
    fn eq(&self, other: &LeptosOptions) -> (r: bool) {
        self.output_name == other.output_name && self.site_root == other.site_root
            && self.site_pkg_dir == other.site_pkg_dir && self.env == other.env && self.site_addr
            == other.site_addr && self.reload_port == other.reload_port
            && self.reload_external_port == other.reload_external_port && self.reload_ws_protocol
            == other.reload_ws_protocol && self.not_found_path == other.not_found_path
            && self.hash_file == other.hash_file && self.hash_files == other.hash_files
    }
}

impl vstd::std_specs::cmp::PartialEqSpecImpl for LeptosOptions {
    open spec fn obeys_eq_spec() -> bool {
        true
    }

    open spec fn eq_spec(&self, other: &LeptosOptions) -> bool {
        self@ =~= other@
    }
}

/// A transient wrapper holding exactly one resolved settings value, used
/// at the boundary where an embedded block is deserialized.
#[derive(Debug, Clone)]
pub struct ConfFile {
    pub leptos_options: LeptosOptions,
}

/// The build-time project-name constant the default output name derives
/// from.
pub open spec fn project_name() -> Seq<char> {
    "leptos_config"@
}

/// The default output name: the build-time project name, dashes turned
/// to underscores.
pub fn default_output_name() -> (r: String)
    ensures
        r@ == dash_to_underscore(project_name()),
{
    replace_dashes("leptos_config")
}

/// The default site root: the current directory.
pub fn default_site_root() -> (r: String)
    ensures
        r@ == "."@,
{
    String::from_str(".")
}

/// The default package directory.
pub fn default_site_pkg_dir() -> (r: String)
    ensures
        r@ == "pkg"@,
{
    String::from_str("pkg")
}

/// The default deployment environment.
pub fn default_env() -> (r: Env)
    ensures
        r == Env::DEV,
{
    Env::DEV
}

/// The default reload-watcher port.
pub fn default_reload_port() -> (r: u32)
    ensures
        r == 3001u32,
{
    3001
}

/// The default route of the not-found page.
pub fn default_not_found_path() -> (r: String)
    ensures
        r@ == "/404"@,
{
    String::from_str("/404")
}

/// The default name of the hash listing file.
pub fn default_hash_file_name() -> (r: String)
    ensures
        r@ == "hash.txt"@,
{
    String::from_str("hash.txt")
}

/// By default no content hashes are generated.
pub fn default_hash_files() -> (r: bool)
    ensures
        r == false,
{
    false
}

/// The settings every field falls back to when no layer sets it.
pub open spec fn default_options_view() -> OptionsView {
    OptionsView {
        output_name: dash_to_underscore(project_name()),
        site_root: "."@,
        site_pkg_dir: "pkg"@,
        env: Env::DEV,
        site_addr: SocketAddress { ip_a: 127, ip_b: 0, ip_c: 0, ip_d: 1, port: 3000 },
        reload_port: 3001u32,
        reload_external_port: None,
        reload_ws_protocol: ReloadWSProtocol::WS,
        not_found_path: "/404"@,
        hash_file: "hash.txt"@,
        hash_files: false,
    }
}

impl Default for LeptosOptions {
    /// The all-defaults settings value.
    fn default() -> (r: LeptosOptions)
        ensures
            r@ == default_options_view(),
    {
        let r = LeptosOptions {
            output_name: default_output_name(),
            site_root: default_site_root(),
            site_pkg_dir: default_site_pkg_dir(),
            env: default_env(),
            site_addr: default_site_addr(),
            reload_port: default_reload_port(),
            reload_external_port: None,
            reload_ws_protocol: ReloadWSProtocol::WS,
            not_found_path: default_not_found_path(),
            hash_file: default_hash_file_name(),
            hash_files: default_hash_files(),
        };
        proof {
            assert(r@ =~= default_options_view());
        }
        r
    }
}

/// A raw string field: the source's value, else the given default.
pub open spec fn str_or(src: Option<Seq<char>>, dflt: Seq<char>) -> Seq<char> {
    match src {
        Some(v) => v,
        None => dflt,
    }
}

/// A deployment-tag field coerces when absent or a known alias.
pub open spec fn tag_src_ok(src: Option<Seq<char>>) -> bool {
    match src {
        Some(v) => parse_env_spec(v) is Some,
        None => true,
    }
}

/// The deployment tag a source resolves to.
pub open spec fn tag_src_val(src: Option<Seq<char>>) -> Env {
    match src {
        Some(v) => parse_env_spec(v)->Some_0,
        None => Env::DEV,
    }
}

/// A transport-tag field coerces when absent or a known alias.
pub open spec fn ws_src_ok(src: Option<Seq<char>>) -> bool {
    match src {
        Some(v) => parse_ws_spec(v) is Some,
        None => true,
    }
}

/// The transport tag a source resolves to.
pub open spec fn ws_src_val(src: Option<Seq<char>>) -> ReloadWSProtocol {
    match src {
        Some(v) => parse_ws_spec(v)->Some_0,
        None => ReloadWSProtocol::WS,
    }
}

/// A socket-address field coerces when absent or well-formed.
pub open spec fn addr_src_ok(src: Option<Seq<char>>) -> bool {
    match src {
        Some(v) => parse_sock_spec(v) is Some,
        None => true,
    }
}

/// The socket address a source resolves to.
pub open spec fn addr_src_val(src: Option<Seq<char>>) -> SocketAddress {
    match src {
        Some(v) => parse_sock_spec(v)->Some_0,
        None => SocketAddress { ip_a: 127, ip_b: 0, ip_c: 0, ip_d: 1, port: 3000 },
    }
}

/// An unsigned-integer field coerces when absent or a decimal in range.
pub open spec fn port_src_ok(src: Option<Seq<char>>) -> bool {
    match src {
        Some(v) => parse_u32_spec(v) is Some,
        None => true,
    }
}

/// The reload port a source resolves to.
pub open spec fn port_src_val(src: Option<Seq<char>>) -> u32 {
    match src {
        Some(v) => parse_u32_spec(v)->Some_0,
        None => 3001u32,
    }
}

/// The optional external reload port a source resolves to.
pub open spec fn ext_port_src_val(src: Option<Seq<char>>) -> Option<u32> {
    match src {
        Some(v) => Some(parse_u32_spec(v)->Some_0),
        None => None,
    }
}

/// A boolean field coerces when absent or a literal truth token.
pub open spec fn flag_src_ok(src: Option<Seq<char>>) -> bool {
    match src {
        Some(v) => parse_bool_spec(v) is Some,
        None => true,
    }
}

/// The hashing flag a source resolves to.
pub open spec fn flag_src_val(src: Option<Seq<char>>) -> bool {
    match src {
        Some(v) => parse_bool_spec(v)->Some_0,
        None => false,
    }
}

/// Every typed field of the environment layer coerces.
pub open spec fn env_ok(env: Seq<(Seq<char>, Seq<char>)>) -> bool {
    &&& tag_src_ok(lookup_exact(env, "LEPTOS_ENV"@))
    &&& addr_src_ok(lookup_exact(env, "LEPTOS_SITE_ADDR"@))
    &&& port_src_ok(lookup_exact(env, "LEPTOS_RELOAD_PORT"@))
    &&& port_src_ok(lookup_exact(env, "LEPTOS_RELOAD_EXTERNAL_PORT"@))
    &&& ws_src_ok(lookup_exact(env, "LEPTOS_RELOAD_WS_PROTOCOL"@))
    &&& flag_src_ok(lookup_exact(env, "LEPTOS_HASH_FILES"@))
}

/// The settings the environment layer alone resolves to.
pub open spec fn env_options_of(env: Seq<(Seq<char>, Seq<char>)>) -> OptionsView {
    OptionsView {
        output_name: str_or(
            lookup_exact(env, "LEPTOS_OUTPUT_NAME"@),
            dash_to_underscore(project_name()),
        ),
        site_root: str_or(lookup_exact(env, "LEPTOS_SITE_ROOT"@), "."@),
        site_pkg_dir: str_or(lookup_exact(env, "LEPTOS_SITE_PKG_DIR"@), "pkg"@),
        env: tag_src_val(lookup_exact(env, "LEPTOS_ENV"@)),
        site_addr: addr_src_val(lookup_exact(env, "LEPTOS_SITE_ADDR"@)),
        reload_port: port_src_val(lookup_exact(env, "LEPTOS_RELOAD_PORT"@)),
        reload_external_port: ext_port_src_val(lookup_exact(env, "LEPTOS_RELOAD_EXTERNAL_PORT"@)),
        reload_ws_protocol: ws_src_val(lookup_exact(env, "LEPTOS_RELOAD_WS_PROTOCOL"@)),
        not_found_path: str_or(lookup_exact(env, "LEPTOS_NOT_FOUND_PATH"@), "/404"@),
        hash_file: str_or(lookup_exact(env, "LEPTOS_HASH_FILE_NAME"@), "hash.txt"@),
        hash_files: flag_src_val(lookup_exact(env, "LEPTOS_HASH_FILES"@)),
    }
}

/// Every typed field of the merged document and environment layers coerces.
pub open spec fn sources_ok(
    doc: Seq<(Seq<char>, Seq<char>)>,
    env: Seq<(Seq<char>, Seq<char>)>,
) -> bool {
    &&& tag_src_ok(merged_src(doc, env, "env"@, "LEPTOS_ENV"@))
    &&& addr_src_ok(merged_src(doc, env, "site-addr"@, "LEPTOS_SITE_ADDR"@))
    &&& port_src_ok(merged_src(doc, env, "reload-port"@, "LEPTOS_RELOAD_PORT"@))
    &&& port_src_ok(
        merged_src(doc, env, "reload-external-port"@, "LEPTOS_RELOAD_EXTERNAL_PORT"@),
    )
    &&& ws_src_ok(merged_src(doc, env, "reload-ws-protocol"@, "LEPTOS_RELOAD_WS_PROTOCOL"@))
    &&& flag_src_ok(merged_src(doc, env, "hash-files"@, "LEPTOS_HASH_FILES"@))
}

/// The settings the merged layers resolve to.
pub open spec fn options_of(
    doc: Seq<(Seq<char>, Seq<char>)>,
    env: Seq<(Seq<char>, Seq<char>)>,
) -> OptionsView {
    OptionsView {
        output_name: str_or(
            merged_src(doc, env, "output-name"@, "LEPTOS_OUTPUT_NAME"@),
            dash_to_underscore(project_name()),
        ),
        site_root: str_or(merged_src(doc, env, "site-root"@, "LEPTOS_SITE_ROOT"@), "."@),
        site_pkg_dir: str_or(merged_src(doc, env, "site-pkg-dir"@, "LEPTOS_SITE_PKG_DIR"@), "pkg"@),
        env: tag_src_val(merged_src(doc, env, "env"@, "LEPTOS_ENV"@)),
        site_addr: addr_src_val(merged_src(doc, env, "site-addr"@, "LEPTOS_SITE_ADDR"@)),
        reload_port: port_src_val(merged_src(doc, env, "reload-port"@, "LEPTOS_RELOAD_PORT"@)),
        reload_external_port: ext_port_src_val(
            merged_src(doc, env, "reload-external-port"@, "LEPTOS_RELOAD_EXTERNAL_PORT"@),
        ),
        reload_ws_protocol: ws_src_val(
            merged_src(doc, env, "reload-ws-protocol"@, "LEPTOS_RELOAD_WS_PROTOCOL"@),
        ),
        not_found_path: str_or(
            merged_src(doc, env, "not-found-path"@, "LEPTOS_NOT_FOUND_PATH"@),
            "/404"@,
        ),
        hash_file: str_or(merged_src(doc, env, "hash-file"@, "LEPTOS_HASH_FILE_NAME"@), "hash.txt"@),
        hash_files: flag_src_val(merged_src(doc, env, "hash-files"@, "LEPTOS_HASH_FILES"@)),
    }
}

/// Builds the error for a raw value that failed coercion.
fn coercion_error(value: &str, expected: &str) -> (r: LeptosConfigError)
    ensures
        r is EnvVarError,
{
    LeptosConfigError::EnvVarError(String::from_str(value).concat(expected))
}

impl LeptosOptions {
    /// Resolves the settings from the environment layer alone: every
    /// field is read from its variable, absent variables fall back to
    /// the compiled-in defaults, and a present value that fails its
    /// field's coercion is a typed error.
    pub fn try_from_env(env: &Vec<(String, String)>) -> (r: Result<
        LeptosOptions,
        LeptosConfigError,
    >)
        ensures
            r is Ok <==> env_ok(pairs_view(env@)),
            r is Ok ==> r->Ok_0@ == env_options_of(pairs_view(env@)),
            r is Err ==> r->Err_0 is EnvVarError,
    {
        let ghost ev = pairs_view(env@);
        let output_name = match env_lookup(env, "LEPTOS_OUTPUT_NAME") {
            Some(v) => v,
            None => default_output_name(),
        };
        let site_root = match env_lookup(env, "LEPTOS_SITE_ROOT") {
            Some(v) => v,
            None => default_site_root(),
        };
        let site_pkg_dir = match env_lookup(env, "LEPTOS_SITE_PKG_DIR") {
            Some(v) => v,
            None => default_site_pkg_dir(),
        };
        let env_tag = match env_lookup(env, "LEPTOS_ENV") {
            Some(v) => match env_from_str(v.as_str()) {
                Ok(t) => t,
                Err(e) => {
                    return Err(e);
                },
            },
            None => default_env(),
        };
        let site_addr = match env_lookup(env, "LEPTOS_SITE_ADDR") {
            Some(v) => match parse_socket_address(v.as_str()) {
                Some(a) => a,
                None => {
                    return Err(
                        coercion_error(v.as_str(), " is not a valid socket address (host:port)"),
                    );
                },
            },
            None => default_site_addr(),
        };
        let reload_port = match env_lookup(env, "LEPTOS_RELOAD_PORT") {
            Some(v) => match parse_u32(v.as_str()) {
                Some(p) => p,
                None => {
                    return Err(coercion_error(v.as_str(), " is not a valid port number"));
                },
            },
            None => default_reload_port(),
        };
        let reload_external_port = match env_lookup(env, "LEPTOS_RELOAD_EXTERNAL_PORT") {
            Some(v) => match parse_u32(v.as_str()) {
                Some(p) => Some(p),
                None => {
                    return Err(coercion_error(v.as_str(), " is not a valid port number"));
                },
            },
            None => None,
        };
        let reload_ws_protocol = match env_lookup(env, "LEPTOS_RELOAD_WS_PROTOCOL") {
            Some(v) => match ws_from_str(v.as_str()) {
                Ok(t) => t,
                Err(e) => {
                    return Err(e);
                },
            },
            None => ReloadWSProtocol::WS,
        };
        let not_found_path = match env_lookup(env, "LEPTOS_NOT_FOUND_PATH") {
            Some(v) => v,
            None => default_not_found_path(),
        };
        let hash_file = match env_lookup(env, "LEPTOS_HASH_FILE_NAME") {
            Some(v) => v,
            None => default_hash_file_name(),
        };
        let hash_files = match env_lookup(env, "LEPTOS_HASH_FILES") {
            Some(v) => match parse_bool(v.as_str()) {
                Some(b) => b,
                None => {
                    return Err(coercion_error(v.as_str(), " is not a valid boolean (true/false)"));
                },
            },
            None => default_hash_files(),
        };
        let r = LeptosOptions {
            output_name,
            site_root,
            site_pkg_dir,
            env: env_tag,
            site_addr,
            reload_port,
            reload_external_port,
            reload_ws_protocol,
            not_found_path,
            hash_file,
            hash_files,
        };
        proof {
            assert(r@ =~= env_options_of(ev));
        }
        Ok(r)
    }
}

/// Resolves the settings from the three layers: compiled-in defaults,
/// then the parsed document pairs, then the environment pairs, later
/// layers winning. A present value that fails its field's coercion is a
/// deserialization error.
pub fn options_from_sources(doc: &Vec<(String, String)>, env: &Vec<(String, String)>) -> (r: Result<
    LeptosOptions,
    LeptosConfigError,
>)
    ensures
        r is Ok <==> sources_ok(pairs_view(doc@), pairs_view(env@)),
        r is Ok ==> r->Ok_0@ == options_of(pairs_view(doc@), pairs_view(env@)),
        r is Err ==> r->Err_0 is ConfigError,
{
    let ghost dv = pairs_view(doc@);
    let ghost ev = pairs_view(env@);
    let output_name = match merged_lookup(doc, env, "output-name", "LEPTOS_OUTPUT_NAME") {
        Some(v) => v,
        None => default_output_name(),
    };
    let site_root = match merged_lookup(doc, env, "site-root", "LEPTOS_SITE_ROOT") {
        Some(v) => v,
        None => default_site_root(),
    };
    let site_pkg_dir = match merged_lookup(doc, env, "site-pkg-dir", "LEPTOS_SITE_PKG_DIR") {
        Some(v) => v,
        None => default_site_pkg_dir(),
    };
    let env_tag = match merged_lookup(doc, env, "env", "LEPTOS_ENV") {
        Some(v) => match env_from_str(v.as_str()) {
            Ok(t) => t,
            Err(e) => {
                return Err(LeptosConfigError::ConfigError(e.message()));
            },
        },
        None => default_env(),
    };
    let site_addr = match merged_lookup(doc, env, "site-addr", "LEPTOS_SITE_ADDR") {
        Some(v) => match parse_socket_address(v.as_str()) {
            Some(a) => a,
            None => {
                return Err(
                    LeptosConfigError::ConfigError(
                        String::from_str(v.as_str()).concat(
                            " is not a valid socket address (host:port)",
                        ),
                    ),
                );
            },
        },
        None => default_site_addr(),
    };
    let reload_port = match merged_lookup(doc, env, "reload-port", "LEPTOS_RELOAD_PORT") {
        Some(v) => match parse_u32(v.as_str()) {
            Some(p) => p,
            None => {
                return Err(
                    LeptosConfigError::ConfigError(
                        String::from_str(v.as_str()).concat(" is not a valid port number"),
                    ),
                );
            },
        },
        None => default_reload_port(),
    };
    let reload_external_port = match merged_lookup(
        doc,
        env,
        "reload-external-port",
        "LEPTOS_RELOAD_EXTERNAL_PORT",
    ) {
        Some(v) => match parse_u32(v.as_str()) {
            Some(p) => Some(p),
            None => {
                return Err(
                    LeptosConfigError::ConfigError(
                        String::from_str(v.as_str()).concat(" is not a valid port number"),
                    ),
                );
            },
        },
        None => None,
    };
    let reload_ws_protocol = match merged_lookup(
        doc,
        env,
        "reload-ws-protocol",
        "LEPTOS_RELOAD_WS_PROTOCOL",
    ) {
        Some(v) => match ws_from_str(v.as_str()) {
            Ok(t) => t,
            Err(e) => {
                return Err(LeptosConfigError::ConfigError(e.message()));
            },
        },
        None => ReloadWSProtocol::WS,
    };
    let not_found_path = match merged_lookup(doc, env, "not-found-path", "LEPTOS_NOT_FOUND_PATH") {
        Some(v) => v,
        None => default_not_found_path(),
    };
    let hash_file = match merged_lookup(doc, env, "hash-file", "LEPTOS_HASH_FILE_NAME") {
        Some(v) => v,
        None => default_hash_file_name(),
    };
    let hash_files = match merged_lookup(doc, env, "hash-files", "LEPTOS_HASH_FILES") {
        Some(v) => match parse_bool(v.as_str()) {
            Some(b) => b,
            None => {
                return Err(
                    LeptosConfigError::ConfigError(
                        String::from_str(v.as_str()).concat(" is not a valid boolean (true/false)"),
                    ),
                );
            },
        },
        None => default_hash_files(),
    };
    let r = LeptosOptions {
        output_name,
        site_root,
        site_pkg_dir,
        env: env_tag,
        site_addr,
        reload_port,
        reload_external_port,
        reload_ws_protocol,
        not_found_path,
        hash_file,
        hash_files,
    };
    proof {
        assert(r@ =~= options_of(dv, ev));
    }
    Ok(r)
}

/// With no variable of the surface set, the environment path owes the
/// caller exactly the all-defaults settings.
pub proof fn lemma_default_completeness(env: Seq<(Seq<char>, Seq<char>)>)
    requires
        lookup_exact(env, "LEPTOS_OUTPUT_NAME"@) is None,
        lookup_exact(env, "LEPTOS_SITE_ROOT"@) is None,
        lookup_exact(env, "LEPTOS_SITE_PKG_DIR"@) is None,
        lookup_exact(env, "LEPTOS_ENV"@) is None,
        lookup_exact(env, "LEPTOS_SITE_ADDR"@) is None,
        lookup_exact(env, "LEPTOS_RELOAD_PORT"@) is None,
        lookup_exact(env, "LEPTOS_RELOAD_EXTERNAL_PORT"@) is None,
        lookup_exact(env, "LEPTOS_RELOAD_WS_PROTOCOL"@) is None,
        lookup_exact(env, "LEPTOS_NOT_FOUND_PATH"@) is None,
        lookup_exact(env, "LEPTOS_HASH_FILE_NAME"@) is None,
        lookup_exact(env, "LEPTOS_HASH_FILES"@) is None,
    ensures
        env_ok(env),
        env_options_of(env) == default_options_view(),
{
    assert(env_options_of(env) =~= default_options_view());
}

/// Whatever the document layer holds, an environment variable that is
/// set and coerces decides its field of the merged resolution.
pub proof fn lemma_env_layer_wins_site_addr(
    doc: Seq<(Seq<char>, Seq<char>)>,
    env: Seq<(Seq<char>, Seq<char>)>,
)
    requires
        lookup_exact(env, "LEPTOS_SITE_ADDR"@) is Some,
    ensures
        options_of(doc, env).site_addr == addr_src_val(lookup_exact(env, "LEPTOS_SITE_ADDR"@)),
{
}

} // verus!
