//! Layered configuration resolution for a web-application toolchain.
//!
//! A typed settings object is resolved from three layers, in increasing
//! precedence: compiled-in defaults, a settings block embedded inside a
//! larger manifest document, and environment-variable overrides.

pub mod addr;
pub mod errors;
pub mod options;
pub mod resolve;
pub mod section;
pub mod sources;
pub mod strutil;
pub mod tags;

pub use addr::SocketAddress;
pub use addr::default_site_addr;
pub use addr::parse_socket_address;
pub use errors::LeptosConfigError;
pub use options::ConfFile;
pub use options::LeptosOptions;
pub use options::default_env;
pub use options::default_hash_file_name;
pub use options::default_hash_files;
pub use options::default_not_found_path;
pub use options::default_output_name;
pub use options::default_reload_port;
pub use options::default_site_pkg_dir;
pub use options::default_site_root;
pub use options::options_from_sources;
pub use resolve::get_config_from_env;
pub use resolve::get_config_from_str;
pub use tags::Env;
pub use tags::ReloadWSProtocol;
pub use tags::env_from_str;
pub use tags::ws_from_str;
