//! The error taxonomy of configuration resolution. Every failure is a
//! tagged value returned to the caller; nothing is swallowed on the
//! strict paths.

use vstd::prelude::*;

verus! {

/// Why a resolution call failed.
#[derive(Debug, Clone)]
pub enum LeptosConfigError {
    /// The file collaborator could not produce any text.
    ConfigNotFound,
    /// Neither anchor marker occurs line-anchored in the document.
    ConfigSectionNotFound,
    /// An environment variable was present but its value failed type
    /// coercion, or held a forbidden value for an enumerated field.
    EnvVarError(String),
    /// The merged document and environment layers could not be converted
    /// into the settings object.
    ConfigError(String),
}

impl LeptosConfigError {
    /// A human-readable description of the failure.
    pub fn message(&self) -> (r: String)
        ensures
            self is EnvVarError ==> r@ == self->EnvVarError_0@,
            self is ConfigError ==> r@ == self->ConfigError_0@,
            self is ConfigNotFound ==> r@ == "Cargo.toml not found in a parent directory"@,
            self is ConfigSectionNotFound ==> r@
                == "the config section couldn't be found inside of Cargo.toml"@,
    {
        match self {
            LeptosConfigError::ConfigNotFound => String::from_str(
                "Cargo.toml not found in a parent directory",
            ),
            LeptosConfigError::ConfigSectionNotFound => String::from_str(
                "the config section couldn't be found inside of Cargo.toml",
            ),
            LeptosConfigError::EnvVarError(msg) => msg.clone(),
            LeptosConfigError::ConfigError(msg) => msg.clone(),
        }
    }
}

} // verus!
