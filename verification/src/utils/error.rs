//! The error type of the daemon and of its client.

use vstd::prelude::*;

verus! {

/// An I/O failure reported by the standard library (files, sockets, processes).
#[verifier::external_type_specification]
#[verifier::external_body]
pub struct ExIoError(std::io::Error);

/// A configuration file that `toml` could not read as a configuration.
#[verifier::external_type_specification]
#[verifier::external_body]
pub struct ExTomlDeError(toml::de::Error);

/// A failure of `daemonize` to detach the process.
#[verifier::external_type_specification]
#[verifier::external_body]
pub struct ExDaemonizeError(daemonize::Error);

/// A failure of `serde_json` to encode or decode a message.
#[verifier::external_type_specification]
#[verifier::external_body]
pub struct ExSerdeJsonError(serde_json::Error);

/// Everything that can go wrong in the daemon or in its client.
#[derive(Debug)]
pub enum AppError {
    /// A failure without a more specific cause, such as a wallpaper path
    /// that is not valid UTF-8.
    General,
    /// File operation error
    Io(std::io::Error),
    /// Invalid configuration format
    ConfigFormat(toml::de::Error),
    /// Daemon error
    Daemon(daemonize::Error),
    /// The lock around the shared state is poisoned
    Lock,
    /// Failed to serialize/deserialize data from/to bytes
    BytesSerde(serde_json::Error),
}

} // verus!
