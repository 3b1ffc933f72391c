use vstd::prelude::*;

verus! {

/// The persisted settings are absent a required field or cannot be read as a
/// settings document at all.
#[derive(Debug, PartialEq, Eq)]
pub enum ConfigError {
    /// The settings text is not a well-formed settings document.
    Malformed,
    MissingFrontierIp,
    MissingFrontierPort,
    MissingFrontierScheme,
    MissingGameDir,
}

/// The login or registration endpoint refused the request or answered with a
/// body that does not carry a session.
#[derive(Debug, PartialEq, Eq)]
pub enum AuthError {
    /// The endpoint answered with a non-success HTTP status.
    RemoteRejected(u16),
    /// The endpoint answered with a body that lacks the session fields.
    MalformedResponse,
}

/// The game installation's base data repository is unreadable or carries no
/// version string.
#[derive(Debug, PartialEq, Eq)]
pub struct RepositoryReadError;

/// The argument cipher could not run: its input cannot be padded and encoded
/// within the machine's limits, or the cipher itself failed.
#[derive(Debug, PartialEq, Eq)]
pub struct EncryptionError;

/// The final launch step failed.
#[derive(Debug, PartialEq, Eq)]
pub enum LaunchError {
    /// The game executable is not at its expected place under the game
    /// directory.
    ExecutableNotFound,
    /// The delegated front end is not installed.
    DependencyMissing,
    /// The delegated front end's catalog has no usable entry for the game.
    GameNotConfigured,
    /// The game process ended with a non-success status; the code is absent
    /// when the process was ended by a signal.
    AbnormalExit(Option<i32>),
}

/// The kind of failure that ended a launch attempt.
#[derive(Debug, PartialEq, Eq)]
pub enum ErrorKind {
    Config(ConfigError),
    Auth(AuthError),
    Repository(RepositoryReadError),
    Encryption(EncryptionError),
    Launch(LaunchError),
}

} // verus!
