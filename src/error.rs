//! The ways in which setting up or talking to an extension can fail.

use vstd::prelude::*;

use crate::config::ExtensionConfig;

verus! {

/// Declares `tokio::task::JoinError`, carried unread in `TaskJoinError`.
#[verifier::external_type_specification]
#[verifier::external_body]
pub struct ExJoinError(tokio::task::JoinError);

/// Declares `std::io::Error`, carried unread in `IoError`.
#[verifier::external_type_specification]
#[verifier::external_body]
pub struct ExIoError(std::io::Error);

/// Errors of extension operations. The client and transport layers report
/// their causes as messages.
#[derive(Debug)]
pub enum ExtensionError {
    /// The extension described by the configuration could not be started.
    Initialization(Box<ExtensionConfig>, String),
    /// A call to an extension failed.
    Client(String),
    /// The user message exceeded the context limit and history could not be
    /// truncated to make room.
    ContextLimit,
    /// The transport failed.
    Transport(String),
    /// The named environment variable may not be overridden.
    InvalidEnvVar(String),
    /// Setup failed, with a message.
    SetupError(String),
    /// A task could not be joined.
    TaskJoinError(tokio::task::JoinError),
    /// Input or output failed.
    IoError(std::io::Error),
}

/// The result of an extension operation.
pub type ExtensionResult<T> = Result<T, ExtensionError>;

} // verus!
