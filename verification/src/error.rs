//! The failures that end a command.

use crate::utils::string::text;
use vstd::prelude::*;

verus! {

/// What the operator is told when watch mode has nothing to watch.
pub const NO_WATCH_PATHS: &'static str =
    "Called with --watch flag but no paths were provided. Please provide at least one path to watch in the dploy.toml";

/// What the operator is told when the host has no free port left.
pub const NO_FREE_PORT: &'static str = "Failed to acquire a free port";

/// What the operator is told when logs are asked of a stopped container.
pub const LOGS_NOT_RUNNING: &'static str =
    "Cannot show logs because the container is not running. Deploy it first.";

/// What the operator is told when a remote engine is asked for without
/// credentials.
pub const NO_SSH_CREDENTIALS: &'static str = "No SSH credentials provided";

/// A failure of the engine, as the client reported it.
#[derive(Debug)]
pub struct EngineError {
    /// The status of the engine's answer, where it gave one.
    pub status_code: Option<u16>,
    pub message: String,
}

/// Every failure is fatal: it ends the command with its message.
#[derive(Debug)]
pub enum Error {
    /// The engine failed with anything but "not found" on an inspect.
    Engine(EngineError),
    /// A remote engine was asked for without SSH credentials.
    Ssh,
    /// Watch mode was asked for, and no path is configured.
    WatchConfig,
    /// The host has fewer free ports than the services need.
    ResourceExhaustion,
    /// A command needs a running container and this one is not running.
    NotRunning { container_name: String },
    /// Logs were asked of a container that is not running.
    LogsUnavailable,
}

impl Error {
    pub open spec fn spec_message(&self) -> Seq<char> {
        match self {
            Error::Engine(error) => error.message@,
            Error::Ssh => NO_SSH_CREDENTIALS@,
            Error::WatchConfig => NO_WATCH_PATHS@,
            Error::ResourceExhaustion => NO_FREE_PORT@,
            Error::NotRunning { container_name } => container_name@ + " is not running"@,
            Error::LogsUnavailable => LOGS_NOT_RUNNING@,
        }
    }

    /// The text that is printed on standard error.
    pub fn message(&self) -> (out: String)
        ensures
            out@ == self.spec_message(),
    {
        match self {
            Error::Engine(error) => error.message.clone(),
            Error::Ssh => text(NO_SSH_CREDENTIALS),
            Error::WatchConfig => text(NO_WATCH_PATHS),
            Error::ResourceExhaustion => text(NO_FREE_PORT),
            Error::NotRunning { container_name } => {
                let mut out = container_name.clone();
                out.append(" is not running");
                out
            },
            Error::LogsUnavailable => text(LOGS_NOT_RUNNING),
        }
    }
}

} // verus!
