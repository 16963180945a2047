//! The parsed command line, as plain values.

use crate::config::OverrideRuleCommand;
use crate::services::ServiceKind;
use vstd::prelude::*;
use vstd::std_specs::convert::FromSpecImpl;

verus! {

/// Everything the operator said on the command line.
#[derive(Debug, Clone)]
pub struct Args {
    /// Relative path to the config file.
    pub config: String,
    /// Namespace (or postfix) to use.
    pub namespace: String,
    pub command: Command,
}

impl Args {
    pub fn config(&self) -> (r: &str)
        ensures
            r@ == self.config@,
    {
        self.config.as_str()
    }

    pub fn namespace(&self) -> (r: &str)
        ensures
            r@ == self.namespace@,
    {
        self.namespace.as_str()
    }

    pub fn command(&self) -> (r: &Command)
        ensures
            r == self.command,
    {
        &self.command
    }
}

/// The execution context that was asked for, with its optional sub-command.
#[derive(Debug, Clone)]
#[allow(inconsistent_fields)]
pub enum Command {
    /// Deploy the application with all its dependencies to a remote server.
    Deploy {
        host: String,
        port: u16,
        username: String,
        keyfile: Option<String>,
        command: Option<DeployCommand>,
        watch: bool,
    },
    /// Run the application with all its dependencies locally.
    Run { command: Option<RunCommand>, watch: bool },
    /// Run only the dependencies of the application locally.
    Dev { command: Option<DevCommand> },
}

#[derive(Debug, Clone)]
pub enum DevCommand {
    /// Stop the services.
    Stop,
    /// Show the logs of a service; without `tail`, the last 20 and what follows.
    Logs { tail: Option<u64>, service: DevLogsService },
    /// Run a command inside the container of a service.
    Exec { service: DevLogsService, command: String },
}

#[derive(Debug, Clone, Copy, PartialEq, Eq, Structural)]
pub enum DevLogsService {
    Postgres,
}

#[derive(Debug, Clone)]
pub enum RunCommand {
    /// Stop the services.
    Stop,
    /// Show the logs of a service; without `tail`, the last 20 and what follows.
    Logs { tail: Option<u64>, service: RunLogsService },
    /// Run a command inside the container of a service.
    Exec { service: RunLogsService, command: String },
}

#[derive(Debug, Clone, Copy, PartialEq, Eq, Structural)]
pub enum RunLogsService {
    App,
    Postgres,
}

#[derive(Debug, Clone)]
pub enum DeployCommand {
    /// Stop the services.
    Stop,
    /// Show the logs of a service; without `tail`, the last 20 and what follows.
    Logs { tail: Option<u64>, service: DeployLogsService },
    /// Run a command inside the container of a service.
    Exec { service: DeployLogsService, command: String },
}

#[derive(Debug, Clone, Copy, PartialEq, Eq, Structural)]
pub enum DeployLogsService {
    App,
    Postgres,
}

impl From<DevLogsService> for ServiceKind {
    fn from(value: DevLogsService) -> (kind: ServiceKind) {
        match value {
            DevLogsService::Postgres => ServiceKind::Postgres,
        }
    }
}

impl FromSpecImpl<DevLogsService> for ServiceKind {
    open spec fn obeys_from_spec() -> bool {
        true
    }

    open spec fn from_spec(value: DevLogsService) -> ServiceKind {
        match value {
            DevLogsService::Postgres => ServiceKind::Postgres,
        }
    }
}

impl From<RunLogsService> for ServiceKind {
    fn from(value: RunLogsService) -> (kind: ServiceKind) {
        match value {
            RunLogsService::App => ServiceKind::App,
            RunLogsService::Postgres => ServiceKind::Postgres,
        }
    }
}

impl FromSpecImpl<RunLogsService> for ServiceKind {
    open spec fn obeys_from_spec() -> bool {
        true
    }

    open spec fn from_spec(value: RunLogsService) -> ServiceKind {
        match value {
            RunLogsService::App => ServiceKind::App,
            RunLogsService::Postgres => ServiceKind::Postgres,
        }
    }
}

impl From<DeployLogsService> for ServiceKind {
    fn from(value: DeployLogsService) -> (kind: ServiceKind) {
        match value {
            DeployLogsService::App => ServiceKind::App,
            DeployLogsService::Postgres => ServiceKind::Postgres,
        }
    }
}

impl FromSpecImpl<DeployLogsService> for ServiceKind {
    open spec fn obeys_from_spec() -> bool {
        true
    }

    open spec fn from_spec(value: DeployLogsService) -> ServiceKind {
        match value {
            DeployLogsService::App => ServiceKind::App,
            DeployLogsService::Postgres => ServiceKind::Postgres,
        }
    }
}

impl Command {
    /// Which of the three execution contexts this is.
    pub open spec fn spec_kind(&self) -> OverrideRuleCommand {
        match self {
            Command::Deploy { .. } => OverrideRuleCommand::Deploy,
            Command::Run { .. } => OverrideRuleCommand::Run,
            Command::Dev { .. } => OverrideRuleCommand::Dev,
        }
    }

    /// Whether the sub-command is `stop`.
    pub open spec fn spec_stop(&self) -> bool {
        match self {
            Command::Deploy { command, .. } => command == Some(DeployCommand::Stop),
            Command::Run { command, .. } => command == Some(RunCommand::Stop),
            Command::Dev { command } => command == Some(DevCommand::Stop),
        }
    }

    /// Whether the watch flag is set; `dev` has none.
    pub open spec fn spec_watch(&self) -> bool {
        match self {
            Command::Deploy { watch, .. } => *watch,
            Command::Run { watch, .. } => *watch,
            Command::Dev { .. } => false,
        }
    }

    /// Which of the three execution contexts this is.
    pub fn kind(&self) -> (r: OverrideRuleCommand)
        ensures
            r == self.spec_kind(),
    {
        match self {
            Command::Deploy { .. } => OverrideRuleCommand::Deploy,
            Command::Run { .. } => OverrideRuleCommand::Run,
            Command::Dev { .. } => OverrideRuleCommand::Dev,
        }
    }

    /// Whether the sub-command is `stop`.
    pub fn stop(&self) -> (r: bool)
        ensures
            r == self.spec_stop(),
    {
        match self {
            Command::Deploy { command, .. } => match command {
                Some(DeployCommand::Stop) => true,
                _ => false,
            },
            Command::Run { command, .. } => match command {
                Some(RunCommand::Stop) => true,
                _ => false,
            },
            Command::Dev { command } => match command {
                Some(DevCommand::Stop) => true,
                _ => false,
            },
        }
    }

    /// Whether the operator asked to redeploy on file changes.
    pub fn watch(&self) -> (r: bool)
        ensures
            r == self.spec_watch(),
    {
        match self {
            Command::Deploy { watch, .. } => *watch,
            Command::Run { watch, .. } => *watch,
            Command::Dev { .. } => false,
        }
    }
}

} // verus!
