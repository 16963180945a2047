//! What each command comes to: the decisions, as functions of what was
//! observed. The surrounding program performs the calls and reports back.

use crate::cli::{Command, DeployCommand, DevCommand, RunCommand};
use crate::commands::exec::ExecArgs;
use crate::services::ServiceKind;
use vstd::prelude::*;
use vstd::std_specs::convert::FromSpec;

pub mod deploy;
pub mod exec;
pub mod logs;
pub mod stop;

verus! {

/// Where the engine is that a command talks to.
#[derive(Debug, Clone, Copy, PartialEq, Eq, Structural)]
pub enum Connector {
    /// The engine of this machine, at its default endpoint.
    Local,
    /// The engine of the remote host, through an SSH tunnel that is closed
    /// once the command is through.
    Remote,
}

/// What a command line asks for.
#[derive(Debug)]
pub enum Operation {
    /// Converge once.
    Deploy,
    /// Converge, then redeploy the application whenever watched files change.
    DeployWatch,
    Stop,
    Logs { service: ServiceKind, tail: Option<u64> },
    Exec(ExecArgs),
}

pub enum OperationView {
    Deploy,
    DeployWatch,
    Stop,
    Logs { service: ServiceKind, tail: Option<u64> },
    Exec { service: ServiceKind, command: Seq<char> },
}

impl View for Operation {
    type V = OperationView;

    open spec fn view(&self) -> OperationView {
        match self {
            Operation::Deploy => OperationView::Deploy,
            Operation::DeployWatch => OperationView::DeployWatch,
            Operation::Stop => OperationView::Stop,
            Operation::Logs { service, tail } => OperationView::Logs {
                service: *service,
                tail: *tail,
            },
            Operation::Exec(args) => OperationView::Exec {
                service: args.spec_service(),
                command: args.spec_command(),
            },
        }
    }
}

/// The engine that a command talks to: the remote one for `deploy`, the
/// local one otherwise.
pub open spec fn connector_of(command: Command) -> Connector {
    if command is Deploy {
        Connector::Remote
    } else {
        Connector::Local
    }
}

/// What a command asks for. Without a sub-command it is a deploy, watched
/// where the watch flag is set; a sub-command wins over the watch flag.
pub open spec fn operation_of(command: Command) -> OperationView {
    match command {
        Command::Deploy { command: sub, watch, .. } => match sub {
            None => if watch {
                OperationView::DeployWatch
            } else {
                OperationView::Deploy
            },
            Some(DeployCommand::Stop) => OperationView::Stop,
            Some(DeployCommand::Logs { tail, service }) => OperationView::Logs {
                service: ServiceKind::from_spec(service),
                tail,
            },
            Some(DeployCommand::Exec { service, command }) => OperationView::Exec {
                service: ServiceKind::from_spec(service),
                command: command@,
            },
        },
        Command::Run { command: sub, watch } => match sub {
            None => if watch {
                OperationView::DeployWatch
            } else {
                OperationView::Deploy
            },
            Some(RunCommand::Stop) => OperationView::Stop,
            Some(RunCommand::Logs { tail, service }) => OperationView::Logs {
                service: ServiceKind::from_spec(service),
                tail,
            },
            Some(RunCommand::Exec { service, command }) => OperationView::Exec {
                service: ServiceKind::from_spec(service),
                command: command@,
            },
        },
        Command::Dev { command: sub } => match sub {
            None => OperationView::Deploy,
            Some(DevCommand::Stop) => OperationView::Stop,
            Some(DevCommand::Logs { tail, service }) => OperationView::Logs {
                service: ServiceKind::from_spec(service),
                tail,
            },
            Some(DevCommand::Exec { service, command }) => OperationView::Exec {
                service: ServiceKind::from_spec(service),
                command: command@,
            },
        },
    }
}

/// The engine that a command talks to.
pub fn connector(command: &Command) -> (r: Connector)
    ensures
        r == connector_of(*command),
{
    match command {
        Command::Deploy { .. } => Connector::Remote,
        _ => Connector::Local,
    }
}

/// What a command asks for.
pub fn run_cli(command: &Command) -> (operation: Operation)
    ensures
        operation@ == operation_of(*command),
{
    match command {
        Command::Deploy { command: sub, watch, .. } => match sub {
            None => if *watch {
                Operation::DeployWatch
            } else {
                Operation::Deploy
            },
            Some(DeployCommand::Stop) => Operation::Stop,
            Some(DeployCommand::Logs { tail, service }) => Operation::Logs {
                service: ServiceKind::from(*service),
                tail: *tail,
            },
            Some(DeployCommand::Exec { service, command }) => Operation::Exec(
                ExecArgs::new(ServiceKind::from(*service), command.clone()),
            ),
        },
        Command::Run { command: sub, watch } => match sub {
            None => if *watch {
                Operation::DeployWatch
            } else {
                Operation::Deploy
            },
            Some(RunCommand::Stop) => Operation::Stop,
            Some(RunCommand::Logs { tail, service }) => Operation::Logs {
                service: ServiceKind::from(*service),
                tail: *tail,
            },
            Some(RunCommand::Exec { service, command }) => Operation::Exec(
                ExecArgs::new(ServiceKind::from(*service), command.clone()),
            ),
        },
        Command::Dev { command: sub } => match sub {
            None => Operation::Deploy,
            Some(DevCommand::Stop) => Operation::Stop,
            Some(DevCommand::Logs { tail, service }) => Operation::Logs {
                service: ServiceKind::from(*service),
                tail: *tail,
            },
            Some(DevCommand::Exec { service, command }) => Operation::Exec(
                ExecArgs::new(ServiceKind::from(*service), command.clone()),
            ),
        },
    }
}

} // verus!
