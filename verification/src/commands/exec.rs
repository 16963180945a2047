//! Running a command inside the container of a service.

use crate::docker::{ExecRequest, exec_command_attached, shell_request};
use crate::error::Error;
use crate::services::ServiceKind;
use crate::utils::string::text;
use vstd::prelude::*;

verus! {

/// Which service runs what.
#[derive(Debug, Clone)]
pub struct ExecArgs {
    service: ServiceKind,
    command: String,
}

impl ExecArgs {
    pub closed spec fn spec_service(&self) -> ServiceKind {
        self.service
    }

    pub closed spec fn spec_command(&self) -> Seq<char> {
        self.command@
    }

    pub fn new(service: ServiceKind, command: String) -> (args: Self)
        ensures
            args.spec_service() == service,
            args.spec_command() == command@,
    {
        ExecArgs { service, command }
    }

    pub fn service(&self) -> (r: ServiceKind)
        ensures
            r == self.spec_service(),
    {
        self.service
    }

    pub fn command(&self) -> (r: &str)
        ensures
            r@ == self.spec_command(),
    {
        self.command.as_str()
    }
}

/// The request that runs the command on a terminal inside the container.
/// A command runs in a running container only.
pub fn exec(container_name: &str, container_running: bool, args: &ExecArgs) -> (request: Result<
    ExecRequest,
    Error,
>)
    ensures
        request is Ok <==> container_running,
        request matches Ok(exec) ==> exec@ == shell_request(args.spec_command(), true),
        request matches Err(error) ==> error matches Error::NotRunning { container_name: name }
            && name@ == container_name@,
{
    if !container_running {
        return Err(Error::NotRunning { container_name: text(container_name) });
    }
    Ok(exec_command_attached(args.command()))
}

} // verus!
