//! Access to a remote engine: an SSH session that forwards a local port to
//! the engine's socket on the remote host.

use crate::context::{Context, SshCredentials, SshCredentialsView};
use crate::error::Error;
use crate::utils::string::text;
use vstd::prelude::*;

verus! {

/// How long opening the SSH session may take, in seconds.
pub const DEFAULT_TIMEOUT: u64 = 60;

/// How long the engine client waits for an answer, in seconds.
pub const ENGINE_TIMEOUT: u64 = 120;

/// The socket of the engine on the remote host.
pub const REMOTE_SOCKET: &'static str = "/var/run/docker.sock";

/// Everything that opening the tunnel takes. The session outlives every
/// call that is made through the tunnel and is closed once the command is
/// through.
#[derive(Debug)]
pub struct SshTunnel {
    pub credentials: SshCredentials,
    /// Unknown host keys are accepted.
    pub accept_unknown_hosts: bool,
    /// Opening the session fails for good after this many seconds.
    pub connect_timeout: u64,
    /// The socket on the remote host that the local port is forwarded to.
    pub remote_socket: String,
    /// How long the engine client waits for an answer, in seconds.
    pub engine_timeout: u64,
}

pub struct SshTunnelView {
    pub credentials: SshCredentialsView,
    pub accept_unknown_hosts: bool,
    pub connect_timeout: u64,
    pub remote_socket: Seq<char>,
    pub engine_timeout: u64,
}

impl View for SshTunnel {
    type V = SshTunnelView;

    open spec fn view(&self) -> SshTunnelView {
        SshTunnelView {
            credentials: self.credentials@,
            accept_unknown_hosts: self.accept_unknown_hosts,
            connect_timeout: self.connect_timeout,
            remote_socket: self.remote_socket@,
            engine_timeout: self.engine_timeout,
        }
    }
}

/// The tunnel that leads to the engine behind the given credentials.
pub open spec fn tunnel_to(credentials: SshCredentialsView) -> SshTunnelView {
    SshTunnelView {
        credentials,
        accept_unknown_hosts: true,
        connect_timeout: DEFAULT_TIMEOUT,
        remote_socket: REMOTE_SOCKET@,
        engine_timeout: ENGINE_TIMEOUT,
    }
}

/// The tunnel to the remote engine of a deployment. Only `deploy` carries
/// credentials; every other command is refused.
pub fn get_remote_docker_client(context: &Context) -> (tunnel: Result<SshTunnel, Error>)
    ensures
        tunnel is Ok <==> context.spec_ssh_credentials() is Some,
        tunnel matches Ok(plan) ==> plan@ == tunnel_to(context.spec_ssh_credentials()->0),
        tunnel matches Err(error) ==> error == Error::Ssh,
{
    match context.ssh_credentials() {
        Some(credentials) => Ok(
            SshTunnel {
                credentials,
                accept_unknown_hosts: true,
                connect_timeout: DEFAULT_TIMEOUT,
                remote_socket: text(REMOTE_SOCKET),
                engine_timeout: ENGINE_TIMEOUT,
            },
        ),
        None => Err(Error::Ssh),
    }
}

} // verus!
