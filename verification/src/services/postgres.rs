//! The Postgres dependency.

use crate::context::{
    Context, HostPortBinding, HostPortBindingView, Mount, MountView, published_ports,
};
use crate::network::DPLOY_NETWORK;
use crate::services::{
    ConnectionInfo, ContainerConfig, ContainerConfigView, ContainerSpec, ContainerSpecView,
    EnvVars, RestartPolicy, ServiceKind, ToContainerConfig, env_entry, make_env_entry,
};
use crate::utils::string::{decimal, decimal_string, text};
use vstd::prelude::*;

verus! {

/// The port that Postgres listens on inside its container.
pub const DEFAULT_PORT: u16 = 5432;

pub const DEFAULT_USER: &'static str = "admin";

pub const DEFAULT_PASSWORD: &'static str = "admin";

pub const IMAGE_NAME: &'static str = "postgres";

/// Where Postgres keeps its data inside the container.
pub const DATA_PATH: &'static str = "/var/lib/postgresql/data";

/// The URL of a Postgres database.
pub open spec fn postgres_url(
    user: Seq<char>,
    password: Seq<char>,
    host: Seq<char>,
    port: u16,
    database: Seq<char>,
) -> Seq<char> {
    "postgres://"@ + user + ":"@ + password + "@"@ + host + ":"@ + decimal(port as nat) + "/"@
        + database
}

/// The Postgres service of one application.
#[derive(Debug)]
pub struct PostgresService {
    expose_url_to_env: Option<String>,
    database_name: String,
    database_user: String,
    database_password: String,
    binding: HostPortBinding,
}

pub struct PostgresServiceView {
    pub expose_url_to_env: Option<Seq<char>>,
    pub database_name: Seq<char>,
    pub database_user: Seq<char>,
    pub database_password: Seq<char>,
    pub binding: HostPortBindingView,
}

impl View for PostgresService {
    type V = PostgresServiceView;

    closed spec fn view(&self) -> PostgresServiceView {
        PostgresServiceView {
            expose_url_to_env: self.expose_url_to_env.deep_view(),
            database_name: self.database_name@,
            database_user: self.database_user@,
            database_password: self.database_password@,
            binding: self.binding@,
        }
    }
}

impl DeepView for PostgresService {
    type V = PostgresServiceView;

    open spec fn deep_view(&self) -> PostgresServiceView {
        self@
    }
}

impl PostgresServiceView {
    pub open spec fn construct_url(self, host: Seq<char>, port: u16) -> Seq<char> {
        postgres_url(self.database_user, self.database_password, host, port, self.database_name)
    }

    /// The URL at which the database is reached from inside the network.
    pub open spec fn inner_url(self) -> Seq<char> {
        self.construct_url(self.binding.inner_host, self.binding.inner_port)
    }

    /// The URL at which the operator reaches the database, where the mode
    /// publishes it.
    pub open spec fn host_url(self) -> Option<Seq<char>> {
        match self.binding.host_port {
            Some(port) => Some(self.construct_url(self.binding.host_host, port)),
            None => None,
        }
    }

    /// The variable that carries the inner URL, where one is configured.
    pub open spec fn env_vars(self) -> Seq<(Seq<char>, Seq<char>)> {
        match self.expose_url_to_env {
            Some(name) => seq![(name, self.inner_url())],
            None => Seq::empty(),
        }
    }

    pub open spec fn connection_info(self) -> Seq<Seq<char>> {
        match self.host_url() {
            Some(url) => seq![url],
            None => Seq::empty(),
        }
    }

    /// The environment of the Postgres container.
    pub open spec fn container_env(self) -> Seq<Seq<char>> {
        seq![
            env_entry("POSTGRES_DB"@, self.database_name),
            env_entry("POSTGRES_USER"@, self.database_user),
            env_entry("POSTGRES_PASSWORD"@, self.database_password),
        ]
    }

    /// The container that runs the database, under the given name and with
    /// its data at the given mount.
    pub open spec fn container_config(self, name: Seq<char>, data: MountView) -> ContainerConfigView {
        ContainerConfigView {
            container_name: name,
            image_name: IMAGE_NAME@,
            config: ContainerSpecView {
                image: IMAGE_NAME@,
                hostname: name,
                domainname: name,
                cmd: None,
                env: Some(self.container_env()),
                mounts: seq![data],
                port_bindings: published_ports(seq![self.binding]),
                network: DPLOY_NETWORK@,
                restart_policy: RestartPolicy::No,
            },
        }
    }
}

impl PostgresService {
    /// The service that the context asks for: none when no Postgres is
    /// configured. The database is named as configured, else after the
    /// application.
    pub open spec fn spec_from_context(context: &Context, free_port: u16) -> Option<
        PostgresServiceView,
    > {
        match context.spec_app_config().spec_postgres(&context.spec_override_context()) {
            Some(config) => Some(
                PostgresServiceView {
                    expose_url_to_env: config.expose_url_to_env,
                    database_name: match config.database_name {
                        Some(name) => name,
                        None => context.spec_app_name(),
                    },
                    database_user: DEFAULT_USER@,
                    database_password: DEFAULT_PASSWORD@,
                    binding: context.spec_host_port_binding_of(
                        ServiceKind::Postgres,
                        DEFAULT_PORT,
                        free_port,
                    ),
                },
            ),
            None => None,
        }
    }

    /// Builds the service from the context; `free_port` is a TCP port that
    /// the caller found free on the host.
    pub fn from_context(context: &Context, free_port: u16) -> (service: Option<Self>)
        ensures
            service.deep_view() == Self::spec_from_context(context, free_port),
    {
        match context.app_config().postgres(context.override_context()) {
            Some(config) => {
                let expose_url_to_env = match config.expose_url_to_env() {
                    Some(name) => Some(text(name)),
                    None => None,
                };
                let database_name = match config.database_name() {
                    Some(name) => text(name),
                    None => text(context.app_name()),
                };
                Some(
                    PostgresService {
                        expose_url_to_env,
                        database_name,
                        database_user: text(DEFAULT_USER),
                        database_password: text(DEFAULT_PASSWORD),
                        binding: context.host_port_binding_of(
                            ServiceKind::Postgres,
                            DEFAULT_PORT,
                            free_port,
                        ),
                    },
                )
            },
            None => None,
        }
    }

    /// The URL of the database on the given host and port.
    pub fn construct_url(&self, host: &str, port: u16) -> (url: String)
        ensures
            url@ == self@.construct_url(host@, port),
    {
        let mut url = text("postgres://");
        url.append(self.database_user.as_str());
        url.append(":");
        url.append(self.database_password.as_str());
        url.append("@");
        url.append(host);
        url.append(":");
        url.append(decimal_string(port as u64).as_str());
        url.append("/");
        url.append(self.database_name.as_str());
        url
    }

    /// The URL at which the database is reached from inside the network.
    pub fn inner_url(&self) -> (url: String)
        ensures
            url@ == self@.inner_url(),
    {
        self.construct_url(self.binding.inner_host(), self.binding.inner_port())
    }

    /// The URL at which the operator reaches the database, where the mode
    /// publishes it.
    pub fn host_url(&self) -> (url: Option<String>)
        ensures
            url.deep_view() == self@.host_url(),
    {
        match self.binding.host_port() {
            Some(port) => Some(self.construct_url(self.binding.host_host(), port)),
            None => None,
        }
    }
}

impl EnvVars for PostgresService {
    fn env_vars(&self) -> (vars: Vec<(String, String)>)
        ensures
            vars.deep_view() == self@.env_vars(),
    {
        let mut vars: Vec<(String, String)> = Vec::new();
        match &self.expose_url_to_env {
            Some(name) => {
                vars.push((name.clone(), self.inner_url()));
            },
            None => {},
        }
        assert(vars.deep_view() =~= self@.env_vars());
        vars
    }
}

impl ConnectionInfo for PostgresService {
    fn connection_info(&self) -> (info: Vec<String>)
        ensures
            info.deep_view() == self@.connection_info(),
    {
        let mut info: Vec<String> = Vec::new();
        match self.host_url() {
            Some(url) => {
                info.push(url);
            },
            None => {},
        }
        assert(info.deep_view() =~= self@.connection_info());
        info
    }
}

impl ToContainerConfig for PostgresService {
    fn to_container_config(&self, context: &Context) -> (config: ContainerConfig)
        ensures
            config@ == self@.container_config(
                context.spec_container_name_of(ServiceKind::Postgres),
                context.spec_mount(ServiceKind::Postgres, DATA_PATH@),
            ),
    {
        let name = context.container_name_of(ServiceKind::Postgres);
        let mut env: Vec<String> = Vec::new();
        env.push(make_env_entry("POSTGRES_DB", self.database_name.as_str()));
        env.push(make_env_entry("POSTGRES_USER", self.database_user.as_str()));
        env.push(make_env_entry("POSTGRES_PASSWORD", self.database_password.as_str()));
        assert(env.deep_view() =~= self@.container_env());
        let mut mounts: Vec<Mount> = Vec::new();
        mounts.push(context.mount(ServiceKind::Postgres, DATA_PATH));
        assert(mounts.deep_view() =~= seq![context.spec_mount(ServiceKind::Postgres, DATA_PATH@)]);
        let spec = ContainerSpec {
            image: text(IMAGE_NAME),
            hostname: name.clone(),
            domainname: name.clone(),
            cmd: None,
            env: Some(env),
            mounts,
            port_bindings: self.binding.to_port_binding(),
            network: text(DPLOY_NETWORK),
            restart_policy: RestartPolicy::No,
        };
        ContainerConfig::new(name, text(IMAGE_NAME), spec)
    }
}

} // verus!
