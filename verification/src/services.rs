//! The catalog of services that make up one deployment, and the container
//! specifications that they are turned into.

use crate::context::{Context, Mount, MountView, PortBinding, PortBindingView, port_map_view};
use crate::error::Error;
use crate::services::app::{AppService, AppServiceView};
use crate::services::postgres::{DATA_PATH, PostgresService, PostgresServiceView};
use crate::services::proxy::{ProxyCommand, ProxyService, ProxyServiceView};
use crate::utils::string::{escape_sh, escaped, lemma_escaped_is_shell_safe, shell_safe, text};
use std::collections::HashMap;
use vstd::prelude::*;

pub mod app;
pub mod postgres;
pub mod proxy;

verus! {

/// The closed set of services that a deployment can hold.
#[derive(Debug, Clone, Copy, PartialEq, Eq, Structural)]
pub enum ServiceKind {
    /// The application under development.
    App,
    Postgres,
    Keydb,
    /// The reverse proxy, shared by every project on a host.
    Proxy,
}

impl ServiceKind {
    /// The lower-case name of the kind.
    pub open spec fn spec_name(&self) -> Seq<char> {
        match self {
            ServiceKind::App => "app"@,
            ServiceKind::Postgres => "postgres"@,
            ServiceKind::Keydb => "keydb"@,
            ServiceKind::Proxy => "proxy"@,
        }
    }

    /// Singleton services exist once per host.
    pub fn is_singleton(&self) -> (r: bool)
        ensures
            r == (*self == ServiceKind::Proxy),
    {
        match self {
            ServiceKind::Proxy => true,
            _ => false,
        }
    }

    /// Local services exist once per project.
    pub fn is_local(&self) -> (r: bool)
        ensures
            r == (*self != ServiceKind::Proxy),
    {
        !self.is_singleton()
    }

    /// The lower-case name of the kind, as it is shown to the operator.
    pub fn to_string(&self) -> (name: String)
        ensures
            name@ == self.spec_name(),
    {
        match self {
            ServiceKind::App => "app".to_owned(),
            ServiceKind::Postgres => "postgres".to_owned(),
            ServiceKind::Keydb => "keydb".to_owned(),
            ServiceKind::Proxy => "proxy".to_owned(),
        }
    }
}

impl View for ServiceKind {
    type V = ServiceKind;

    open spec fn view(&self) -> ServiceKind {
        *self
    }
}

impl DeepView for ServiceKind {
    type V = ServiceKind;

    open spec fn deep_view(&self) -> ServiceKind {
        *self
    }
}

/// When the engine restarts a container by itself.
#[derive(Debug, Clone, Copy, PartialEq, Eq, Structural)]
pub enum RestartPolicy {
    /// Never.
    No,
    /// Whenever it stops.
    Always,
}

/// What a container is created from, in terms that no engine owns.
#[derive(Debug)]
pub struct ContainerSpec {
    /// The image reference.
    pub image: String,
    pub hostname: String,
    pub domainname: String,
    /// The command to run, where the image's own is replaced.
    pub cmd: Option<Vec<String>>,
    /// The environment, as `KEY=VALUE` entries.
    pub env: Option<Vec<String>>,
    /// The bind mounts.
    pub mounts: Vec<Mount>,
    /// The published ports, by container port.
    pub port_bindings: HashMap<u16, PortBinding>,
    /// The network that the container is attached to.
    pub network: String,
    pub restart_policy: RestartPolicy,
}

pub struct ContainerSpecView {
    pub image: Seq<char>,
    pub hostname: Seq<char>,
    pub domainname: Seq<char>,
    pub cmd: Option<Seq<Seq<char>>>,
    pub env: Option<Seq<Seq<char>>>,
    pub mounts: Seq<MountView>,
    pub port_bindings: Map<u16, PortBindingView>,
    pub network: Seq<char>,
    pub restart_policy: RestartPolicy,
}

impl View for ContainerSpec {
    type V = ContainerSpecView;

    open spec fn view(&self) -> ContainerSpecView {
        ContainerSpecView {
            image: self.image@,
            hostname: self.hostname@,
            domainname: self.domainname@,
            cmd: self.cmd.deep_view(),
            env: self.env.deep_view(),
            mounts: self.mounts.deep_view(),
            port_bindings: port_map_view(self.port_bindings@),
            network: self.network@,
            restart_policy: self.restart_policy,
        }
    }
}

/// A container to converge to: its name, the image to fetch and the
/// specification to create it from.
#[derive(Debug)]
pub struct ContainerConfig {
    container_name: String,
    image_name: String,
    config: ContainerSpec,
}

pub struct ContainerConfigView {
    pub container_name: Seq<char>,
    pub image_name: Seq<char>,
    pub config: ContainerSpecView,
}

impl View for ContainerConfig {
    type V = ContainerConfigView;

    closed spec fn view(&self) -> ContainerConfigView {
        ContainerConfigView {
            container_name: self.container_name@,
            image_name: self.image_name@,
            config: self.config@,
        }
    }
}

impl DeepView for ContainerConfig {
    type V = ContainerConfigView;

    open spec fn deep_view(&self) -> ContainerConfigView {
        self@
    }
}

impl ContainerConfig {
    pub fn new(container_name: String, image_name: String, config: ContainerSpec) -> (r: Self)
        ensures
            r@ == (ContainerConfigView {
                container_name: container_name@,
                image_name: image_name@,
                config: config@,
            }),
    {
        ContainerConfig { container_name, image_name, config }
    }

    pub fn container_name(&self) -> (r: &str)
        ensures
            r@ == self@.container_name,
    {
        self.container_name.as_str()
    }

    pub fn image_name(&self) -> (r: &str)
        ensures
            r@ == self@.image_name,
    {
        self.image_name.as_str()
    }

    pub fn config(&self) -> (r: &ContainerSpec)
        ensures
            r@ == self@.config,
    {
        &self.config
    }
}

/// One entry of a container's environment: the name, `=`, and the value
/// escaped for a shell.
pub open spec fn env_entry(name: Seq<char>, value: Seq<char>) -> Seq<char> {
    name + "="@ + escaped(value)
}

/// One `KEY=VALUE` entry of a container's environment, the value escaped.
pub fn make_env_entry(name: &str, value: &str) -> (entry: String)
    ensures
        entry@ == env_entry(name@, value@),
{
    let mut entry = text(name);
    entry.append("=");
    entry.append(escape_sh(value).as_str());
    entry
}

/// The environment entries of a list of variables, in order.
pub open spec fn env_entries(vars: Seq<(Seq<char>, Seq<char>)>) -> Seq<Seq<char>> {
    Seq::new(vars.len(), |i: int| env_entry(vars[i].0, vars[i].1))
}

/// Every environment entry is its name, `=`, and the escaped value; and an
/// escaped value is shell-safe, whatever the value was.
pub proof fn lemma_env_entry_is_escaped(name: Seq<char>, value: Seq<char>)
    ensures
        env_entry(name, value).take(name.len() as int) == name,
        env_entry(name, value)[name.len() as int] == '=',
        env_entry(name, value).skip(name.len() as int + 1) == escaped(value),
        shell_safe(escaped(value)),
{
    reveal_strlit("=");
    lemma_escaped_is_shell_safe(value);
    assert(env_entry(name, value).take(name.len() as int) =~= name);
    assert(env_entry(name, value).skip(name.len() as int + 1) =~= escaped(value));
}

/// Environment variables that a service hands to the application.
pub trait EnvVars {
    fn env_vars(&self) -> Vec<(String, String)>;
}

/// A service that runs in a container of its own.
pub trait ToContainerConfig {
    fn to_container_config(&self, context: &Context) -> ContainerConfig;
}

/// The addresses at which the operator reaches a service.
pub trait ConnectionInfo {
    fn connection_info(&self) -> Vec<String>;
}

/// The services of one deployment. The dependencies are described first,
/// because what they hand over goes into the application's environment. The
/// proxy is always described, whether or not this deployment creates it.
#[derive(Debug)]
pub struct Services {
    app: Option<AppService>,
    postgres: Option<PostgresService>,
    proxy: ProxyService,
}

pub struct ServicesView {
    pub app: Option<AppServiceView>,
    pub postgres: Option<PostgresServiceView>,
    pub proxy: ProxyServiceView,
}

impl View for Services {
    type V = ServicesView;

    closed spec fn view(&self) -> ServicesView {
        ServicesView {
            app: self.app.deep_view(),
            postgres: self.postgres.deep_view(),
            proxy: self.proxy@,
        }
    }
}

impl ServicesView {
    /// What the dependencies hand to the application.
    pub open spec fn dependency_env_vars(self) -> Seq<(Seq<char>, Seq<char>)> {
        match self.postgres {
            Some(postgres) => postgres.env_vars(),
            None => Seq::empty(),
        }
    }

    /// The variables that the services provide: what the dependencies hand
    /// over, then the namespace under the given name, where one is given.
    pub open spec fn env_vars(self, namespace_variable: Option<Seq<char>>, namespace: Seq<char>) -> Seq<
        (Seq<char>, Seq<char>),
    > {
        match namespace_variable {
            Some(name) => self.dependency_env_vars().push((name, namespace)),
            None => self.dependency_env_vars(),
        }
    }

    /// The addresses of the services that the operator can reach: those of
    /// Postgres, then those of the application.
    pub open spec fn connection_info(self) -> Seq<(ServiceKind, Seq<char>)> {
        let postgres = match self.postgres {
            Some(postgres) => postgres.connection_info().map_values(
                |address: Seq<char>| (ServiceKind::Postgres, address),
            ),
            None => Seq::empty(),
        };
        let app = match self.app {
            Some(app) => app.connection_info().map_values(
                |address: Seq<char>| (ServiceKind::App, address),
            ),
            None => Seq::empty(),
        };
        postgres + app
    }
}

impl Services {
    /// How many free host ports the dependencies take: one for Postgres
    /// where it is configured and the mode publishes dependencies.
    pub open spec fn spec_dependency_ports_needed(context: &Context) -> nat {
        if context.spec_should_expose_to_host() && context.spec_app_config().spec_postgres(
            &context.spec_override_context(),
        ) is Some {
            1
        } else {
            0
        }
    }

    /// How many free host ports all services take together.
    pub open spec fn spec_free_ports_needed(context: &Context) -> nat {
        Self::spec_dependency_ports_needed(context) + AppService::spec_ports_needed(context)
    }

    /// The catalog that the context asks for. Of the free ports the
    /// dependencies take the first, the application those that follow.
    pub open spec fn spec_from_context(
        context: &Context,
        free_ports: Seq<u16>,
        env: Seq<(Seq<char>, Seq<char>)>,
    ) -> ServicesView {
        let taken = Self::spec_dependency_ports_needed(context);
        let postgres = PostgresService::spec_from_context(
            context,
            if taken > 0 {
                free_ports[0]
            } else {
                0
            },
        );
        let handed = match postgres {
            Some(service) => service.env_vars(),
            None => Seq::empty(),
        };
        ServicesView {
            app: if context.spec_should_create_app_service() {
                Some(
                    AppService::spec_from_context(
                        context,
                        handed,
                        free_ports.subrange(taken as int, free_ports.len() as int),
                        env,
                    ),
                )
            } else {
                None
            },
            postgres,
            proxy: ProxyService::spec_from_context(context),
        }
    }

    /// The containers of the dependencies, in the order in which they are
    /// converged: Postgres, then the proxy where this deployment creates it.
    pub open spec fn spec_container_configs(&self, context: &Context) -> Seq<ContainerConfigView> {
        let proxy = if context.spec_should_create_proxy_service() {
            seq![
                self@.proxy.container_config(context.spec_container_name_of(ServiceKind::Proxy)),
            ]
        } else {
            Seq::empty()
        };
        self.spec_stop_container_configs(context) + proxy
    }

    /// The containers of the dependencies that a stop brings down: the
    /// shared proxy is not among them.
    pub open spec fn spec_stop_container_configs(&self, context: &Context) -> Seq<
        ContainerConfigView,
    > {
        match self@.postgres {
            Some(postgres) => seq![
                postgres.container_config(
                    context.spec_container_name_of(ServiceKind::Postgres),
                    context.spec_mount(ServiceKind::Postgres, DATA_PATH@),
                ),
            ],
            None => Seq::empty(),
        }
    }

    /// How many free host ports `from_context` takes, or the largest
    /// number there is where the count does not fit.
    pub fn free_ports_needed(context: &Context) -> (n: usize)
        ensures
            n == if Self::spec_free_ports_needed(context) <= usize::MAX {
                Self::spec_free_ports_needed(context)
            } else {
                usize::MAX as nat
            },
    {
        let dependencies: usize = if context.should_expose_to_host() && context.app_config().postgres(
            context.override_context(),
        ).is_some() {
            1
        } else {
            0
        };
        let app = AppService::ports_needed(context);
        if app == usize::MAX {
            app
        } else {
            dependencies + app
        }
    }

    /// Builds the catalog. `free_ports` are TCP ports that the caller found
    /// free on the host and `env` is the host's environment. Fails only
    /// when the free ports do not suffice.
    pub fn from_context(context: &Context, free_ports: &[u16], env: &[(String, String)]) -> (services:
        Result<Self, Error>)
        ensures
            services is Ok <==> free_ports@.len() >= Self::spec_free_ports_needed(context),
            services matches Ok(built) ==> built@ == Self::spec_from_context(
                context,
                free_ports@,
                env.deep_view(),
            ),
            services matches Err(error) ==> error == Error::ResourceExhaustion,
    {
        let taken: usize = if context.should_expose_to_host() && context.app_config().postgres(
            context.override_context(),
        ).is_some() {
            1
        } else {
            0
        };
        if free_ports.len() < taken {
            return Err(Error::ResourceExhaustion);
        }
        let dependency_port: u16 = if taken > 0 {
            free_ports[0]
        } else {
            0
        };
        let postgres = PostgresService::from_context(context, dependency_port);
        let handed = match &postgres {
            Some(service) => service.env_vars(),
            None => Vec::new(),
        };
        assert(handed.deep_view() =~= match postgres.deep_view() {
            Some(service) => service.env_vars(),
            None => Seq::empty(),
        });
        let rest = &free_ports[taken..free_ports.len()];
        let app = if context.should_create_app_service() {
            match AppService::from_context(context, handed, rest, env) {
                Ok(service) => Some(service),
                Err(error) => {
                    return Err(error);
                },
            }
        } else {
            None
        };
        let proxy = ProxyService::from_context(context);
        Ok(Services { app, postgres, proxy })
    }

    pub fn app(&self) -> (r: Option<&AppService>)
        ensures
            r.deep_view() == self@.app,
    {
        self.app.as_ref()
    }

    pub fn postgres(&self) -> (r: Option<&PostgresService>)
        ensures
            r.deep_view() == self@.postgres,
    {
        self.postgres.as_ref()
    }

    pub fn proxy(&self) -> (r: &ProxyService)
        ensures
            r@ == self@.proxy,
    {
        &self.proxy
    }

    /// The containers of the dependencies, in the order in which they are
    /// converged. The application is not among them: it is built and
    /// replaced on a path of its own.
    pub fn to_container_configs(&self, context: &Context) -> (configs: Vec<ContainerConfig>)
        ensures
            configs.deep_view() == self.spec_container_configs(context),
    {
        let mut configs = self.to_stop_container_configs(context);
        if context.should_create_proxy_service() {
            configs.push(self.proxy.to_container_config(context));
        }
        assert(configs.deep_view() =~= self.spec_container_configs(context));
        configs
    }

    /// The containers of the dependencies that a stop brings down.
    pub fn to_stop_container_configs(&self, context: &Context) -> (configs: Vec<ContainerConfig>)
        ensures
            configs.deep_view() == self.spec_stop_container_configs(context),
    {
        let mut configs: Vec<ContainerConfig> = Vec::new();
        match &self.postgres {
            Some(postgres) => {
                configs.push(postgres.to_container_config(context));
            },
            None => {},
        }
        assert(configs.deep_view() =~= self.spec_stop_container_configs(context));
        configs
    }

    /// What is to be done once every service is up, given whether the proxy
    /// container is running: the project's routes are published.
    pub fn post_up(&self, proxy_running: bool) -> (commands: Vec<ProxyCommand>)
        ensures
            commands.deep_view() == self@.proxy.publish(proxy_running),
    {
        self.proxy.post_up(proxy_running)
    }

    /// What is to be done once every service is down, given whether the
    /// proxy container is running: the project's routes are retracted.
    pub fn post_down(&self, proxy_running: bool) -> (commands: Vec<ProxyCommand>)
        ensures
            commands.deep_view() == self@.proxy.retract(proxy_running),
    {
        self.proxy.post_down(proxy_running)
    }

    /// The variables that the services provide to the application's
    /// surroundings.
    pub fn env_vars(&self, context: &Context) -> (vars: Vec<(String, String)>)
        ensures
            vars.deep_view() == self@.env_vars(
                context.spec_app_config().spec_expose_namespace_to_env(
                    &context.spec_override_context(),
                ),
                context.spec_args().namespace@,
            ),
    {
        let mut vars = match &self.postgres {
            Some(postgres) => postgres.env_vars(),
            None => Vec::new(),
        };
        assert(vars.deep_view() =~= self@.dependency_env_vars());
        match context.app_config().expose_namespace_to_env(context.override_context()) {
            Some(name) => {
                let ghost before = vars.deep_view();
                let entry = (text(name), text(context.namespace()));
                vars.push(entry);
                assert(vars.deep_view() =~= before.push((name@, context.spec_args().namespace@)));
            },
            None => {},
        }
        vars
    }

    /// The addresses of the services that the operator can reach.
    pub fn connection_info(&self) -> (infos: Vec<(ServiceKind, String)>)
        ensures
            infos.deep_view() == self@.connection_info(),
    {
        let mut infos: Vec<(ServiceKind, String)> = Vec::new();
        match &self.postgres {
            Some(postgres) => {
                let addresses = postgres.connection_info();
                tag_addresses(&mut infos, ServiceKind::Postgres, &addresses);
            },
            None => {},
        }
        let ghost first = infos.deep_view();
        match &self.app {
            Some(app) => {
                let addresses = app.connection_info();
                tag_addresses(&mut infos, ServiceKind::App, &addresses);
            },
            None => {},
        }
        assert(infos.deep_view() =~= self@.connection_info());
        infos
    }
}

/// Appends each address to the list under the given kind.
fn tag_addresses(infos: &mut Vec<(ServiceKind, String)>, kind: ServiceKind, addresses: &Vec<String>)
    ensures
        final(infos).deep_view() == old(infos).deep_view() + addresses.deep_view().map_values(
            |address: Seq<char>| (kind, address),
        ),
{
    let ghost before = infos.deep_view();
    let mut i: usize = 0;
    while i < addresses.len()
        invariant
            i <= addresses@.len(),
            infos.deep_view() == before + addresses.deep_view().take(i as int).map_values(
                |address: Seq<char>| (kind, address),
            ),
        decreases addresses@.len() - i,
    {
        let ghost current = infos.deep_view();
        infos.push((kind, addresses[i].clone()));
        assert(infos.deep_view() =~= current.push((kind, addresses@[i as int]@)));
        assert(infos.deep_view() =~= before + addresses.deep_view().take(i + 1).map_values(
            |address: Seq<char>| (kind, address),
        ));
        i = i + 1;
    }
    assert(addresses.deep_view().take(addresses@.len() as int) =~= addresses.deep_view());
}

} // verus!
