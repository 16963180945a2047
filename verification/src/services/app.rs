//! The application service: the container that runs what is being deployed.

use crate::context::{
    ALL_INTERFACES, Context, LOOPBACK, Mount, MountView, PortBinding, PortBindingView,
    port_map_view,
};
use crate::error::Error;
use crate::network::DPLOY_NETWORK;
use crate::services::{
    ConnectionInfo, ContainerConfig, ContainerConfigView, ContainerSpec, ContainerSpecView,
    EnvVars, RestartPolicy, ServiceKind, ToContainerConfig, env_entries, env_entry,
    make_env_entry,
};
use crate::utils::string::{clone_pairs, clone_strings, decimal, decimal_string, text};
use std::collections::HashMap;
use vstd::prelude::*;
use vstd::std_specs::hash::group_hash_axioms;

verus! {

broadcast use group_hash_axioms;

/// The value that a list of variables gives to a name: that of the first
/// entry under the name, and the empty text when there is none.
pub open spec fn env_value(env: Seq<(Seq<char>, Seq<char>)>, name: Seq<char>) -> Seq<char>
    decreases env.len(),
{
    if env.len() == 0 {
        Seq::empty()
    } else if env[0].0 == name {
        env[0].1
    } else {
        env_value(env.drop_first(), name)
    }
}

/// Looks a variable up in a list of variables.
pub fn lookup_env(env: &[(String, String)], name: &str) -> (value: String)
    ensures
        value@ == env_value(env.deep_view(), name@),
{
    let wanted = text(name);
    let mut i: usize = 0;
    assert(env.deep_view().subrange(0, env.deep_view().len() as int) == env.deep_view());
    while i < env.len()
        invariant
            i <= env@.len(),
            wanted@ == name@,
            env.deep_view().len() == env@.len(),
            env_value(env.deep_view(), name@) == env_value(
                env.deep_view().subrange(i as int, env@.len() as int),
                name@,
            ),
        decreases env@.len() - i,
    {
        let ghost rest = env.deep_view().subrange(i as int, env@.len() as int);
        assert(rest[0] == env.deep_view()[i as int]);
        assert(rest.drop_first() == env.deep_view().subrange(i + 1, env@.len() as int));
        let entry = &env[i];
        assert(entry.deep_view() == env.deep_view()[i as int]);
        if entry.0 == wanted {
            return entry.1.clone();
        }
        i = i + 1;
    }
    String::new()
}

/// The tag under which the application's image is built.
#[derive(Debug)]
pub struct ImageBuildConfig {
    pub t: String,
}

/// The application service of one deployment.
#[derive(Debug)]
pub struct AppService {
    app_name: String,
    image_name: String,
    container_name: String,
    env_vars: Vec<(String, String)>,
    ports_mapping: Vec<(u16, u16)>,
    volumes: Vec<String>,
}

pub struct AppServiceView {
    pub app_name: Seq<char>,
    pub image_name: Seq<char>,
    pub container_name: Seq<char>,
    pub env_vars: Seq<(Seq<char>, Seq<char>)>,
    /// Pairs of a host port and the container port it publishes.
    pub ports_mapping: Seq<(u16, u16)>,
    pub volumes: Seq<Seq<char>>,
}

impl View for AppService {
    type V = AppServiceView;

    closed spec fn view(&self) -> AppServiceView {
        AppServiceView {
            app_name: self.app_name@,
            image_name: self.image_name@,
            container_name: self.container_name@,
            env_vars: self.env_vars.deep_view(),
            ports_mapping: self.ports_mapping@,
            volumes: self.volumes.deep_view(),
        }
    }
}

impl DeepView for AppService {
    type V = AppServiceView;

    open spec fn deep_view(&self) -> AppServiceView {
        self@
    }
}

/// The ports that a list of mappings publishes on every interface: each is
/// entered under its container port, a later one replacing an earlier.
pub open spec fn published_app_ports(mapping: Seq<(u16, u16)>) -> Map<u16, PortBindingView>
    decreases mapping.len(),
{
    if mapping.len() == 0 {
        Map::empty()
    } else {
        published_app_ports(mapping.drop_last()).insert(
            mapping.last().1,
            PortBindingView { host_ip: ALL_INTERFACES@, host_port: mapping.last().0 },
        )
    }
}

/// What the operator is shown for one published port.
pub open spec fn port_info(host_port: u16, container_port: u16) -> Seq<char> {
    LOOPBACK@ + ":"@ + decimal(host_port as nat) + " >> "@ + decimal(container_port as nat)
}

impl AppServiceView {
    pub open spec fn connection_info(self) -> Seq<Seq<char>> {
        Seq::new(
            self.ports_mapping.len(),
            |i: int| port_info(self.ports_mapping[i].0, self.ports_mapping[i].1),
        )
    }

    /// The container of the application, with the given mounts.
    pub open spec fn container_config(self, mounts: Seq<MountView>) -> ContainerConfigView {
        ContainerConfigView {
            container_name: self.container_name,
            image_name: self.image_name,
            config: ContainerSpecView {
                image: self.image_name,
                hostname: self.container_name,
                domainname: self.container_name,
                cmd: None,
                env: Some(env_entries(self.env_vars)),
                mounts,
                port_bindings: published_app_ports(self.ports_mapping),
                network: DPLOY_NETWORK@,
                restart_policy: RestartPolicy::No,
            },
        }
    }
}

impl AppService {
    /// How many free host ports the application takes: one for each of its
    /// ports where the mode publishes the application, else none.
    pub open spec fn spec_ports_needed(context: &Context) -> nat {
        if context.spec_should_expose_app_service_to_host() {
            context.spec_app_config().spec_ports(&context.spec_override_context()).len()
        } else {
            0
        }
    }

    /// The service that the context asks for. The environment is what the
    /// dependencies hand over, followed by each configured variable with the
    /// value that the host's environment gives it.
    pub open spec fn spec_from_context(
        context: &Context,
        env_vars: Seq<(Seq<char>, Seq<char>)>,
        free_ports: Seq<u16>,
        env: Seq<(Seq<char>, Seq<char>)>,
    ) -> AppServiceView {
        let config = context.spec_app_config();
        let rules = context.spec_override_context();
        let ports = config.spec_ports(&rules);
        let names = config.spec_env(&rules);
        AppServiceView {
            app_name: context.spec_app_name(),
            image_name: context.spec_container_name_of(ServiceKind::App),
            container_name: context.spec_container_name_of(ServiceKind::App),
            env_vars: env_vars + Seq::new(names.len(), |i: int| (names[i], env_value(env, names[i]))),
            ports_mapping: if context.spec_should_expose_app_service_to_host() {
                Seq::new(ports.len(), |i: int| (free_ports[i], ports[i]))
            } else {
                Seq::empty()
            },
            volumes: config.spec_volumes(&rules),
        }
    }

    /// How many free host ports `from_context` takes.
    pub fn ports_needed(context: &Context) -> (n: usize)
        ensures
            n == Self::spec_ports_needed(context),
    {
        if context.should_expose_app_service_to_host() {
            context.app_config().ports(context.override_context()).len()
        } else {
            0
        }
    }

    /// Builds the service. `env_vars` is what the dependencies hand over,
    /// `free_ports` are TCP ports that the caller found free on the host, of
    /// which the first `spec_ports_needed` are taken, and `env` is the
    /// host's environment. Fails only when the free ports do not suffice.
    pub fn from_context(
        context: &Context,
        env_vars: Vec<(String, String)>,
        free_ports: &[u16],
        env: &[(String, String)],
    ) -> (service: Result<Self, Error>)
        ensures
            service is Ok <==> free_ports@.len() >= Self::spec_ports_needed(context),
            service matches Ok(built) ==> built@ == Self::spec_from_context(
                context,
                env_vars.deep_view(),
                free_ports@,
                env.deep_view(),
            ),
            service matches Err(error) ==> error == Error::ResourceExhaustion,
    {
        let rules = context.override_context();
        let ports = context.app_config().ports(rules);
        let mut ports_mapping: Vec<(u16, u16)> = Vec::new();
        if context.should_expose_app_service_to_host() {
            if free_ports.len() < ports.len() {
                return Err(Error::ResourceExhaustion);
            }
            let mut i: usize = 0;
            while i < ports.len()
                invariant
                    i <= ports@.len(),
                    ports@.len() <= free_ports@.len(),
                    ports_mapping@.len() == i,
                    forall|k: int|
                        0 <= k < i ==> ports_mapping@[k] == (free_ports@[k], ports@[k]),
                decreases ports@.len() - i,
            {
                ports_mapping.push((free_ports[i], ports[i]));
                i = i + 1;
            }
        }
        let names = context.app_config().env(rules);
        let ghost given = env_vars.deep_view();
        let ghost wanted = names.deep_view();
        let mut all_vars = env_vars;
        let mut j: usize = 0;
        assert(all_vars.deep_view() =~= given + Seq::new(
            0,
            |i: int| (wanted[i], env_value(env.deep_view(), wanted[i])),
        ));
        while j < names.len()
            invariant
                j <= names@.len(),
                wanted == names.deep_view(),
                wanted.len() == names@.len(),
                all_vars.deep_view() == given + Seq::new(
                    j as nat,
                    |i: int| (wanted[i], env_value(env.deep_view(), wanted[i])),
                ),
            decreases names@.len() - j,
        {
            let name = &names[j];
            assert(name@ == wanted[j as int]);
            let value = lookup_env(env, name.as_str());
            let ghost before = all_vars.deep_view();
            all_vars.push((name.clone(), value));
            assert(all_vars.deep_view() =~= before.push((wanted[j as int], value@)));
            assert(all_vars.deep_view() =~= given + Seq::new(
                (j + 1) as nat,
                |i: int| (wanted[i], env_value(env.deep_view(), wanted[i])),
            ));
            j = j + 1;
        }
        let volumes = clone_strings(context.app_config().volumes(rules));
        let built = AppService {
            app_name: text(context.app_name()),
            image_name: context.container_name_of(ServiceKind::App),
            container_name: context.container_name_of(ServiceKind::App),
            env_vars: all_vars,
            ports_mapping,
            volumes,
        };
        proof {
            let model = Self::spec_from_context(
                context,
                given,
                free_ports@,
                env.deep_view(),
            );
            assert(built@.ports_mapping =~= model.ports_mapping);
            assert(built@.env_vars =~= model.env_vars);
        }
        Ok(built)
    }

    /// Pairs of a host port and the container port it publishes.
    pub fn ports_mapping(&self) -> (r: &[(u16, u16)])
        ensures
            r@ == self@.ports_mapping,
    {
        self.ports_mapping.as_slice()
    }

    /// The tag under which the application's image is built.
    pub fn to_image_build_config(&self) -> (config: ImageBuildConfig)
        ensures
            config.t@ == self@.image_name,
    {
        ImageBuildConfig { t: self.image_name.clone() }
    }

    /// The mounts that back the volumes of the application.
    pub open spec fn spec_mounts(&self, context: &Context) -> Seq<MountView> {
        Seq::new(
            self@.volumes.len(),
            |i: int| context.spec_mount(ServiceKind::App, self@.volumes[i]),
        )
    }
}

impl ToContainerConfig for AppService {
    fn to_container_config(&self, context: &Context) -> (config: ContainerConfig)
        ensures
            config@ == self@.container_config(self.spec_mounts(context)),
    {
        let mut mounts: Vec<Mount> = Vec::new();
        let mut i: usize = 0;
        while i < self.volumes.len()
            invariant
                i <= self.volumes@.len(),
                mounts@.len() == i,
                forall|k: int|
                    0 <= k < i ==> mounts@[k]@ == context.spec_mount(
                        ServiceKind::App,
                        self.volumes@[k]@,
                    ),
            decreases self.volumes@.len() - i,
        {
            mounts.push(context.mount(ServiceKind::App, self.volumes[i].as_str()));
            i = i + 1;
        }
        assert(mounts.deep_view() =~= self.spec_mounts(context));

        let mut port_bindings: HashMap<u16, PortBinding> = HashMap::new();
        let mut p: usize = 0;
        assert(self.ports_mapping@.take(0) =~= Seq::empty());
        assert(port_map_view(port_bindings@) =~= Map::empty());
        while p < self.ports_mapping.len()
            invariant
                p <= self.ports_mapping@.len(),
                port_map_view(port_bindings@) == published_app_ports(
                    self.ports_mapping@.take(p as int),
                ),
            decreases self.ports_mapping@.len() - p,
        {
            let pair = self.ports_mapping[p];
            proof {
                let upto = self.ports_mapping@.take(p + 1);
                assert(upto.drop_last() == self.ports_mapping@.take(p as int));
                assert(upto.last() == pair);
            }
            let ghost before = port_bindings@;
            let published = PortBinding { host_ip: text(ALL_INTERFACES), host_port: pair.0 };
            port_bindings.insert(pair.1, published);
            assert(port_map_view(port_bindings@) =~= port_map_view(before).insert(
                pair.1,
                published@,
            ));
            p = p + 1;
        }
        assert(self.ports_mapping@.take(p as int) == self.ports_mapping@);

        let mut env: Vec<String> = Vec::new();
        let mut e: usize = 0;
        while e < self.env_vars.len()
            invariant
                e <= self.env_vars@.len(),
                env@.len() == e,
                forall|k: int|
                    0 <= k < e ==> env@[k]@ == env_entry(
                        self.env_vars@[k].0@,
                        self.env_vars@[k].1@,
                    ),
            decreases self.env_vars@.len() - e,
        {
            let var = &self.env_vars[e];
            env.push(make_env_entry(var.0.as_str(), var.1.as_str()));
            e = e + 1;
        }
        assert(env.deep_view() =~= env_entries(self@.env_vars));

        let spec = ContainerSpec {
            image: self.image_name.clone(),
            hostname: self.container_name.clone(),
            domainname: self.container_name.clone(),
            cmd: None,
            env: Some(env),
            mounts,
            port_bindings,
            network: text(DPLOY_NETWORK),
            restart_policy: RestartPolicy::No,
        };
        ContainerConfig::new(self.container_name.clone(), self.image_name.clone(), spec)
    }
}

impl EnvVars for AppService {
    fn env_vars(&self) -> (vars: Vec<(String, String)>)
        ensures
            vars.deep_view() == self@.env_vars,
    {
        clone_pairs(&self.env_vars)
    }
}

impl ConnectionInfo for AppService {
    fn connection_info(&self) -> (info: Vec<String>)
        ensures
            info.deep_view() == self@.connection_info(),
    {
        let mut info: Vec<String> = Vec::new();
        let mut i: usize = 0;
        while i < self.ports_mapping.len()
            invariant
                i <= self.ports_mapping@.len(),
                info@.len() == i,
                forall|k: int|
                    0 <= k < i ==> info@[k]@ == port_info(
                        self.ports_mapping@[k].0,
                        self.ports_mapping@[k].1,
                    ),
            decreases self.ports_mapping@.len() - i,
        {
            let pair = self.ports_mapping[i];
            let mut line = text(LOOPBACK);
            line.append(":");
            line.append(decimal_string(pair.0 as u64).as_str());
            line.append(" >> ");
            line.append(decimal_string(pair.1 as u64).as_str());
            info.push(line);
            i = i + 1;
        }
        assert(info.deep_view() =~= self@.connection_info());
        info
    }
}

} // verus!
