//! The reverse proxy: one container per host, shared by every project.
//!
//! Each project owns one routing fragment in the proxy's configuration
//! directory, named after its application container. The top-level
//! configuration only imports the fragments, so projects never write to a
//! file that another project owns.

use crate::config::ProxyConfigView;
use crate::context::{
    ALL_INTERFACES, Context, HostPortBinding, HostPortBindingView, Mount, MountView,
    binding_views, published_ports,
};
use crate::network::DPLOY_NETWORK;
use crate::services::{
    ConnectionInfo, ContainerConfig, ContainerConfigView, ContainerSpec, ContainerSpecView,
    RestartPolicy, ServiceKind, ToContainerConfig,
};
use crate::utils::string::{decimal, decimal_string, join, joined, text, trim, trimmed};
use vstd::prelude::*;

verus! {

pub const IMAGE_NAME: &'static str = "caddy";

/// The directory inside the proxy container that holds its configuration.
pub const CADDY_CONFIGS_INNER_DIR: &'static str = "/etc/caddy";

/// The top-level configuration file inside the proxy container.
pub const CADDY_CONFIG_INNER_FILE: &'static str = "/etc/caddy/Caddyfile";

/// The top-level configuration: it imports every fragment.
pub const GENERAL_CADDYFILE_CONTENTS: &'static str = "import /etc/caddy/*.caddy";

/// The command that the proxy container runs.
pub const STARTUP_COMMAND: &'static str =
    "echo \"import /etc/caddy/*.caddy\" > /etc/caddy/Caddyfile caddy run --config /etc/caddy/Caddyfile --adapter caddyfile";

/// One route: a domain and the port of the application that serves it.
#[derive(Debug)]
pub struct ProxyServiceConfig {
    pub domain: String,
    pub port: u16,
}

impl View for ProxyServiceConfig {
    type V = ProxyConfigView;

    open spec fn view(&self) -> ProxyConfigView {
        ProxyConfigView { domain: self.domain@, port: self.port }
    }
}

impl DeepView for ProxyServiceConfig {
    type V = ProxyConfigView;

    open spec fn deep_view(&self) -> ProxyConfigView {
        self@
    }
}

/// One step of changing what the proxy serves. Each runs as a one-shot
/// command inside the proxy container.
#[derive(Debug)]
pub enum ProxyCommand {
    /// Delete a fragment; nothing happens where there is none.
    RemoveFragment { path: String },
    /// Write a fragment, replacing what was there.
    WriteFragment { path: String, contents: String },
    /// Have the running proxy load its configuration again.
    Reload { config_file: String },
}

pub enum ProxyCommandView {
    RemoveFragment { path: Seq<char> },
    WriteFragment { path: Seq<char>, contents: Seq<char> },
    Reload { config_file: Seq<char> },
}

impl View for ProxyCommand {
    type V = ProxyCommandView;

    open spec fn view(&self) -> ProxyCommandView {
        match self {
            ProxyCommand::RemoveFragment { path } => ProxyCommandView::RemoveFragment {
                path: path@,
            },
            ProxyCommand::WriteFragment { path, contents } => ProxyCommandView::WriteFragment {
                path: path@,
                contents: contents@,
            },
            ProxyCommand::Reload { config_file } => ProxyCommandView::Reload {
                config_file: config_file@,
            },
        }
    }
}

impl DeepView for ProxyCommand {
    type V = ProxyCommandView;

    open spec fn deep_view(&self) -> ProxyCommandView {
        self@
    }
}

impl ProxyCommandView {
    /// The shell command that carries the step out.
    pub open spec fn shell(self) -> Seq<char> {
        match self {
            ProxyCommandView::RemoveFragment { path } => "rm "@ + path,
            ProxyCommandView::WriteFragment { path, contents } => "echo \""@ + contents + "\" > "@
                + path,
            ProxyCommandView::Reload { config_file } => "caddy reload -c "@ + config_file,
        }
    }

    /// The fragments that exist after the step, given those before it.
    pub open spec fn apply(self, fragments: Set<Seq<char>>) -> Set<Seq<char>> {
        match self {
            ProxyCommandView::RemoveFragment { path } => fragments.remove(path),
            ProxyCommandView::WriteFragment { path, .. } => fragments.insert(path),
            ProxyCommandView::Reload { .. } => fragments,
        }
    }
}

impl ProxyCommand {
    /// The shell command that carries the step out.
    pub fn to_shell(&self) -> (command: String)
        ensures
            command@ == self@.shell(),
    {
        match self {
            ProxyCommand::RemoveFragment { path } => {
                let mut command = text("rm ");
                command.append(path.as_str());
                command
            },
            ProxyCommand::WriteFragment { path, contents } => {
                let mut command = text("echo \"");
                command.append(contents.as_str());
                command.append("\" > ");
                command.append(path.as_str());
                command
            },
            ProxyCommand::Reload { config_file } => {
                let mut command = text("caddy reload -c ");
                command.append(config_file.as_str());
                command
            },
        }
    }
}

/// The fragments that exist after a list of steps, given those before it.
pub open spec fn fragments_after(fragments: Set<Seq<char>>, commands: Seq<ProxyCommandView>) -> Set<
    Seq<char>,
>
    decreases commands.len(),
{
    if commands.len() == 0 {
        fragments
    } else {
        commands.last().apply(fragments_after(fragments, commands.drop_last()))
    }
}

/// How often a list of steps reloads the proxy.
pub open spec fn reload_count(commands: Seq<ProxyCommandView>) -> nat
    decreases commands.len(),
{
    if commands.len() == 0 {
        0
    } else if commands.last() is Reload {
        reload_count(commands.drop_last()) + 1
    } else {
        reload_count(commands.drop_last())
    }
}

/// The block that routes one domain to a port of the application.
pub open spec fn https_block(domain: Seq<char>, port: u16, app_container: Seq<char>) -> Seq<char> {
    domain + ":443, "@ + domain + ":80 { \nreverse_proxy "@ + app_container + ":"@ + decimal(
        port as nat,
    ) + "\n }"@
}

/// The path of the fragment that belongs to an application container.
pub open spec fn fragment_path(app_container: Seq<char>) -> Seq<char> {
    CADDY_CONFIGS_INNER_DIR@ + "/"@ + app_container + ".caddy"@
}

/// Projects never share a fragment: applications whose containers are
/// named differently own different fragment files.
pub proof fn lemma_fragment_paths_differ(first_container: Seq<char>, second_container: Seq<char>)
    requires
        first_container != second_container,
    ensures
        fragment_path(first_container) != fragment_path(second_container),
{
    let prefix = CADDY_CONFIGS_INNER_DIR@ + "/"@;
    let suffix = ".caddy"@;
    let first = fragment_path(first_container);
    let second = fragment_path(second_container);
    assert(first =~= prefix + first_container + suffix);
    assert(second =~= prefix + second_container + suffix);
    if first == second {
        assert(first_container.len() == second_container.len());
        assert forall|i: int| 0 <= i < first_container.len() implies first_container[i]
            == second_container[i] by {
            assert(first[prefix.len() + i] == first_container[i]);
            assert(second[prefix.len() + i] == second_container[i]);
        }
        assert(first_container =~= second_container);
    }
}

/// What the operator is shown for one route.
pub open spec fn route_info(domain: Seq<char>, port: u16) -> Seq<char> {
    domain + " -> "@ + decimal(port as nat)
}

/// The proxy as one project sees it.
#[derive(Debug)]
pub struct ProxyService {
    name: String,
    should_run: bool,
    app_service_container_name: String,
    bindings: Vec<HostPortBinding>,
    configs: Vec<ProxyServiceConfig>,
}

pub struct ProxyServiceView {
    /// The name of the proxy container.
    pub name: Seq<char>,
    /// Whether this deployment creates the proxy container.
    pub should_run: bool,
    pub app_service_container_name: Seq<char>,
    pub bindings: Seq<HostPortBindingView>,
    /// The routes that the project declares.
    pub configs: Seq<ProxyConfigView>,
}

impl View for ProxyService {
    type V = ProxyServiceView;

    closed spec fn view(&self) -> ProxyServiceView {
        ProxyServiceView {
            name: self.name@,
            should_run: self.should_run,
            app_service_container_name: self.app_service_container_name@,
            bindings: Seq::new(self.bindings@.len(), |i: int| self.bindings@[i]@),
            configs: self.configs.deep_view(),
        }
    }
}

impl ProxyServiceView {
    /// The blocks of the fragment, one for each route.
    pub open spec fn blocks(self) -> Seq<Seq<char>> {
        Seq::new(
            self.configs.len(),
            |i: int|
                https_block(
                    self.configs[i].domain,
                    self.configs[i].port,
                    self.app_service_container_name,
                ),
        )
    }

    /// The text of the project's fragment.
    pub open spec fn service_config_contents(self) -> Seq<char> {
        trimmed(joined(self.blocks(), "\n"@))
    }

    pub open spec fn service_config_path(self) -> Seq<char> {
        fragment_path(self.app_service_container_name)
    }

    pub open spec fn reload(self) -> ProxyCommandView {
        ProxyCommandView::Reload { config_file: CADDY_CONFIG_INNER_FILE@ }
    }

    pub open spec fn remove(self) -> ProxyCommandView {
        ProxyCommandView::RemoveFragment { path: self.service_config_path() }
    }

    pub open spec fn write(self) -> ProxyCommandView {
        ProxyCommandView::WriteFragment {
            path: self.service_config_path(),
            contents: self.service_config_contents(),
        }
    }

    /// What publishing the project's routes takes: nothing while the proxy
    /// is not running; else the fragment is deleted when no route is
    /// declared and written otherwise, and the proxy reloads.
    pub open spec fn publish(self, proxy_running: bool) -> Seq<ProxyCommandView> {
        if !proxy_running {
            Seq::empty()
        } else if self.configs.len() == 0 {
            seq![self.remove(), self.reload()]
        } else {
            seq![self.write(), self.reload()]
        }
    }

    /// What retracting the project's routes takes: nothing while the proxy
    /// is not running; else the fragment is deleted and the proxy reloads,
    /// whatever routes are declared.
    pub open spec fn retract(self, proxy_running: bool) -> Seq<ProxyCommandView> {
        if !proxy_running {
            Seq::empty()
        } else {
            seq![self.remove(), self.reload()]
        }
    }

    pub open spec fn connection_info(self) -> Seq<Seq<char>> {
        Seq::new(
            self.configs.len(),
            |i: int| route_info(self.configs[i].domain, self.configs[i].port),
        )
    }

    /// The mounts of the proxy container.
    pub open spec fn mounts() -> Seq<MountView> {
        seq![
            Context::spec_manual_mount("caddy/configs"@, CADDY_CONFIGS_INNER_DIR@),
            Context::spec_manual_mount("caddy/internal/data"@, "/data/"@),
            Context::spec_manual_mount("caddy/internal/config"@, "/config/"@),
        ]
    }

    /// The proxy container under the given name.
    pub open spec fn container_config(self, name: Seq<char>) -> ContainerConfigView {
        ContainerConfigView {
            container_name: name,
            image_name: IMAGE_NAME@,
            config: ContainerSpecView {
                image: IMAGE_NAME@,
                hostname: name,
                domainname: name,
                cmd: Some(seq!["sh"@, "-c"@, STARTUP_COMMAND@]),
                env: None,
                mounts: Self::mounts(),
                port_bindings: published_ports(self.bindings),
                network: DPLOY_NETWORK@,
                restart_policy: RestartPolicy::Always,
            },
        }
    }
}

/// While the proxy runs, retracting leaves the project without a fragment
/// and reloads the proxy exactly once, whether or not a fragment existed and
/// whatever routes are declared.
pub proof fn lemma_retract_removes_fragment(proxy: ProxyServiceView, fragments: Set<Seq<char>>)
    ensures
        !fragments_after(fragments, proxy.retract(true)).contains(proxy.service_config_path()),
        reload_count(proxy.retract(true)) == 1,
        proxy.retract(false).len() == 0,
{
    let commands = proxy.retract(true);
    reveal_with_fuel(fragments_after, 3);
    reveal_with_fuel(reload_count, 3);
    assert(commands.drop_last() =~= seq![proxy.remove()]);
    assert(commands.drop_last().drop_last() =~= Seq::empty());
}

/// While the proxy runs, publishing a project without routes leaves it
/// without a fragment and reloads the proxy exactly once, whether or not a
/// fragment existed. Publishing a project with routes leaves it with its
/// fragment, and reloads once as well.
pub proof fn lemma_publish_converges(proxy: ProxyServiceView, fragments: Set<Seq<char>>)
    ensures
        fragments_after(fragments, proxy.publish(true)).contains(proxy.service_config_path())
            <==> proxy.configs.len() > 0,
        reload_count(proxy.publish(true)) == 1,
        proxy.publish(false).len() == 0,
{
    let commands = proxy.publish(true);
    reveal_with_fuel(fragments_after, 3);
    reveal_with_fuel(reload_count, 3);
    if proxy.configs.len() == 0 {
        assert(commands.drop_last() =~= seq![proxy.remove()]);
    } else {
        assert(commands.drop_last() =~= seq![proxy.write()]);
    }
    assert(commands.drop_last().drop_last() =~= Seq::empty());
}

/// Neither publishing nor retracting touches the fragment of another
/// project.
pub proof fn lemma_other_fragments_untouched(
    proxy: ProxyServiceView,
    fragments: Set<Seq<char>>,
    proxy_running: bool,
    other: Seq<char>,
)
    requires
        other != proxy.service_config_path(),
    ensures
        fragments_after(fragments, proxy.publish(proxy_running)).contains(other)
            == fragments.contains(other),
        fragments_after(fragments, proxy.retract(proxy_running)).contains(other)
            == fragments.contains(other),
{
    reveal_with_fuel(fragments_after, 3);
    let published = proxy.publish(proxy_running);
    let retracted = proxy.retract(proxy_running);
    if proxy_running {
        if proxy.configs.len() == 0 {
            assert(published.drop_last() =~= seq![proxy.remove()]);
        } else {
            assert(published.drop_last() =~= seq![proxy.write()]);
        }
        assert(published.drop_last().drop_last() =~= Seq::empty());
        assert(retracted.drop_last() =~= seq![proxy.remove()]);
        assert(retracted.drop_last().drop_last() =~= Seq::empty());
    }
}

impl ProxyService {
    /// The proxy as the context describes it. It is described whether or not
    /// routes are declared, so that routes can always be retracted.
    pub open spec fn spec_from_context(context: &Context) -> ProxyServiceView {
        let name = context.spec_container_name_of(ServiceKind::Proxy);
        ProxyServiceView {
            name,
            should_run: context.spec_should_create_proxy_service(),
            app_service_container_name: context.spec_container_name_of(ServiceKind::App),
            bindings: seq![
                HostPortBindingView {
                    inner_port: 80,
                    inner_host: name,
                    host_port: Some(80u16),
                    host_host: ALL_INTERFACES@,
                },
                HostPortBindingView {
                    inner_port: 443,
                    inner_host: name,
                    host_port: Some(443u16),
                    host_host: ALL_INTERFACES@,
                },
            ],
            configs: context.spec_app_config().spec_proxy(&context.spec_override_context()),
        }
    }

    pub fn from_context(context: &Context) -> (proxy: Self)
        ensures
            proxy@ == Self::spec_from_context(context),
    {
        let app_service_container_name = context.container_name_of(ServiceKind::App);
        let name = context.container_name_of(ServiceKind::Proxy);
        let declared = context.app_config().proxy(context.override_context());
        let mut bindings: Vec<HostPortBinding> = Vec::new();
        bindings.push(HostPortBinding::manual(80, ALL_INTERFACES, 80, name.as_str()));
        bindings.push(HostPortBinding::manual(443, ALL_INTERFACES, 443, name.as_str()));
        let mut configs: Vec<ProxyServiceConfig> = Vec::new();
        let mut i: usize = 0;
        while i < declared.len()
            invariant
                i <= declared@.len(),
                configs@.len() == i,
                forall|k: int| 0 <= k < i ==> configs@[k]@ == declared@[k]@,
            decreases declared@.len() - i,
        {
            configs.push(
                ProxyServiceConfig { domain: declared[i].domain.clone(), port: declared[i].port },
            );
            i = i + 1;
        }
        assert(configs.deep_view() =~= declared.deep_view());
        let should_run = context.should_create_proxy_service();
        let proxy = ProxyService { name, app_service_container_name, bindings, configs, should_run };
        assert(proxy@.bindings =~= Self::spec_from_context(context).bindings);
        proxy
    }

    /// What publishing the project's routes takes, given whether the proxy
    /// container is running.
    pub fn post_up(&self, proxy_running: bool) -> (commands: Vec<ProxyCommand>)
        ensures
            commands.deep_view() == self@.publish(proxy_running),
    {
        let mut commands: Vec<ProxyCommand> = Vec::new();
        if proxy_running {
            if self.configs.len() == 0 {
                commands.push(self.delete_configs());
            } else {
                commands.push(self.put_configs());
            }
            commands.push(self.reload_caddy());
        }
        assert(commands.deep_view() =~= self@.publish(proxy_running));
        commands
    }

    /// What retracting the project's routes takes, given whether the proxy
    /// container is running.
    pub fn post_down(&self, proxy_running: bool) -> (commands: Vec<ProxyCommand>)
        ensures
            commands.deep_view() == self@.retract(proxy_running),
    {
        let mut commands: Vec<ProxyCommand> = Vec::new();
        if proxy_running {
            commands.push(self.delete_configs());
            commands.push(self.reload_caddy());
        }
        assert(commands.deep_view() =~= self@.retract(proxy_running));
        commands
    }

    /// The name of the proxy container.
    pub fn name(&self) -> (r: &str)
        ensures
            r@ == self@.name,
    {
        self.name.as_str()
    }

    /// Whether this deployment creates the proxy container.
    pub fn should_run(&self) -> (r: bool)
        ensures
            r == self@.should_run,
    {
        self.should_run
    }

    pub fn delete_configs(&self) -> (command: ProxyCommand)
        ensures
            command@ == self@.remove(),
    {
        ProxyCommand::RemoveFragment { path: self.service_config_path() }
    }

    pub fn put_configs(&self) -> (command: ProxyCommand)
        ensures
            command@ == self@.write(),
    {
        ProxyCommand::WriteFragment {
            path: self.service_config_path(),
            contents: self.service_config_contents(),
        }
    }

    pub fn reload_caddy(&self) -> (command: ProxyCommand)
        ensures
            command@ == self@.reload(),
    {
        ProxyCommand::Reload { config_file: self.caddy_config_inner_file() }
    }

    /// The text of the project's fragment: one block for each route, a line
    /// break between neighbours, without white space around the whole.
    pub fn service_config_contents(&self) -> (contents: String)
        ensures
            contents@ == self@.service_config_contents(),
    {
        let mut blocks: Vec<String> = Vec::new();
        let mut i: usize = 0;
        while i < self.configs.len()
            invariant
                i <= self.configs@.len(),
                blocks@.len() == i,
                forall|k: int|
                    0 <= k < i ==> blocks@[k]@ == https_block(
                        self.configs@[k].domain@,
                        self.configs@[k].port,
                        self.app_service_container_name@,
                    ),
            decreases self.configs@.len() - i,
        {
            blocks.push(self.https_config(&self.configs[i]));
            i = i + 1;
        }
        assert(blocks.deep_view() =~= self@.blocks());
        let all = join(&blocks, "\n");
        trim(all.as_str())
    }

    /// The path of the project's fragment inside the proxy container.
    pub fn service_config_path(&self) -> (path: String)
        ensures
            path@ == self@.service_config_path(),
    {
        let mut path = text(CADDY_CONFIGS_INNER_DIR);
        path.append("/");
        path.append(self.app_service_container_name.as_str());
        path.append(".caddy");
        path
    }

    /// The block that routes one domain to the application.
    pub fn https_config(&self, config: &ProxyServiceConfig) -> (block: String)
        ensures
            block@ == https_block(config.domain@, config.port, self@.app_service_container_name),
    {
        let mut block = config.domain.clone();
        block.append(":443, ");
        block.append(config.domain.as_str());
        block.append(":80 { \nreverse_proxy ");
        block.append(self.app_service_container_name.as_str());
        block.append(":");
        block.append(decimal_string(config.port as u64).as_str());
        block.append("\n }");
        block
    }

    /// The top-level configuration file inside the proxy container.
    pub fn caddy_config_inner_file(&self) -> (path: String)
        ensures
            path@ == CADDY_CONFIG_INNER_FILE@,
    {
        text(CADDY_CONFIG_INNER_FILE)
    }
}

impl ConnectionInfo for ProxyService {
    fn connection_info(&self) -> (info: Vec<String>)
        ensures
            info.deep_view() == self@.connection_info(),
    {
        let mut info: Vec<String> = Vec::new();
        let mut i: usize = 0;
        while i < self.configs.len()
            invariant
                i <= self.configs@.len(),
                info@.len() == i,
                forall|k: int|
                    0 <= k < i ==> info@[k]@ == route_info(
                        self.configs@[k].domain@,
                        self.configs@[k].port,
                    ),
            decreases self.configs@.len() - i,
        {
            let mut line = self.configs[i].domain.clone();
            line.append(" -> ");
            line.append(decimal_string(self.configs[i].port as u64).as_str());
            info.push(line);
            i = i + 1;
        }
        assert(info.deep_view() =~= self@.connection_info());
        info
    }
}

impl ToContainerConfig for ProxyService {
    fn to_container_config(&self, context: &Context) -> (config: ContainerConfig)
        ensures
            config@ == self@.container_config(context.spec_container_name_of(ServiceKind::Proxy)),
    {
        let name = context.container_name_of(ServiceKind::Proxy);
        let mut cmd: Vec<String> = Vec::new();
        cmd.push(text("sh"));
        cmd.push(text("-c"));
        cmd.push(text(STARTUP_COMMAND));
        assert(cmd.deep_view() =~= seq!["sh"@, "-c"@, STARTUP_COMMAND@]);
        let mut mounts: Vec<Mount> = Vec::new();
        mounts.push(context.manual_mount("caddy/configs", CADDY_CONFIGS_INNER_DIR));
        mounts.push(context.manual_mount("caddy/internal/data", "/data/"));
        mounts.push(context.manual_mount("caddy/internal/config", "/config/"));
        assert(mounts.deep_view() =~= ProxyServiceView::mounts());
        let mut borrowed: Vec<&HostPortBinding> = Vec::new();
        let mut i: usize = 0;
        while i < self.bindings.len()
            invariant
                i <= self.bindings@.len(),
                borrowed@.len() == i,
                forall|k: int| 0 <= k < i ==> *borrowed@[k] == self.bindings@[k],
            decreases self.bindings@.len() - i,
        {
            borrowed.push(&self.bindings[i]);
            i = i + 1;
        }
        let port_bindings = HostPortBinding::to_port_bindings(borrowed.as_slice());
        assert(binding_views(borrowed@) =~= self@.bindings);
        let spec = ContainerSpec {
            image: text(IMAGE_NAME),
            hostname: name.clone(),
            domainname: name.clone(),
            cmd: Some(cmd),
            env: None,
            mounts,
            port_bindings,
            network: text(DPLOY_NETWORK),
            restart_policy: RestartPolicy::Always,
        };
        ContainerConfig::new(name, text(IMAGE_NAME), spec)
    }
}

} // verus!
