//! The execution policy: names, paths, bindings and mode gates, all derived
//! from the parsed command line and the resolved configuration.

use crate::cli::{Args, Command};
use crate::config::{AppConfig, OverrideContext};
use crate::services::ServiceKind;
use crate::utils::string::{decimal, decimal_string, replace_char, replaced, text};
use std::collections::HashMap;
use vstd::prelude::*;
use vstd::std_specs::hash::group_hash_axioms;

verus! {

broadcast use group_hash_axioms;

/// The name prefix of services that exist once per host.
pub const SINGLETON_PREFIX: &'static str = "dploysingleton";

/// The directory on the host that holds everything this tool persists.
pub const DPLOY_DIR: &'static str = "/var/lib/dploy";

/// What replaces a path separator inside the name of a volume directory.
pub const SEPARATOR_ESCAPE: &'static str = "$__$";

/// The address on which only the operator's machine can reach a port.
pub const LOOPBACK: &'static str = "127.0.0.1";

/// The address that publishes a port on every interface of the host.
pub const ALL_INTERFACES: &'static str = "0.0.0.0";

/// The container name of a service: `{prefix}_{suffix}_default`, where the
/// prefix is the application's name, or a fixed token for a singleton, and
/// the suffix is the kind's name, or the application's name for the
/// application itself.
pub open spec fn container_name(app_name: Seq<char>, kind: ServiceKind) -> Seq<char> {
    let prefix = if kind == ServiceKind::Proxy {
        SINGLETON_PREFIX@
    } else {
        app_name
    };
    let suffix = match kind {
        ServiceKind::Postgres => "postgres"@,
        ServiceKind::Keydb => "keydb"@,
        ServiceKind::Proxy => "proxy"@,
        ServiceKind::App => app_name,
    };
    prefix + "_"@ + suffix + "_default"@
}

/// The name of the directory that holds one mount: the path inside the
/// container with every separator replaced by the escape token.
pub open spec fn volume_dir_name(inner_path: Seq<char>) -> Seq<char> {
    replaced(replaced(inner_path, '\\', "/"@), '/', SEPARATOR_ESCAPE@)
}

/// The host directory of one mount of a service.
pub open spec fn volume_path(container: Seq<char>, inner_path: Seq<char>) -> Seq<char> {
    DPLOY_DIR@ + "/volumes/"@ + container + "/"@ + volume_dir_name(inner_path)
}

/// The name of the shared proxy does not depend on the application.
pub proof fn lemma_singleton_name_is_shared(first_app: Seq<char>, second_app: Seq<char>)
    ensures
        container_name(first_app, ServiceKind::Proxy) == container_name(
            second_app,
            ServiceKind::Proxy,
        ),
{
}

/// Replacing a character by a text that does not hold it leaves none of it.
pub proof fn lemma_replaced_has_none(s: Seq<char>, from: char, to: Seq<char>)
    requires
        !to.contains(from),
    ensures
        !replaced(s, from, to).contains(from),
    decreases s.len(),
{
    if s.len() > 0 {
        lemma_replaced_has_none(s.drop_last(), from, to);
        let head = replaced(s.drop_last(), from, to);
        let all = replaced(s, from, to);
        if all.contains(from) {
            let i = choose|i: int| 0 <= i < all.len() && all[i] == from;
            if i < head.len() {
                assert(head[i] == from);
                assert(head.contains(from));
            } else if s.last() == from {
                assert(to[i - head.len()] == from);
                assert(to.contains(from));
            }
        }
    }
}

/// Replacing one character keeps every other character out that was not
/// there before and is not in the replacement.
pub proof fn lemma_replaced_adds_none(s: Seq<char>, from: char, to: Seq<char>, other: char)
    requires
        !s.contains(other),
        !to.contains(other),
    ensures
        !replaced(s, from, to).contains(other),
    decreases s.len(),
{
    if s.len() > 0 {
        let init = s.drop_last();
        if init.contains(other) {
            let i = choose|i: int| 0 <= i < init.len() && init[i] == other;
            assert(s[i] == other);
        }
        lemma_replaced_adds_none(init, from, to, other);
        let head = replaced(init, from, to);
        let all = replaced(s, from, to);
        if all.contains(other) {
            let i = choose|i: int| 0 <= i < all.len() && all[i] == other;
            if i < head.len() {
                assert(head[i] == other);
                assert(head.contains(other));
            } else if s.last() == from {
                assert(to[i - head.len()] == other);
                assert(to.contains(other));
            } else {
                assert(s[s.len() - 1] == other);
            }
        }
    }
}

/// Every mount gets one flat directory: its name holds no path separator.
pub proof fn lemma_volume_dir_is_flat(inner_path: Seq<char>)
    ensures
        !volume_dir_name(inner_path).contains('/'),
        !volume_dir_name(inner_path).contains('\\'),
{
    reveal_strlit("/");
    reveal_strlit("$__$");
    let slash = "/"@;
    let token = SEPARATOR_ESCAPE@;
    assert(token == "$__$"@);
    if token.contains('/') {
        let i = choose|i: int| 0 <= i < token.len() && token[i] == '/';
    }
    if token.contains('\\') {
        let i = choose|i: int| 0 <= i < token.len() && token[i] == '\\';
    }
    if slash.contains('\\') {
        let i = choose|i: int| 0 <= i < slash.len() && slash[i] == '\\';
    }
    lemma_replaced_has_none(inner_path, '\\', slash);
    lemma_replaced_adds_none(replaced(inner_path, '\\', slash), '/', token, '\\');
    lemma_replaced_has_none(replaced(inner_path, '\\', slash), '/', token);
}

/// Replacing a character that does not occur changes nothing.
pub proof fn lemma_replaced_without_occurrence(s: Seq<char>, from: char, to: Seq<char>)
    requires
        !s.contains(from),
    ensures
        replaced(s, from, to) == s,
    decreases s.len(),
{
    if s.len() > 0 {
        let init = s.drop_last();
        assert(s[s.len() - 1] != from);
        if init.contains(from) {
            let i = choose|i: int| 0 <= i < init.len() && init[i] == from;
            assert(s[i] == from);
        }
        lemma_replaced_without_occurrence(init, from, to);
        assert(init.push(s.last()) =~= s);
    }
}

/// Replacing by a text that is not empty never shortens a text.
pub proof fn lemma_replaced_is_no_shorter(s: Seq<char>, from: char, to: Seq<char>)
    requires
        to.len() > 0,
    ensures
        replaced(s, from, to).len() >= s.len(),
    decreases s.len(),
{
    if s.len() > 0 {
        lemma_replaced_is_no_shorter(s.drop_last(), from, to);
    }
}

/// Replacing tells texts apart: where the replacement ends in a character
/// that neither text holds, different texts stay different.
pub proof fn lemma_replaced_is_injective(
    first: Seq<char>,
    second: Seq<char>,
    from: char,
    to: Seq<char>,
)
    requires
        to.len() > 0,
        to.last() != from,
        !first.contains(to.last()),
        !second.contains(to.last()),
        replaced(first, from, to) == replaced(second, from, to),
    ensures
        first == second,
    decreases first.len(),
{
    let mark = to.last();
    if first.len() == 0 {
        lemma_replaced_is_no_shorter(second, from, to);
        assert(first =~= second);
    } else if second.len() == 0 {
        lemma_replaced_is_no_shorter(first, from, to);
    } else {
        let a = first.last();
        let b = second.last();
        let first_init = first.drop_last();
        let second_init = second.drop_last();
        let first_head = replaced(first_init, from, to);
        let second_head = replaced(second_init, from, to);
        let both = replaced(first, from, to);
        assert(first[first.len() - 1] != mark);
        assert(second[second.len() - 1] != mark);
        if first_init.contains(mark) {
            let i = choose|i: int| 0 <= i < first_init.len() && first_init[i] == mark;
            assert(first[i] == mark);
        }
        if second_init.contains(mark) {
            let i = choose|i: int| 0 <= i < second_init.len() && second_init[i] == mark;
            assert(second[i] == mark);
        }
        assert(both.last() == if a == from {
            mark
        } else {
            a
        });
        assert(both.last() == if b == from {
            mark
        } else {
            b
        });
        if a == from {
            assert(b == from);
            assert(first_head =~= both.subrange(0, both.len() - to.len()));
            assert(second_head =~= both.subrange(0, both.len() - to.len()));
        } else {
            assert(b == a);
            assert(first_head =~= both.drop_last());
            assert(second_head =~= both.drop_last());
        }
        lemma_replaced_is_injective(first_init, second_init, from, to);
        assert(first =~= first_init.push(a));
        assert(second =~= second_init.push(b));
    }
}

/// Mounts of one service do not collide: paths that hold neither a
/// backslash nor a `$` get different directories whenever they differ.
pub proof fn lemma_volume_dirs_differ(first_path: Seq<char>, second_path: Seq<char>)
    requires
        first_path != second_path,
        !first_path.contains('\\'),
        !second_path.contains('\\'),
        !first_path.contains('$'),
        !second_path.contains('$'),
    ensures
        volume_dir_name(first_path) != volume_dir_name(second_path),
{
    reveal_strlit("$__$");
    let token = SEPARATOR_ESCAPE@;
    assert(token == "$__$"@);
    assert(token.last() == '$');
    lemma_replaced_without_occurrence(first_path, '\\', "/"@);
    lemma_replaced_without_occurrence(second_path, '\\', "/"@);
    if volume_dir_name(first_path) == volume_dir_name(second_path) {
        lemma_replaced_is_injective(first_path, second_path, '/', token);
    }
}

/// A bind mount of a host directory into a container.
#[derive(Debug)]
pub struct Mount {
    /// The directory on the host.
    pub source: String,
    /// The path inside the container.
    pub target: String,
    /// Whether the engine creates the host directory when it is missing.
    pub create_mountpoint: bool,
}

pub struct MountView {
    pub source: Seq<char>,
    pub target: Seq<char>,
    pub create_mountpoint: bool,
}

impl View for Mount {
    type V = MountView;

    open spec fn view(&self) -> MountView {
        MountView {
            source: self.source@,
            target: self.target@,
            create_mountpoint: self.create_mountpoint,
        }
    }
}

impl DeepView for Mount {
    type V = MountView;

    open spec fn deep_view(&self) -> MountView {
        self@
    }
}

/// Where on the host a container port is published.
#[derive(Debug)]
pub struct PortBinding {
    pub host_ip: String,
    pub host_port: u16,
}

pub struct PortBindingView {
    pub host_ip: Seq<char>,
    pub host_port: u16,
}

impl View for PortBinding {
    type V = PortBindingView;

    open spec fn view(&self) -> PortBindingView {
        PortBindingView { host_ip: self.host_ip@, host_port: self.host_port }
    }
}

impl DeepView for PortBinding {
    type V = PortBindingView;

    open spec fn deep_view(&self) -> PortBindingView {
        self@
    }
}

/// The published ports of a container, by container port, as plain values.
pub open spec fn port_map_view(ports: Map<u16, PortBinding>) -> Map<u16, PortBindingView> {
    ports.map_values(|binding: PortBinding| binding@)
}

/// The key under which the engine lists a TCP port of a container.
pub open spec fn tcp_port_key(port: u16) -> Seq<char> {
    decimal(port as nat) + "/tcp"@
}

/// The key under which the engine lists a TCP port of a container.
pub fn port_key(port: u16) -> (key: String)
    ensures
        key@ == tcp_port_key(port),
{
    let mut key = decimal_string(port as u64);
    key.append("/tcp");
    key
}

/// How a service is reached: from inside the managed network (`inner`) and
/// from the operator's machine (`host`).
#[derive(Clone, Debug)]
pub struct HostPortBinding {
    inner_port: u16,
    inner_host: String,
    host_port: Option<u16>,
    host_host: String,
}

pub struct HostPortBindingView {
    pub inner_port: u16,
    pub inner_host: Seq<char>,
    pub host_port: Option<u16>,
    pub host_host: Seq<char>,
}

impl View for HostPortBinding {
    type V = HostPortBindingView;

    closed spec fn view(&self) -> HostPortBindingView {
        HostPortBindingView {
            inner_port: self.inner_port,
            inner_host: self.inner_host@,
            host_port: self.host_port,
            host_host: self.host_host@,
        }
    }
}

/// The views of a list of borrowed bindings.
pub open spec fn binding_views(bindings: Seq<&HostPortBinding>) -> Seq<HostPortBindingView> {
    bindings.map_values(|binding: &HostPortBinding| binding@)
}

/// The ports that a list of bindings publishes: each binding with a host
/// port is entered under its inner port, a later one replacing an earlier.
pub open spec fn published_ports(bindings: Seq<HostPortBindingView>) -> Map<u16, PortBindingView>
    decreases bindings.len(),
{
    if bindings.len() == 0 {
        Map::empty()
    } else {
        let before = published_ports(bindings.drop_last());
        let last = bindings.last();
        match last.host_port {
            Some(host_port) => before.insert(
                last.inner_port,
                PortBindingView { host_ip: last.host_host, host_port },
            ),
            None => before,
        }
    }
}

impl HostPortBinding {
    /// The binding of a service in the given mode. In `dev` both sides are
    /// the loopback address and the free port. Otherwise the inner side is
    /// the container's name and the declared port; the host side is the free
    /// port on every interface for `run`, and has no port for `deploy`.
    pub open spec fn spec_new(
        container_name: Seq<char>,
        internal_port: u16,
        command: Command,
        free_port: u16,
    ) -> HostPortBindingView {
        match command {
            Command::Dev { .. } => HostPortBindingView {
                inner_port: free_port,
                inner_host: LOOPBACK@,
                host_port: Some(free_port),
                host_host: LOOPBACK@,
            },
            Command::Run { .. } => HostPortBindingView {
                inner_port: internal_port,
                inner_host: container_name,
                host_port: Some(free_port),
                host_host: ALL_INTERFACES@,
            },
            Command::Deploy { .. } => HostPortBindingView {
                inner_port: internal_port,
                inner_host: container_name,
                host_port: None,
                host_host: ALL_INTERFACES@,
            },
        }
    }

    /// Builds the binding of a service. `free_port` is a TCP port that the
    /// caller found free on the host; it is used only where the mode
    /// publishes the service.
    pub fn new(container_name: &str, internal_port: u16, command: &Command, free_port: u16) -> (binding:
        Self)
        ensures
            binding@ == Self::spec_new(container_name@, internal_port, *command, free_port),
    {
        match command {
            Command::Dev { .. } => HostPortBinding {
                inner_port: free_port,
                inner_host: text(LOOPBACK),
                host_port: Some(free_port),
                host_host: text(LOOPBACK),
            },
            Command::Run { .. } => HostPortBinding {
                inner_port: internal_port,
                inner_host: text(container_name),
                host_port: Some(free_port),
                host_host: text(ALL_INTERFACES),
            },
            Command::Deploy { .. } => HostPortBinding {
                inner_port: internal_port,
                inner_host: text(container_name),
                host_port: None,
                host_host: text(ALL_INTERFACES),
            },
        }
    }

    /// A binding with every part given by the caller.
    pub fn manual(host_port: u16, host_host: &str, inner_port: u16, inner_host: &str) -> (binding:
        Self)
        ensures
            binding@ == (HostPortBindingView {
                inner_port,
                inner_host: inner_host@,
                host_port: Some(host_port),
                host_host: host_host@,
            }),
    {
        HostPortBinding {
            inner_port,
            inner_host: text(inner_host),
            host_port: Some(host_port),
            host_host: text(host_host),
        }
    }

    /// The ports that the bindings publish, by container port.
    pub fn to_port_bindings(bindings: &[&HostPortBinding]) -> (ports: HashMap<u16, PortBinding>)
        ensures
            port_map_view(ports@) == published_ports(binding_views(bindings@)),
    {
        let mut ports: HashMap<u16, PortBinding> = HashMap::new();
        let mut i: usize = 0;
        assert(binding_views(bindings@).take(0) =~= Seq::empty());
        assert(port_map_view(ports@) =~= Map::empty());
        while i < bindings.len()
            invariant
                i <= bindings@.len(),
                port_map_view(ports@) == published_ports(binding_views(bindings@).take(i as int)),
            decreases bindings@.len() - i,
        {
            let binding: &HostPortBinding = bindings[i];
            proof {
                let upto = binding_views(bindings@).take(i + 1);
                assert(upto.drop_last() == binding_views(bindings@).take(i as int));
                assert(upto.last() == binding@);
            }
            let ghost before = ports@;
            match binding.host_port {
                Some(host_port) => {
                    let published = PortBinding { host_ip: binding.host_host.clone(), host_port };
                    ports.insert(binding.inner_port, published);
                    assert(port_map_view(ports@) =~= port_map_view(before).insert(
                        binding.inner_port,
                        published@,
                    ));
                },
                None => {},
            }
            i = i + 1;
        }
        assert(binding_views(bindings@).take(i as int) == binding_views(bindings@));
        ports
    }

    /// The ports that this binding publishes: one at most.
    pub fn to_port_binding(&self) -> (ports: HashMap<u16, PortBinding>)
        ensures
            port_map_view(ports@) == published_ports(seq![self@]),
    {
        let mut ports: HashMap<u16, PortBinding> = HashMap::new();
        proof {
            reveal_with_fuel(published_ports, 2);
            assert(seq![self@].drop_last() =~= Seq::empty());
            assert(seq![self@].last() == self@);
            assert(port_map_view(ports@) =~= Map::empty());
        }
        let ghost before = ports@;
        match self.host_port {
            Some(host_port) => {
                let published = PortBinding { host_ip: self.host_host.clone(), host_port };
                ports.insert(self.inner_port, published);
                assert(port_map_view(ports@) =~= port_map_view(before).insert(
                    self.inner_port,
                    published@,
                ));
            },
            None => {},
        }
        ports
    }

    pub fn inner_port(&self) -> (r: u16)
        ensures
            r == self@.inner_port,
    {
        self.inner_port
    }

    pub fn inner_host(&self) -> (r: &str)
        ensures
            r@ == self@.inner_host,
    {
        self.inner_host.as_str()
    }

    pub fn host_port(&self) -> (r: Option<u16>)
        ensures
            r == self@.host_port,
    {
        self.host_port
    }

    pub fn host_host(&self) -> (r: &str)
        ensures
            r@ == self@.host_host,
    {
        self.host_host.as_str()
    }
}

/// What is needed to open an SSH session to the remote host.
#[derive(Debug, Clone)]
pub struct SshCredentials {
    host: String,
    port: u16,
    username: String,
    keyfile: Option<String>,
}

pub struct SshCredentialsView {
    pub host: Seq<char>,
    pub port: u16,
    pub username: Seq<char>,
    pub keyfile: Option<Seq<char>>,
}

impl View for SshCredentials {
    type V = SshCredentialsView;

    closed spec fn view(&self) -> SshCredentialsView {
        SshCredentialsView {
            host: self.host@,
            port: self.port,
            username: self.username@,
            keyfile: self.keyfile.deep_view(),
        }
    }
}

impl DeepView for SshCredentials {
    type V = SshCredentialsView;

    open spec fn deep_view(&self) -> SshCredentialsView {
        self@
    }
}

impl SshCredentials {
    pub fn new(host: String, port: u16, username: String, keyfile: Option<String>) -> (credentials:
        Self)
        ensures
            credentials@ == (SshCredentialsView {
                host: host@,
                port,
                username: username@,
                keyfile: keyfile.deep_view(),
            }),
    {
        SshCredentials { host, port, username, keyfile }
    }

    pub fn host(&self) -> (r: &str)
        ensures
            r@ == self@.host,
    {
        self.host.as_str()
    }

    pub fn port(&self) -> (r: u16)
        ensures
            r == self@.port,
    {
        self.port
    }

    pub fn username(&self) -> (r: &str)
        ensures
            r@ == self@.username,
    {
        self.username.as_str()
    }

    pub fn keyfile(&self) -> (r: Option<&str>)
        ensures
            r.deep_view() == self@.keyfile,
    {
        match &self.keyfile {
            Some(path) => Some(path.as_str()),
            None => None,
        }
    }
}

/// The command line together with the configuration it selected.
#[derive(Debug)]
pub struct Context {
    args: Args,
    app_config: AppConfig,
    override_context: OverrideContext,
}

impl Context {
    /// The override context is the one that the command line implies.
    #[verifier::type_invariant]
    spec fn consistent(self) -> bool {
        &&& self.override_context.namespace@ == self.args.namespace@
        &&& self.override_context.command == self.args.command.spec_kind()
    }

    pub closed spec fn spec_args(&self) -> Args {
        self.args
    }

    pub closed spec fn spec_app_config(&self) -> AppConfig {
        self.app_config
    }

    pub closed spec fn spec_override_context(&self) -> OverrideContext {
        self.override_context
    }

    /// The resolved name of the application.
    pub open spec fn spec_app_name(&self) -> Seq<char> {
        self.spec_app_config().spec_name(&self.spec_override_context())
    }

    pub open spec fn spec_container_name_of(&self, kind: ServiceKind) -> Seq<char> {
        container_name(self.spec_app_name(), kind)
    }

    pub open spec fn spec_volume_path_of(&self, kind: ServiceKind, path: Seq<char>) -> Seq<char> {
        volume_path(self.spec_container_name_of(kind), path)
    }

    /// Dependencies are published on the host in `dev` and `run`.
    pub open spec fn spec_should_expose_to_host(&self) -> bool {
        self.spec_args().command is Dev || self.spec_args().command is Run
    }

    /// The application is published on the host in `run` only.
    pub open spec fn spec_should_expose_app_service_to_host(&self) -> bool {
        self.spec_args().command is Run
    }

    /// The application gets a container in `run` and `deploy`.
    pub open spec fn spec_should_create_app_service(&self) -> bool {
        self.spec_args().command is Deploy || self.spec_args().command is Run
    }

    /// The proxy is created for `deploy`, and only when a route is declared.
    pub open spec fn spec_should_create_proxy_service(&self) -> bool {
        &&& self.spec_args().command is Deploy
        &&& self.spec_app_config().spec_proxy(&self.spec_override_context()).len() > 0
    }

    pub open spec fn spec_mount(&self, kind: ServiceKind, inner_path: Seq<char>) -> MountView {
        MountView {
            source: self.spec_volume_path_of(kind, inner_path),
            target: inner_path,
            create_mountpoint: true,
        }
    }

    pub open spec fn spec_manual_mount(host_path: Seq<char>, inner_path: Seq<char>) -> MountView {
        MountView {
            source: DPLOY_DIR@ + "/"@ + host_path,
            target: inner_path,
            create_mountpoint: true,
        }
    }

    pub open spec fn spec_host_port_binding_of(
        &self,
        kind: ServiceKind,
        inner_port: u16,
        free_port: u16,
    ) -> HostPortBindingView {
        HostPortBinding::spec_new(
            self.spec_container_name_of(kind),
            inner_port,
            self.spec_args().command,
            free_port,
        )
    }

    pub open spec fn spec_ssh_credentials(&self) -> Option<SshCredentialsView> {
        match self.spec_args().command {
            Command::Deploy { host, port, username, keyfile, .. } => Some(
                SshCredentialsView {
                    host: host@,
                    port,
                    username: username@,
                    keyfile: keyfile.deep_view(),
                },
            ),
            _ => None,
        }
    }

    /// Joins the command line with the configuration. The override context
    /// is the namespace and the command kind of the command line.
    pub fn new(args: Args, app_config: AppConfig) -> (context: Self)
        ensures
            context.spec_args() == args,
            context.spec_app_config() == app_config,
            context.spec_override_context().namespace@ == args.namespace@,
            context.spec_override_context().command == args.command.spec_kind(),
    {
        let override_context = OverrideContext {
            namespace: args.namespace.clone(),
            command: args.command.kind(),
        };
        Context { args, app_config, override_context }
    }

    pub fn args(&self) -> (r: &Args)
        ensures
            *r == self.spec_args(),
    {
        &self.args
    }

    pub fn app_config(&self) -> (r: &AppConfig)
        ensures
            *r == self.spec_app_config(),
    {
        &self.app_config
    }

    /// What override rules are compared against: the namespace and the
    /// command kind of the command line.
    pub fn override_context(&self) -> (r: &OverrideContext)
        ensures
            *r == self.spec_override_context(),
            r.namespace@ == self.spec_args().namespace@,
            r.command == self.spec_args().command.spec_kind(),
    {
        proof {
            use_type_invariant(self);
        }
        &self.override_context
    }

    pub fn namespace(&self) -> (r: &str)
        ensures
            r@ == self.spec_args().namespace@,
    {
        self.args.namespace.as_str()
    }

    /// The resolved name of the application.
    pub fn app_name(&self) -> (r: &str)
        ensures
            r@ == self.spec_app_name(),
    {
        self.app_config.name(&self.override_context)
    }

    /// The name of the container of a service. It depends on the resolved
    /// application name and the kind alone, never on the engine.
    pub fn container_name_of(&self, service_kind: ServiceKind) -> (name: String)
        ensures
            name@ == self.spec_container_name_of(service_kind),
    {
        let app_name = self.app_name();
        let prefix = if service_kind.is_singleton() {
            SINGLETON_PREFIX
        } else {
            app_name
        };
        let suffix = match service_kind {
            ServiceKind::Postgres => "postgres",
            ServiceKind::Keydb => "keydb",
            ServiceKind::Proxy => "proxy",
            ServiceKind::App => app_name,
        };
        let mut name = text(prefix);
        name.append("_");
        name.append(suffix);
        name.append("_default");
        name
    }

    /// The host directory that backs the mount of `path` into a service.
    pub fn volume_path_of(&self, service_kind: ServiceKind, path: &str) -> (volume_path: String)
        ensures
            volume_path@ == self.spec_volume_path_of(service_kind, path@),
    {
        let forward = replace_char(path, '\\', "/");
        let flat = replace_char(forward.as_str(), '/', SEPARATOR_ESCAPE);
        let mut volume_path = self.get_dploy_dir();
        volume_path.append("/volumes/");
        volume_path.append(self.container_name_of(service_kind).as_str());
        volume_path.append("/");
        volume_path.append(flat.as_str());
        volume_path
    }

    pub fn should_expose_to_host(&self) -> (r: bool)
        ensures
            r == self.spec_should_expose_to_host(),
    {
        match &self.args.command {
            Command::Dev { .. } => true,
            Command::Run { .. } => true,
            Command::Deploy { .. } => false,
        }
    }

    pub fn should_expose_app_service_to_host(&self) -> (r: bool)
        ensures
            r == self.spec_should_expose_app_service_to_host(),
    {
        match &self.args.command {
            Command::Run { .. } => true,
            _ => false,
        }
    }

    pub fn should_print_connection_info(&self) -> (r: bool)
        ensures
            r == self.spec_should_expose_to_host(),
    {
        self.should_expose_to_host()
    }

    pub fn should_create_app_service(&self) -> (r: bool)
        ensures
            r == self.spec_should_create_app_service(),
    {
        match &self.args.command {
            Command::Deploy { .. } => true,
            Command::Run { .. } => true,
            Command::Dev { .. } => false,
        }
    }

    pub fn should_generate_env_file(&self) -> (r: bool)
        ensures
            r == self.spec_should_expose_to_host(),
    {
        self.should_expose_to_host()
    }

    pub fn should_create_network(&self) -> (r: bool)
        ensures
            r == self.spec_should_expose_to_host(),
    {
        self.should_expose_to_host()
    }

    pub fn should_create_proxy_service(&self) -> (r: bool)
        ensures
            r == self.spec_should_create_proxy_service(),
    {
        match &self.args.command {
            Command::Deploy { .. } => self.app_config.proxy(&self.override_context).len() > 0,
            _ => false,
        }
    }

    /// The bind mount that backs `inner_path` of a service.
    pub fn mount(&self, service_kind: ServiceKind, inner_path: &str) -> (mount: Mount)
        ensures
            mount@ == self.spec_mount(service_kind, inner_path@),
    {
        Mount {
            source: self.volume_path_of(service_kind, inner_path),
            target: text(inner_path),
            create_mountpoint: true,
        }
    }

    /// A bind mount of a directory that is named relative to the tool's own.
    pub fn manual_mount(&self, host_path: &str, inner_path: &str) -> (mount: Mount)
        ensures
            mount@ == Self::spec_manual_mount(host_path@, inner_path@),
    {
        let mut source = self.get_dploy_dir();
        source.append("/");
        source.append(host_path);
        Mount { source, target: text(inner_path), create_mountpoint: true }
    }

    /// The binding of a service in the current mode; `free_port` is a TCP
    /// port that the caller found free on the host.
    pub fn host_port_binding_of(&self, service_kind: ServiceKind, inner_port: u16, free_port: u16) -> (binding:
        HostPortBinding)
        ensures
            binding@ == self.spec_host_port_binding_of(service_kind, inner_port, free_port),
    {
        let name = self.container_name_of(service_kind);
        HostPortBinding::new(name.as_str(), inner_port, &self.args.command, free_port)
    }

    /// The SSH credentials: present for `deploy` only, as given on the
    /// command line.
    pub fn ssh_credentials(&self) -> (credentials: Option<SshCredentials>)
        ensures
            credentials.deep_view() == self.spec_ssh_credentials(),
    {
        match &self.args.command {
            Command::Deploy { host, port, username, keyfile, .. } => {
                let keyfile_copy = match keyfile {
                    Some(path) => Some(path.clone()),
                    None => None,
                };
                Some(SshCredentials::new(host.clone(), *port, username.clone(), keyfile_copy))
            },
            _ => None,
        }
    }

    /// The directory on the host that holds everything this tool persists.
    pub fn get_dploy_dir(&self) -> (dir: String)
        ensures
            dir@ == DPLOY_DIR@,
    {
        text(DPLOY_DIR)
    }
}

} // verus!
