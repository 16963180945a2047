use dploy::cli::{
    Args, Command, DeployCommand, DeployLogsService, DevCommand, DevLogsService, RunCommand,
    RunLogsService,
};
use dploy::config::{
    AppConfig, OverrideConfig, OverrideRule, OverrideRuleCommand, ProxyConfig, TopLevelAppConfig,
    TopLevelOverrideConfig,
};
use dploy::constants::{
    get_default_docker_context, get_default_dockerfile_name, get_default_dotenv_file_name,
    get_default_ignore_files,
};
use dploy::context::{port_key, Context, HostPortBinding, SshCredentials};
use dploy::services::ServiceKind;

fn app_config(name: &str) -> AppConfig {
    AppConfig {
        config: TopLevelAppConfig { name: name.to_owned(), ..Default::default() },
        overrides: vec![],
    }
}

fn dev() -> Command {
    Command::Dev { command: None }
}

fn run() -> Command {
    Command::Run { command: None, watch: false }
}

fn deploy() -> Command {
    Command::Deploy {
        host: "example.com".to_owned(),
        port: 2222,
        username: "root".to_owned(),
        keyfile: Some("/home/me/.ssh/id".to_owned()),
        command: None,
        watch: false,
    }
}

fn context(name: &str, command: Command) -> Context {
    let args =
        Args { config: "dploy.toml".to_owned(), namespace: "default".to_owned(), command };
    Context::new(args, app_config(name))
}

#[test]
fn container_names_follow_the_app_name() {
    let context = context("myapp", run());
    assert_eq!("myapp_postgres_default", context.container_name_of(ServiceKind::Postgres));
    assert_eq!("myapp_myapp_default", context.container_name_of(ServiceKind::App));
    assert_eq!("myapp_keydb_default", context.container_name_of(ServiceKind::Keydb));
}

#[test]
fn proxy_name_is_shared_by_all_apps() {
    let first = context("myapp", deploy());
    let second = context("other", dev());
    assert_eq!("dploysingleton_proxy_default", first.container_name_of(ServiceKind::Proxy));
    assert_eq!(
        first.container_name_of(ServiceKind::Proxy),
        second.container_name_of(ServiceKind::Proxy)
    );
}

#[test]
fn container_name_uses_the_resolved_name() {
    let config = AppConfig {
        config: TopLevelAppConfig { name: "base".to_owned(), ..Default::default() },
        overrides: vec![OverrideConfig {
            rule: OverrideRule { namespace: None, command: Some(OverrideRuleCommand::Dev) },
            config: TopLevelOverrideConfig {
                name: Some("local".to_owned()),
                ..Default::default()
            },
        }],
    };
    let args = Args {
        config: "dploy.toml".to_owned(),
        namespace: "default".to_owned(),
        command: dev(),
    };
    let context = Context::new(args, config);
    assert_eq!("local", context.app_name());
    assert_eq!("local_postgres_default", context.container_name_of(ServiceKind::Postgres));
}

#[test]
fn override_context_follows_the_command_line() {
    let args = Args {
        config: "dploy.toml".to_owned(),
        namespace: "staging".to_owned(),
        command: deploy(),
    };
    let context = Context::new(args, app_config("myapp"));
    assert_eq!("staging", context.override_context().namespace);
    assert_eq!(OverrideRuleCommand::Deploy, context.override_context().command);
    assert_eq!("staging", context.namespace());
    assert_eq!("dploy.toml", context.args().config());
    assert_eq!("staging", context.args().namespace());
}

#[test]
fn volume_paths_are_flat() {
    let context = context("myapp", run());
    assert_eq!(
        "/var/lib/dploy/volumes/myapp_postgres_default/$__$var$__$lib$__$postgresql$__$data",
        context.volume_path_of(ServiceKind::Postgres, "/var/lib/postgresql/data")
    );
    assert_eq!(
        "/var/lib/dploy/volumes/myapp_myapp_default/data",
        context.volume_path_of(ServiceKind::App, "data")
    );
    assert_eq!(
        "/var/lib/dploy/volumes/myapp_myapp_default/a$__$b$__$c",
        context.volume_path_of(ServiceKind::App, "a\\b/c")
    );
    assert_eq!("/var/lib/dploy", context.get_dploy_dir());
}

#[test]
fn mounts_bind_the_volume_path() {
    let context = context("myapp", run());
    let mount = context.mount(ServiceKind::App, "/data");
    assert_eq!("/var/lib/dploy/volumes/myapp_myapp_default/$__$data", mount.source);
    assert_eq!("/data", mount.target);
    assert!(mount.create_mountpoint);
    let manual = context.manual_mount("caddy/configs", "/etc/caddy");
    assert_eq!("/var/lib/dploy/caddy/configs", manual.source);
    assert_eq!("/etc/caddy", manual.target);
    assert!(manual.create_mountpoint);
}

#[test]
fn mode_gates_follow_the_command() {
    let dev = context("myapp", dev());
    let run = context("myapp", run());
    let deploy = context("myapp", deploy());

    assert!(dev.should_expose_to_host());
    assert!(run.should_expose_to_host());
    assert!(!deploy.should_expose_to_host());

    assert!(!dev.should_expose_app_service_to_host());
    assert!(run.should_expose_app_service_to_host());
    assert!(!deploy.should_expose_app_service_to_host());

    assert!(!dev.should_create_app_service());
    assert!(run.should_create_app_service());
    assert!(deploy.should_create_app_service());

    assert!(dev.should_generate_env_file());
    assert!(run.should_generate_env_file());
    assert!(!deploy.should_generate_env_file());

    assert!(dev.should_create_network());
    assert!(run.should_create_network());
    assert!(!deploy.should_create_network());

    assert!(dev.should_print_connection_info());
    assert!(run.should_print_connection_info());
    assert!(!deploy.should_print_connection_info());
}

#[test]
fn proxy_is_created_for_deploy_with_routes_only() {
    let with_routes = |command: Command| {
        let config = AppConfig {
            config: TopLevelAppConfig {
                name: "myapp".to_owned(),
                proxy: vec![ProxyConfig { domain: "example.com".to_owned(), port: 8080 }],
                ..Default::default()
            },
            overrides: vec![],
        };
        let args = Args {
            config: "dploy.toml".to_owned(),
            namespace: "default".to_owned(),
            command,
        };
        Context::new(args, config)
    };
    assert!(with_routes(deploy()).should_create_proxy_service());
    assert!(!with_routes(run()).should_create_proxy_service());
    assert!(!with_routes(dev()).should_create_proxy_service());
    assert!(!context("myapp", deploy()).should_create_proxy_service());
}

#[test]
fn dev_binding_is_loopback_on_the_free_port() {
    let binding = HostPortBinding::new("myapp_postgres_default", 5432, &dev(), 49152);
    assert_eq!("127.0.0.1", binding.inner_host());
    assert_eq!(49152, binding.inner_port());
    assert_eq!("127.0.0.1", binding.host_host());
    assert_eq!(Some(49152), binding.host_port());
}

#[test]
fn run_binding_is_published_on_every_interface() {
    let binding = HostPortBinding::new("myapp_postgres_default", 5432, &run(), 49152);
    assert_eq!("myapp_postgres_default", binding.inner_host());
    assert_eq!(5432, binding.inner_port());
    assert_eq!("0.0.0.0", binding.host_host());
    assert_eq!(Some(49152), binding.host_port());
}

#[test]
fn deploy_binding_has_no_host_port() {
    let binding = HostPortBinding::new("myapp_postgres_default", 5432, &deploy(), 49152);
    assert_eq!("myapp_postgres_default", binding.inner_host());
    assert_eq!(5432, binding.inner_port());
    assert_eq!(None, binding.host_port());
}

#[test]
fn context_builds_the_binding_of_its_mode() {
    let binding = context("myapp", run()).host_port_binding_of(ServiceKind::Postgres, 5432, 40000);
    assert_eq!("myapp_postgres_default", binding.inner_host());
    assert_eq!(Some(40000), binding.host_port());
}

#[test]
fn port_bindings_are_keyed_by_inner_port() {
    let first = HostPortBinding::manual(8080, "0.0.0.0", 80, "proxy");
    let second = HostPortBinding::manual(8443, "0.0.0.0", 443, "proxy");
    let hidden = HostPortBinding::new("proxy", 9000, &deploy(), 1);
    let ports = HostPortBinding::to_port_bindings(&[&first, &second, &hidden]);
    assert_eq!(2, ports.len());
    assert_eq!(8080, ports[&80].host_port);
    assert_eq!("0.0.0.0", ports[&80].host_ip);
    assert_eq!(8443, ports[&443].host_port);
    assert!(!ports.contains_key(&9000));
}

#[test]
fn later_binding_replaces_an_earlier_one_for_the_same_port() {
    let first = HostPortBinding::manual(8080, "0.0.0.0", 80, "proxy");
    let second = HostPortBinding::manual(9090, "127.0.0.1", 80, "proxy");
    let ports = HostPortBinding::to_port_bindings(&[&first, &second]);
    assert_eq!(1, ports.len());
    assert_eq!(9090, ports[&80].host_port);
    assert_eq!("127.0.0.1", ports[&80].host_ip);
}

#[test]
fn single_binding_publishes_one_port_at_most() {
    let published = HostPortBinding::manual(8080, "0.0.0.0", 80, "proxy").to_port_binding();
    assert_eq!(1, published.len());
    assert_eq!(8080, published[&80].host_port);
    let hidden = HostPortBinding::new("db", 5432, &deploy(), 1).to_port_binding();
    assert!(hidden.is_empty());
}

#[test]
fn port_key_names_the_tcp_port() {
    assert_eq!("5432/tcp", port_key(5432));
    assert_eq!("80/tcp", port_key(80));
}

#[test]
fn ssh_credentials_exist_for_deploy_only() {
    let credentials = context("myapp", deploy()).ssh_credentials().unwrap();
    assert_eq!("example.com", credentials.host());
    assert_eq!(2222, credentials.port());
    assert_eq!("root", credentials.username());
    assert_eq!(Some("/home/me/.ssh/id"), credentials.keyfile());
    assert!(context("myapp", run()).ssh_credentials().is_none());
    assert!(context("myapp", dev()).ssh_credentials().is_none());
}

#[test]
fn ssh_credentials_keep_what_they_are_given() {
    let credentials = SshCredentials::new("h".to_owned(), 22, "u".to_owned(), None);
    assert_eq!("h", credentials.host());
    assert_eq!(22, credentials.port());
    assert_eq!("u", credentials.username());
    assert_eq!(None, credentials.keyfile());
}

#[test]
fn stop_is_read_from_the_sub_command() {
    assert!(Command::Dev { command: Some(DevCommand::Stop) }.stop());
    assert!(Command::Run { command: Some(RunCommand::Stop), watch: true }.stop());
    assert!(!run().stop());
    assert!(!Command::Dev {
        command: Some(DevCommand::Logs { tail: None, service: DevLogsService::Postgres })
    }
    .stop());
    let stopping = Command::Deploy {
        host: "h".to_owned(),
        port: 22,
        username: "root".to_owned(),
        keyfile: None,
        command: Some(DeployCommand::Stop),
        watch: false,
    };
    assert!(stopping.stop());
    assert!(!deploy().stop());
}

#[test]
fn watch_is_read_from_the_flag() {
    assert!(Command::Run { command: None, watch: true }.watch());
    assert!(!run().watch());
    assert!(!dev().watch());
    let watching = Command::Deploy {
        host: "h".to_owned(),
        port: 22,
        username: "root".to_owned(),
        keyfile: None,
        command: None,
        watch: true,
    };
    assert!(watching.watch());
    assert!(!deploy().watch());
}

#[test]
fn command_kinds() {
    assert_eq!(OverrideRuleCommand::Dev, dev().kind());
    assert_eq!(OverrideRuleCommand::Run, run().kind());
    assert_eq!(OverrideRuleCommand::Deploy, deploy().kind());
}

#[test]
fn log_services_name_service_kinds() {
    assert_eq!(ServiceKind::Postgres, ServiceKind::from(DevLogsService::Postgres));
    assert_eq!(ServiceKind::App, ServiceKind::from(RunLogsService::App));
    assert_eq!(ServiceKind::Postgres, ServiceKind::from(RunLogsService::Postgres));
    assert_eq!(ServiceKind::App, ServiceKind::from(DeployLogsService::App));
    assert_eq!(ServiceKind::Postgres, ServiceKind::from(DeployLogsService::Postgres));
}

#[test]
fn service_kinds() {
    assert!(ServiceKind::Proxy.is_singleton());
    assert!(!ServiceKind::Proxy.is_local());
    for kind in [ServiceKind::App, ServiceKind::Postgres, ServiceKind::Keydb] {
        assert!(kind.is_local());
        assert!(!kind.is_singleton());
    }
    assert_eq!("app", ServiceKind::App.to_string());
    assert_eq!("postgres", ServiceKind::Postgres.to_string());
    assert_eq!("keydb", ServiceKind::Keydb.to_string());
    assert_eq!("proxy", ServiceKind::Proxy.to_string());
}

#[test]
fn defaults() {
    assert_eq!("Dockerfile", get_default_dockerfile_name());
    assert_eq!(".env", get_default_dotenv_file_name());
    assert_eq!(".", get_default_docker_context());
    assert_eq!(vec![".dockerignore".to_owned()], get_default_ignore_files());
}

#[test]
fn plain_paths_get_different_directories() {
    let context = context("myapp", run());
    let paths = ["/data", "/data/", "data", "/var/data", "/var/lib/data", "/var$lib"];
    for (i, first) in paths.iter().enumerate() {
        for second in paths.iter().skip(i + 1) {
            if first.contains('$') || second.contains('$') {
                continue;
            }
            assert_ne!(
                context.volume_path_of(ServiceKind::App, first),
                context.volume_path_of(ServiceKind::App, second)
            );
        }
    }
}

#[test]
fn volume_directory_holds_no_separator() {
    let context = context("myapp", run());
    let prefix = "/var/lib/dploy/volumes/myapp_myapp_default/";
    for path in ["/a/b/c", "a\\b\\c", "\\/\\/", "", "plain"] {
        let volume_path = context.volume_path_of(ServiceKind::App, path);
        let directory = volume_path.strip_prefix(prefix).unwrap();
        assert!(!directory.contains('/') && !directory.contains('\\'));
    }
}
