use dploy::config::{
    AppConfig, KeydbConfig, OverrideConfig, OverrideContext, OverrideRule, OverrideRuleCommand,
    PostgresConfig, ProxyConfig, TopLevelAppConfig, TopLevelOverrideConfig,
};

fn context(namespace: &str, command: OverrideRuleCommand) -> OverrideContext {
    OverrideContext { namespace: namespace.to_owned(), command }
}

#[test]
fn test_resolve_field() {
    let config = TopLevelAppConfig {
        name: "dploy-test".to_owned(),
        volumes: vec!["data".to_owned()],
        dockerfile: "Dockerfile".to_owned(),

        postgres: Some(PostgresConfig {
            database_name: Some("dploy".to_owned()),
            ..Default::default()
        }),
        ..Default::default()
    };

    let context = OverrideContext {
        namespace: "default".to_owned(),
        command: OverrideRuleCommand::Deploy,
    };

    let other_context = OverrideContext {
        namespace: "other".to_owned(),
        command: OverrideRuleCommand::Deploy,
    };

    let app_config = AppConfig {
        config,
        overrides: vec![OverrideConfig {
            rule: OverrideRule {
                namespace: Some("default".to_owned()),
                command: Some(OverrideRuleCommand::Deploy),
            },
            config: TopLevelOverrideConfig {
                dockerfile: Some("Dockerfile.prod".to_owned()),
                ..Default::default()
            },
        }],
    };

    assert_eq!("Dockerfile.prod", app_config.dockerfile(&context));
    assert_eq!("dploy-test", app_config.name(&context));

    assert_eq!("Dockerfile", app_config.dockerfile(&other_context));
    assert_eq!("dploy-test", app_config.name(&other_context));
}

fn two_rules() -> AppConfig {
    AppConfig {
        config: TopLevelAppConfig {
            name: "myapp".to_owned(),
            dockerfile: "Dockerfile".to_owned(),
            ..Default::default()
        },
        overrides: vec![
            OverrideConfig {
                rule: OverrideRule::default(),
                config: TopLevelOverrideConfig {
                    dockerfile: Some("Dockerfile.a".to_owned()),
                    ..Default::default()
                },
            },
            OverrideConfig {
                rule: OverrideRule { namespace: Some("default".to_owned()), command: None },
                config: TopLevelOverrideConfig {
                    dockerfile: Some("Dockerfile.prod".to_owned()),
                    ..Default::default()
                },
            },
        ],
    }
}

#[test]
fn last_matching_rule_wins() {
    let config = two_rules();
    assert_eq!(
        "Dockerfile.prod",
        config.dockerfile(&context("default", OverrideRuleCommand::Deploy))
    );
    assert_eq!("Dockerfile.a", config.dockerfile(&context("other", OverrideRuleCommand::Deploy)));
}

#[test]
fn last_rule_wins_over_a_more_specific_earlier_one() {
    let config = AppConfig {
        config: TopLevelAppConfig { env_file: ".env".to_owned(), ..Default::default() },
        overrides: vec![
            OverrideConfig {
                rule: OverrideRule {
                    namespace: Some("default".to_owned()),
                    command: Some(OverrideRuleCommand::Run),
                },
                config: TopLevelOverrideConfig {
                    env_file: Some(".env.specific".to_owned()),
                    ..Default::default()
                },
            },
            OverrideConfig {
                rule: OverrideRule::default(),
                config: TopLevelOverrideConfig {
                    env_file: Some(".env.general".to_owned()),
                    ..Default::default()
                },
            },
        ],
    };
    assert_eq!(".env.general", config.env_file(&context("default", OverrideRuleCommand::Run)));
}

#[test]
fn fields_resolve_independently() {
    let config = AppConfig {
        config: TopLevelAppConfig {
            name: "base".to_owned(),
            ports: vec![80],
            watch: vec!["src".to_owned()],
            ..Default::default()
        },
        overrides: vec![
            OverrideConfig {
                rule: OverrideRule { namespace: None, command: Some(OverrideRuleCommand::Dev) },
                config: TopLevelOverrideConfig {
                    ports: Some(vec![3000, 3001]),
                    ..Default::default()
                },
            },
            OverrideConfig {
                rule: OverrideRule { namespace: None, command: Some(OverrideRuleCommand::Dev) },
                config: TopLevelOverrideConfig {
                    name: Some("dev".to_owned()),
                    ..Default::default()
                },
            },
        ],
    };
    let dev = context("default", OverrideRuleCommand::Dev);
    let run = context("default", OverrideRuleCommand::Run);
    assert_eq!("dev", config.name(&dev));
    assert_eq!(&[3000u16, 3001][..], config.ports(&dev));
    assert_eq!(&["src".to_owned()][..], config.watch(&dev));
    assert_eq!("base", config.name(&run));
    assert_eq!(&[80u16][..], config.ports(&run));
}

#[test]
fn command_predicate_must_match() {
    let config = AppConfig {
        config: TopLevelAppConfig { name: "base".to_owned(), ..Default::default() },
        overrides: vec![OverrideConfig {
            rule: OverrideRule {
                namespace: Some("default".to_owned()),
                command: Some(OverrideRuleCommand::Deploy),
            },
            config: TopLevelOverrideConfig {
                name: Some("deployed".to_owned()),
                ..Default::default()
            },
        }],
    };
    assert_eq!("deployed", config.name(&context("default", OverrideRuleCommand::Deploy)));
    assert_eq!("base", config.name(&context("default", OverrideRuleCommand::Run)));
    assert_eq!("base", config.name(&context("staging", OverrideRuleCommand::Deploy)));
}

#[test]
fn optional_fields_may_be_absent_at_both_levels() {
    let config = AppConfig {
        config: TopLevelAppConfig::default(),
        overrides: vec![OverrideConfig {
            rule: OverrideRule { namespace: Some("prod".to_owned()), command: None },
            config: TopLevelOverrideConfig {
                expose_namespace_to_env: Some("NAMESPACE".to_owned()),
                keydb: Some(KeydbConfig { expose_url_to_env: Some("KEYDB_URL".to_owned()) }),
                ..Default::default()
            },
        }],
    };
    let prod = context("prod", OverrideRuleCommand::Deploy);
    let other = context("default", OverrideRuleCommand::Deploy);
    assert_eq!(Some("NAMESPACE"), config.expose_namespace_to_env(&prod));
    assert_eq!(None, config.expose_namespace_to_env(&other));
    assert_eq!(Some("KEYDB_URL"), config.keydb(&prod).and_then(|keydb| keydb.expose_url_to_env()));
    assert!(config.keydb(&other).is_none());
    assert!(config.postgres(&prod).is_none());
}

#[test]
fn base_optional_value_is_used_without_override() {
    let config = AppConfig {
        config: TopLevelAppConfig {
            postgres: Some(PostgresConfig {
                expose_url_to_env: Some("DATABASE_URL".to_owned()),
                database_name: None,
            }),
            ..Default::default()
        },
        overrides: vec![],
    };
    let postgres = config.postgres(&context("default", OverrideRuleCommand::Dev)).unwrap();
    assert_eq!(Some("DATABASE_URL"), postgres.expose_url_to_env());
    assert_eq!(None, postgres.database_name());
}

#[test]
fn lists_resolve_to_the_override() {
    let config = AppConfig {
        config: TopLevelAppConfig {
            env: vec!["A".to_owned()],
            volumes: vec!["/data".to_owned()],
            proxy: vec![ProxyConfig { domain: "example.com".to_owned(), port: 80 }],
            ..Default::default()
        },
        overrides: vec![OverrideConfig {
            rule: OverrideRule::default(),
            config: TopLevelOverrideConfig {
                env: Some(vec!["B".to_owned(), "C".to_owned()]),
                volumes: Some(vec![]),
                proxy: Some(vec![]),
                ..Default::default()
            },
        }],
    };
    let rules = context("default", OverrideRuleCommand::Deploy);
    assert_eq!(&["B".to_owned(), "C".to_owned()][..], config.env(&rules));
    assert!(config.volumes(&rules).is_empty());
    assert!(config.proxy(&rules).is_empty());
}

#[test]
fn active_overrides_keep_declaration_order() {
    let config = two_rules();
    let active = config.active_overrides(&context("default", OverrideRuleCommand::Run));
    assert_eq!(2, active.len());
    assert_eq!(Some("Dockerfile.a".to_owned()), active[0].config.dockerfile);
    assert_eq!(Some("Dockerfile.prod".to_owned()), active[1].config.dockerfile);
    let active = config.active_overrides(&context("other", OverrideRuleCommand::Run));
    assert_eq!(1, active.len());
}

#[test]
fn rule_matches_unset_or_equal() {
    let rules = context("default", OverrideRuleCommand::Run);
    assert!(OverrideRule::default().matches(&rules));
    assert!(OverrideRule { namespace: Some("default".to_owned()), command: None }.matches(&rules));
    assert!(!OverrideRule { namespace: Some("x".to_owned()), command: None }.matches(&rules));
    assert!(
        !OverrideRule { namespace: None, command: Some(OverrideRuleCommand::Dev) }.matches(&rules)
    );
}
