//! The layered application configuration and its resolution.
//!
//! A configuration is a base record plus an ordered list of override rules.
//! A rule applies when each part of its predicate is unset or equal to the
//! current context. A field resolves to the value of the last declared rule
//! that applies and supplies the field, and to the base value when no rule
//! does. Fields resolve independently of each other.

use vstd::prelude::*;

verus! {

/// The command kinds that an override rule can ask for.
#[derive(Debug, Clone, Copy, PartialEq, Eq, Structural)]
pub enum OverrideRuleCommand {
    Dev,
    Run,
    Deploy,
}

/// The base record together with the override rules, in declaration order.
#[derive(Debug)]
pub struct AppConfig {
    pub config: TopLevelAppConfig,
    pub overrides: Vec<OverrideConfig>,
}

/// The predicate of an override: each part is optional.
#[derive(Debug)]
pub struct OverrideRule {
    pub namespace: Option<String>,
    pub command: Option<OverrideRuleCommand>,
}

/// What override predicates are compared against.
#[derive(Debug, Clone)]
pub struct OverrideContext {
    pub namespace: String,
    pub command: OverrideRuleCommand,
}

/// One override: a predicate and the fields it replaces.
#[derive(Debug)]
pub struct OverrideConfig {
    pub rule: OverrideRule,
    pub config: TopLevelOverrideConfig,
}

/// The fields of the base configuration.
#[derive(Debug)]
pub struct TopLevelAppConfig {
    /// Name of the application.
    pub name: String,
    /// Relative path to the Dockerfile.
    pub dockerfile: String,
    /// Names of the environment variables of the application service.
    pub env: Vec<String>,
    /// Relative path to the env file.
    pub env_file: String,
    /// Variable that receives the namespace.
    pub expose_namespace_to_env: Option<String>,
    /// Paths inside the container that are kept on persistent volumes.
    pub volumes: Vec<String>,
    /// Paths to watch for changes.
    pub watch: Vec<String>,
    /// Ports that the application service listens on.
    pub ports: Vec<u16>,
    pub postgres: Option<PostgresConfig>,
    pub keydb: Option<KeydbConfig>,
    /// Routes that the reverse proxy serves for the application.
    pub proxy: Vec<ProxyConfig>,
}

/// The fields of an override: each may be left out.
#[derive(Debug)]
pub struct TopLevelOverrideConfig {
    pub name: Option<String>,
    pub dockerfile: Option<String>,
    pub env: Option<Vec<String>>,
    pub env_file: Option<String>,
    pub expose_namespace_to_env: Option<String>,
    pub volumes: Option<Vec<String>>,
    pub watch: Option<Vec<String>>,
    pub ports: Option<Vec<u16>>,
    pub postgres: Option<PostgresConfig>,
    pub keydb: Option<KeydbConfig>,
    pub proxy: Option<Vec<ProxyConfig>>,
}

#[derive(Debug)]
pub struct PostgresConfig {
    /// Name of the environment variable that receives the database URL.
    pub expose_url_to_env: Option<String>,
    /// Name of the database.
    pub database_name: Option<String>,
}

#[derive(Debug)]
pub struct KeydbConfig {
    /// Name of the environment variable that receives the database URL.
    pub expose_url_to_env: Option<String>,
}

/// One route of the reverse proxy.
#[derive(Debug)]
pub struct ProxyConfig {
    /// Domain name that is served.
    pub domain: String,
    /// Port inside the application container.
    pub port: u16,
}

pub struct PostgresConfigView {
    pub expose_url_to_env: Option<Seq<char>>,
    pub database_name: Option<Seq<char>>,
}

pub struct KeydbConfigView {
    pub expose_url_to_env: Option<Seq<char>>,
}

pub struct ProxyConfigView {
    pub domain: Seq<char>,
    pub port: u16,
}

impl View for PostgresConfig {
    type V = PostgresConfigView;

    open spec fn view(&self) -> PostgresConfigView {
        PostgresConfigView {
            expose_url_to_env: self.expose_url_to_env.deep_view(),
            database_name: self.database_name.deep_view(),
        }
    }
}

impl DeepView for PostgresConfig {
    type V = PostgresConfigView;

    open spec fn deep_view(&self) -> PostgresConfigView {
        self@
    }
}

impl View for KeydbConfig {
    type V = KeydbConfigView;

    open spec fn view(&self) -> KeydbConfigView {
        KeydbConfigView { expose_url_to_env: self.expose_url_to_env.deep_view() }
    }
}

impl DeepView for KeydbConfig {
    type V = KeydbConfigView;

    open spec fn deep_view(&self) -> KeydbConfigView {
        self@
    }
}

impl View for ProxyConfig {
    type V = ProxyConfigView;

    open spec fn view(&self) -> ProxyConfigView {
        ProxyConfigView { domain: self.domain@, port: self.port }
    }
}

impl DeepView for ProxyConfig {
    type V = ProxyConfigView;

    open spec fn deep_view(&self) -> ProxyConfigView {
        self@
    }
}

impl Default for PostgresConfig {
    fn default() -> (r: Self)
        ensures
            r.expose_url_to_env is None,
            r.database_name is None,
    {
        PostgresConfig { expose_url_to_env: None, database_name: None }
    }
}

impl Default for KeydbConfig {
    fn default() -> (r: Self)
        ensures
            r.expose_url_to_env is None,
    {
        KeydbConfig { expose_url_to_env: None }
    }
}

impl Default for OverrideRule {
    fn default() -> (r: Self)
        ensures
            r.namespace is None,
            r.command is None,
    {
        OverrideRule { namespace: None, command: None }
    }
}

impl TopLevelOverrideConfig {
    /// True of an override that supplies no field at all.
    pub open spec fn is_blank(&self) -> bool {
        &&& self.name is None
        &&& self.dockerfile is None
        &&& self.env is None
        &&& self.env_file is None
        &&& self.expose_namespace_to_env is None
        &&& self.volumes is None
        &&& self.watch is None
        &&& self.ports is None
        &&& self.postgres is None
        &&& self.keydb is None
        &&& self.proxy is None
    }
}

impl Default for TopLevelOverrideConfig {
    fn default() -> (r: Self)
        ensures
            r.is_blank(),
    {
        TopLevelOverrideConfig {
            name: None,
            dockerfile: None,
            env: None,
            env_file: None,
            expose_namespace_to_env: None,
            volumes: None,
            watch: None,
            ports: None,
            postgres: None,
            keydb: None,
            proxy: None,
        }
    }
}

impl Default for OverrideConfig {
    fn default() -> (r: Self)
        ensures
            r.rule.namespace is None,
            r.rule.command is None,
            r.config.is_blank(),
    {
        OverrideConfig { rule: OverrideRule::default(), config: TopLevelOverrideConfig::default() }
    }
}

impl TopLevelAppConfig {
    /// True of a base record whose texts and lists are empty and whose
    /// optional parts are absent.
    pub open spec fn is_blank(&self) -> bool {
        &&& self.name@.len() == 0
        &&& self.dockerfile@.len() == 0
        &&& self.env@.len() == 0
        &&& self.env_file@.len() == 0
        &&& self.expose_namespace_to_env is None
        &&& self.volumes@.len() == 0
        &&& self.watch@.len() == 0
        &&& self.ports@.len() == 0
        &&& self.postgres is None
        &&& self.keydb is None
        &&& self.proxy@.len() == 0
    }
}

impl Default for TopLevelAppConfig {
    fn default() -> (r: Self)
        ensures
            r.is_blank(),
    {
        TopLevelAppConfig {
            name: String::new(),
            dockerfile: String::new(),
            env: Vec::new(),
            env_file: String::new(),
            expose_namespace_to_env: None,
            volumes: Vec::new(),
            watch: Vec::new(),
            ports: Vec::new(),
            postgres: None,
            keydb: None,
            proxy: Vec::new(),
        }
    }
}

impl OverrideRule {
    /// A rule applies when its namespace is unset or equal to the context's,
    /// and its command is unset or equal to the context's.
    pub open spec fn applies(&self, context: &OverrideContext) -> bool {
        &&& (self.namespace matches Some(namespace) ==> namespace@ == context.namespace@)
        &&& (self.command matches Some(command) ==> command == context.command)
    }

    /// Decides whether the rule applies in the given context.
    pub fn matches(&self, context: &OverrideContext) -> (r: bool)
        ensures
            r == self.applies(context),
    {
        let namespace_ok = match &self.namespace {
            None => true,
            Some(namespace) => *namespace == context.namespace,
        };
        let command_ok = match &self.command {
            None => true,
            Some(command) => *command == context.command,
        };
        namespace_ok && command_ok
    }
}

/// The overrides whose rule applies, in declaration order.
pub open spec fn active(overrides: Seq<OverrideConfig>, context: &OverrideContext) -> Seq<
    OverrideConfig,
>
    decreases overrides.len(),
{
    if overrides.len() == 0 {
        Seq::empty()
    } else if overrides.last().rule.applies(context) {
        active(overrides.drop_last(), context).push(overrides.last())
    } else {
        active(overrides.drop_last(), context)
    }
}

/// The value that the last of `candidates` supplying one supplies.
pub open spec fn last_supplied<T>(
    candidates: Seq<OverrideConfig>,
    pick: spec_fn(TopLevelOverrideConfig) -> Option<T>,
) -> Option<T>
    decreases candidates.len(),
{
    if candidates.len() == 0 {
        None
    } else if pick(candidates.last().config) is Some {
        pick(candidates.last().config)
    } else {
        last_supplied(candidates.drop_last(), pick)
    }
}

/// The resolved value of a field: that of the last active override which
/// supplies it, else the base value.
pub open spec fn resolved<T>(
    overrides: Seq<OverrideConfig>,
    context: &OverrideContext,
    base: T,
    pick: spec_fn(TopLevelOverrideConfig) -> Option<T>,
) -> T {
    match last_supplied(active(overrides, context), pick) {
        Some(value) => value,
        None => base,
    }
}

/// The resolved value of an optional field: absent only when no active
/// override supplies it and the base leaves it out as well.
pub open spec fn resolved_optional<T>(
    overrides: Seq<OverrideConfig>,
    context: &OverrideContext,
    base: Option<T>,
    pick: spec_fn(TopLevelOverrideConfig) -> Option<T>,
) -> Option<T> {
    match last_supplied(active(overrides, context), pick) {
        Some(value) => Some(value),
        None => base,
    }
}

/// An active override is one of the declared overrides, and its rule applies.
pub proof fn lemma_active_members(overrides: Seq<OverrideConfig>, context: &OverrideContext)
    ensures
        forall|k: int|
            0 <= k < active(overrides, context).len() ==> {
                &&& (#[trigger] active(overrides, context)[k]).rule.applies(context)
                &&& overrides.contains(active(overrides, context)[k])
            },
        forall|i: int|
            0 <= i < overrides.len() && (#[trigger] overrides[i]).rule.applies(context)
                ==> active(overrides, context).contains(overrides[i]),
    decreases overrides.len(),
{
    if overrides.len() > 0 {
        let init = overrides.drop_last();
        lemma_active_members(init, context);
        let all = active(overrides, context);
        let before = active(init, context);
        assert forall|k: int| 0 <= k < all.len() implies {
            &&& (#[trigger] all[k]).rule.applies(context)
            &&& overrides.contains(all[k])
        } by {
            if k < before.len() {
                assert(all[k] == before[k]);
                assert(init.contains(before[k]));
                let i = choose|i: int| 0 <= i < init.len() && init[i] == before[k];
                assert(overrides[i] == all[k]);
            } else {
                assert(all[k] == overrides.last());
                assert(overrides[overrides.len() - 1] == all[k]);
            }
        }
        assert forall|i: int|
            0 <= i < overrides.len() && (#[trigger] overrides[i]).rule.applies(
                context,
            ) implies all.contains(overrides[i]) by {
            if i < init.len() {
                assert(init[i] == overrides[i]);
                assert(before.contains(init[i]));
                let k = choose|k: int| 0 <= k < before.len() && before[k] == init[i];
                assert(all[k] == overrides[i]);
            } else {
                assert(all[all.len() - 1] == overrides[i]);
            }
        }
    }
}

/// The winner is the candidate at `k` when it supplies a value and no later
/// candidate does.
pub proof fn lemma_last_supplied_at<T>(
    candidates: Seq<OverrideConfig>,
    pick: spec_fn(TopLevelOverrideConfig) -> Option<T>,
    k: int,
)
    requires
        0 <= k < candidates.len(),
        pick(candidates[k].config) is Some,
        forall|j: int| k < j < candidates.len() ==> pick((#[trigger] candidates[j]).config) is None,
    ensures
        last_supplied(candidates, pick) == pick(candidates[k].config),
    decreases candidates.len(),
{
    if k < candidates.len() - 1 {
        assert(pick(candidates[candidates.len() - 1].config) is None);
        let init = candidates.drop_last();
        assert(init[k] == candidates[k]);
        assert forall|j: int| k < j < init.len() implies pick((#[trigger] init[j]).config) is None by {
            assert(init[j] == candidates[j]);
        }
        lemma_last_supplied_at(init, pick, k);
    }
}

/// There is no winner when no candidate supplies a value.
pub proof fn lemma_last_supplied_none<T>(
    candidates: Seq<OverrideConfig>,
    pick: spec_fn(TopLevelOverrideConfig) -> Option<T>,
)
    requires
        forall|j: int| 0 <= j < candidates.len() ==> pick((#[trigger] candidates[j]).config) is None,
    ensures
        last_supplied(candidates, pick) is None,
    decreases candidates.len(),
{
    if candidates.len() > 0 {
        assert(pick(candidates[candidates.len() - 1].config) is None);
        let init = candidates.drop_last();
        assert forall|j: int| 0 <= j < init.len() implies pick((#[trigger] init[j]).config) is None by {
            assert(init[j] == candidates[j]);
        }
        lemma_last_supplied_none(init, pick);
    }
}

/// Both facts about the winner, for every position at once.
pub proof fn lemma_last_supplied<T>(
    candidates: Seq<OverrideConfig>,
    pick: spec_fn(TopLevelOverrideConfig) -> Option<T>,
)
    ensures
        forall|k: int|
            #![trigger candidates[k]]
            {
                &&& 0 <= k < candidates.len()
                &&& pick(candidates[k].config) is Some
                &&& forall|j: int|
                    k < j < candidates.len() ==> pick((#[trigger] candidates[j]).config) is None
            } ==> last_supplied(candidates, pick) == pick(candidates[k].config),
        (forall|j: int|
            0 <= j < candidates.len() ==> pick((#[trigger] candidates[j]).config) is None)
            ==> last_supplied(candidates, pick) is None,
{
    assert forall|k: int|
        #![trigger candidates[k]]
        {
            &&& 0 <= k < candidates.len()
            &&& pick(candidates[k].config) is Some
            &&& forall|j: int|
                k < j < candidates.len() ==> pick((#[trigger] candidates[j]).config) is None
        } implies last_supplied(candidates, pick) == pick(candidates[k].config) by {
        lemma_last_supplied_at(candidates, pick, k);
    }
    if forall|j: int|
        0 <= j < candidates.len() ==> pick((#[trigger] candidates[j]).config) is None {
        lemma_last_supplied_none(candidates, pick);
    }
}

/// Whatever is resolved from overrides comes from an override whose rule
/// applies and after which no applying override supplies the field; the base
/// value is resolved exactly when no applying override supplies the field.
pub proof fn lemma_resolved_is_last_match<T>(
    overrides: Seq<OverrideConfig>,
    context: &OverrideContext,
    pick: spec_fn(TopLevelOverrideConfig) -> Option<T>,
)
    ensures
        match last_supplied(active(overrides, context), pick) {
            Some(value) => exists|i: int|
                {
                    &&& 0 <= i < overrides.len()
                    &&& (#[trigger] overrides[i]).rule.applies(context)
                    &&& pick(overrides[i].config) == Some(value)
                    &&& forall|j: int|
                        i < j < overrides.len() && (#[trigger] overrides[j]).rule.applies(context)
                            ==> pick(overrides[j].config) is None
                },
            None => forall|j: int|
                0 <= j < overrides.len() && (#[trigger] overrides[j]).rule.applies(context)
                    ==> pick(overrides[j].config) is None,
        },
    decreases overrides.len(),
{
    if overrides.len() > 0 {
        let init = overrides.drop_last();
        let last = overrides.last();
        lemma_resolved_is_last_match(init, context, pick);
        assert forall|j: int| 0 <= j < init.len() implies init[j] == overrides[j] by {}
        if last.rule.applies(context) && pick(last.config) is Some {
            assert(active(overrides, context).last() == last);
            let i = overrides.len() - 1;
            assert(overrides[i].rule.applies(context));
        } else {
            if last.rule.applies(context) {
                assert(active(overrides, context).drop_last() == active(init, context));
            }
            assert(last_supplied(active(overrides, context), pick) == last_supplied(
                active(init, context),
                pick,
            ));
            match last_supplied(active(init, context), pick) {
                Some(value) => {
                    let i = choose|i: int|
                        {
                            &&& 0 <= i < init.len()
                            &&& (#[trigger] init[i]).rule.applies(context)
                            &&& pick(init[i].config) == Some(value)
                            &&& forall|j: int|
                                i < j < init.len() && (#[trigger] init[j]).rule.applies(context)
                                    ==> pick(init[j].config) is None
                        };
                    assert(overrides[i].rule.applies(context));
                    assert forall|j: int|
                        i < j < overrides.len() && (#[trigger] overrides[j]).rule.applies(
                            context,
                        ) implies pick(overrides[j].config) is None by {
                        if j < init.len() {
                            assert(init[j].rule.applies(context));
                        }
                    }
                },
                None => {
                    assert forall|j: int|
                        0 <= j < overrides.len() && (#[trigger] overrides[j]).rule.applies(
                            context,
                        ) implies pick(overrides[j].config) is None by {
                        if j < init.len() {
                            assert(init[j].rule.applies(context));
                        }
                    }
                },
            }
        }
    }
}


/// The values that a list of borrowed overrides refers to.
pub open spec fn referents(items: Seq<&OverrideConfig>) -> Seq<OverrideConfig> {
    items.map_values(|item: &OverrideConfig| *item)
}

/// Whether `result` is what resolving a field over `candidates` may yield,
/// given the two accessors: the value that the last supplying candidate
/// supplies, or the base value when no candidate supplies one.
pub open spec fn resolves_to<'a, R, Field, OverrideField>(
    base: &'a TopLevelAppConfig,
    candidates: Seq<OverrideConfig>,
    field: Field,
    override_field: OverrideField,
    result: R,
) -> bool where
    Field: Fn(&'a TopLevelAppConfig) -> R,
    OverrideField: Fn(&'a TopLevelOverrideConfig) -> Option<R>,
 {
    ||| exists|k: int|
        {
            &&& 0 <= k < candidates.len()
            &&& call_ensures(override_field, (&(#[trigger] candidates[k]).config,), Some(result))
            &&& forall|j: int|
                k < j < candidates.len() ==> call_ensures(
                    override_field,
                    (&(#[trigger] candidates[j]).config,),
                    None::<R>,
                )
        }
    ||| {
        &&& forall|j: int|
            0 <= j < candidates.len() ==> call_ensures(
                override_field,
                (&(#[trigger] candidates[j]).config,),
                None::<R>,
            )
        &&& call_ensures(field, (base,), result)
    }
}

/// Whether `result` is what resolving an optional field over `candidates` may
/// yield: the value that the last supplying candidate supplies, or whatever
/// the base holds when no candidate supplies one.
pub open spec fn resolves_optional_to<'a, R, Field, OverrideField>(
    base: &'a TopLevelAppConfig,
    candidates: Seq<OverrideConfig>,
    field: Field,
    override_field: OverrideField,
    result: Option<R>,
) -> bool where
    Field: Fn(&'a TopLevelAppConfig) -> Option<R>,
    OverrideField: Fn(&'a TopLevelOverrideConfig) -> Option<R>,
 {
    ||| exists|k: int|
        {
            &&& 0 <= k < candidates.len()
            &&& result is Some
            &&& call_ensures(override_field, (&(#[trigger] candidates[k]).config,), result)
            &&& forall|j: int|
                k < j < candidates.len() ==> call_ensures(
                    override_field,
                    (&(#[trigger] candidates[j]).config,),
                    None::<R>,
                )
        }
    ||| {
        &&& forall|j: int|
            0 <= j < candidates.len() ==> call_ensures(
                override_field,
                (&(#[trigger] candidates[j]).config,),
                None::<R>,
            )
        &&& call_ensures(field, (base,), result)
    }
}

impl AppConfig {
    /// The overrides whose rule applies in `context`, in declaration order.
    pub open spec fn spec_active_overrides(&self, context: &OverrideContext) -> Seq<
        OverrideConfig,
    > {
        active(self.overrides@, context)
    }

    pub open spec fn spec_name(&self, context: &OverrideContext) -> Seq<char> {
        resolved(
            self.overrides@,
            context,
            self.config.name@,
            |c: TopLevelOverrideConfig| c.name.deep_view(),
        )
    }

    pub open spec fn spec_dockerfile(&self, context: &OverrideContext) -> Seq<char> {
        resolved(
            self.overrides@,
            context,
            self.config.dockerfile@,
            |c: TopLevelOverrideConfig| c.dockerfile.deep_view(),
        )
    }

    pub open spec fn spec_env(&self, context: &OverrideContext) -> Seq<Seq<char>> {
        resolved(
            self.overrides@,
            context,
            self.config.env.deep_view(),
            |c: TopLevelOverrideConfig| c.env.deep_view(),
        )
    }

    pub open spec fn spec_env_file(&self, context: &OverrideContext) -> Seq<char> {
        resolved(
            self.overrides@,
            context,
            self.config.env_file@,
            |c: TopLevelOverrideConfig| c.env_file.deep_view(),
        )
    }

    pub open spec fn spec_expose_namespace_to_env(&self, context: &OverrideContext) -> Option<
        Seq<char>,
    > {
        resolved_optional(
            self.overrides@,
            context,
            self.config.expose_namespace_to_env.deep_view(),
            |c: TopLevelOverrideConfig| c.expose_namespace_to_env.deep_view(),
        )
    }

    pub open spec fn spec_volumes(&self, context: &OverrideContext) -> Seq<Seq<char>> {
        resolved(
            self.overrides@,
            context,
            self.config.volumes.deep_view(),
            |c: TopLevelOverrideConfig| c.volumes.deep_view(),
        )
    }

    pub open spec fn spec_watch(&self, context: &OverrideContext) -> Seq<Seq<char>> {
        resolved(
            self.overrides@,
            context,
            self.config.watch.deep_view(),
            |c: TopLevelOverrideConfig| c.watch.deep_view(),
        )
    }

    pub open spec fn spec_ports(&self, context: &OverrideContext) -> Seq<u16> {
        resolved(
            self.overrides@,
            context,
            self.config.ports@,
            |c: TopLevelOverrideConfig|
                match c.ports {
                    Some(ports) => Some(ports@),
                    None => None,
                },
        )
    }

    pub open spec fn spec_postgres(&self, context: &OverrideContext) -> Option<
        PostgresConfigView,
    > {
        resolved_optional(
            self.overrides@,
            context,
            self.config.postgres.deep_view(),
            |c: TopLevelOverrideConfig| c.postgres.deep_view(),
        )
    }

    pub open spec fn spec_keydb(&self, context: &OverrideContext) -> Option<KeydbConfigView> {
        resolved_optional(
            self.overrides@,
            context,
            self.config.keydb.deep_view(),
            |c: TopLevelOverrideConfig| c.keydb.deep_view(),
        )
    }

    pub open spec fn spec_proxy(&self, context: &OverrideContext) -> Seq<ProxyConfigView> {
        resolved(
            self.overrides@,
            context,
            self.config.proxy.deep_view(),
            |c: TopLevelOverrideConfig| c.proxy.deep_view(),
        )
    }

    /// The name of the application.
    pub fn name(&self, context: &OverrideContext) -> (r: &str)
        ensures
            r@ == self.spec_name(context),
    {
        let r: &String = self.resolve_field(
            context,
            |c: &TopLevelAppConfig| -> (x: &String)
                ensures x@ == c.name@
                { &c.name },
            |c: &TopLevelOverrideConfig| -> (x: Option<&String>)
                ensures x.deep_view() == c.name.deep_view()
                { c.name.as_ref() },
        );
        proof {
            lemma_last_supplied(
                self.spec_active_overrides(context),
                |c: TopLevelOverrideConfig| c.name.deep_view(),
            );
        }
        r.as_str()
    }

    /// Relative path to the Dockerfile.
    pub fn dockerfile(&self, context: &OverrideContext) -> (r: &str)
        ensures
            r@ == self.spec_dockerfile(context),
    {
        let r: &String = self.resolve_field(
            context,
            |c: &TopLevelAppConfig| -> (x: &String)
                ensures x@ == c.dockerfile@
                { &c.dockerfile },
            |c: &TopLevelOverrideConfig| -> (x: Option<&String>)
                ensures x.deep_view() == c.dockerfile.deep_view()
                { c.dockerfile.as_ref() },
        );
        proof {
            lemma_last_supplied(
                self.spec_active_overrides(context),
                |c: TopLevelOverrideConfig| c.dockerfile.deep_view(),
            );
        }
        r.as_str()
    }

    /// Names of the environment variables of the application service.
    pub fn env(&self, context: &OverrideContext) -> (r: &[String])
        ensures
            r.deep_view() == self.spec_env(context),
    {
        let r: &Vec<String> = self.resolve_field(
            context,
            |c: &TopLevelAppConfig| -> (x: &Vec<String>)
                ensures x.deep_view() == c.env.deep_view()
                { &c.env },
            |c: &TopLevelOverrideConfig| -> (x: Option<&Vec<String>>)
                ensures x.deep_view() == c.env.deep_view()
                { c.env.as_ref() },
        );
        proof {
            lemma_last_supplied(
                self.spec_active_overrides(context),
                |c: TopLevelOverrideConfig| c.env.deep_view(),
            );
        }
        let slice = r.as_slice();
        assert(slice.deep_view() =~= r.deep_view());
        slice
    }

    /// Relative path to the env file.
    pub fn env_file(&self, context: &OverrideContext) -> (r: &str)
        ensures
            r@ == self.spec_env_file(context),
    {
        let r: &String = self.resolve_field(
            context,
            |c: &TopLevelAppConfig| -> (x: &String)
                ensures x@ == c.env_file@
                { &c.env_file },
            |c: &TopLevelOverrideConfig| -> (x: Option<&String>)
                ensures x.deep_view() == c.env_file.deep_view()
                { c.env_file.as_ref() },
        );
        proof {
            lemma_last_supplied(
                self.spec_active_overrides(context),
                |c: TopLevelOverrideConfig| c.env_file.deep_view(),
            );
        }
        r.as_str()
    }

    /// The variable that receives the namespace, if one is configured.
    pub fn expose_namespace_to_env(&self, context: &OverrideContext) -> (r: Option<&str>)
        ensures
            r.deep_view() == self.spec_expose_namespace_to_env(context),
    {
        let r: Option<&String> = self.resolve_optional_field(
            context,
            |c: &TopLevelAppConfig| -> (x: Option<&String>)
                ensures x.deep_view() == c.expose_namespace_to_env.deep_view()
                { c.expose_namespace_to_env.as_ref() },
            |c: &TopLevelOverrideConfig| -> (x: Option<&String>)
                ensures x.deep_view() == c.expose_namespace_to_env.deep_view()
                { c.expose_namespace_to_env.as_ref() },
        );
        proof {
            lemma_last_supplied(
                self.spec_active_overrides(context),
                |c: TopLevelOverrideConfig| c.expose_namespace_to_env.deep_view(),
            );
        }
        match r {
            Some(name) => Some(name.as_str()),
            None => None,
        }
    }

    /// Paths inside the container that are kept on persistent volumes.
    pub fn volumes(&self, context: &OverrideContext) -> (r: &[String])
        ensures
            r.deep_view() == self.spec_volumes(context),
    {
        let r: &Vec<String> = self.resolve_field(
            context,
            |c: &TopLevelAppConfig| -> (x: &Vec<String>)
                ensures x.deep_view() == c.volumes.deep_view()
                { &c.volumes },
            |c: &TopLevelOverrideConfig| -> (x: Option<&Vec<String>>)
                ensures x.deep_view() == c.volumes.deep_view()
                { c.volumes.as_ref() },
        );
        proof {
            lemma_last_supplied(
                self.spec_active_overrides(context),
                |c: TopLevelOverrideConfig| c.volumes.deep_view(),
            );
        }
        let slice = r.as_slice();
        assert(slice.deep_view() =~= r.deep_view());
        slice
    }

    /// Paths to watch for changes.
    pub fn watch(&self, context: &OverrideContext) -> (r: &[String])
        ensures
            r.deep_view() == self.spec_watch(context),
    {
        let r: &Vec<String> = self.resolve_field(
            context,
            |c: &TopLevelAppConfig| -> (x: &Vec<String>)
                ensures x.deep_view() == c.watch.deep_view()
                { &c.watch },
            |c: &TopLevelOverrideConfig| -> (x: Option<&Vec<String>>)
                ensures x.deep_view() == c.watch.deep_view()
                { c.watch.as_ref() },
        );
        proof {
            lemma_last_supplied(
                self.spec_active_overrides(context),
                |c: TopLevelOverrideConfig| c.watch.deep_view(),
            );
        }
        let slice = r.as_slice();
        assert(slice.deep_view() =~= r.deep_view());
        slice
    }

    /// Ports that the application service listens on.
    pub fn ports(&self, context: &OverrideContext) -> (r: &[u16])
        ensures
            r@ == self.spec_ports(context),
    {
        let r: &Vec<u16> = self.resolve_field(
            context,
            |c: &TopLevelAppConfig| -> (x: &Vec<u16>)
                ensures x@ == c.ports@
                { &c.ports },
            |c: &TopLevelOverrideConfig| -> (x: Option<&Vec<u16>>)
                ensures
                    match x {
                        Some(ports) => c.ports is Some && ports@ == c.ports->0@,
                        None => c.ports is None,
                    }
                { c.ports.as_ref() },
        );
        proof {
            lemma_last_supplied(
                self.spec_active_overrides(context),
                |c: TopLevelOverrideConfig|
                    match c.ports {
                        Some(ports) => Some(ports@),
                        None => None,
                    },
            );
        }
        r.as_slice()
    }

    /// The Postgres dependency, if one is configured.
    pub fn postgres(&self, context: &OverrideContext) -> (r: Option<&PostgresConfig>)
        ensures
            r.deep_view() == self.spec_postgres(context),
    {
        let r: Option<&PostgresConfig> = self.resolve_optional_field(
            context,
            |c: &TopLevelAppConfig| -> (x: Option<&PostgresConfig>)
                ensures x.deep_view() == c.postgres.deep_view()
                { c.postgres.as_ref() },
            |c: &TopLevelOverrideConfig| -> (x: Option<&PostgresConfig>)
                ensures x.deep_view() == c.postgres.deep_view()
                { c.postgres.as_ref() },
        );
        proof {
            lemma_last_supplied(
                self.spec_active_overrides(context),
                |c: TopLevelOverrideConfig| c.postgres.deep_view(),
            );
        }
        r
    }

    /// The Keydb dependency, if one is configured.
    pub fn keydb(&self, context: &OverrideContext) -> (r: Option<&KeydbConfig>)
        ensures
            r.deep_view() == self.spec_keydb(context),
    {
        let r: Option<&KeydbConfig> = self.resolve_optional_field(
            context,
            |c: &TopLevelAppConfig| -> (x: Option<&KeydbConfig>)
                ensures x.deep_view() == c.keydb.deep_view()
                { c.keydb.as_ref() },
            |c: &TopLevelOverrideConfig| -> (x: Option<&KeydbConfig>)
                ensures x.deep_view() == c.keydb.deep_view()
                { c.keydb.as_ref() },
        );
        proof {
            lemma_last_supplied(
                self.spec_active_overrides(context),
                |c: TopLevelOverrideConfig| c.keydb.deep_view(),
            );
        }
        r
    }

    /// Routes that the reverse proxy serves for the application.
    pub fn proxy(&self, context: &OverrideContext) -> (r: &[ProxyConfig])
        ensures
            r.deep_view() == self.spec_proxy(context),
    {
        let r: &Vec<ProxyConfig> = self.resolve_field(
            context,
            |c: &TopLevelAppConfig| -> (x: &Vec<ProxyConfig>)
                ensures x.deep_view() == c.proxy.deep_view()
                { &c.proxy },
            |c: &TopLevelOverrideConfig| -> (x: Option<&Vec<ProxyConfig>>)
                ensures x.deep_view() == c.proxy.deep_view()
                { c.proxy.as_ref() },
        );
        proof {
            lemma_last_supplied(
                self.spec_active_overrides(context),
                |c: TopLevelOverrideConfig| c.proxy.deep_view(),
            );
        }
        let slice = r.as_slice();
        assert(slice.deep_view() =~= r.deep_view());
        slice
    }

    /// The overrides whose rule applies in `context`, in declaration order.
    pub fn active_overrides<'a>(&'a self, context: &OverrideContext) -> (found: Vec<
        &'a OverrideConfig,
    >)
        ensures
            referents(found@) == self.spec_active_overrides(context),
    {
        let mut found: Vec<&'a OverrideConfig> = Vec::new();
        let mut i: usize = 0;
        assert(self.overrides@.take(0) =~= Seq::empty());
        assert(referents(found@) =~= Seq::empty());
        while i < self.overrides.len()
            invariant
                i <= self.overrides@.len(),
                referents(found@) == active(self.overrides@.take(i as int), context),
            decreases self.overrides@.len() - i,
        {
            let candidate: &'a OverrideConfig = &self.overrides[i];
            proof {
                let upto = self.overrides@.take(i + 1);
                assert(upto.drop_last() == self.overrides@.take(i as int));
                assert(upto.last() == *candidate);
            }
            let ghost before = referents(found@);
            if candidate.rule.matches(context) {
                found.push(candidate);
                assert(referents(found@) =~= before.push(*candidate));
            }
            i = i + 1;
        }
        assert(self.overrides@.take(i as int) == self.overrides@);
        found
    }

    /// Resolves one field: the value of the last active override for which
    /// `override_field` yields one, else what `field` yields for the base.
    pub fn resolve_field<'a, ReturnType, Field, OverrideField>(
        &'a self,
        context: &OverrideContext,
        field: Field,
        override_field: OverrideField,
    ) -> (result: ReturnType) where
        Field: Fn(&'a TopLevelAppConfig) -> ReturnType,
        OverrideField: Fn(&'a TopLevelOverrideConfig) -> Option<ReturnType>,
        ReturnType: 'a,

        requires
            call_requires(field, (&self.config,)),
            forall|i: int|
                0 <= i < self.overrides@.len() && (#[trigger] self.overrides@[i]).rule.applies(
                    context,
                ) ==> call_requires(override_field, (&self.overrides@[i].config,)),
        ensures
            resolves_to(
                &self.config,
                self.spec_active_overrides(context),
                field,
                override_field,
                result,
            ),
    {
        let candidates = self.active_overrides(context);
        let ghost values = referents(candidates@);
        proof {
            lemma_active_members(self.overrides@, context);
            assert forall|j: int| 0 <= j < values.len() implies call_requires(
                override_field,
                (&(#[trigger] values[j]).config,),
            ) by {
                assert(self.overrides@.contains(values[j]));
                let i = choose|i: int| 0 <= i < self.overrides@.len() && self.overrides@[i] == values[j];
                assert(self.overrides@[i].rule.applies(context));
            }
        }
        let mut k: usize = candidates.len();
        while k > 0
            invariant
                k <= candidates@.len(),
                values == referents(candidates@),
                values == self.spec_active_overrides(context),
                forall|j: int|
                    0 <= j < values.len() ==> call_requires(
                        override_field,
                        (&(#[trigger] values[j]).config,),
                    ),
                forall|j: int|
                    k <= j < values.len() ==> call_ensures(
                        override_field,
                        (&(#[trigger] values[j]).config,),
                        None::<ReturnType>,
                    ),
            decreases k,
        {
            k = k - 1;
            let candidate: &'a OverrideConfig = candidates[k];
            assert(values[k as int] == *candidate);
            match override_field(&candidate.config) {
                Some(value) => {
                    return value;
                },
                None => {},
            }
        }
        field(&self.config)
    }

    /// Resolves one optional field: as `resolve_field`, but the base itself
    /// may leave the field out.
    pub fn resolve_optional_field<'a, ReturnType, Field, OverrideField>(
        &'a self,
        context: &OverrideContext,
        field: Field,
        override_field: OverrideField,
    ) -> (result: Option<ReturnType>) where
        Field: Fn(&'a TopLevelAppConfig) -> Option<ReturnType>,
        OverrideField: Fn(&'a TopLevelOverrideConfig) -> Option<ReturnType>,
        ReturnType: 'a,

        requires
            call_requires(field, (&self.config,)),
            forall|i: int|
                0 <= i < self.overrides@.len() && (#[trigger] self.overrides@[i]).rule.applies(
                    context,
                ) ==> call_requires(override_field, (&self.overrides@[i].config,)),
        ensures
            resolves_optional_to(
                &self.config,
                self.spec_active_overrides(context),
                field,
                override_field,
                result,
            ),
    {
        let candidates = self.active_overrides(context);
        let ghost values = referents(candidates@);
        proof {
            lemma_active_members(self.overrides@, context);
            assert forall|j: int| 0 <= j < values.len() implies call_requires(
                override_field,
                (&(#[trigger] values[j]).config,),
            ) by {
                assert(self.overrides@.contains(values[j]));
                let i = choose|i: int| 0 <= i < self.overrides@.len() && self.overrides@[i] == values[j];
                assert(self.overrides@[i].rule.applies(context));
            }
        }
        let mut k: usize = candidates.len();
        while k > 0
            invariant
                k <= candidates@.len(),
                values == referents(candidates@),
                values == self.spec_active_overrides(context),
                forall|j: int|
                    0 <= j < values.len() ==> call_requires(
                        override_field,
                        (&(#[trigger] values[j]).config,),
                    ),
                forall|j: int|
                    k <= j < values.len() ==> call_ensures(
                        override_field,
                        (&(#[trigger] values[j]).config,),
                        None::<ReturnType>,
                    ),
            decreases k,
        {
            k = k - 1;
            let candidate: &'a OverrideConfig = candidates[k];
            assert(values[k as int] == *candidate);
            match override_field(&candidate.config) {
                Some(value) => {
                    return Some(value);
                },
                None => {},
            }
        }
        field(&self.config)
    }
}

impl PostgresConfig {
    pub fn expose_url_to_env(&self) -> (r: Option<&str>)
        ensures
            r.deep_view() == self@.expose_url_to_env,
    {
        match &self.expose_url_to_env {
            Some(name) => Some(name.as_str()),
            None => None,
        }
    }

    pub fn database_name(&self) -> (r: Option<&str>)
        ensures
            r.deep_view() == self@.database_name,
    {
        match &self.database_name {
            Some(name) => Some(name.as_str()),
            None => None,
        }
    }
}

impl KeydbConfig {
    pub fn expose_url_to_env(&self) -> (r: Option<&str>)
        ensures
            r.deep_view() == self@.expose_url_to_env,
    {
        match &self.expose_url_to_env {
            Some(name) => Some(name.as_str()),
            None => None,
        }
    }
}

} // verus!
