//! Deploying: the convergence of the dependencies, the replacement of the
//! application, the env file, and the watch loop.

use crate::context::Context;
use crate::docker::{
    Containers, ContainerInfo, ContainerInfoView, EngineAction, EngineActionView, ImageInfo,
    containers_after, inspected,
};
use crate::error::Error;
use crate::services::{ContainerConfig, Services};
use crate::utils::string::text;
use vstd::prelude::*;

verus! {

/// How long the file watcher gathers events into one batch, in milliseconds.
pub const WATCH_POLL_INTERVAL: u64 = 1000;

/// The least time between two redeploys, in milliseconds.
pub const WATCH_COOLDOWN: u64 = 3000;

/// A dependency container is stale, and is created anew, when there is no
/// container, when the image's id is not known, when the container's image
/// is not known, or when the two differ. Only a container that is bound to
/// the very image is reused.
pub open spec fn stale(image_id: Option<Seq<char>>, existing: Option<ContainerInfoView>) -> bool {
    !(image_id is Some && existing is Some && existing->0.image == image_id)
}

/// Decides whether the container of a dependency is created anew.
pub fn should_recreate_dependency_container(
    image_info: &ImageInfo,
    container_info: Option<&ContainerInfo>,
) -> (recreate: bool)
    ensures
        recreate == stale(image_info.id.deep_view(), container_info.deep_view()),
{
    match &image_info.id {
        None => true,
        Some(image_id) => match container_info {
            None => true,
            Some(info) => match &info.image {
                None => true,
                Some(container_image) => !(*container_image == *image_id),
            },
        },
    }
}

/// The calls that converge one dependency: a stale container is removed by
/// force where there is one and created anew; after that, and in any case,
/// the container is started.
pub open spec fn dependency_actions(
    name: Seq<char>,
    image_id: Option<Seq<char>>,
    existing: Option<ContainerInfoView>,
) -> Seq<EngineActionView> {
    let start = seq![EngineActionView::StartContainer { name }];
    if !stale(image_id, existing) {
        start
    } else if existing is Some {
        seq![
            EngineActionView::RemoveContainer { name, force: true },
            EngineActionView::CreateContainer { name },
        ] + start
    } else {
        seq![EngineActionView::CreateContainer { name }] + start
    }
}

/// The calls that converge one dependency, given what the inspections of
/// its image and of its container yielded.
pub fn deploy_dependencies(
    config: &ContainerConfig,
    image_info: &ImageInfo,
    existing_container: Option<&ContainerInfo>,
) -> (actions: Vec<EngineAction>)
    ensures
        actions.deep_view() == dependency_actions(
            config@.container_name,
            image_info.id.deep_view(),
            existing_container.deep_view(),
        ),
{
    let container_name = config.container_name();
    let mut actions: Vec<EngineAction> = Vec::new();
    if should_recreate_dependency_container(image_info, existing_container) {
        if existing_container.is_some() {
            actions.push(EngineAction::RemoveContainer { name: text(container_name), force: true });
        }
        actions.push(EngineAction::CreateContainer { name: text(container_name) });
    }
    actions.push(EngineAction::StartContainer { name: text(container_name) });
    assert(actions.deep_view() =~= dependency_actions(
        config@.container_name,
        image_info.id.deep_view(),
        existing_container.deep_view(),
    ));
    actions
}

/// The calls that replace the application's container once its image is
/// built: an existing container is stopped and removed, whatever image it
/// is bound to; then the container is created and started.
pub open spec fn app_actions(name: Seq<char>, existing: Option<ContainerInfoView>) -> Seq<
    EngineActionView,
> {
    let create = seq![
        EngineActionView::CreateContainer { name },
        EngineActionView::StartContainer { name },
    ];
    if existing is Some {
        seq![
            EngineActionView::StopContainer { name },
            EngineActionView::RemoveContainer { name, force: false },
        ] + create
    } else {
        create
    }
}

/// The calls that replace the application's container, given what its
/// inspection yielded after the image was built.
pub fn deploy_app_service(container_name: &str, existing_container: Option<&ContainerInfo>) -> (actions:
    Vec<EngineAction>)
    ensures
        actions.deep_view() == app_actions(container_name@, existing_container.deep_view()),
{
    let mut actions: Vec<EngineAction> = Vec::new();
    if existing_container.is_some() {
        actions.push(EngineAction::StopContainer { name: text(container_name) });
        actions.push(EngineAction::RemoveContainer { name: text(container_name), force: false });
    }
    actions.push(EngineAction::CreateContainer { name: text(container_name) });
    actions.push(EngineAction::StartContainer { name: text(container_name) });
    assert(actions.deep_view() =~= app_actions(container_name@, existing_container.deep_view()));
    actions
}

/// Converging a dependency leaves its container present and running. The
/// container is bound to the image's id where that id is known; a container
/// that was bound to it already is the same container, only started.
pub proof fn lemma_dependency_converges(
    containers: Containers,
    name: Seq<char>,
    image_id: Option<Seq<char>>,
)
    ensures
        ({
            let existing = inspected(containers, name);
            let actions = dependency_actions(name, image_id, existing);
            let after = containers_after(containers, actions, image_id);
            &&& after.contains_key(name)
            &&& after[name].running == Some(true)
            &&& image_id is Some ==> after[name].image == image_id
            &&& !stale(image_id, existing) ==> actions == seq![
                EngineActionView::StartContainer { name },
            ]
            &&& forall|other: Seq<char>|
                other != name ==> inspected(after, other) == inspected(containers, other)
        }),
{
    let existing = inspected(containers, name);
    let actions = dependency_actions(name, image_id, existing);
    reveal_with_fuel(containers_after, 4);
    let start = seq![EngineActionView::StartContainer { name }];
    if !stale(image_id, existing) {
        assert(actions.drop_last() =~= Seq::empty());
    } else if existing is Some {
        let two = seq![
            EngineActionView::RemoveContainer { name, force: true },
            EngineActionView::CreateContainer { name },
        ];
        assert(actions.drop_last() =~= two);
        assert(two.drop_last() =~= seq![EngineActionView::RemoveContainer { name, force: true }]);
        assert(two.drop_last().drop_last() =~= Seq::empty());
    } else {
        assert(actions.drop_last() =~= seq![EngineActionView::CreateContainer { name }]);
        assert(actions.drop_last().drop_last() =~= Seq::empty());
    }
}

/// Converging twice is converging once: with the image's id known and
/// unchanged, the second round only starts the container again.
pub proof fn lemma_dependency_redeploy_reuses(
    containers: Containers,
    name: Seq<char>,
    image_id: Seq<char>,
)
    ensures
        ({
            let first = dependency_actions(name, Some(image_id), inspected(containers, name));
            let between = containers_after(containers, first, Some(image_id));
            dependency_actions(name, Some(image_id), inspected(between, name)) == seq![
                EngineActionView::StartContainer { name },
            ]
        }),
{
    lemma_dependency_converges(containers, name, Some(image_id));
}

/// The containers after the dependencies of the given names were converged
/// one after the other, each against the id of its image.
pub open spec fn containers_after_dependencies(
    containers: Containers,
    names: Seq<Seq<char>>,
    image_ids: Seq<Option<Seq<char>>>,
) -> Containers
    decreases names.len(),
{
    if names.len() == 0 {
        containers
    } else {
        let before = containers_after_dependencies(
            containers,
            names.drop_last(),
            image_ids.drop_last(),
        );
        containers_after(
            before,
            dependency_actions(names.last(), image_ids.last(), inspected(before, names.last())),
            image_ids.last(),
        )
    }
}

/// Converging the dependencies in declaration order leaves every one of
/// them present and running, and bound to its image where the image's id is
/// known: a later dependency never undoes an earlier one.
pub proof fn lemma_dependencies_converge(
    containers: Containers,
    names: Seq<Seq<char>>,
    image_ids: Seq<Option<Seq<char>>>,
)
    requires
        names.len() == image_ids.len(),
        names.no_duplicates(),
    ensures
        ({
            let after = containers_after_dependencies(containers, names, image_ids);
            &&& forall|i: int|
                0 <= i < names.len() ==> {
                    &&& after.contains_key(#[trigger] names[i])
                    &&& after[names[i]].running == Some(true)
                    &&& image_ids[i] is Some ==> after[names[i]].image == image_ids[i]
                }
            &&& forall|other: Seq<char>|
                !names.contains(other) ==> inspected(after, other) == inspected(containers, other)
        }),
    decreases names.len(),
{
    if names.len() > 0 {
        let init = names.drop_last();
        let init_ids = image_ids.drop_last();
        let last = names.last();
        lemma_dependencies_converge(containers, init, init_ids);
        let before = containers_after_dependencies(containers, init, init_ids);
        lemma_dependency_converges(before, last, image_ids.last());
        let after = containers_after_dependencies(containers, names, image_ids);
        assert forall|i: int| 0 <= i < names.len() implies {
            &&& after.contains_key(#[trigger] names[i])
            &&& after[names[i]].running == Some(true)
            &&& image_ids[i] is Some ==> after[names[i]].image == image_ids[i]
        } by {
            if i < init.len() {
                assert(init[i] == names[i]);
                assert(init_ids[i] == image_ids[i]);
                assert(names[i] != names[names.len() - 1]);
                assert(inspected(after, names[i]) == inspected(before, names[i]));
            }
        }
        assert forall|other: Seq<char>| !names.contains(other) implies inspected(after, other)
            == inspected(containers, other) by {
            assert(other != names[names.len() - 1]);
            if init.contains(other) {
                let k = choose|k: int| 0 <= k < init.len() && init[k] == other;
                assert(names[k] == other);
            }
        }
    }
}

/// Deploying the application leaves its container present, running and
/// bound to the image that was just built, whatever was there before.
pub proof fn lemma_app_is_replaced(
    containers: Containers,
    name: Seq<char>,
    image_id: Option<Seq<char>>,
)
    ensures
        ({
            let actions = app_actions(name, inspected(containers, name));
            let after = containers_after(containers, actions, image_id);
            &&& after.contains_key(name)
            &&& after[name].running == Some(true)
            &&& after[name].image == image_id
            &&& forall|other: Seq<char>|
                other != name ==> inspected(after, other) == inspected(containers, other)
        }),
{
    let existing = inspected(containers, name);
    let actions = app_actions(name, existing);
    reveal_with_fuel(containers_after, 5);
    let create = seq![
        EngineActionView::CreateContainer { name },
        EngineActionView::StartContainer { name },
    ];
    if existing is Some {
        let three = seq![
            EngineActionView::StopContainer { name },
            EngineActionView::RemoveContainer { name, force: false },
            EngineActionView::CreateContainer { name },
        ];
        assert(actions.drop_last() =~= three);
        assert(three.drop_last() =~= seq![
            EngineActionView::StopContainer { name },
            EngineActionView::RemoveContainer { name, force: false },
        ]);
        assert(three.drop_last().drop_last() =~= seq![EngineActionView::StopContainer { name }]);
        assert(three.drop_last().drop_last().drop_last() =~= Seq::empty());
    } else {
        assert(actions.drop_last() =~= seq![EngineActionView::CreateContainer { name }]);
        assert(actions.drop_last().drop_last() =~= Seq::empty());
    }
}

/// One stage of the deploy command.
#[derive(Debug, Clone, Copy, PartialEq, Eq, Structural)]
pub enum DeployStep {
    /// Load the env file into the process environment, if there is one.
    LoadEnvFile,
    /// Write the env file anew.
    GenerateEnvFile,
    /// Create the shared network.
    CreateNetwork,
    /// Converge the containers of the dependencies, in declaration order.
    DeployDependencies,
    /// Build the application's image and replace its container.
    DeployAppService,
    /// Publish the project's routes on the shared proxy.
    PublishRoutes,
    /// Tell the operator where the services are reached.
    PrintConnectionInfo,
}

/// The stages of a deploy, in order; those that the mode or the catalog
/// rules out are left out.
pub open spec fn deploy_steps(
    generate_env_file: bool,
    create_network: bool,
    has_app: bool,
    print_connection_info: bool,
) -> Seq<DeployStep> {
    seq![DeployStep::LoadEnvFile] + (if generate_env_file {
        seq![DeployStep::GenerateEnvFile]
    } else {
        Seq::empty()
    }) + (if create_network {
        seq![DeployStep::CreateNetwork]
    } else {
        Seq::empty()
    }) + seq![DeployStep::DeployDependencies] + (if has_app {
        seq![DeployStep::DeployAppService]
    } else {
        Seq::empty()
    }) + seq![DeployStep::PublishRoutes] + (if print_connection_info {
        seq![DeployStep::PrintConnectionInfo]
    } else {
        Seq::empty()
    })
}

/// The stages of the deploy command, in order. The first failure ends the
/// command; what was converged until then stays as it is.
pub fn deploy(context: &Context, services: &Services) -> (steps: Vec<DeployStep>)
    ensures
        steps@ == deploy_steps(
            context.spec_should_expose_to_host(),
            context.spec_should_expose_to_host(),
            services@.app is Some,
            context.spec_should_expose_to_host(),
        ),
{
    let mut steps: Vec<DeployStep> = Vec::new();
    steps.push(DeployStep::LoadEnvFile);
    if context.should_generate_env_file() {
        steps.push(DeployStep::GenerateEnvFile);
    }
    if context.should_create_network() {
        steps.push(DeployStep::CreateNetwork);
    }
    steps.push(DeployStep::DeployDependencies);
    if services.app().is_some() {
        steps.push(DeployStep::DeployAppService);
    }
    steps.push(DeployStep::PublishRoutes);
    if context.should_print_connection_info() {
        steps.push(DeployStep::PrintConnectionInfo);
    }
    assert(steps@ =~= deploy_steps(
        context.spec_should_expose_to_host(),
        context.spec_should_expose_to_host(),
        services@.app is Some,
        context.spec_should_expose_to_host(),
    ));
    steps
}

/// The kind of a file system event, as far as the watch loop tells them
/// apart.
#[derive(Debug, Clone, Copy, PartialEq, Eq, Structural)]
pub enum ChangeKind {
    /// The contents, the name or the metadata of a file changed.
    Modify,
    /// Anything else: an access, a creation, a removal.
    Other,
}

/// What the watch loop does next.
#[derive(Debug, Clone, Copy, PartialEq, Eq, Structural)]
pub enum WatchAction {
    /// Cancel the log stream, stop every service and leave the loop.
    Stop,
    /// Cancel the log stream, deploy the application alone, stream its logs
    /// again and take the time of the redeploy.
    Redeploy,
    /// Nothing: look again.
    Wait,
}

/// What one turn of the watch loop comes to. An abort request wins over
/// everything. A batch leads to a redeploy when the cooldown has passed
/// since the last deploy and the batch holds a modification; an empty
/// batch, a batch without a modification and a batch within the cooldown
/// lead to nothing.
pub open spec fn watch_decision(
    last_deploy: u64,
    abort_requested: bool,
    batch: Option<Seq<ChangeKind>>,
    now: u64,
) -> WatchAction {
    if abort_requested {
        WatchAction::Stop
    } else if batch is Some && now - last_deploy >= WATCH_COOLDOWN && batch->0.contains(
        ChangeKind::Modify,
    ) {
        WatchAction::Redeploy
    } else {
        WatchAction::Wait
    }
}

/// Whether a batch holds a modification.
pub fn has_modification(events: &[ChangeKind]) -> (found: bool)
    ensures
        found == events@.contains(ChangeKind::Modify),
{
    let mut i: usize = 0;
    while i < events.len()
        invariant
            i <= events@.len(),
            forall|k: int| 0 <= k < i ==> events@[k] != ChangeKind::Modify,
        decreases events@.len() - i,
    {
        if events[i] == ChangeKind::Modify {
            return true;
        }
        i = i + 1;
    }
    false
}

/// The state of the watch loop: when the application was last deployed, in
/// milliseconds on a clock that never runs backwards.
#[derive(Debug, Clone, Copy)]
pub struct WatchState {
    last_deploy: u64,
}

impl WatchState {
    pub closed spec fn spec_last_deploy(&self) -> u64 {
        self.last_deploy
    }

    /// The state right after the first full deploy.
    pub fn new(now: u64) -> (state: Self)
        ensures
            state.spec_last_deploy() == now,
    {
        WatchState { last_deploy: now }
    }

    pub fn last_deploy(&self) -> (r: u64)
        ensures
            r == self.spec_last_deploy(),
    {
        self.last_deploy
    }

    /// The state once a redeploy is through: the cooldown starts anew.
    pub fn redeployed(&self, now: u64) -> (state: Self)
        ensures
            state.spec_last_deploy() == now,
    {
        WatchState { last_deploy: now }
    }
}

/// Refuses watch mode without anything to watch.
pub fn check_watch_paths(watch_paths: &[String]) -> (outcome: Result<(), Error>)
    ensures
        outcome is Ok <==> watch_paths@.len() > 0,
        outcome matches Err(error) ==> error == Error::WatchConfig,
{
    if watch_paths.len() == 0 {
        Err(Error::WatchConfig)
    } else {
        Ok(())
    }
}

/// One turn of the watch loop: the abort request is looked at first, then
/// the batch that the watcher delivered, if it delivered one.
pub fn deploy_watch(
    state: &WatchState,
    abort_requested: bool,
    batch: Option<&[ChangeKind]>,
    now: u64,
) -> (action: WatchAction)
    ensures
        action == watch_decision(
            state.spec_last_deploy(),
            abort_requested,
            match batch {
                Some(events) => Some(events@),
                None => None,
            },
            now,
        ),
{
    if abort_requested {
        return WatchAction::Stop;
    }
    match batch {
        Some(events) => {
            let cooled_down = now >= state.last_deploy && now - state.last_deploy >= WATCH_COOLDOWN;
            if cooled_down && has_modification(events) {
                WatchAction::Redeploy
            } else {
                WatchAction::Wait
            }
        },
        None => WatchAction::Wait,
    }
}

/// The cooldown law. A batch of modifications that arrives before the
/// cooldown has passed leads to nothing and leaves the state as it is; the
/// next batch of modifications, arriving once the cooldown has passed,
/// leads to a redeploy; and a batch without a modification leads to
/// nothing, whenever it arrives.
pub proof fn lemma_cooldown(
    last_deploy: u64,
    early: u64,
    late: u64,
    modifications: Seq<ChangeKind>,
    others: Seq<ChangeKind>,
    any_time: u64,
)
    requires
        modifications.contains(ChangeKind::Modify),
        !others.contains(ChangeKind::Modify),
        early - last_deploy < WATCH_COOLDOWN,
        late - last_deploy >= WATCH_COOLDOWN,
    ensures
        watch_decision(last_deploy, false, Some(modifications), early) == WatchAction::Wait,
        watch_decision(last_deploy, false, Some(modifications), late) == WatchAction::Redeploy,
        watch_decision(last_deploy, false, Some(others), any_time) == WatchAction::Wait,
        watch_decision(last_deploy, false, None, any_time) == WatchAction::Wait,
        watch_decision(last_deploy, true, Some(modifications), any_time) == WatchAction::Stop,
{
}

/// The lines that separate the generated variables from the operator's own.
pub const OWN_VARIABLES_HEADER: &'static str =
    "\n# Your own variables come after this line\n# Feel free to modify them as you want\n";

/// The names of a list of variables.
pub open spec fn names_of(vars: Seq<(Seq<char>, Seq<char>)>) -> Seq<Seq<char>> {
    vars.map_values(|var: (Seq<char>, Seq<char>)| var.0)
}

/// The value that an env file gives to a name: that of the last entry under
/// the name, and the empty text when there is none.
pub open spec fn last_value(env: Seq<(Seq<char>, Seq<char>)>, name: Seq<char>) -> Seq<char>
    decreases env.len(),
{
    if env.len() == 0 {
        Seq::empty()
    } else if env.last().0 == name {
        env.last().1
    } else {
        last_value(env.drop_last(), name)
    }
}

/// The candidates that are not excluded, each once, in the order in which
/// they first occur.
pub open spec fn kept(candidates: Seq<Seq<char>>, excluded: Seq<Seq<char>>) -> Seq<Seq<char>>
    decreases candidates.len(),
{
    if candidates.len() == 0 {
        Seq::empty()
    } else {
        let before = kept(candidates.drop_last(), excluded);
        let name = candidates.last();
        if excluded.contains(name) || before.contains(name) {
            before
        } else {
            before.push(name)
        }
    }
}

/// The operator's own variables: every name that the configuration declares
/// or the existing env file holds, unless a service provides it; each with
/// the value that the existing env file gives it.
pub open spec fn spec_own_env_vars(
    declared: Seq<Seq<char>>,
    existing: Seq<(Seq<char>, Seq<char>)>,
    provided: Seq<(Seq<char>, Seq<char>)>,
) -> Seq<(Seq<char>, Seq<char>)> {
    let names = kept(declared + names_of(existing), names_of(provided));
    Seq::new(names.len(), |i: int| (names[i], last_value(existing, names[i])))
}

/// One line of an env file.
pub open spec fn env_line(var: (Seq<char>, Seq<char>)) -> Seq<char> {
    var.0 + "="@ + var.1 + "\n"@
}

/// The lines of a list of variables, in order.
pub open spec fn env_lines(vars: Seq<(Seq<char>, Seq<char>)>) -> Seq<char>
    decreases vars.len(),
{
    if vars.len() == 0 {
        Seq::empty()
    } else {
        env_lines(vars.drop_last()) + env_line(vars.last())
    }
}

/// The text of the env file: the provided variables, the header, and the
/// operator's own variables.
pub open spec fn env_file_contents(
    provided: Seq<(Seq<char>, Seq<char>)>,
    own: Seq<(Seq<char>, Seq<char>)>,
) -> Seq<char> {
    env_lines(provided) + OWN_VARIABLES_HEADER@ + env_lines(own)
}

/// What is kept holds no name twice and no excluded name, and holds exactly
/// the candidates that are not excluded.
pub proof fn lemma_kept(candidates: Seq<Seq<char>>, excluded: Seq<Seq<char>>)
    ensures
        forall|i: int, j: int|
            0 <= i < j < kept(candidates, excluded).len() ==> kept(candidates, excluded)[i] != kept(
                candidates,
                excluded,
            )[j],
        forall|name: Seq<char>|
            kept(candidates, excluded).contains(name) <==> candidates.contains(name)
                && !excluded.contains(name),
    decreases candidates.len(),
{
    if candidates.len() > 0 {
        let init = candidates.drop_last();
        let last = candidates.last();
        lemma_kept(init, excluded);
        let before = kept(init, excluded);
        let all = kept(candidates, excluded);
        assert forall|name: Seq<char>|
            all.contains(name) <==> candidates.contains(name) && !excluded.contains(name) by {
            if all.contains(name) {
                let k = choose|k: int| 0 <= k < all.len() && all[k] == name;
                if k < before.len() {
                    assert(before[k] == name);
                    assert(kept(init, excluded).contains(name));
                    assert(init.contains(name) && !excluded.contains(name));
                    let c = choose|c: int| 0 <= c < init.len() && init[c] == name;
                    assert(candidates[c] == name);
                } else {
                    assert(name == last);
                    assert(candidates[candidates.len() - 1] == name);
                }
            }
            if candidates.contains(name) && !excluded.contains(name) {
                let c = choose|c: int| 0 <= c < candidates.len() && candidates[c] == name;
                if c < init.len() {
                    assert(init[c] == name);
                    assert(init.contains(name));
                    assert(kept(init, excluded).contains(name));
                    let k = choose|k: int| 0 <= k < before.len() && before[k] == name;
                    assert(all[k] == name);
                } else {
                    if !before.contains(name) {
                        assert(all[all.len() - 1] == name);
                    } else {
                        let k = choose|k: int| 0 <= k < before.len() && before[k] == name;
                        assert(all[k] == name);
                    }
                }
            }
        }
        assert forall|i: int, j: int| 0 <= i < j < all.len() implies all[i] != all[j] by {
            if j < before.len() {
                assert(all[i] == before[i] && all[j] == before[j]);
            } else {
                assert(all[i] == before[i]);
                assert(before.contains(before[i]));
            }
        }
    }
}

fn contains_name(names: &Vec<String>, name: &String) -> (found: bool)
    ensures
        found == names.deep_view().contains(name@),
{
    let mut i: usize = 0;
    while i < names.len()
        invariant
            i <= names@.len(),
            forall|k: int| 0 <= k < i ==> names.deep_view()[k] != name@,
        decreases names@.len() - i,
    {
        if names[i] == *name {
            assert(names.deep_view()[i as int] == name@);
            return true;
        }
        i = i + 1;
    }
    false
}

fn last_value_of(env: &[(String, String)], name: &String) -> (value: String)
    ensures
        value@ == last_value(env.deep_view(), name@),
{
    let mut i: usize = env.len();
    assert(env.deep_view().take(i as int) == env.deep_view());
    while i > 0
        invariant
            i <= env@.len(),
            env.deep_view().len() == env@.len(),
            last_value(env.deep_view(), name@) == last_value(env.deep_view().take(i as int), name@),
        decreases i,
    {
        let ghost upto = env.deep_view().take(i as int);
        i = i - 1;
        assert(upto.drop_last() == env.deep_view().take(i as int));
        let entry = &env[i];
        assert(upto.last() == entry.deep_view());
        if entry.0 == *name {
            return entry.1.clone();
        }
    }
    String::new()
}

/// The operator's own variables, given the names that the configuration
/// declares, the entries of the existing env file in file order, and the
/// variables that the services provide.
pub fn own_env_vars(
    declared: &[String],
    existing: &[(String, String)],
    provided: &[(String, String)],
) -> (own: Vec<(String, String)>)
    ensures
        own.deep_view() == spec_own_env_vars(
            declared.deep_view(),
            existing.deep_view(),
            provided.deep_view(),
        ),
{
    let mut excluded: Vec<String> = Vec::new();
    let mut p: usize = 0;
    while p < provided.len()
        invariant
            p <= provided@.len(),
            excluded@.len() == p,
            forall|k: int| 0 <= k < p ==> excluded@[k]@ == provided@[k].0@,
        decreases provided@.len() - p,
    {
        excluded.push(provided[p].0.clone());
        p = p + 1;
    }
    assert(excluded.deep_view() =~= names_of(provided.deep_view()));

    let mut candidates: Vec<String> = Vec::new();
    let mut d: usize = 0;
    while d < declared.len()
        invariant
            d <= declared@.len(),
            candidates@.len() == d,
            forall|k: int| 0 <= k < d ==> candidates@[k]@ == declared@[k]@,
        decreases declared@.len() - d,
    {
        candidates.push(declared[d].clone());
        d = d + 1;
    }
    let mut e: usize = 0;
    while e < existing.len()
        invariant
            e <= existing@.len(),
            candidates@.len() == declared@.len() + e,
            forall|k: int| 0 <= k < declared@.len() ==> candidates@[k]@ == declared@[k]@,
            forall|k: int| 0 <= k < e ==> candidates@[declared@.len() + k]@ == existing@[k].0@,
        decreases existing@.len() - e,
    {
        candidates.push(existing[e].0.clone());
        e = e + 1;
    }
    let ghost all = declared.deep_view() + names_of(existing.deep_view());
    assert(candidates.deep_view() =~= all);

    let mut names: Vec<String> = Vec::new();
    let mut own: Vec<(String, String)> = Vec::new();
    let mut i: usize = 0;
    assert(all.take(0) =~= Seq::empty());
    assert(names.deep_view() =~= Seq::empty());
    while i < candidates.len()
        invariant
            i <= candidates@.len(),
            candidates.deep_view() == all,
            all.len() == candidates@.len(),
            excluded.deep_view() == names_of(provided.deep_view()),
            names.deep_view() == kept(all.take(i as int), excluded.deep_view()),
            own@.len() == names@.len(),
            forall|k: int|
                0 <= k < own@.len() ==> own@[k].deep_view() == (
                    names.deep_view()[k],
                    last_value(existing.deep_view(), names.deep_view()[k]),
                ),
        decreases candidates@.len() - i,
    {
        let name = &candidates[i];
        proof {
            let upto = all.take(i + 1);
            assert(upto.drop_last() == all.take(i as int));
            assert(upto.last() == name@);
        }
        if !contains_name(&excluded, name) && !contains_name(&names, name) {
            let ghost before = names.deep_view();
            let value = last_value_of(existing, name);
            names.push(name.clone());
            assert(names.deep_view() =~= before.push(name@));
            own.push((name.clone(), value));
        }
        i = i + 1;
    }
    assert(all.take(i as int) == all);
    assert(own.deep_view() =~= spec_own_env_vars(
        declared.deep_view(),
        existing.deep_view(),
        provided.deep_view(),
    ));
    own
}

fn push_env_lines(out: &mut String, vars: &[(String, String)])
    ensures
        final(out)@ == old(out)@ + env_lines(vars.deep_view()),
{
    let ghost start = out@;
    let mut i: usize = 0;
    assert(vars.deep_view().take(0) =~= Seq::empty());
    assert(out@ =~= start + env_lines(vars.deep_view().take(0)));
    while i < vars.len()
        invariant
            i <= vars@.len(),
            vars.deep_view().len() == vars@.len(),
            out@ == start + env_lines(vars.deep_view().take(i as int)),
        decreases vars@.len() - i,
    {
        let var = &vars[i];
        proof {
            let upto = vars.deep_view().take(i + 1);
            assert(upto.drop_last() == vars.deep_view().take(i as int));
            assert(upto.last() == var.deep_view());
        }
        let ghost before = out@;
        out.append(var.0.as_str());
        out.append("=");
        out.append(var.1.as_str());
        out.append("\n");
        assert(out@ =~= before + env_line(var.deep_view()));
        assert(out@ =~= start + env_lines(vars.deep_view().take(i + 1)));
        i = i + 1;
    }
    assert(vars.deep_view().take(i as int) == vars.deep_view());
}

/// The text of the env file: the variables that the services provide, the
/// header, and the operator's own variables.
pub fn generate_env_file(
    services_env_vars: &[(String, String)],
    own_env_vars: &[(String, String)],
) -> (contents: String)
    ensures
        contents@ == env_file_contents(services_env_vars.deep_view(), own_env_vars.deep_view()),
{
    let mut contents = String::new();
    push_env_lines(&mut contents, services_env_vars);
    contents.append(OWN_VARIABLES_HEADER);
    push_env_lines(&mut contents, own_env_vars);
    assert(contents@ =~= env_file_contents(
        services_env_vars.deep_view(),
        own_env_vars.deep_view(),
    ));
    contents
}

/// An env file to write.
#[derive(Debug)]
pub struct GeneratedEnv {
    pub contents: String,
    /// Whether there was no env file before, so that the operator is told
    /// to fill in their own values.
    pub is_generated_first_time: bool,
}

/// The entries of the existing env file, or none where there is no file.
pub open spec fn entries_of(existing: Option<&[(String, String)]>) -> Seq<(Seq<char>, Seq<char>)> {
    match existing {
        Some(entries) => entries.deep_view(),
        None => Seq::empty(),
    }
}

/// The env file of a deployment, given the entries of the existing env
/// file in file order, where there is one.
pub fn generate_env(
    services: &Services,
    context: &Context,
    existing_env: Option<&[(String, String)]>,
) -> (generated: GeneratedEnv)
    ensures
        generated.is_generated_first_time == (existing_env is None),
        ({
            let rules = context.spec_override_context();
            let provided = services@.env_vars(
                context.spec_app_config().spec_expose_namespace_to_env(&rules),
                context.spec_args().namespace@,
            );
            generated.contents@ == env_file_contents(
                provided,
                spec_own_env_vars(
                    context.spec_app_config().spec_env(&rules),
                    entries_of(existing_env),
                    provided,
                ),
            )
        }),
{
    let services_env_vars = services.env_vars(context);
    let provided = services_env_vars.as_slice();
    assert(provided.deep_view() =~= services_env_vars.deep_view());
    let declared = context.app_config().env(context.override_context());
    let own = match existing_env {
        Some(entries) => own_env_vars(declared, entries, provided),
        None => {
            let nothing: Vec<(String, String)> = Vec::new();
            let no_entries = nothing.as_slice();
            assert(no_entries.deep_view() =~= Seq::empty());
            own_env_vars(declared, no_entries, provided)
        },
    };
    let own_entries = own.as_slice();
    assert(own_entries.deep_view() =~= own.deep_view());
    let contents = generate_env_file(provided, own_entries);
    GeneratedEnv { contents, is_generated_first_time: existing_env.is_none() }
}

} // verus!
