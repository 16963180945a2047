//! Stopping: a container that runs is stopped and kept, so that a later
//! deploy can reuse it; a container that does not run is left alone.

use crate::docker::{
    Containers, ContainerInfo, ContainerInfoView, EngineAction, EngineActionView,
    check_container_running, containers_after, inspected, is_running, stop_count,
};
use crate::services::{ContainerConfig, Services};
use crate::utils::string::text;
use vstd::prelude::*;

verus! {

/// The calls that stop a container, given what its inspection yielded: one
/// stop when it runs, none otherwise.
pub open spec fn stop_actions(name: Seq<char>, existing: Option<ContainerInfoView>) -> Seq<
    EngineActionView,
> {
    if is_running(existing) {
        seq![EngineActionView::StopContainer { name }]
    } else {
        Seq::empty()
    }
}

/// Whether a container is to be stopped: only when it exists and the engine
/// reports it as running.
pub fn should_stop_container(existing_container: Option<&ContainerInfo>) -> (stop: bool)
    ensures
        stop == is_running(existing_container.deep_view()),
{
    check_container_running(existing_container)
}

fn stop_container(container_name: &str, existing_container: Option<&ContainerInfo>) -> (actions:
    Vec<EngineAction>)
    ensures
        actions.deep_view() == stop_actions(container_name@, existing_container.deep_view()),
{
    let mut actions: Vec<EngineAction> = Vec::new();
    if should_stop_container(existing_container) {
        actions.push(EngineAction::StopContainer { name: text(container_name) });
    }
    assert(actions.deep_view() =~= stop_actions(
        container_name@,
        existing_container.deep_view(),
    ));
    actions
}

/// The calls that stop the application's container, given what its
/// inspection yielded.
pub fn stop_app_service(container_name: &str, existing_container: Option<&ContainerInfo>) -> (actions:
    Vec<EngineAction>)
    ensures
        actions.deep_view() == stop_actions(container_name@, existing_container.deep_view()),
{
    stop_container(container_name, existing_container)
}

/// The calls that stop the container of one dependency, given what its
/// inspection yielded.
pub fn stop_dependencies(config: &ContainerConfig, existing_container: Option<&ContainerInfo>) -> (actions:
    Vec<EngineAction>)
    ensures
        actions.deep_view() == stop_actions(config@.container_name, existing_container.deep_view()),
{
    stop_container(config.container_name(), existing_container)
}

/// One stage of the stop command.
#[derive(Debug, Clone, Copy, PartialEq, Eq, Structural)]
pub enum StopStep {
    /// Stop the containers of the dependencies, in declaration order.
    StopDependencies,
    /// Stop the container of the application.
    StopAppService,
    /// Retract the project's routes from the shared proxy.
    RetractRoutes,
}

/// The stages of a stop: the dependencies, then the application where the
/// deployment has one, then the retraction of the routes.
pub open spec fn stop_steps(has_app: bool) -> Seq<StopStep> {
    if has_app {
        seq![StopStep::StopDependencies, StopStep::StopAppService, StopStep::RetractRoutes]
    } else {
        seq![StopStep::StopDependencies, StopStep::RetractRoutes]
    }
}

/// The stages of the stop command, in order. The first failure ends the
/// command.
pub fn stop(services: &Services) -> (steps: Vec<StopStep>)
    ensures
        steps@ == stop_steps(services@.app is Some),
{
    let mut steps: Vec<StopStep> = Vec::new();
    steps.push(StopStep::StopDependencies);
    if services.app().is_some() {
        steps.push(StopStep::StopAppService);
    }
    steps.push(StopStep::RetractRoutes);
    assert(steps@ =~= stop_steps(services@.app is Some));
    steps
}

/// Stopping is idempotent. Whatever the engine holds, stopping a container
/// and then stopping it again issues one stop call if the container ran at
/// first and none otherwise; the second round issues no call at all, and
/// the container is kept, not removed.
pub proof fn lemma_stop_twice_stops_once(
    containers: Containers,
    name: Seq<char>,
    image_id: Option<Seq<char>>,
)
    ensures
        ({
            let first = stop_actions(name, inspected(containers, name));
            let between = containers_after(containers, first, image_id);
            let second = stop_actions(name, inspected(between, name));
            &&& second.len() == 0
            &&& stop_count(first) + stop_count(second) == if is_running(
                inspected(containers, name),
            ) {
                1nat
            } else {
                0nat
            }
            &&& !is_running(inspected(between, name))
            &&& between.contains_key(name) == containers.contains_key(name)
        }),
{
    let first = stop_actions(name, inspected(containers, name));
    reveal_with_fuel(containers_after, 2);
    reveal_with_fuel(stop_count, 2);
    if is_running(inspected(containers, name)) {
        assert(first.drop_last() =~= Seq::empty());
        assert(first.last() == EngineActionView::StopContainer { name });
    }
}

} // verus!
