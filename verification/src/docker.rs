//! The container engine as the library sees it: what an inspection yields,
//! which calls change the engine, and what those calls do to a container.

use crate::error::{EngineError, Error};
use crate::utils::string::text;
use vstd::prelude::*;

verus! {

/// The status with which the engine answers when it knows no such container.
pub const NOT_FOUND_STATUS_CODE: u16 = 404;

/// The tag under which dependency images are fetched.
pub const IMAGE_TAG: &'static str = "latest";

/// The run state of a container, as an inspection reports it.
#[derive(Debug)]
pub struct ContainerState {
    pub running: Option<bool>,
}

/// What an inspection of a container reports, as far as decisions rest on it.
#[derive(Debug)]
pub struct ContainerInfo {
    /// The id of the image that the container was created from.
    pub image: Option<String>,
    pub state: Option<ContainerState>,
}

/// What an inspection of an image reports, as far as decisions rest on it.
#[derive(Debug)]
pub struct ImageInfo {
    pub id: Option<String>,
}

pub struct ContainerInfoView {
    pub image: Option<Seq<char>>,
    pub running: Option<bool>,
}

impl View for ContainerInfo {
    type V = ContainerInfoView;

    open spec fn view(&self) -> ContainerInfoView {
        ContainerInfoView {
            image: self.image.deep_view(),
            running: match self.state {
                Some(state) => state.running,
                None => None,
            },
        }
    }
}

impl DeepView for ContainerInfo {
    type V = ContainerInfoView;

    open spec fn deep_view(&self) -> ContainerInfoView {
        self@
    }
}

impl ContainerInfoView {
    /// A container counts as running only when the engine says so.
    pub open spec fn is_running(self) -> bool {
        self.running == Some(true)
    }
}

/// Whether an inspected container, if there is one, is running.
pub open spec fn is_running(container: Option<ContainerInfoView>) -> bool {
    match container {
        Some(info) => info.is_running(),
        None => false,
    }
}

/// Reads the answer to an inspection of a container: "not found" is the
/// value "absent", never a failure; every other failure of the engine is
/// fatal.
pub fn inspect_container(answer: Result<ContainerInfo, EngineError>) -> (outcome: Result<
    Option<ContainerInfo>,
    Error,
>)
    ensures
        match answer {
            Ok(info) => outcome == Ok::<Option<ContainerInfo>, Error>(Some(info)),
            Err(error) => if error.status_code == Some(NOT_FOUND_STATUS_CODE) {
                outcome == Ok::<Option<ContainerInfo>, Error>(None)
            } else {
                outcome == Err::<Option<ContainerInfo>, Error>(Error::Engine(error))
            },
        },
{
    match answer {
        Ok(info) => Ok(Some(info)),
        Err(error) => {
            let not_found = match error.status_code {
                Some(code) => code == NOT_FOUND_STATUS_CODE,
                None => false,
            };
            if not_found {
                Ok(None)
            } else {
                Err(Error::Engine(error))
            }
        },
    }
}

/// Whether an inspected container, if there is one, is running.
pub fn check_container_running(container: Option<&ContainerInfo>) -> (running: bool)
    ensures
        running == is_running(container.deep_view()),
{
    match container {
        Some(info) => match &info.state {
            Some(state) => match state.running {
                Some(running) => running,
                None => false,
            },
            None => false,
        },
        None => false,
    }
}

/// The reference under which a dependency image is inspected.
pub open spec fn spec_image_reference(image_name: Seq<char>) -> Seq<char> {
    image_name + ":"@ + IMAGE_TAG@
}

/// The reference under which a dependency image is inspected.
pub fn image_reference(image_name: &str) -> (reference: String)
    ensures
        reference@ == spec_image_reference(image_name@),
{
    let mut reference = text(image_name);
    reference.append(":");
    reference.append(IMAGE_TAG);
    reference
}

/// A one-shot command inside a container.
#[derive(Debug)]
pub struct ExecRequest {
    /// The program and its arguments.
    pub cmd: Vec<String>,
    pub attach_stdin: bool,
    pub attach_stdout: bool,
    pub attach_stderr: bool,
    pub tty: bool,
}

pub struct ExecRequestView {
    pub cmd: Seq<Seq<char>>,
    pub attach_stdin: bool,
    pub attach_stdout: bool,
    pub attach_stderr: bool,
    pub tty: bool,
}

impl View for ExecRequest {
    type V = ExecRequestView;

    open spec fn view(&self) -> ExecRequestView {
        ExecRequestView {
            cmd: self.cmd.deep_view(),
            attach_stdin: self.attach_stdin,
            attach_stdout: self.attach_stdout,
            attach_stderr: self.attach_stderr,
            tty: self.tty,
        }
    }
}

/// The request that hands a command line to a shell, with every stream
/// attached or none.
pub open spec fn shell_request(command: Seq<char>, attached: bool) -> ExecRequestView {
    ExecRequestView {
        cmd: seq!["sh"@, "-c"@, command],
        attach_stdin: attached,
        attach_stdout: attached,
        attach_stderr: attached,
        tty: attached,
    }
}

fn shell_words(command: &str) -> (cmd: Vec<String>)
    ensures
        cmd.deep_view() == seq!["sh"@, "-c"@, command@],
{
    let mut cmd: Vec<String> = Vec::new();
    cmd.push(text("sh"));
    cmd.push(text("-c"));
    cmd.push(text(command));
    assert(cmd.deep_view() =~= seq!["sh"@, "-c"@, command@]);
    cmd
}

/// The request for a command whose output nobody waits for.
pub fn exec_command_detached(command: &str) -> (request: ExecRequest)
    ensures
        request@ == shell_request(command@, false),
{
    ExecRequest {
        cmd: shell_words(command),
        attach_stdin: false,
        attach_stdout: false,
        attach_stderr: false,
        tty: false,
    }
}

/// The request for a command that the operator talks to on a terminal.
pub fn exec_command_attached(command: &str) -> (request: ExecRequest)
    ensures
        request@ == shell_request(command@, true),
{
    ExecRequest {
        cmd: shell_words(command),
        attach_stdin: true,
        attach_stdout: true,
        attach_stderr: true,
        tty: true,
    }
}

/// A call that changes the engine's state. Each is attempted once; the
/// first failure ends the sequence it stands in.
#[derive(Debug)]
pub enum EngineAction {
    StopContainer { name: String },
    RemoveContainer { name: String, force: bool },
    /// Create the container of that name from its specification.
    CreateContainer { name: String },
    StartContainer { name: String },
}

pub enum EngineActionView {
    StopContainer { name: Seq<char> },
    RemoveContainer { name: Seq<char>, force: bool },
    CreateContainer { name: Seq<char> },
    StartContainer { name: Seq<char> },
}

impl View for EngineAction {
    type V = EngineActionView;

    open spec fn view(&self) -> EngineActionView {
        match self {
            EngineAction::StopContainer { name } => EngineActionView::StopContainer { name: name@ },
            EngineAction::RemoveContainer { name, force } => EngineActionView::RemoveContainer {
                name: name@,
                force: *force,
            },
            EngineAction::CreateContainer { name } => EngineActionView::CreateContainer {
                name: name@,
            },
            EngineAction::StartContainer { name } => EngineActionView::StartContainer {
                name: name@,
            },
        }
    }
}

impl DeepView for EngineAction {
    type V = EngineActionView;

    open spec fn deep_view(&self) -> EngineActionView {
        self@
    }
}

/// The containers that an engine holds, by name.
pub type Containers = Map<Seq<char>, ContainerInfoView>;

/// What an inspection of a name yields.
pub open spec fn inspected(containers: Containers, name: Seq<char>) -> Option<ContainerInfoView> {
    if containers.contains_key(name) {
        Some(containers[name])
    } else {
        None
    }
}

impl EngineActionView {
    /// The containers after the call went through, given those before it.
    /// A container that is created is bound to `image_id`, the id that the
    /// image it is created from has at that moment.
    pub open spec fn apply(self, containers: Containers, image_id: Option<Seq<char>>) -> Containers {
        match self {
            EngineActionView::StopContainer { name } => if containers.contains_key(name) {
                containers.insert(
                    name,
                    ContainerInfoView { image: containers[name].image, running: Some(false) },
                )
            } else {
                containers
            },
            EngineActionView::RemoveContainer { name, .. } => containers.remove(name),
            EngineActionView::CreateContainer { name } => containers.insert(
                name,
                ContainerInfoView { image: image_id, running: Some(false) },
            ),
            EngineActionView::StartContainer { name } => if containers.contains_key(name) {
                containers.insert(
                    name,
                    ContainerInfoView { image: containers[name].image, running: Some(true) },
                )
            } else {
                containers
            },
        }
    }
}

/// The containers after every call of a sequence went through.
pub open spec fn containers_after(
    containers: Containers,
    actions: Seq<EngineActionView>,
    image_id: Option<Seq<char>>,
) -> Containers
    decreases actions.len(),
{
    if actions.len() == 0 {
        containers
    } else {
        actions.last().apply(containers_after(containers, actions.drop_last(), image_id), image_id)
    }
}

/// How many calls of a sequence stop a container.
pub open spec fn stop_count(actions: Seq<EngineActionView>) -> nat
    decreases actions.len(),
{
    if actions.len() == 0 {
        0
    } else if actions.last() is StopContainer {
        stop_count(actions.drop_last()) + 1
    } else {
        stop_count(actions.drop_last())
    }
}

} // verus!
