//! Names that apply when the configuration leaves them out.

use vstd::prelude::*;

verus! {

pub const DEFAULT_NAMESPACE: &'static str = "default";

pub const DEFAULT_DOCKERFILE_NAME: &'static str = "Dockerfile";

pub const DEFAULT_DOTENV_FILE_NAME: &'static str = ".env";

pub const DEFAULT_DOCKER_CONTEXT: &'static str = ".";

pub const DEFAULT_DOCKER_IGNORE_FILE: &'static str = ".dockerignore";

/// The Dockerfile that is built when none is configured.
pub fn get_default_dockerfile_name() -> (name: String)
    ensures
        name@ == DEFAULT_DOCKERFILE_NAME@,
{
    DEFAULT_DOCKERFILE_NAME.to_owned()
}

/// The env file that is used when none is configured.
pub fn get_default_dotenv_file_name() -> (name: String)
    ensures
        name@ == DEFAULT_DOTENV_FILE_NAME@,
{
    DEFAULT_DOTENV_FILE_NAME.to_owned()
}

/// The build context that is used when none is configured.
pub fn get_default_docker_context() -> (name: String)
    ensures
        name@ == DEFAULT_DOCKER_CONTEXT@,
{
    DEFAULT_DOCKER_CONTEXT.to_owned()
}

/// The ignore files that are honoured when none are configured.
pub fn get_default_ignore_files() -> (files: Vec<String>)
    ensures
        files.deep_view() == seq![DEFAULT_DOCKER_IGNORE_FILE@],
{
    let mut files: Vec<String> = Vec::new();
    files.push(DEFAULT_DOCKER_IGNORE_FILE.to_owned());
    assert(files.deep_view() =~= seq![DEFAULT_DOCKER_IGNORE_FILE@]);
    files
}

} // verus!
