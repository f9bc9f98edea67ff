//! What a launched server process is given: program, working directory and
//! environment.

use std::path::PathBuf;
use vstd::prelude::*;
use vstd::string::StringExecFns;

verus! {

/// `std::path::PathBuf`, carried through unread.
#[verifier::external_type_specification]
#[verifier::external_body]
pub struct ExPathBuf(PathBuf);

/// One environment variable with a textual value.
#[derive(Debug, PartialEq, Eq)]
pub struct EnvVar {
    pub name: String,
    pub value: String,
}

/// Where the server keeps its database: the file `file` in the directory
/// `directory` below `data_root`. The directory is to be created before the
/// launch; the variable `variable` carries the file's full path.
#[derive(Debug, PartialEq, Eq)]
pub struct DatabaseLocation {
    pub variable: String,
    pub data_root: PathBuf,
    pub directory: String,
    pub file: String,
}

/// Everything a launch needs.
#[derive(Debug, PartialEq, Eq)]
pub struct LaunchPlan {
    pub program: String,
    pub script: String,
    pub working_dir: PathBuf,
    pub variables: Vec<EnvVar>,
    pub database: Option<DatabaseLocation>,
}

/// Text of the error for an installation directory that cannot be found.
pub open spec fn resource_error_text(cause: Seq<char>) -> Seq<char> {
    "Failed to get resource directory: "@ + cause
}

/// `database` places the database below `root`.
pub open spec fn is_database_at(database: DatabaseLocation, root: PathBuf) -> bool {
    &&& database.variable@ == "DATABASE_PATH"@
    &&& database.data_root == root
    &&& database.directory@ == "api-proxy"@
    &&& database.file@ == "api-proxy.db"@
}

/// `plan` is the launch of the server from `resource_dir`, with the database
/// below `data_dir` where there is one.
pub open spec fn is_launch_plan(
    plan: LaunchPlan,
    resource_dir: PathBuf,
    data_dir: Option<PathBuf>,
) -> bool {
    &&& plan.program@ == "node"@
    &&& plan.script@ == "dist/server.js"@
    &&& plan.working_dir == resource_dir
    &&& plan.variables@.len() == 2
    &&& plan.variables@[0].name@ == "PORT"@
    &&& plan.variables@[0].value@ == "3000"@
    &&& plan.variables@[1].name@ == "NODE_ENV"@
    &&& plan.variables@[1].value@ == "production"@
    &&& match data_dir {
        Some(root) => plan.database matches Some(database) && is_database_at(database, root),
        None => plan.database is None,
    }
}

/// The data root that `plan` names, if any.
pub open spec fn data_root_of(plan: LaunchPlan) -> Option<PathBuf> {
    match plan.database {
        Some(database) => Some(database.data_root),
        None => None,
    }
}

/// `dirs::data_dir`: the user's data directory on this platform, or `None` where
/// the platform names none. It is read from the environment, so nothing is
/// claimed of it.
#[verifier::external_body]
fn platform_data_dir() -> (dir: Option<PathBuf>) {
    dirs::data_dir()
}

/// The launch of the server from `resource_dir`, with its database below
/// `data_dir` where one is given.
pub fn launch_plan(resource_dir: PathBuf, data_dir: Option<PathBuf>) -> (plan: LaunchPlan)
    ensures
        is_launch_plan(plan, resource_dir, data_dir),
{
    let mut variables: Vec<EnvVar> = Vec::new();
    variables.push(EnvVar { name: String::from_str("PORT"), value: String::from_str("3000") });
    variables.push(
        EnvVar { name: String::from_str("NODE_ENV"), value: String::from_str("production") },
    );
    let database = match data_dir {
        Some(root) => Some(
            DatabaseLocation {
                variable: String::from_str("DATABASE_PATH"),
                data_root: root,
                directory: String::from_str("api-proxy"),
                file: String::from_str("api-proxy.db"),
            },
        ),
        None => None,
    };
    LaunchPlan {
        program: String::from_str("node"),
        script: String::from_str("dist/server.js"),
        working_dir: resource_dir,
        variables,
        database,
    }
}

/// Turns the resolution of the installation directory into a launch plan. A
/// failed resolution is an error that carries its cause behind a fixed prefix.
pub fn resolve_launch(resource_dir: Result<PathBuf, String>, data_dir: Option<PathBuf>) -> (result:
    Result<LaunchPlan, String>)
    ensures
        resource_dir matches Ok(dir) ==> result matches Ok(plan) && is_launch_plan(
            plan,
            dir,
            data_dir,
        ),
        resource_dir matches Err(cause) ==> result matches Err(message) && message@
            == resource_error_text(cause@),
{
    match resource_dir {
        Ok(dir) => Ok(launch_plan(dir, data_dir)),
        Err(cause) => Err(
            String::from_str("Failed to get resource directory: ").concat(cause.as_str()),
        ),
    }
}

/// As `resolve_launch`, with the platform's data directory looked up here, and
/// only once the installation directory is known. Whatever the lookup gives,
/// the plan is the launch plan for it.
pub fn prepare_launch(resource_dir: Result<PathBuf, String>) -> (result: Result<LaunchPlan, String>)
    ensures
        resource_dir matches Ok(dir) ==> result matches Ok(plan) && is_launch_plan(
            plan,
            dir,
            data_root_of(plan),
        ),
        resource_dir matches Err(cause) ==> result matches Err(message) && message@
            == resource_error_text(cause@),
{
    match resource_dir {
        Ok(dir) => {
            let data_dir = platform_data_dir();
            resolve_launch(Ok(dir), data_dir)
        },
        Err(cause) => resolve_launch(Err(cause), None),
    }
}

} // verus!
