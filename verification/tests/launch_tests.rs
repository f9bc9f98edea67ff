use server_supervisor::launch::{
    launch_plan, prepare_launch, resolve_launch, DatabaseLocation, EnvVar, LaunchPlan,
};
use std::path::PathBuf;

fn text_variables() -> Vec<EnvVar> {
    vec![
        EnvVar { name: String::from("PORT"), value: String::from("3000") },
        EnvVar { name: String::from("NODE_ENV"), value: String::from("production") },
    ]
}

#[test]
fn plan_with_data_directory() {
    let plan = launch_plan(PathBuf::from("/opt/app/resources"), Some(PathBuf::from("/home/u/.local/share")));
    assert_eq!(
        plan,
        LaunchPlan {
            program: String::from("node"),
            script: String::from("dist/server.js"),
            working_dir: PathBuf::from("/opt/app/resources"),
            variables: text_variables(),
            database: Some(DatabaseLocation {
                variable: String::from("DATABASE_PATH"),
                data_root: PathBuf::from("/home/u/.local/share"),
                directory: String::from("api-proxy"),
                file: String::from("api-proxy.db"),
            }),
        }
    );
}

#[test]
fn plan_without_data_directory_has_no_database() {
    let plan = launch_plan(PathBuf::from("/opt/app/resources"), None);
    assert_eq!(plan.database, None);
    assert_eq!(plan.variables, text_variables());
    assert_eq!(plan.working_dir, PathBuf::from("/opt/app/resources"));
}

#[test]
fn database_path_is_rooted_under_data_directory() {
    let root = PathBuf::from("/data");
    let plan = launch_plan(PathBuf::from("/r"), Some(root.clone()));
    let database = plan.database.unwrap();
    let directory = database.data_root.join(&database.directory);
    let file = directory.join(&database.file);
    assert_eq!(directory, PathBuf::from("/data/api-proxy"));
    assert_eq!(file, PathBuf::from("/data/api-proxy/api-proxy.db"));
    assert!(file.starts_with(&root));
}

#[test]
fn port_variable_is_3000() {
    let plan = launch_plan(PathBuf::from("/r"), None);
    assert_eq!(plan.variables[0], EnvVar { name: String::from("PORT"), value: String::from("3000") });
}

#[test]
fn unresolved_resource_directory_is_an_error() {
    assert_eq!(
        resolve_launch(Err(String::from("unknown path")), Some(PathBuf::from("/data"))),
        Err(String::from("Failed to get resource directory: unknown path"))
    );
    assert_eq!(
        prepare_launch(Err(String::from("unknown path"))),
        Err(String::from("Failed to get resource directory: unknown path"))
    );
}

#[test]
fn resolved_resource_directory_gives_the_plan() {
    let result = resolve_launch(Ok(PathBuf::from("/r")), Some(PathBuf::from("/data")));
    assert_eq!(result, Ok(launch_plan(PathBuf::from("/r"), Some(PathBuf::from("/data")))));
}

#[test]
fn prepared_launch_uses_platform_data_directory() {
    let plan = prepare_launch(Ok(PathBuf::from("/r"))).unwrap();
    assert_eq!(plan, launch_plan(PathBuf::from("/r"), dirs::data_dir()));
    assert_eq!(plan.database.map(|database| database.data_root), dirs::data_dir());
}
