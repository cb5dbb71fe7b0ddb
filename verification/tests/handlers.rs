use gocar::commands::{CommandFailedError, CommandType, ParsedCommand};
use gocar::config::{Config, ScriptEntry};
use gocar::fs_utils::File;
use gocar::{run_process, ProcessOutcome};

fn artifact(name: &str, modified: u64) -> File {
    File { name: Some(name.to_string()), modified, is_regular: true }
}

fn widget_config() -> Config {
    Config { registry: Some("/tmp/reg".to_string()), scripts: Vec::new() }
}

fn widget_listing() -> Result<Vec<File>, String> {
    Ok(vec![artifact("widget_100.tgz", 100), artifact("widget_200.tgz", 200)])
}

fn pull(package_name: &str, no_copy: bool) -> gocar::commands::PullCommand {
    match (CommandType::Pull { package_name: package_name.to_string(), no_copy }).parse() {
        ParsedCommand::Pull(c) => c,
        _ => panic!("wrong handler"),
    }
}

fn push(skip_build: bool) -> gocar::commands::PushCommand {
    match (CommandType::Push { skip_build }).parse() {
        ParsedCommand::Push(c) => c,
        _ => panic!("wrong handler"),
    }
}

fn pull_version(package_name: &str) -> gocar::commands::PullVersionCommand {
    match (CommandType::PullVersion { package_name: package_name.to_string() }).parse() {
        ParsedCommand::PullVersion(c) => c,
        _ => panic!("wrong handler"),
    }
}

#[test]
fn parse_converts_each_variant() {
    assert!(matches!(
        (CommandType::Push { skip_build: true }).parse(),
        ParsedCommand::Push(c) if c.skip_build
    ));
    assert!(matches!(
        (CommandType::Pull { package_name: "a".to_string(), no_copy: false }).parse(),
        ParsedCommand::Pull(c) if c.package_name == "a" && !c.no_copy
    ));
    assert!(matches!(
        (CommandType::PullVersion { package_name: "b".to_string() }).parse(),
        ParsedCommand::PullVersion(c) if c.package_name == "b"
    ));
}

#[test]
fn pull_without_registry_key_is_configuration_missing() {
    let config = Config { registry: None, scripts: Vec::new() };
    let r = pull("widget", false).handle(&config, true, widget_listing());
    assert!(matches!(r, Err(CommandFailedError::RegistryNotFound)));
}

#[test]
fn push_without_registry_key_is_configuration_missing() {
    let config = Config { registry: None, scripts: Vec::new() };
    let r = push(true).handle(&config, Ok("sandbox".to_string()), &"1".to_string());
    assert!(matches!(r, Err(CommandFailedError::RegistryNotFound)));
}

#[test]
fn pull_version_without_registry_key_is_configuration_missing() {
    let config = Config { registry: None, scripts: Vec::new() };
    let r = pull_version("widget").handle(&config, true, "widget_100.tgz".to_string());
    assert!(matches!(r, Err(CommandFailedError::RegistryNotFound)));
}

#[test]
fn registry_not_found_message_names_the_key() {
    assert_eq!(
        CommandFailedError::RegistryNotFound.message(),
        "'registry' not found! Please add this value to .gocar.json"
    );
}

#[test]
fn pull_of_missing_package_directory_fails() {
    let r = pull("widget", false).handle(&widget_config(), false, widget_listing());
    assert!(matches!(
        r,
        Err(CommandFailedError::FSError(gocar::fs_utils::FSError::NoPackageFound))
    ));
}

#[test]
fn pull_no_copy_installs_newest_from_registry() {
    let plan = pull("widget", true)
        .handle(&widget_config(), true, widget_listing())
        .unwrap();
    assert!(plan.copy_step.is_none());
    assert_eq!(plan.install_step.program, "yarn");
    assert_eq!(
        plan.install_step.args,
        vec!["add".to_string(), "file:/tmp/reg/widget/widget_200.tgz".to_string()]
    );
    assert!(plan.post_install_step.is_none());
    assert_eq!(plan.success_message, "Installed widget_200.tgz");
}

#[test]
fn pull_with_copy_installs_local_file() {
    let plan = pull("widget", false)
        .handle(&widget_config(), true, widget_listing())
        .unwrap();
    let copy = plan.copy_step.expect("a copy step");
    assert_eq!(copy.program, "cp");
    assert_eq!(
        copy.args,
        vec!["/tmp/reg/widget/widget_200.tgz".to_string(), "widget_200.tgz".to_string()]
    );
    assert_eq!(
        plan.install_step.args,
        vec!["add".to_string(), "file:widget_200.tgz".to_string()]
    );
    assert_eq!(plan.success_message, "Installed widget_200.tgz");
}

#[test]
fn pull_runs_configured_postinstall_hook() {
    let config = Config {
        registry: Some("/tmp/reg".to_string()),
        scripts: vec![ScriptEntry {
            script_type: "postinstall".to_string(),
            package_name: "widget".to_string(),
            command: "echo done".to_string(),
        }],
    };
    let plan = pull("widget", true).handle(&config, true, widget_listing()).unwrap();
    let hook = plan.post_install_step.expect("a post-install step");
    assert_eq!(hook.program, "echo");
    assert_eq!(hook.args, vec!["done".to_string()]);
    assert_eq!(
        plan.success_message,
        "Installed widget_200.tgz\nAnd ran postinstall"
    );
}

#[test]
fn pull_without_hook_leaves_message_unsuffixed() {
    let config = Config {
        registry: Some("/tmp/reg".to_string()),
        scripts: vec![ScriptEntry {
            script_type: "postinstall".to_string(),
            package_name: "other".to_string(),
            command: "echo done".to_string(),
        }],
    };
    let plan = pull("widget", true).handle(&config, true, widget_listing()).unwrap();
    assert!(plan.post_install_step.is_none());
    assert_eq!(plan.success_message, "Installed widget_200.tgz");
}

#[test]
fn pull_of_empty_package_directory_fails() {
    let r = pull("widget", false).handle(&widget_config(), true, Ok(Vec::new()));
    assert!(matches!(
        r,
        Err(CommandFailedError::FSError(gocar::fs_utils::FSError::EmptyDirectory))
    ));
}

#[test]
fn pull_of_unreadable_directory_reports_io_error() {
    let r = pull("widget", false).handle(&widget_config(), true, Err("denied".to_string()));
    match r {
        Err(CommandFailedError::FSError(gocar::fs_utils::FSError::IOError(d))) => {
            assert_eq!(d, "denied")
        },
        _ => panic!("expected an IO error"),
    }
}

#[test]
fn push_plans_build_mkdir_and_pack() {
    let plan = push(false)
        .handle(&widget_config(), Ok("sandbox".to_string()), &"1712940454858".to_string())
        .unwrap();
    assert_eq!(plan.steps.len(), 3);
    assert_eq!(plan.steps[0].program, "yarn");
    assert_eq!(plan.steps[0].args, vec!["build".to_string()]);
    assert_eq!(plan.steps[1].program, "mkdir");
    assert_eq!(
        plan.steps[1].args,
        vec!["-p".to_string(), "/tmp/reg/sandbox".to_string()]
    );
    assert_eq!(plan.steps[2].program, "yarn");
    assert_eq!(
        plan.steps[2].args,
        vec![
            "pack".to_string(),
            "-f".to_string(),
            "/tmp/reg/sandbox/sandbox_1712940454858.tgz".to_string()
        ]
    );
    assert_eq!(plan.success_message, "Pushed successfully!");
}

#[test]
fn push_with_skip_build_omits_the_build_step() {
    let plan = push(true)
        .handle(&widget_config(), Ok("sandbox".to_string()), &"7".to_string())
        .unwrap();
    assert_eq!(plan.steps.len(), 2);
    assert_eq!(plan.steps[0].program, "mkdir");
    assert_eq!(plan.steps[1].args[2], "/tmp/reg/sandbox/sandbox_7.tgz");
}

#[test]
fn push_propagates_working_directory_failure() {
    let r = push(true).handle(
        &widget_config(),
        Err(gocar::fs_utils::FSError::UnknownErrorOccured),
        &"7".to_string(),
    );
    assert!(matches!(
        r,
        Err(CommandFailedError::FSError(gocar::fs_utils::FSError::UnknownErrorOccured))
    ));
}

#[test]
fn pull_version_lists_names_newest_first() {
    let items = pull_version("widget").selection_items(widget_listing()).unwrap();
    assert_eq!(items, vec!["widget_200.tgz".to_string(), "widget_100.tgz".to_string()]);
}

#[test]
fn pull_version_with_zero_artifacts_fails() {
    let only_subdir = vec![File {
        name: Some("nested".to_string()),
        modified: 5,
        is_regular: false,
    }];
    let r = pull_version("widget").selection_items(Ok(only_subdir));
    assert!(matches!(
        r,
        Err(CommandFailedError::FSError(gocar::fs_utils::FSError::EmptyDirectory))
    ));
}

#[test]
fn pull_version_installs_the_selected_artifact_from_a_copy() {
    let plan = pull_version("widget")
        .handle(&widget_config(), true, "widget_100.tgz".to_string())
        .unwrap();
    let copy = plan.copy_step.expect("a copy step");
    assert_eq!(copy.program, "cp");
    assert_eq!(
        copy.args,
        vec!["/tmp/reg/widget/widget_100.tgz".to_string(), "widget_100.tgz".to_string()]
    );
    assert_eq!(
        plan.install_step.args,
        vec!["add".to_string(), "file:widget_100.tgz".to_string()]
    );
    assert_eq!(plan.success_message, "Installed widget_100.tgz");
    assert!(plan.post_install_step.is_none());
}

#[test]
fn process_failure_messages_carry_their_detail() {
    assert_eq!(
        CommandFailedError::ProcessFailed("exit code 2".to_string()).message(),
        "Process failed! exit code 2"
    );
    assert_eq!(
        CommandFailedError::FSError(gocar::fs_utils::FSError::NoPackageFound).message(),
        "Command failed due FS error"
    );
}

#[test]
fn run_process_maps_exit_status() {
    assert!(run_process(ProcessOutcome::Exited(0)).is_ok());
    match run_process(ProcessOutcome::Exited(1)) {
        Err(CommandFailedError::ProcessFailed(d)) => assert_eq!(d, "exit code 1"),
        _ => panic!("expected a process failure"),
    }
    match run_process(ProcessOutcome::SpawnFailed("no such file".to_string())) {
        Err(CommandFailedError::ProcessFailed(d)) => assert_eq!(d, "no such file"),
        _ => panic!("expected a process failure"),
    }
}

#[test]
fn cli_holds_the_selected_command() {
    let cli = gocar::commands::Cli { command: CommandType::Push { skip_build: false } };
    assert!(matches!(cli.command.parse(), ParsedCommand::Push(_)));
}
