use gocar::config::{config, get_post_install, get_post_install_script, get_registry_path, Config, ScriptEntry};
use gocar::fs_utils::{
    get_files_from_directory, get_latest_file_from_directory, parse_package_to_directory, FSError,
    File,
};
use gocar::text::{file_name_of_path, i32_to_string, path_join, u64_to_string};

fn entry(name: &str, modified: u64, is_regular: bool) -> File {
    File { name: Some(name.to_string()), modified, is_regular }
}

fn names(files: &[File]) -> Vec<String> {
    files.iter().map(|f| f.name.clone().unwrap()).collect::<Vec<_>>()
}

#[test]
fn list_is_sorted_descending_by_modification_time() {
    let listing = Ok(vec![
        entry("a.tgz", 300, true),
        entry("b.tgz", 100, true),
        entry("c.tgz", 500, true),
        entry("d.tgz", 200, true),
    ]);
    let files = get_files_from_directory(listing).unwrap();
    assert_eq!(names(&files), vec!["c.tgz", "a.tgz", "d.tgz", "b.tgz"]);
}

#[test]
fn list_keeps_only_regular_files() {
    let listing = Ok(vec![
        entry("sub", 900, false),
        entry("a.tgz", 100, true),
        entry("other", 50, false),
    ]);
    let files = get_files_from_directory(listing).unwrap();
    assert_eq!(names(&files), vec!["a.tgz"]);
}

#[test]
fn list_of_directory_without_files_is_empty() {
    let only_dirs = Ok(vec![entry("sub", 900, false)]);
    assert!(get_files_from_directory(only_dirs).unwrap().is_empty());
    let empty: Result<Vec<File>, String> = Ok(Vec::new());
    assert!(get_files_from_directory(empty).unwrap().is_empty());
}

#[test]
fn list_surfaces_read_failures() {
    let r = get_files_from_directory(Err("permission denied".to_string()));
    match r {
        Err(FSError::IOError(d)) => assert_eq!(d, "permission denied"),
        _ => panic!("expected an IO error"),
    }
}

#[test]
fn latest_is_the_artifact_with_the_maximum_timestamp() {
    let listing = Ok(vec![
        entry("widget_100.tgz", 100, true),
        entry("widget_300.tgz", 300, true),
        entry("widget_200.tgz", 200, true),
    ]);
    let latest = get_latest_file_from_directory(&"/tmp/reg/widget".to_string(), listing);
    assert_eq!(latest.unwrap(), "/tmp/reg/widget/widget_300.tgz");
}

#[test]
fn latest_of_empty_directory_is_an_explicit_condition() {
    let empty: Result<Vec<File>, String> = Ok(Vec::new());
    let r = get_latest_file_from_directory(&"/tmp/reg/widget".to_string(), empty);
    assert!(matches!(r, Err(FSError::EmptyDirectory)));
}

#[test]
fn latest_with_undecodable_name_fails() {
    let listing = Ok(vec![File { name: None, modified: 900, is_regular: true }]);
    let r = get_latest_file_from_directory(&"/tmp/reg/widget".to_string(), listing);
    assert!(matches!(r, Err(FSError::FailedToFetchFileName)));
}

#[test]
fn file_name_is_reported_or_refused() {
    let f = entry("a.tgz", 1, true);
    assert_eq!(f.get_file_name().unwrap(), "a.tgz");
    let unnamed = File { name: None, modified: 1, is_regular: true };
    assert!(matches!(unnamed.get_file_name(), Err(FSError::FailedToFetchFileName)));
}

#[test]
fn missing_package_directory_is_refused() {
    let r = parse_package_to_directory(&"/tmp/reg/widget".to_string(), false);
    assert!(matches!(r, Err(FSError::NoPackageFound)));
    let ok = parse_package_to_directory(&"/tmp/reg/widget".to_string(), true);
    assert_eq!(ok.unwrap(), "/tmp/reg/widget");
}

#[test]
fn fs_error_messages_match_their_kind() {
    assert_eq!(FSError::NoPackageFound.message(), "No such package found");
    assert_eq!(FSError::IOError("x".to_string()).message(), "IO error occured");
    assert_eq!(FSError::FailedToFetchFileName.message(), "Failed to fetch file name");
    assert_eq!(FSError::UnknownErrorOccured.message(), "Unknown error occured");
    assert_eq!(FSError::EmptyDirectory.message(), "No files found in package directory");
}

#[test]
fn missing_configuration_file_yields_empty_configuration() {
    let c = config(None);
    assert!(c.registry.is_none());
    assert!(c.scripts.is_empty());
    assert!(get_registry_path(&c).is_none());
}

#[test]
fn loaded_configuration_is_kept_as_given() {
    let loaded = Config { registry: Some("/tmp/reg".to_string()), scripts: Vec::new() };
    let c = config(Some(loaded));
    assert_eq!(get_registry_path(&c).as_deref(), Some("/tmp/reg"));
}

#[test]
fn post_install_lookup_filters_by_type_and_package() {
    let c = Config {
        registry: None,
        scripts: vec![
            ScriptEntry {
                script_type: "postinstall".to_string(),
                package_name: "widget".to_string(),
                command: "echo one".to_string(),
            },
            ScriptEntry {
                script_type: "prebuild".to_string(),
                package_name: "widget".to_string(),
                command: "echo two".to_string(),
            },
            ScriptEntry {
                script_type: "postinstall".to_string(),
                package_name: "gadget".to_string(),
                command: "echo three".to_string(),
            },
        ],
    };
    let table = get_post_install(&c, "postinstall");
    assert_eq!(table.len(), 2);
    assert_eq!(table[0].package_name, "widget");
    assert_eq!(table[1].package_name, "gadget");
    assert_eq!(
        get_post_install_script(&c, "postinstall", &"widget".to_string()),
        Some("echo one".to_string())
    );
    assert_eq!(
        get_post_install_script(&c, "postinstall", &"gizmo".to_string()),
        None
    );
    assert_eq!(
        get_post_install_script(&c, "preinstall", &"widget".to_string()),
        None
    );
}

#[test]
fn script_splitting_keeps_plain_words() {
    let call = gocar::run_script(&"echo hello".to_string());
    assert_eq!(call.program, "echo");
    assert_eq!(call.args, vec!["hello".to_string()]);
}

#[test]
fn script_without_arguments_yields_bare_invocation() {
    let call = gocar::run_script(&"build".to_string());
    assert_eq!(call.program, "build");
    assert!(call.args.is_empty());
}

#[test]
fn script_splitting_keeps_empty_words_between_spaces() {
    let call = gocar::run_script(&"echo  a".to_string());
    assert_eq!(call.program, "echo");
    assert_eq!(call.args, vec!["".to_string(), "a".to_string()]);
}

#[test]
fn decimal_rendering_is_exact() {
    assert_eq!(u64_to_string(0), "0");
    assert_eq!(u64_to_string(7), "7");
    assert_eq!(u64_to_string(1712940454858), "1712940454858");
    assert_eq!(i32_to_string(-3), "-3");
    assert_eq!(i32_to_string(42), "42");
}

#[test]
fn path_helpers_join_and_take_base_names() {
    assert_eq!(path_join("/tmp/reg", "widget"), "/tmp/reg/widget");
    assert_eq!(file_name_of_path("/tmp/reg/widget/widget_1.tgz"), "widget_1.tgz");
    assert_eq!(file_name_of_path("widget_1.tgz"), "widget_1.tgz");
    assert_eq!(file_name_of_path(""), "");
}

#[test]
fn timestamp_string_is_a_decimal_numeral() {
    let t = gocar::get_current_timestamp_string();
    assert!(!t.is_empty());
    assert!(t.chars().all(|c| c.is_ascii_digit()));
}
