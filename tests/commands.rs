use fs_commands::explorer::launcher_program;
use fs_commands::{
    get_home_dir, home_dir_result, plan_reveal, resolve_target, reveal_target, LaunchCommand,
    PathExistsResult, Platform,
};

fn status(exists: bool, is_file: bool, is_directory: bool) -> PathExistsResult {
    PathExistsResult { exists, is_file, is_directory }
}

#[test]
fn regular_file_is_reported_as_file() {
    assert_eq!(PathExistsResult::from_probes(true, true, false), status(true, true, false));
}

#[test]
fn directory_is_reported_as_directory() {
    assert_eq!(PathExistsResult::from_probes(true, false, true), status(true, false, true));
}

#[test]
fn missing_path_reports_nothing() {
    assert_eq!(PathExistsResult::from_probes(false, false, false), status(false, false, false));
}

#[test]
fn missing_path_ignores_kind_answers() {
    assert_eq!(PathExistsResult::from_probes(false, true, true), status(false, false, false));
}

#[test]
fn existing_special_entry_is_neither_kind() {
    assert_eq!(PathExistsResult::from_probes(true, false, false), status(true, false, false));
}

#[test]
fn home_dir_is_an_existing_directory() {
    let home = get_home_dir().expect("home directory");
    assert!(!home.is_empty());
    assert!(std::path::Path::new(&home).is_dir());
}

#[test]
fn home_dir_result_passes_found_directory() {
    assert_eq!(home_dir_result(Some("/home/alice".to_string())), Ok("/home/alice".to_string()));
}

#[test]
fn home_dir_result_reports_missing_directory() {
    assert_eq!(home_dir_result(None), Err("Could not determine home directory".to_string()));
}

#[test]
fn missing_path_is_not_found_and_starts_nothing() {
    let r = plan_reveal("T/missing.txt", false, false, Platform::Linux);
    assert_eq!(r, Err("Path does not exist: T/missing.txt".to_string()));
}

#[test]
fn file_is_revealed_through_its_parent() {
    let cmd = plan_reveal("T/a.txt", true, true, Platform::Linux).unwrap().unwrap();
    assert_eq!(cmd.program(), "xdg-open");
    assert_eq!(cmd.target(), "T");
    assert_eq!(cmd.platform(), Platform::Linux);
}

#[test]
fn directory_is_revealed_itself() {
    let cmd = plan_reveal("/tmp/T", true, false, Platform::MacOs).unwrap().unwrap();
    assert_eq!(cmd.program(), "open");
    assert_eq!(cmd.target(), "/tmp/T");
}

#[test]
fn windows_uses_explorer() {
    let cmd = plan_reveal("T", true, false, Platform::Windows).unwrap().unwrap();
    assert_eq!(cmd.program(), "explorer");
    assert_eq!(cmd.target(), "T");
}

#[test]
fn other_platform_starts_nothing() {
    assert_eq!(plan_reveal("T", true, false, Platform::Other), Ok(None));
    assert_eq!(launcher_program(Platform::Other), None);
}

#[test]
fn nested_file_parent_is_its_directory() {
    assert_eq!(reveal_target("/a/b/c.txt", true, true), Ok("/a/b".to_string()));
}

#[test]
fn file_at_root_has_root_as_parent() {
    assert_eq!(reveal_target("/c.txt", true, true), Ok("/".to_string()));
}

#[test]
fn bare_file_name_has_empty_parent() {
    assert_eq!(reveal_target("c.txt", true, true), Ok(String::new()));
}

#[test]
fn root_as_file_has_no_parent() {
    assert_eq!(reveal_target("/", true, true), Err("Could not get parent directory".to_string()));
}

#[test]
fn resolve_target_without_parent_fails() {
    assert_eq!(
        resolve_target("x", true, true, None),
        Err("Could not get parent directory".to_string())
    );
}

#[test]
fn resolve_target_uses_given_parent() {
    assert_eq!(resolve_target("T/a.txt", true, true, Some("T".to_string())), Ok("T".to_string()));
}

#[test]
fn launch_failure_messages_name_the_browser() {
    let linux = plan_reveal("T", true, false, Platform::Linux).unwrap().unwrap();
    assert_eq!(linux.failure_message("not found"), "Failed to open file manager: not found");
    let mac = plan_reveal("T", true, false, Platform::MacOs).unwrap().unwrap();
    assert_eq!(mac.failure_message("denied"), "Failed to open finder: denied");
    let win = plan_reveal("T", true, false, Platform::Windows).unwrap().unwrap();
    assert_eq!(win.failure_message("x"), "Failed to open explorer: x");
}

#[test]
fn temp_dir_scenario() {
    assert_eq!(PathExistsResult::from_probes(true, false, true), status(true, false, true));
    assert_eq!(PathExistsResult::from_probes(true, true, false), status(true, true, false));
    assert_eq!(PathExistsResult::from_probes(false, false, false), status(false, false, false));
    let cmd: LaunchCommand = plan_reveal("T/a.txt", true, true, Platform::Linux).unwrap().unwrap();
    assert_eq!(cmd.target(), "T");
    assert_ne!(cmd.target(), "T/a.txt");
}
