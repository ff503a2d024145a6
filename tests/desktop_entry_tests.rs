use create_desktop_file::args::CliError;
use create_desktop_file::desktop_entry::DesktopEntry;
use create_desktop_file::install::{
    desktop_file_path, plan_cli, prepare_cli, GLOBAL_SHARE_APPLICATIONS,
    LOCAL_SHARE_APPLICATIONS,
};
use create_desktop_file::platform::is_supported_os;

const TEST_DIR: &str = "/tmp/create_desktop_file_test";

fn strings(items: &[&str]) -> Vec<String> {
    items.iter().map(|s| s.to_string()).collect()
}

#[test]
fn test_cli_basic_local_installation() {
    let args = strings(&[
        "CreateDesktopFile",
        "--local",
        "--name",
        "TestApp",
        "--comment",
        "Test Application",
        "--exec-path",
        "/usr/bin/test",
        "--icon-path",
        "/usr/share/icons/test.png",
        "--terminal-app",
        "false",
        "--app-type",
        "Application",
        "--categories",
        "Development;",
    ]);
    let result = plan_cli(false, &args, Some("/home/tester".to_string()), false, TEST_DIR, "");
    assert!(result.is_ok());
    let plan = result.unwrap();
    let entry = plan.entry.expect("the flags give the entry");
    let path = desktop_file_path(&plan.dir, &entry);
    assert_eq!(path, format!("{}/TestApp.desktop", TEST_DIR));

    let content = entry.to_string();
    assert!(content.contains("[Desktop Entry]"));
    assert!(content.contains("Name=TestApp"));
    assert!(content.contains("Comment=Test Application"));
    assert!(content.contains("Exec=/usr/bin/test"));
    assert!(content.contains("Icon=/usr/share/icons/test.png"));
    assert!(content.contains("Terminal=false"));
    assert!(content.contains("Type=Application"));
    assert!(content.contains("Categories=Development;"));
}

#[test]
#[should_panic(expected = "Need to specify --name")]
fn test_cli_missing_name_flag() {
    let args = strings(&["CreateDesktopFile", "--comment", "Test Application"]);
    match prepare_cli(false, &args, LOCAL_SHARE_APPLICATIONS, GLOBAL_SHARE_APPLICATIONS) {
        Ok(_) => {}
        Err(e) => panic!("{}", e.message()),
    }
}

#[test]
fn test_cli_with_spaces_in_comment() {
    let args = strings(&[
        "CreateDesktopFile",
        "--local",
        "--name",
        "TestApp",
        "--comment",
        "This is a test application with spaces",
        "--exec-path",
        "/usr/bin/test",
    ]);
    let result = plan_cli(false, &args, Some("/home/tester".to_string()), false, TEST_DIR, TEST_DIR);
    assert!(result.is_ok());
    let plan = result.unwrap();
    let entry = plan.entry.expect("the flags give the entry");
    assert_eq!(desktop_file_path(&plan.dir, &entry), format!("{}/TestApp.desktop", TEST_DIR));
    let content = entry.to_string();
    assert!(content.contains("Comment=This is a test application with spaces"));
}

#[test]
fn test_desktop_entry_generation() {
    let entry = DesktopEntry::new(
        "TestApp".to_string(),
        "Test Comment".to_string(),
        "/usr/bin/test".to_string(),
        "/usr/share/icons/test.png".to_string(),
        "false".to_string(),
        "Application".to_string(),
        "Development;".to_string(),
    );

    let entry_string = entry.to_string();
    assert!(entry_string.contains("[Desktop Entry]"));
    assert!(entry_string.contains("Name=TestApp"));
    assert!(entry_string.contains("Exec=/usr/bin/test"));
    assert!(entry_string.contains("Type=Application"));
}

#[test]
fn test_supported_os_check() {
    let supported_oses = vec!["linux"];
    assert!(is_supported_os(&supported_oses, "linux"));
    assert!(!is_supported_os(&supported_oses, "windows"));
}

#[test]
fn missing_name_error_is_reported_as_usage_error() {
    let args = strings(&["CreateDesktopFile", "--comment", "Test Application"]);
    let r = prepare_cli(false, &args, LOCAL_SHARE_APPLICATIONS, GLOBAL_SHARE_APPLICATIONS);
    assert!(matches!(r, Err(CliError::MissingName)));
}
