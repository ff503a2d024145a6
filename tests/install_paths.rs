use create_desktop_file::args::CliError;
use create_desktop_file::desktop_entry::DesktopEntry;
use create_desktop_file::install::{
    desktop_file_path, gui_dir, install_dir, is_root_uid, plan_cli, prepare_cli, prepare_gui,
    GLOBAL_SHARE_APPLICATIONS, LOCAL_SHARE_APPLICATIONS,
};

fn strings(items: &[&str]) -> Vec<String> {
    items.iter().map(|s| s.to_string()).collect()
}

fn named(name: &str) -> DesktopEntry {
    DesktopEntry::new(
        name.to_string(),
        String::new(),
        String::new(),
        String::new(),
        String::new(),
        String::new(),
        String::new(),
    )
}

#[test]
fn local_dir_is_under_home() {
    let d = install_dir(false, false, "/home/u", LOCAL_SHARE_APPLICATIONS, GLOBAL_SHARE_APPLICATIONS);
    assert_eq!(d, Ok("/home/u/.local/share/applications/".to_string()));
    let d = install_dir(false, false, "/home/u/", LOCAL_SHARE_APPLICATIONS, GLOBAL_SHARE_APPLICATIONS);
    assert_eq!(d, Ok("/home/u/.local/share/applications/".to_string()));
}

#[test]
fn global_dir_needs_privilege() {
    let d = install_dir(true, false, "/home/u", LOCAL_SHARE_APPLICATIONS, GLOBAL_SHARE_APPLICATIONS);
    assert_eq!(d, Err(CliError::NotPrivileged));
    let d = install_dir(true, true, "/home/u", LOCAL_SHARE_APPLICATIONS, GLOBAL_SHARE_APPLICATIONS);
    assert_eq!(d, Ok("/usr/share/applications/".to_string()));
}

#[test]
fn local_install_ignores_privilege() {
    let d = install_dir(false, true, "/root", "apps", "/g");
    assert_eq!(d, Ok("/root/apps".to_string()));
}

#[test]
fn file_name_is_trimmed_name_with_suffix() {
    assert_eq!(desktop_file_path("/apps", &named("  My App \n")), "/apps/My App.desktop");
    assert_eq!(desktop_file_path("/apps/", &named("X")), "/apps/X.desktop");
    assert_eq!(desktop_file_path("", &named("X")), "X.desktop");
    assert_eq!(desktop_file_path("/apps", &named("/abs")), "/abs.desktop");
}

#[test]
fn global_without_privilege_is_a_permission_error() {
    let args = strings(&[
        "prog", "--global", "--name", "TestApp", "--comment", "Test Application", "--exec-path",
        "/usr/bin/test",
    ]);
    let r = plan_cli(true, &args, Some("/home/u".to_string()), false, LOCAL_SHARE_APPLICATIONS, GLOBAL_SHARE_APPLICATIONS);
    assert!(matches!(r, Err(CliError::NotPrivileged)));
    let args = strings(&["prog", "--global"]);
    let r = plan_cli(true, &args, Some("/home/u".to_string()), false, LOCAL_SHARE_APPLICATIONS, GLOBAL_SHARE_APPLICATIONS);
    assert!(matches!(r, Err(CliError::NotPrivileged)));
}

#[test]
fn global_with_privilege_plans_system_dir() {
    let args = strings(&["prog", "--global", "--name", "TestApp"]);
    let plan = plan_cli(true, &args, Some("/root".to_string()), true, LOCAL_SHARE_APPLICATIONS, GLOBAL_SHARE_APPLICATIONS).unwrap();
    assert_eq!(plan.dir, "/usr/share/applications/");
    let entry = plan.entry.unwrap();
    assert_eq!(desktop_file_path(&plan.dir, &entry), "/usr/share/applications/TestApp.desktop");
}

#[test]
fn usage_error_comes_before_other_errors() {
    let args = strings(&["prog", "--global", "--categories", "Utility;"]);
    let r = plan_cli(true, &args, None, false, LOCAL_SHARE_APPLICATIONS, GLOBAL_SHARE_APPLICATIONS);
    assert!(matches!(r, Err(CliError::MissingName)));
}

#[test]
fn missing_home_is_an_environment_error() {
    let args = strings(&["prog", "--local", "--name", "X"]);
    let r = plan_cli(false, &args, None, true, LOCAL_SHARE_APPLICATIONS, GLOBAL_SHARE_APPLICATIONS);
    assert!(matches!(r, Err(CliError::NoHomeDirectory)));
}

#[test]
fn interactive_plan_has_no_entry() {
    let args = strings(&["prog", "--local"]);
    let plan = plan_cli(false, &args, Some("/home/u".to_string()), false, LOCAL_SHARE_APPLICATIONS, GLOBAL_SHARE_APPLICATIONS).unwrap();
    assert!(plan.entry.is_none());
    assert_eq!(plan.dir, "/home/u/.local/share/applications/");
}

#[test]
fn root_uid_is_zero() {
    assert!(is_root_uid(0));
    assert!(!is_root_uid(1000));
}

#[test]
fn prepared_plans_follow_the_install_kind() {
    let args = strings(&["prog", "--global", "--name", "X"]);
    match prepare_cli(true, &args, LOCAL_SHARE_APPLICATIONS, GLOBAL_SHARE_APPLICATIONS) {
        Ok(plan) => assert_eq!(plan.dir, "/usr/share/applications/"),
        Err(e) => assert!(e == CliError::NotPrivileged || e == CliError::NoHomeDirectory),
    }
    let args = strings(&["prog", "--local", "--name", "X"]);
    match prepare_cli(false, &args, LOCAL_SHARE_APPLICATIONS, GLOBAL_SHARE_APPLICATIONS) {
        Ok(plan) => assert!(plan.dir.ends_with("/.local/share/applications/")),
        Err(e) => assert_eq!(e, CliError::NoHomeDirectory),
    }
}

#[test]
fn gui_dir_is_under_home() {
    match prepare_gui(LOCAL_SHARE_APPLICATIONS) {
        Ok(d) => assert!(d.ends_with(".local/share/applications/")),
        Err(e) => assert_eq!(e, CliError::NoHomeDirectory),
    }
}

#[test]
fn gui_dir_joins_local_under_home() {
    assert_eq!(
        gui_dir(Some("/home/u".to_string()), LOCAL_SHARE_APPLICATIONS),
        Ok("/home/u/.local/share/applications/".to_string())
    );
    assert_eq!(gui_dir(None, LOCAL_SHARE_APPLICATIONS), Err(CliError::NoHomeDirectory));
}

#[test]
fn global_without_privilege_reports_usage_error_first() {
    let args = strings(&["prog", "--global", "--comment", "x", "--icon-path", "/i.png"]);
    let r = plan_cli(true, &args, Some("/home/u".to_string()), false, LOCAL_SHARE_APPLICATIONS, GLOBAL_SHARE_APPLICATIONS);
    assert!(matches!(r, Err(CliError::MissingName)));
}
