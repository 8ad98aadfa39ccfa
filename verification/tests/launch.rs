use tooly::command::Platform;
use tooly::launch::{action_app, launch_report};
use tooly::log::LogLevel;
use tooly::payload::Payload;

fn info(action_type: &str) -> Payload {
    Payload {
        target: "/tmp/x".to_string(),
        target_type: "directory".to_string(),
        items: vec!["/tmp/x/a.txt".to_string(), "/tmp/x/b c.txt".to_string()],
        action: "Visual Studio Code".to_string(),
        action_type: action_type.to_string(),
    }
}

#[test]
fn on_macos_an_application_is_opened_with_the_items() {
    let plan = action_app(&info("app"), false, Platform::MacOs);
    assert_eq!(plan.application, "Visual Studio Code");
    let command = plan.command;
    assert_eq!(command.program, "open");
    assert_eq!(command.args, vec!["-a", "Visual Studio Code", "/tmp/x/a.txt", "/tmp/x/b c.txt"]);
}

#[test]
fn on_windows_an_application_is_started_with_the_items() {
    let command = action_app(&info("app"), false, Platform::Windows).command;
    assert_eq!(command.program, "cmd");
    assert_eq!(
        command.args,
        vec!["/C", "start", "", "Visual Studio Code", "/tmp/x/a.txt", "/tmp/x/b c.txt"]
    );
}

#[test]
fn on_linux_an_application_is_opened_with_the_items() {
    let command = action_app(&info("app"), false, Platform::Linux).command;
    assert_eq!(command.program, "xdg-open");
    assert_eq!(command.args, vec!["Visual Studio Code", "/tmp/x/a.txt", "/tmp/x/b c.txt"]);
}

#[test]
fn a_shortcut_is_launched_without_the_items() {
    let mac = action_app(&info("shortcut"), true, Platform::MacOs).command;
    assert_eq!(mac.program, "open");
    assert_eq!(mac.args, vec!["-a", "Visual Studio Code"]);
    let windows = action_app(&info("shortcut"), true, Platform::Windows).command;
    assert_eq!(windows.args, vec!["/C", "start", "", "Visual Studio Code"]);
    let linux = action_app(&info("shortcut"), true, Platform::Linux).command;
    assert_eq!(linux.args, vec!["Visual Studio Code"]);
}

#[test]
fn the_launch_is_reported() {
    let plan = action_app(&info("app"), false, Platform::Linux);
    let started = launch_report(&plan, None);
    assert_eq!(started.level, LogLevel::Info);
    assert_eq!(started.message, "Action (app) - Launched app 'Visual Studio Code'");
    let failed = launch_report(&plan, Some("No such file or directory (os error 2)"));
    assert_eq!(failed.level, LogLevel::Error);
    assert_eq!(
        failed.message,
        "Action (app) - Failed to launch app 'Visual Studio Code': \
         No such file or directory (os error 2)"
    );
}
