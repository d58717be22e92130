use jlink_config::platform::linux;
use jlink_config::platform::macos;
use jlink_config::platform::shared::{PathEvent, PathStep};
use jlink_config::platform::windows;

fn done(step: &PathStep) -> Option<bool> {
    match step {
        PathStep::Done(b) => Some(*b),
        _ => None,
    }
}

#[test]
fn linux_search_dirs_list() {
    assert_eq!(linux::search_dirs(), vec!["/usr/bin", "/usr/local/bin", "/opt/SEGGER/JLink"]);
}

#[test]
fn macos_search_dirs_list() {
    assert_eq!(
        macos::search_dirs(),
        vec!["/Applications/SEGGER/JLink", "/usr/local/bin", "/opt/homebrew/bin"]
    );
}

#[test]
fn windows_search_dirs_list() {
    assert_eq!(
        windows::search_dirs(Some("C:\\Users\\u")),
        vec![
            "C:\\Users\\u\\AppData\\Roaming\\SEGGER",
            "C:\\Program Files\\SEGGER",
            "C:\\Program Files (x86)\\SEGGER"
        ]
    );
    assert_eq!(windows::search_dirs(Some("C:"))[0], "C:AppData\\Roaming\\SEGGER");
    assert_eq!(
        windows::search_dirs(None),
        vec!["C:\\Program Files\\SEGGER", "C:\\Program Files (x86)\\SEGGER"]
    );
}

#[test]
fn linux_path_already_listed() {
    let (u, step) = linux::add_to_system_path("/opt/SEGGER/JLink");
    assert!(matches!(step, PathStep::ReadCurrent));
    let (_, step) = u.advance(PathEvent::Current(Some(
        "PATH=\"/opt/SEGGER/JLink:/usr/bin\"\n".to_string(),
    )));
    assert_eq!(done(&step), Some(true));
}

#[test]
fn linux_path_elevated_then_profile() {
    let (u, _) = linux::add_to_system_path("/opt/J");
    let (u, step) = u.advance(PathEvent::Current(None));
    match &step {
        PathStep::WriteScript { script } => assert_eq!(
            script,
            "#!/bin/sh\nif ! grep -q '/opt/J' /etc/environment; then\n    echo 'PATH=\"/opt/J:$PATH\"' >> /etc/environment\nfi"
        ),
        _ => panic!("expected a script"),
    }
    let (u, step) = u.advance(PathEvent::ScriptWritten(Some("/tmp/jlink_add_path.sh".to_string())));
    match &step {
        PathStep::RunElevated { program, args } => {
            assert_eq!(program, "pkexec");
            assert_eq!(args, &vec!["sh".to_string(), "/tmp/jlink_add_path.sh".to_string()]);
        }
        _ => panic!("expected an elevated run"),
    }
    let (u, step) = u.advance(PathEvent::Elevated(false));
    match &step {
        PathStep::AppendProfile { line } => assert_eq!(line, "\nexport PATH=\"/opt/J:$PATH\"\n"),
        _ => panic!("expected a profile line"),
    }
    let (_, step) = u.advance(PathEvent::Appended(true));
    assert_eq!(done(&step), Some(true));
}

#[test]
fn linux_path_elevated_success() {
    let (u, _) = linux::add_to_system_path("/opt/J");
    let (u, _) = u.advance(PathEvent::Current(Some("PATH=/usr/bin".to_string())));
    let (u, _) = u.advance(PathEvent::ScriptWritten(Some("/tmp/s.sh".to_string())));
    let (_, step) = u.advance(PathEvent::Elevated(true));
    assert_eq!(done(&step), Some(true));
}

#[test]
fn linux_path_script_unsaved_goes_to_profile() {
    let (u, _) = linux::add_to_system_path("/opt/J");
    let (u, _) = u.advance(PathEvent::Current(None));
    let (u, step) = u.advance(PathEvent::ScriptWritten(None));
    assert!(matches!(step, PathStep::AppendProfile { .. }));
    let (_, step) = u.advance(PathEvent::Appended(false));
    assert_eq!(done(&step), Some(false));
}

#[test]
fn macos_path_flow() {
    let (u, _) = macos::add_to_system_path("/Applications/SEGGER/JLink");
    let (_, step) = u.advance(PathEvent::Current(Some("/Applications/SEGGER/JLink\n".to_string())));
    assert_eq!(done(&step), Some(true));

    let (u, _) = macos::add_to_system_path("/A/J");
    let (u, step) = u.advance(PathEvent::Current(Some("/A/J:/other\n".to_string())));
    match &step {
        PathStep::RunElevated { program, args } => {
            assert_eq!(program, "osascript");
            assert_eq!(
                args,
                &vec![
                    "-e".to_string(),
                    "do shell script \"echo '/A/J' > /etc/paths.d/jlink\" with administrator privileges".to_string()
                ]
            );
        }
        _ => panic!("expected an elevated run"),
    }
    let (u, step) = u.advance(PathEvent::Elevated(false));
    assert!(matches!(step, PathStep::AppendProfile { .. }));
    let (_, step) = u.advance(PathEvent::Appended(true));
    assert_eq!(done(&step), Some(true));
}

#[test]
fn windows_path_case_insensitive_match() {
    let (u, _) = windows::add_to_system_path("C:\\Program Files\\SEGGER\\JLink");
    let (_, step) = u.advance(PathEvent::Current(Some(
        "C:\\Windows;c:\\program files\\segger\\jlink;".to_string(),
    )));
    assert_eq!(done(&step), Some(true));
    assert!(windows::path_value_holds("A;B;C", "b"));
    assert!(!windows::path_value_holds("A;B;C", "D"));
}

#[test]
fn windows_path_elevated_flow() {
    let (u, _) = windows::add_to_system_path("C:\\J");
    let (u, step) = u.advance(PathEvent::Current(Some("C:\\Windows".to_string())));
    match &step {
        PathStep::WriteScript { script } => {
            assert!(script.contains("$dir = 'C:\\J'\n"));
            assert!(script.starts_with("\n$reg = 'HKLM:\\SYSTEM\\CurrentControlSet\\Control\\Session Manager\\Environment'\n"));
            assert!(script.ends_with("} else { Write-Host 'AlreadyPresent' }\n"));
        }
        _ => panic!("expected a script"),
    }
    let (u, step) = u.advance(PathEvent::ScriptWritten(Some("C:\\Temp\\jlink_path_update.ps1".to_string())));
    match &step {
        PathStep::RunElevated { program, args } => {
            assert_eq!(program, "powershell");
            assert_eq!(args.len(), 5);
            assert_eq!(args[3], "-Command");
            assert_eq!(
                args[4],
                "Start-Process powershell -ArgumentList '-NoProfile -NonInteractive -ExecutionPolicy Bypass -File \"C:\\Temp\\jlink_path_update.ps1\"' -Verb RunAs -Wait"
            );
        }
        _ => panic!("expected an elevated run"),
    }
    let (_, step) = u.advance(PathEvent::Elevated(false));
    assert_eq!(done(&step), Some(false));
}

#[test]
fn windows_path_unsaved_script_fails() {
    let (u, _) = windows::add_to_system_path("C:\\J");
    let (u, _) = u.advance(PathEvent::Current(None));
    let (_, step) = u.advance(PathEvent::ScriptWritten(None));
    assert_eq!(done(&step), Some(false));
}
