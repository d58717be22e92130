use jlink_config::download::installer::{
    linux_install_result, macos_install_result, macos_install_script, windows_install_command,
    windows_launch_failed, ChildState, Cleanup, CommandOutcome, PollStep, WindowsInstall,
};
use jlink_config::download::types::{
    cached_installer_path, join_path, segger_dir, DownloadConfig, TargetOs,
};

#[test]
fn linux_install_outcomes() {
    let r = linux_install_result(CommandOutcome::Succeeded, Some("/opt/SEGGER/JLink".to_string()));
    assert!(r.success);
    assert_eq!(r.cancelled, None);
    assert_eq!(r.message, "J-Link installed successfully.");
    assert_eq!(r.path.as_deref(), Some("/opt/SEGGER/JLink"));

    let r = linux_install_result(CommandOutcome::Failed { code: Some(126) }, None);
    assert!(!r.success);
    assert_eq!(r.cancelled, Some(true));
    assert_eq!(r.message, "Installation cancelled.");

    let r = linux_install_result(CommandOutcome::Failed { code: Some(1) }, None);
    assert_eq!(r.cancelled, None);
    assert_eq!(r.message, "Installation failed.");

    let r = linux_install_result(CommandOutcome::NotStarted { error: "no pkexec".to_string() }, None);
    assert_eq!(r.message, "Installation failed.");
    assert_eq!(r.path, None);
}

#[test]
fn macos_install_outcomes() {
    let r = macos_install_result(CommandOutcome::Succeeded, None);
    assert!(r.success);
    assert_eq!(r.path, None);
    let r = macos_install_result(CommandOutcome::Failed { code: Some(1) }, None);
    assert_eq!(r.cancelled, Some(true));
    assert_eq!(r.message, "Installation cancelled.");
    let r = macos_install_result(CommandOutcome::NotStarted { error: "denied".to_string() }, None);
    assert!(!r.success);
    assert_eq!(r.cancelled, None);
    assert_eq!(r.message, "Install failed: denied");
}

#[test]
fn macos_install_script_text() {
    assert_eq!(
        macos_install_script("/tmp/JLink.pkg"),
        "do shell script \"installer -pkg \\\"/tmp/JLink.pkg\\\" -target /\" with administrator privileges"
    );
}

#[test]
fn windows_install_command_escapes_quotes() {
    assert_eq!(
        windows_install_command("C:\\Users\\O'Neil\\JLink.exe", "C:\\dest"),
        "Start-Process -FilePath 'C:\\Users\\O`'Neil\\JLink.exe' -ArgumentList '/S','/D=C:\\dest' -Verb RunAs -Wait"
    );
}

#[test]
fn windows_launch_failure_message() {
    let r = windows_launch_failed("file not found");
    assert!(!r.success);
    assert_eq!(r.cancelled, Some(true));
    assert_eq!(r.message, "Failed to launch installer: file not found");
}

#[test]
fn windows_poll_checks_dll_every_third_tick() {
    let mut w = WindowsInstall::new();
    let mut checks = Vec::new();
    for _ in 0..6 {
        match w.poll(false, ChildState::Running) {
            PollStep::Continue { check_dll } => checks.push(check_dll),
            _ => panic!("expected to continue"),
        }
    }
    assert_eq!(checks, vec![false, false, true, false, false, true]);
    assert_eq!(w.ticks, 6);
}

#[test]
fn windows_poll_cancel_wins() {
    let mut w = WindowsInstall::new();
    match w.poll(true, ChildState::ExitedFailed) {
        PollStep::Finish { result, cleanup } => {
            assert!(matches!(cleanup, Cleanup::KillTree));
            assert_eq!(result.message, "Installation cancelled.");
            assert_eq!(result.cancelled, Some(true));
        }
        _ => panic!("expected finish"),
    }
}

#[test]
fn windows_poll_child_failures() {
    let mut w = WindowsInstall::new();
    match w.poll(false, ChildState::ExitedFailed) {
        PollStep::Finish { result, cleanup } => {
            assert!(matches!(cleanup, Cleanup::Nothing));
            assert_eq!(result.message, "UAC denied or installation failed.");
            assert_eq!(result.cancelled, Some(true));
        }
        _ => panic!("expected finish"),
    }
    match w.poll(false, ChildState::Unreadable { error: "bad handle".to_string() }) {
        PollStep::Finish { result, .. } => {
            assert_eq!(result.message, "Process error: bad handle");
            assert_eq!(result.cancelled, None);
        }
        _ => panic!("expected finish"),
    }
    assert_eq!(w.ticks, 0);
}

#[test]
fn windows_tick_end() {
    let w = WindowsInstall::new();
    match w.finish_tick(Some(("C:\\SEGGER\\JLink".to_string(), 2000)), 1000, 5) {
        PollStep::Finish { result, cleanup } => {
            assert!(result.success);
            assert_eq!(result.path.as_deref(), Some("C:\\SEGGER\\JLink"));
            assert_eq!(result.message, "J-Link installed successfully.");
            match cleanup {
                Cleanup::AddToPath { dir } => assert_eq!(dir, "C:\\SEGGER\\JLink"),
                _ => panic!("expected path update"),
            }
        }
        _ => panic!("expected finish"),
    }
    assert!(matches!(
        w.finish_tick(Some(("d".to_string(), 999)), 1000, 5),
        PollStep::Continue { check_dll: false }
    ));
    assert!(matches!(w.finish_tick(None, 1000, 120), PollStep::Continue { check_dll: false }));
    match w.finish_tick(Some(("d".to_string(), 10)), 1000, 121) {
        PollStep::Finish { result, cleanup } => {
            assert!(matches!(cleanup, Cleanup::KillChild));
            assert_eq!(result.message, "Installation timed out.");
            assert_eq!(result.cancelled, None);
        }
        _ => panic!("expected finish"),
    }
}

#[test]
fn path_join_rules() {
    assert_eq!(join_path(TargetOs::Linux, "/home/u", "x"), "/home/u/x");
    assert_eq!(join_path(TargetOs::Linux, "/home/u/", "x"), "/home/u/x");
    assert_eq!(join_path(TargetOs::Linux, "", "x"), "x");
    assert_eq!(join_path(TargetOs::Windows, "C:\\Users\\u", "x"), "C:\\Users\\u\\x");
    assert_eq!(join_path(TargetOs::Windows, "C:/Users/u/", "x"), "C:/Users/u/x");
}

#[test]
fn path_join_bare_drive() {
    assert_eq!(join_path(TargetOs::Windows, "C:", "AppData"), "C:AppData");
    assert_eq!(join_path(TargetOs::Windows, "d:", "x"), "d:x");
    assert_eq!(join_path(TargetOs::Windows, "C:\\", "x"), "C:\\x");
    assert_eq!(join_path(TargetOs::Windows, "1:", "x"), "1:\\x");
    assert_eq!(join_path(TargetOs::Windows, "CC:", "x"), "CC:\\x");
    assert_eq!(join_path(TargetOs::Linux, "C:", "x"), "C:/x");
    assert_eq!(segger_dir(Some("C:"), ""), "C:AppData\\Roaming\\SEGGER");
    assert_eq!(
        cached_installer_path(TargetOs::Windows, Some("C:"), "C:\\Users\\u"),
        "C:com.probeconfigurator.app\\JLink_installer.exe"
    );
}

#[test]
fn segger_dir_prefers_profile() {
    assert_eq!(
        segger_dir(Some("C:\\Users\\u"), "C:\\home"),
        "C:\\Users\\u\\AppData\\Roaming\\SEGGER"
    );
    assert_eq!(segger_dir(None, "C:\\home"), "C:\\home\\AppData\\Roaming\\SEGGER");
    assert_eq!(segger_dir(None, ""), "AppData\\Roaming\\SEGGER");
}

#[test]
fn download_config_per_platform() {
    let c = DownloadConfig::for_platform(TargetOs::Linux, "/home/u/Downloads");
    assert_eq!(c.url, "https://www.segger.com/downloads/jlink/JLink_Linux_x86_64.deb");
    assert_eq!(c.save_tmp, "/home/u/Downloads/JLink_Linux_x86_64.tmp");
    assert_eq!(c.save_final, "/home/u/Downloads/JLink_Linux_x86_64.deb");
    assert_eq!(c.scan_path, c.save_final);

    let c = DownloadConfig::for_platform(TargetOs::MacOs, "/Users/u/Downloads");
    assert_eq!(c.url, "https://www.segger.com/downloads/jlink/JLink_MacOSX_universal.pkg");
    assert_eq!(c.save_tmp, "/Users/u/Downloads/JLink_MacOSX_universal.tmp");
    assert_eq!(c.scan_path, "/Users/u/Downloads/JLink_MacOSX_universal.pkg");

    let c = DownloadConfig::for_platform(TargetOs::Windows, "C:\\Users\\u\\AppData\\Roaming\\SEGGER");
    assert_eq!(c.url, "https://www.segger.com/downloads/jlink/JLink_Windows_x86_64.exe");
    assert_eq!(c.save_tmp, "C:\\Users\\u\\AppData\\Roaming\\SEGGER\\JLink_Windows_x86_64.tmp");
    assert_eq!(c.save_final, "C:\\Users\\u\\AppData\\Roaming\\SEGGER\\JLink_Windows_x86_64.exe");
}

#[test]
fn cached_installer_locations() {
    assert_eq!(
        cached_installer_path(TargetOs::Linux, Some("/home/u/.local/share"), "/home/u"),
        "/home/u/.local/share/com.probeconfigurator.app/JLink_installer.deb"
    );
    assert_eq!(
        cached_installer_path(TargetOs::Linux, None, "/home/u"),
        "/home/u/.local/share/com.probeconfigurator.app/JLink_installer.deb"
    );
    assert_eq!(
        cached_installer_path(TargetOs::MacOs, Some("/Users/u/Library/Application Support"), "/Users/u"),
        "/Users/u/Library/Application Support/com.probeconfigurator.app/JLink_installer.pkg"
    );
    assert_eq!(
        cached_installer_path(TargetOs::Windows, Some("C:\\Users\\u\\AppData\\Local"), "C:\\Users\\u"),
        "C:\\Users\\u\\AppData\\Local\\com.probeconfigurator.app\\JLink_installer.exe"
    );
}
