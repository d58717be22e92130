use jlink_config::download::types::TargetOs;
use jlink_config::jlink::detect::{detect, full_path, DetectEvent, DetectStage, DetectStep, InstallStatus};

const BANNER: &str = "SEGGER J-Link Commander V7.94e (Compiled Dec 13 2023)\n";

fn status(step: DetectStep) -> InstallStatus {
    match step {
        DetectStep::Done(s) => s,
        _ => panic!("expected a status"),
    }
}

#[test]
fn detect_starts_with_global_run() {
    let (stage, step) = detect(TargetOs::Linux, "JLinkExe");
    match &stage {
        DetectStage::ProbingGlobal { os, executable } => {
            assert_eq!(*os, TargetOs::Linux);
            assert_eq!(executable, "JLinkExe");
        }
        _ => panic!("expected ProbingGlobal"),
    }
    assert!(matches!(step, DetectStep::RunGlobal));
}

#[test]
fn detect_found_on_path() {
    let (stage, _) = detect(TargetOs::Linux, "JLinkExe");
    let (stage, step) = stage.advance(DetectEvent::Ran(Some(BANNER.to_string())));
    assert!(matches!(step, DetectStep::LocateGlobal));
    let (stage, step) = stage.advance(DetectEvent::Located(Some("/usr/bin/JLinkExe".to_string())));
    assert!(matches!(stage, DetectStage::Finished));
    let s = status(step);
    assert!(s.installed);
    assert_eq!(s.path.as_deref(), Some("/usr/bin/JLinkExe"));
    assert_eq!(s.version.as_deref(), Some("SEGGER J-Link Commander V7.94e"));
}

#[test]
fn detect_not_installed() {
    let (stage, _) = detect(TargetOs::Linux, "JLinkExe");
    let (stage, step) = stage.advance(DetectEvent::Ran(None));
    assert!(matches!(step, DetectStep::SearchDirs));
    let (_, step) = stage.advance(DetectEvent::Searched(None));
    let s = status(step);
    assert!(!s.installed);
    assert_eq!(s.path, None);
    assert_eq!(s.version, None);
}

#[test]
fn detect_from_dir_global_works_after_path_update() {
    let (stage, _) = detect(TargetOs::Linux, "JLinkExe");
    let (stage, _) = stage.advance(DetectEvent::Ran(Some("garbage".to_string())));
    let (stage, step) = stage.advance(DetectEvent::Searched(Some("/opt/SEGGER/JLink".to_string())));
    match step {
        DetectStep::UseDir { dir } => assert_eq!(dir, "/opt/SEGGER/JLink"),
        _ => panic!("expected UseDir"),
    }
    let (_, step) = stage.advance(DetectEvent::Ran(Some(BANNER.to_string())));
    let s = status(step);
    assert!(s.installed);
    assert_eq!(s.path.as_deref(), Some("/opt/SEGGER/JLink/JLinkExe"));
    assert_eq!(s.version.as_deref(), Some("SEGGER J-Link Commander V7.94e"));
}

#[test]
fn detect_from_dir_falls_back_to_full_path() {
    let (stage, _) = detect(TargetOs::Windows, "JLink.exe");
    let (stage, _) = stage.advance(DetectEvent::Ran(None));
    let (stage, _) = stage.advance(DetectEvent::Searched(Some("C:\\SEGGER".to_string())));
    let (stage, step) = stage.advance(DetectEvent::Ran(None));
    match step {
        DetectStep::RunFullPath { path } => assert_eq!(path, "C:\\SEGGER\\JLink.exe"),
        _ => panic!("expected RunFullPath"),
    }
    let (_, step) = stage.advance(DetectEvent::Ran(Some("no banner".to_string())));
    let s = status(step);
    assert!(s.installed);
    assert_eq!(s.path.as_deref(), Some("C:\\SEGGER\\JLink.exe"));
    assert_eq!(s.version, None);
}

#[test]
fn full_path_joins_directory_and_executable() {
    assert_eq!(full_path(TargetOs::Linux, "/opt/SEGGER/JLink", "JLinkExe"), "/opt/SEGGER/JLink/JLinkExe");
    assert_eq!(full_path(TargetOs::Windows, "C:\\SEGGER\\", "JLink.exe"), "C:\\SEGGER\\JLink.exe");
    assert_eq!(full_path(TargetOs::Windows, "D:", "JLink.exe"), "D:JLink.exe");
}
