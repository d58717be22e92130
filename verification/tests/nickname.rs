use jlink_config::jlink::nickname::{NicknameEvent, NicknameResult, NicknameSession, NicknameStage, NicknameStep};

fn start(index: usize, nick: &str) -> (NicknameSession, NicknameStep) {
    jlink_config::jlink::nickname::set(index, nick)
}

fn result_of(step: NicknameStep) -> NicknameResult {
    match step {
        NicknameStep::Done(r) => r,
        _ => panic!("expected a result"),
    }
}

fn script_of(step: NicknameStep) -> String {
    match step {
        NicknameStep::RunSession(s) => s,
        _ => panic!("expected a session"),
    }
}

#[test]
fn set_starts_with_write_session() {
    let (session, step) = start(1, "  bench ");
    assert_eq!(session.nickname, "bench");
    assert_eq!(session.probe_index, 1);
    assert!(matches!(session.stage, NicknameStage::Writing));
    assert_eq!(
        script_of(step),
        "exec DisableAutoUpdateFW\nselectprobe\n1\nsetnickname bench\nsleep 100\nexit\n"
    );
}

#[test]
fn set_reports_session_error() {
    let (session, _) = start(0, "x");
    let (s, step) = session.advance(NicknameEvent::SessionFailed("J-Link not found".to_string()));
    assert!(matches!(s.stage, NicknameStage::Finished));
    let r = result_of(step);
    assert!(!r.success);
    assert_eq!(r.error.as_deref(), Some("J-Link not found"));
    assert_eq!(r.warning, None);
}

#[test]
fn set_reports_invalid_nickname() {
    let (session, _) = start(0, "bad\"name");
    let (_, step) =
        session.advance(NicknameEvent::SessionOutput("Unknown command\n'bad\"name' is not a valid nickname\n".to_string()));
    let r = result_of(step);
    assert!(!r.success);
    assert_eq!(
        r.error.as_deref(),
        Some("Invalid nickname: only ASCII characters, no double quotes.")
    );
}

#[test]
fn set_reports_rejection_with_last_line() {
    let (session, _) = start(0, "x");
    let (_, step) = session.advance(NicknameEvent::SessionOutput(
        "J-Link>setnickname x\nUnknown command. '?' for help.\n  \n".to_string(),
    ));
    let r = result_of(step);
    assert_eq!(
        r.error.as_deref(),
        Some("J-Link rejected the nickname command: Unknown command. '?' for help.")
    );
}

#[test]
fn set_reports_unexpected_response() {
    let (session, _) = start(0, "x");
    let (_, step) = session.advance(NicknameEvent::SessionOutput("".to_string()));
    let r = result_of(step);
    assert!(!r.success);
    assert_eq!(
        r.error.as_deref(),
        Some("Unexpected response from J-Link after setting nickname: (no output)")
    );
}

fn through_reboot(nick: &str, reboot_out: NicknameEvent) -> NicknameSession {
    let (session, _) = start(2, nick);
    let (session, step) = session.advance(NicknameEvent::SessionOutput("Nickname was set\n".to_string()));
    assert!(matches!(session.stage, NicknameStage::Rebooting));
    assert_eq!(
        script_of(step),
        "exec DisableAutoUpdateFW\nselectprobe\n2\nreboot\nsleep 100\nexit\n"
    );
    let (session, step) = session.advance(reboot_out);
    assert!(matches!(step, NicknameStep::ScanProbes));
    session
}

#[test]
fn set_succeeds_when_scan_shows_name() {
    let s = through_reboot(" lab ", NicknameEvent::SessionOutput("Rebooted successfully".to_string()));
    let names = vec!["a".to_string(), "b".to_string(), "  lab ".to_string()];
    let r = result_of(s.advance(NicknameEvent::ProbeNicknames(names)).1);
    assert!(r.success);
    assert_eq!(r.error, None);
    assert_eq!(r.warning, None);
}

#[test]
fn set_warns_when_reboot_unsupported() {
    let s = through_reboot(
        "lab",
        NicknameEvent::SessionOutput("Command not supported by connected probe.".to_string()),
    );
    assert!(matches!(s.stage, NicknameStage::Verifying { reboot_unsupported: true }));
    let r = result_of(s.advance(NicknameEvent::ProbeNicknames(vec!["old".to_string()])).1);
    assert!(r.success);
    assert_eq!(
        r.warning.as_deref(),
        Some("Nickname was set to 'lab', but this probe firmware does not support reboot via command. Unplug and replug the probe, then press Refresh list to apply the change.")
    );
}

#[test]
fn set_warns_cleared_when_reboot_unsupported() {
    let (session, _) = start(0, "  ");
    let (session, _) = session.advance(NicknameEvent::SessionOutput("Nickname was unset".to_string()));
    let (session, _) = session.advance(NicknameEvent::SessionOutput(
        "Command not supported by connected probe.".to_string(),
    ));
    let r = result_of(session.advance(NicknameEvent::ScanFailed("scan error".to_string())).1);
    assert!(r.success);
    assert_eq!(
        r.warning.as_deref(),
        Some("Nickname was cleared, but this probe firmware does not support reboot via command. Unplug and replug the probe, then press Refresh list to apply the change.")
    );
}

#[test]
fn set_fails_when_name_not_visible() {
    let s = through_reboot("lab", NicknameEvent::SessionFailed("timeout".to_string()));
    assert!(matches!(s.stage, NicknameStage::Verifying { reboot_unsupported: false }));
    let r = result_of(s.advance(NicknameEvent::ProbeNicknames(vec![])).1);
    assert!(!r.success);
    assert_eq!(
        r.error.as_deref(),
        Some("Nickname command was accepted, but the new name is not visible yet. Unplug and re-plug the probe, then refresh the list.")
    );
}

#[test]
fn reboot_success_wins_over_unsupported_text() {
    let s = through_reboot(
        "lab",
        NicknameEvent::SessionOutput(
            "Command not supported by connected probe.\nRebooted successfully".to_string(),
        ),
    );
    assert!(matches!(s.stage, NicknameStage::Verifying { reboot_unsupported: false }));
}
