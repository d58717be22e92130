//! Setting a probe's nickname.
//!
//! Setting a nickname takes three JLink sessions: one that writes the
//! nickname, one that reboots the probe (`setnickname` and `reboot` must not
//! share a session: with piped stdin JLink exits before the probe finishes
//! its power cycle and the nickname never applies), and a probe scan that
//! checks that the new name is visible. [`NicknameSession`] decides, after
//! each session, what to do next and what to report; the caller runs the
//! sessions and hands back what they printed.

use vstd::prelude::*;
use crate::jlink::scripts::{set_nickname_write, set_nickname_write_text, set_nickname_reboot, set_nickname_reboot_text};
use crate::text::{
    has_substring, trimmed, lines_of, lines, chars_of, trim, str_contains, string_of, push_str,
    same_chars, lemma_leading, lemma_trailing, ws_pred, is_ws,
};

verus! {

broadcast use vstd::string::group_string_axioms;

/// What setting a nickname came to.
pub struct NicknameResult {
    pub success: bool,
    pub error: Option<String>,
    pub warning: Option<String>,
}

pub open spec fn opt_text(o: Option<String>) -> Option<Seq<char>> {
    match o {
        Some(s) => Some(s@),
        None => None,
    }
}

impl NicknameResult {
    /// The result as plain values: success, error text, warning text.
    pub open spec fn outcome(self) -> (bool, Option<Seq<char>>, Option<Seq<char>>) {
        (self.success, opt_text(self.error), opt_text(self.warning))
    }
}

// ─── Reading the write session's output ────────────────────────────────────

/// The output reports that the nickname was written. JLink's wording varies
/// between versions, so several known success patterns count.
pub open spec fn write_succeeded_text(out: Seq<char>) -> bool {
    ||| has_substring(out, "was set"@)
    ||| has_substring(out, "was unset"@)
    ||| has_substring(out, "Probe configured successfully"@)
    ||| has_substring(out, "Nickname set"@)
    ||| has_substring(out, "Nickname unset"@)
}

/// The output reports that JLink refused the nickname command.
pub open spec fn write_failed_text(out: Seq<char>) -> bool {
    ||| has_substring(out, "Unknown command"@)
    ||| has_substring(out, "Syntax error"@)
    ||| has_substring(out, "not supported"@)
    ||| has_substring(out, "No emulator connected"@)
    ||| has_substring(out, "is not a valid nickname"@)
}

/// Whether `stdout` reports a written nickname.
pub fn write_succeeded(stdout: &str) -> (r: bool)
    ensures
        r == write_succeeded_text(stdout@),
{
    let out = chars_of(stdout);
    let s = out.as_slice();
    str_contains(s, "was set") || str_contains(s, "was unset") || str_contains(
        s,
        "Probe configured successfully",
    ) || str_contains(s, "Nickname set") || str_contains(s, "Nickname unset")
}

/// Whether `stdout` reports a refused nickname command.
pub fn write_failed(stdout: &str) -> (r: bool)
    ensures
        r == write_failed_text(stdout@),
{
    let out = chars_of(stdout);
    let s = out.as_slice();
    str_contains(s, "Unknown command") || str_contains(s, "Syntax error") || str_contains(
        s,
        "not supported",
    ) || str_contains(s, "No emulator connected") || str_contains(s, "is not a valid nickname")
}

/// The last line of `ls` that is not blank once trimmed.
pub open spec fn last_non_blank(ls: Seq<Seq<char>>) -> Option<Seq<char>>
    decreases ls.len(),
{
    if ls.len() == 0 {
        None
    } else if trimmed(ls.last()).len() > 0 {
        Some(ls.last())
    } else {
        last_non_blank(ls.drop_last())
    }
}

/// What [`last_non_empty_line`] gives for `out`.
pub open spec fn last_non_empty_line_text(out: Seq<char>) -> Seq<char> {
    match last_non_blank(lines_of(out)) {
        Some(l) => trimmed(l),
        None => "(no output)"@,
    }
}

/// The last non-blank line of `stdout`, trimmed; `(no output)` when every
/// line is blank.
pub fn last_non_empty_line(stdout: &str) -> (r: String)
    ensures
        r@ == last_non_empty_line_text(stdout@),
{
    let out = chars_of(stdout);
    let ls = lines(out.as_slice());
    let ghost all = lines_of(stdout@);
    let mut i: usize = ls.len();
    assert(all.take(all.len() as int) =~= all);
    while i > 0
        invariant
            all == lines_of(stdout@),
            ls@.len() == all.len(),
            forall|k: int| 0 <= k < ls@.len() ==> #[trigger] ls@[k]@ == all[k],
            i <= ls@.len(),
            last_non_blank(all) == last_non_blank(all.take(i as int)),
        decreases i,
    {
        let t = trim(ls[i - 1].as_slice());
        let ghost pre = all.take(i as int);
        assert(pre.last() == ls@[i - 1]@);
        if t.len() > 0 {
            assert(pre.len() > 0);
            assert(trimmed(pre.last()).len() > 0);
            assert(last_non_blank(pre) == Some(pre.last()));
            return string_of(t.as_slice());
        }
        assert(pre.drop_last() =~= all.take(i - 1));
        i -= 1;
    }
    proof {
        reveal_strlit("(no output)");
    }
    "(no output)".to_owned()
}

// ─── Messages ───────────────────────────────────────────────────────────────

pub open spec fn invalid_nickname_message() -> Seq<char> {
    "Invalid nickname: only ASCII characters, no double quotes."@
}

pub open spec fn rejected_message(out: Seq<char>) -> Seq<char> {
    "J-Link rejected the nickname command: "@ + last_non_empty_line_text(out)
}

pub open spec fn unexpected_message(out: Seq<char>) -> Seq<char> {
    "Unexpected response from J-Link after setting nickname: "@ + last_non_empty_line_text(out)
}

pub open spec fn cleared_warning() -> Seq<char> {
    "Nickname was cleared, but this probe firmware does not support reboot via command. Unplug and replug the probe, then press Refresh list to apply the change."@
}

pub open spec fn set_warning(nickname: Seq<char>) -> Seq<char> {
    "Nickname was set to '"@ + nickname
        + "', but this probe firmware does not support reboot via command. Unplug and replug the probe, then press Refresh list to apply the change."@
}

/// The warning when the probe cannot reboot on command: it names the new
/// nickname, or says that the nickname was cleared.
pub open spec fn reboot_warning(nickname: Seq<char>) -> Seq<char> {
    if nickname.len() == 0 {
        cleared_warning()
    } else {
        set_warning(nickname)
    }
}

pub open spec fn not_visible_message() -> Seq<char> {
    "Nickname command was accepted, but the new name is not visible yet. Unplug and re-plug the probe, then refresh the list."@
}

// ─── The session ────────────────────────────────────────────────────────────

/// Where setting a nickname stands.
pub enum NicknameStage {
    /// The write session runs.
    Writing,
    /// The reboot session runs.
    Rebooting,
    /// The probe scan runs; `reboot_unsupported` records that the probe
    /// answered the reboot with "Command not supported".
    Verifying { reboot_unsupported: bool },
    /// A result has been reported.
    Finished,
}

/// What the caller is to do next.
pub enum NicknameStep {
    /// Run a JLink session with this script on stdin.
    RunSession(String),
    /// Scan the connected probes and report their nicknames, in probe order.
    ScanProbes,
    /// Report this result; nothing more is to be done.
    Done(NicknameResult),
}

/// What the caller observed while doing a step.
pub enum NicknameEvent {
    /// The session ran and printed this on stdout.
    SessionOutput(String),
    /// The session could not be run; the error as text.
    SessionFailed(String),
    /// The scan found probes with these nicknames, in probe order.
    ProbeNicknames(Vec<String>),
    /// The scan failed; the error as text.
    ScanFailed(String),
}

/// Setting one probe's nickname.
pub struct NicknameSession {
    pub probe_index: usize,
    /// The nickname to set, trimmed.
    pub nickname: String,
    pub stage: NicknameStage,
}

/// `step` runs a session with the script `text`.
pub open spec fn runs(step: NicknameStep, text: Seq<char>) -> bool {
    step matches NicknameStep::RunSession(s) && s@ == text
}

/// `step` reports the result `outcome`.
pub open spec fn reports(
    step: NicknameStep,
    outcome: (bool, Option<Seq<char>>, Option<Seq<char>>),
) -> bool {
    step matches NicknameStep::Done(r) && r.outcome() == outcome
}

/// The event is one that the stage waits for: session events while writing
/// or rebooting, scan events while verifying.
pub open spec fn accepts(stage: NicknameStage, event: NicknameEvent) -> bool {
    match stage {
        NicknameStage::Writing | NicknameStage::Rebooting => event is SessionOutput
            || event is SessionFailed,
        NicknameStage::Verifying { .. } => event is ProbeNicknames || event is ScanFailed,
        NicknameStage::Finished => false,
    }
}

/// The probe at `index` in the scan carries `nickname`, once trimmed.
pub open spec fn nickname_visible(names: Seq<String>, index: usize, nickname: Seq<char>) -> bool {
    index < names.len() && trimmed(names[index as int]@) == nickname
}

/// Starts setting the nickname of the probe at `probe_index`: the nickname is
/// trimmed, and the first step writes it in a session of its own.
pub fn set(probe_index: usize, nickname: &str) -> (r: (NicknameSession, NicknameStep))
    ensures
        r.0.probe_index == probe_index,
        r.0.nickname@ == trimmed(nickname@),
        r.0.stage is Writing,
        runs(r.1, set_nickname_write_text(probe_index, nickname@)),
{
    let chars = chars_of(nickname);
    let name = trim(chars.as_slice());
    let script = set_nickname_write(probe_index, nickname);
    (
        NicknameSession { probe_index, nickname: string_of(name.as_slice()), stage: NicknameStage::Writing },
        NicknameStep::RunSession(script),
    )
}

fn done(success: bool, error: Option<String>, warning: Option<String>) -> (r: NicknameStep)
    ensures
        reports(r, (success, opt_text(error), opt_text(warning))),
{
    NicknameStep::Done(NicknameResult { success, error, warning })
}

impl NicknameSession {
    /// Decides what follows `event`.
    ///
    /// After the write session: a failed session is reported with its error;
    /// output saying "is not a valid nickname" is reported as an invalid
    /// nickname; other refusals, and output that reports neither refusal nor
    /// success, are reported with the last non-blank line of the output; on
    /// success the reboot session follows.
    ///
    /// After the reboot session, whatever it printed (a failed reboot is not
    /// fatal, since the nickname is already written), the probes are scanned;
    /// output saying "Command not supported by connected probe." without
    /// "Rebooted successfully" is remembered.
    ///
    /// After the scan: when the probe carries the new nickname, success;
    /// otherwise, when the probe could not reboot on command, success with a
    /// warning to re-plug the probe; otherwise failure.
    pub fn advance(self, event: NicknameEvent) -> (r: (NicknameSession, NicknameStep))
        requires
            accepts(self.stage, event),
        ensures
            r.0.probe_index == self.probe_index,
            r.0.nickname == self.nickname,
            r.1 matches NicknameStep::Done(res) ==> (res.success <==> res.error is None) && (
            res.warning is Some ==> res.success),
            self.stage is Writing ==> match event {
                NicknameEvent::SessionFailed(e) => r.0.stage is Finished && reports(
                    r.1,
                    (false, Some(e@), None),
                ),
                NicknameEvent::SessionOutput(out) => if has_substring(
                    out@,
                    "is not a valid nickname"@,
                ) {
                    r.0.stage is Finished && reports(
                        r.1,
                        (false, Some(invalid_nickname_message()), None),
                    )
                } else if write_failed_text(out@) {
                    r.0.stage is Finished && reports(
                        r.1,
                        (false, Some(rejected_message(out@)), None),
                    )
                } else if !write_succeeded_text(out@) {
                    r.0.stage is Finished && reports(
                        r.1,
                        (false, Some(unexpected_message(out@)), None),
                    )
                } else {
                    r.0.stage is Rebooting && runs(r.1, set_nickname_reboot_text(self.probe_index))
                },
                _ => false,
            },
            self.stage is Rebooting ==> {
                &&& r.1 is ScanProbes
                &&& r.0.stage == NicknameStage::Verifying {
                    reboot_unsupported: match event {
                        NicknameEvent::SessionOutput(out) => !has_substring(
                            out@,
                            "Rebooted successfully"@,
                        ) && has_substring(out@, "Command not supported by connected probe."@),
                        _ => false,
                    },
                }
            },
            self.stage matches NicknameStage::Verifying { reboot_unsupported } ==> {
                let applied = match event {
                    NicknameEvent::ProbeNicknames(names) => nickname_visible(
                        names@,
                        self.probe_index,
                        self.nickname@,
                    ),
                    _ => false,
                };
                &&& r.0.stage is Finished
                &&& applied ==> reports(r.1, (true, None, None))
                &&& !applied && reboot_unsupported ==> reports(
                    r.1,
                    (true, None, Some(reboot_warning(self.nickname@))),
                )
                &&& !applied && !reboot_unsupported ==> reports(
                    r.1,
                    (false, Some(not_visible_message()), None),
                )
            },
            self.stage is Verifying ==> (reports(r.1, (true, None, None)) ==> (
            event matches NicknameEvent::ProbeNicknames(names) && self.probe_index < names@.len()
                && trimmed(names@[self.probe_index as int]@) == self.nickname@)),
            self.stage matches NicknameStage::Verifying { reboot_unsupported } ==> (!reboot_unsupported
                ==> (event matches NicknameEvent::ProbeNicknames(names) ==> (self.probe_index
                < names@.len() && trimmed(names@[self.probe_index as int]@) != self.nickname@
                ==> (r.1 matches NicknameStep::Done(res) && !res.success)))),
    {
        let probe_index = self.probe_index;
        let nickname = self.nickname;
        match self.stage {
            NicknameStage::Writing => {
                match event {
                    NicknameEvent::SessionFailed(e) => {
                        (
                            NicknameSession { probe_index, nickname, stage: NicknameStage::Finished },
                            done(false, Some(e), None),
                        )
                    },
                    NicknameEvent::SessionOutput(out) => {
                        let step = Self::after_write(probe_index, out.as_str());
                        let stage = if step.1 {
                            NicknameStage::Rebooting
                        } else {
                            NicknameStage::Finished
                        };
                        (NicknameSession { probe_index, nickname, stage }, step.0)
                    },
                    _ => {
                        proof {
                            assert(false);
                        }
                        (
                            NicknameSession { probe_index, nickname, stage: NicknameStage::Finished },
                            NicknameStep::ScanProbes,
                        )
                    },
                }
            },
            NicknameStage::Rebooting => {
                let reboot_unsupported = match event {
                    NicknameEvent::SessionOutput(out) => {
                        let o = chars_of(out.as_str());
                        !str_contains(o.as_slice(), "Rebooted successfully") && str_contains(
                            o.as_slice(),
                            "Command not supported by connected probe.",
                        )
                    },
                    _ => false,
                };
                (
                    NicknameSession {
                        probe_index,
                        nickname,
                        stage: NicknameStage::Verifying { reboot_unsupported },
                    },
                    NicknameStep::ScanProbes,
                )
            },
            NicknameStage::Verifying { reboot_unsupported } => {
                let applied = match event {
                    NicknameEvent::ProbeNicknames(names) => {
                        if probe_index < names.len() {
                            let actual = trim(chars_of(names[probe_index].as_str()).as_slice());
                            let expected = chars_of(nickname.as_str());
                            same_chars(actual.as_slice(), expected.as_slice())
                        } else {
                            false
                        }
                    },
                    _ => false,
                };
                let step = Self::after_scan(applied, reboot_unsupported, nickname.as_str());
                (NicknameSession { probe_index, nickname, stage: NicknameStage::Finished }, step)
            },
            NicknameStage::Finished => {
                proof {
                    assert(false);
                }
                (
                    NicknameSession { probe_index, nickname, stage: NicknameStage::Finished },
                    NicknameStep::ScanProbes,
                )
            },
        }
    }

    /// The step after the write session printed `stdout`, and whether the
    /// reboot session comes next.
    fn after_write(probe_index: usize, stdout: &str) -> (r: (NicknameStep, bool))
        ensures
            if has_substring(stdout@, "is not a valid nickname"@) {
                !r.1 && reports(r.0, (false, Some(invalid_nickname_message()), None))
            } else if write_failed_text(stdout@) {
                !r.1 && reports(r.0, (false, Some(rejected_message(stdout@)), None))
            } else if !write_succeeded_text(stdout@) {
                !r.1 && reports(r.0, (false, Some(unexpected_message(stdout@)), None))
            } else {
                r.1 && runs(r.0, set_nickname_reboot_text(probe_index))
            },
    {
        let out = chars_of(stdout);
        if str_contains(out.as_slice(), "is not a valid nickname") {
            let msg = "Invalid nickname: only ASCII characters, no double quotes.".to_owned();
            return (done(false, Some(msg), None), false);
        }
        if write_failed(stdout) {
            let mut msg = "J-Link rejected the nickname command: ".to_owned();
            let last = last_non_empty_line(stdout);
            push_str(&mut msg, last.as_str());
            return (done(false, Some(msg), None), false);
        }
        if !write_succeeded(stdout) {
            let mut msg = "Unexpected response from J-Link after setting nickname: ".to_owned();
            let last = last_non_empty_line(stdout);
            push_str(&mut msg, last.as_str());
            return (done(false, Some(msg), None), false);
        }
        (NicknameStep::RunSession(set_nickname_reboot(probe_index)), true)
    }

    /// The result once the scan has shown whether the nickname is visible.
    fn after_scan(applied: bool, reboot_unsupported: bool, nickname: &str) -> (r: NicknameStep)
        ensures
            applied ==> reports(r, (true, None, None)),
            !applied && reboot_unsupported ==> reports(
                r,
                (true, None, Some(reboot_warning(nickname@))),
            ),
            !applied && !reboot_unsupported ==> reports(
                r,
                (false, Some(not_visible_message()), None),
            ),
    {
        if !applied {
            if reboot_unsupported {
                let warning = if nickname.is_empty() {
                    "Nickname was cleared, but this probe firmware does not support reboot via command. Unplug and replug the probe, then press Refresh list to apply the change.".to_owned()
                } else {
                    let mut w = "Nickname was set to '".to_owned();
                    push_str(&mut w, nickname);
                    push_str(
                        &mut w,
                        "', but this probe firmware does not support reboot via command. Unplug and replug the probe, then press Refresh list to apply the change.",
                    );
                    w
                };
                return done(true, None, Some(warning));
            }
            let msg =
                "Nickname command was accepted, but the new name is not visible yet. Unplug and re-plug the probe, then refresh the list.".to_owned();
            return done(false, Some(msg), None);
        }
        done(true, None, None)
    }
}

// ─── Laws ───────────────────────────────────────────────────────────────────

/// Output that calls the nickname invalid is always reported as an invalid
/// nickname, whatever else it holds; and the invalid-nickname wording is one
/// of the refusals.
pub proof fn invalid_nickname_is_a_refusal(out: Seq<char>)
    ensures
        has_substring(out, "is not a valid nickname"@) ==> write_failed_text(out),
{
}

/// The reported line holds no leading or trailing white space and is never
/// empty: it is the last non-blank line, or `(no output)` when every line is
/// blank.
pub proof fn last_line_shape(out: Seq<char>)
    ensures
        trimmed(last_non_empty_line_text(out)) == last_non_empty_line_text(out),
        last_non_empty_line_text(out).len() > 0,
        last_non_blank(lines_of(out)) is None ==> last_non_empty_line_text(out) == "(no output)"@,
{
    reveal_strlit("(no output)");
    let fallback = "(no output)"@;
    assert(!is_ws(fallback[0]));
    assert(!is_ws(fallback[fallback.len() - 1]));
    lemma_leading(fallback, ws_pred(), 0);
    assert(fallback.skip(0) =~= fallback);
    lemma_trailing(fallback, ws_pred(), 0);
    assert(fallback.take(fallback.len() as int) =~= fallback);
    assert(fallback.skip(0).take(fallback.len() as int) =~= fallback);
    last_non_blank_is_blank_free(lines_of(out));
    if let Some(l) = last_non_blank(lines_of(out)) {
        crate::text::lemma_trimmed_idempotent(l);
    }
}

proof fn last_non_blank_is_blank_free(ls: Seq<Seq<char>>)
    ensures
        last_non_blank(ls) matches Some(l) ==> trimmed(l).len() > 0,
    decreases ls.len(),
{
    if ls.len() > 0 && trimmed(ls.last()).len() == 0 {
        last_non_blank_is_blank_free(ls.drop_last());
    }
}

/// A write counts as confirmed exactly when the output holds one of the
/// five confirmation phrases; anything else (JLink's banner alone, say) is
/// not a confirmation.
pub proof fn write_confirmed_only_by_known_phrases(out: Seq<char>)
    ensures
        write_succeeded_text(out) <==> (has_substring(out, "was set"@) || has_substring(
            out,
            "was unset"@,
        ) || has_substring(out, "Probe configured successfully"@) || has_substring(
            out,
            "Nickname set"@,
        ) || has_substring(out, "Nickname unset"@)),
{
}

/// A write counts as refused exactly when the output holds one of the five
/// refusal phrases.
pub proof fn write_refused_only_by_known_phrases(out: Seq<char>)
    ensures
        write_failed_text(out) <==> (has_substring(out, "Unknown command"@) || has_substring(
            out,
            "Syntax error"@,
        ) || has_substring(out, "not supported"@) || has_substring(
            out,
            "No emulator connected"@,
        ) || has_substring(out, "is not a valid nickname"@)),
{
}

/// The new nickname counts as visible exactly when the scan lists the probe
/// and its nickname, trimmed, is the requested one: a probe that still shows
/// another name does not count.
pub proof fn visible_means_scanned_name_matches(names: Seq<String>, index: usize, nickname: Seq<char>)
    ensures
        nickname_visible(names, index, nickname) <==> (index < names.len() && trimmed(
            names[index as int]@,
        ) == nickname),
        index < names.len() && trimmed(names[index as int]@) != nickname ==> !nickname_visible(
            names,
            index,
            nickname,
        ),
{
}

} // verus!
