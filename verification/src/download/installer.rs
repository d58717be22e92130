//! Platform-specific J-Link installation.
//!
//! On Linux the `.deb` package is installed with `pkexec dpkg -i`; on macOS
//! the `.pkg` is installed with `installer` through an administrator
//! `osascript` prompt; on Windows the silent installer runs through an
//! elevated PowerShell and is watched until the JLink DLL appears. The
//! commands run outside; this module builds them and decides, from what
//! they report, what the installation came to.

use vstd::prelude::*;
use crate::download::types::InstallResult;
use crate::jlink::nickname::opt_text;
use crate::text::{chars_of, push_char, push_str};

verus! {

broadcast use vstd::string::group_string_axioms;

/// How an installer command ended.
pub enum CommandOutcome {
    /// It ran and exited successfully.
    Succeeded,
    /// It ran and exited unsuccessfully, with this exit code if it had one.
    Failed { code: Option<i32> },
    /// It could not be run; the error as text.
    NotStarted { error: String },
}

impl InstallResult {
    /// The result as plain values: success, cancelled, message, path.
    pub open spec fn outcome(self) -> (bool, Option<bool>, Seq<char>, Option<Seq<char>>) {
        (self.success, self.cancelled, self.message@, opt_text(self.path))
    }
}

pub open spec fn installed_message() -> Seq<char> {
    "J-Link installed successfully."@
}

pub open spec fn cancelled_message() -> Seq<char> {
    "Installation cancelled."@
}

fn result(success: bool, cancelled: Option<bool>, message: &str, path: Option<String>) -> (r:
    InstallResult)
    ensures
        r.outcome() == (success, cancelled, message@, opt_text(path)),
{
    InstallResult { success, cancelled, message: message.to_owned(), path }
}

// ─── Linux ──────────────────────────────────────────────────────────────────

/// The result of `pkexec dpkg -i <installer>`: success with the directory
/// where JLink was then found; exit code 126 (the authentication dialog was
/// dismissed) means cancelled; anything else failed.
pub fn linux_install_result(outcome: CommandOutcome, found_dir: Option<String>) -> (r:
    InstallResult)
    ensures
        outcome is Succeeded ==> r.outcome() == (true, None::<bool>, installed_message(), opt_text(
            found_dir,
        )),
        outcome matches CommandOutcome::Failed { code } && code == Some(126i32) ==> r.outcome() == (
            false,
            Some(true),
            cancelled_message(),
            None::<Seq<char>>,
        ),
        !(outcome is Succeeded) && !(outcome matches CommandOutcome::Failed { code } && code
            == Some(126i32)) ==> r.outcome() == (
            false,
            None::<bool>,
            "Installation failed."@,
            None::<Seq<char>>,
        ),
{
    match outcome {
        CommandOutcome::Succeeded => result(true, None, "J-Link installed successfully.", found_dir),
        CommandOutcome::Failed { code: Some(126i32) } => result(
            false,
            Some(true),
            "Installation cancelled.",
            None,
        ),
        _ => result(false, None, "Installation failed.", None),
    }
}

// ─── macOS ──────────────────────────────────────────────────────────────────

/// The AppleScript that installs `installer_path` with administrator rights.
pub open spec fn macos_install_script_text(installer_path: Seq<char>) -> Seq<char> {
    "do shell script \"installer -pkg \\\""@ + installer_path
        + "\\\" -target /\" with administrator privileges"@
}

/// The AppleScript handed to `osascript -e` to install the package.
pub fn macos_install_script(installer_path: &str) -> (r: String)
    ensures
        r@ == macos_install_script_text(installer_path@),
{
    let mut s = "do shell script \"installer -pkg \\\"".to_owned();
    push_str(&mut s, installer_path);
    push_str(&mut s, "\\\" -target /\" with administrator privileges");
    s
}

/// The result of the `osascript` install: success with the directory where
/// JLink was then found; an unsuccessful exit means the password prompt was
/// cancelled; a command that could not run is reported with its error.
pub fn macos_install_result(outcome: CommandOutcome, found_dir: Option<String>) -> (r:
    InstallResult)
    ensures
        outcome is Succeeded ==> r.outcome() == (true, None::<bool>, installed_message(), opt_text(
            found_dir,
        )),
        outcome is Failed ==> r.outcome() == (
            false,
            Some(true),
            cancelled_message(),
            None::<Seq<char>>,
        ),
        outcome matches CommandOutcome::NotStarted { error } ==> r.outcome() == (
            false,
            None::<bool>,
            "Install failed: "@ + error@,
            None::<Seq<char>>,
        ),
{
    match outcome {
        CommandOutcome::Succeeded => result(true, None, "J-Link installed successfully.", found_dir),
        CommandOutcome::Failed { .. } => result(false, Some(true), "Installation cancelled.", None),
        CommandOutcome::NotStarted { error } => {
            let mut message = "Install failed: ".to_owned();
            push_str(&mut message, error.as_str());
            InstallResult { success: false, cancelled: None, message, path: None }
        },
    }
}

// ─── Windows ────────────────────────────────────────────────────────────────

/// `s` with each single quote written as PowerShell's escaped quote `` `' ``.
pub open spec fn ps_escaped(s: Seq<char>) -> Seq<char>
    decreases s.len(),
{
    if s.len() == 0 {
        seq![]
    } else if s.last() == '\'' {
        ps_escaped(s.drop_last()) + seq!['`', '\'']
    } else {
        ps_escaped(s.drop_last()).push(s.last())
    }
}

/// Appends `s` to `out` with single quotes escaped for PowerShell.
fn push_ps_escaped(out: &mut String, s: &str)
    ensures
        final(out)@ == old(out)@ + ps_escaped(s@),
{
    let v = chars_of(s);
    let mut i: usize = 0;
    while i < v.len()
        invariant
            v@ == s@,
            i <= v@.len(),
            out@ == old(out)@ + ps_escaped(s@.take(i as int)),
        decreases v@.len() - i,
    {
        let c = v[i];
        proof {
            assert(s@.take(i + 1).drop_last() =~= s@.take(i as int));
            assert(s@.take(i + 1).last() == c);
        }
        if c == '\'' {
            push_char(out, '`');
            push_char(out, '\'');
            assert(out@ =~= old(out)@ + ps_escaped(s@.take(i + 1)));
        } else {
            push_char(out, c);
            assert(out@ =~= old(out)@ + ps_escaped(s@.take(i + 1)));
        }
        i += 1;
    }
    assert(s@.take(v@.len() as int) =~= s@);
}

/// The PowerShell command that starts the silent installer elevated, installs
/// into `dest`, and waits for it.
pub open spec fn windows_install_command_text(installer: Seq<char>, dest: Seq<char>) -> Seq<char> {
    "Start-Process -FilePath '"@ + ps_escaped(installer) + "' -ArgumentList '/S','/D="@
        + ps_escaped(dest) + "' -Verb RunAs -Wait"@
}

/// The PowerShell `-Command` text that runs the installer; killing the
/// PowerShell child cancels the installation.
pub fn windows_install_command(installer: &str, dest: &str) -> (r: String)
    ensures
        r@ == windows_install_command_text(installer@, dest@),
{
    let mut s = "Start-Process -FilePath '".to_owned();
    push_ps_escaped(&mut s, installer);
    push_str(&mut s, "' -ArgumentList '/S','/D=");
    push_ps_escaped(&mut s, dest);
    push_str(&mut s, "' -Verb RunAs -Wait");
    s
}

/// The result when the installer's PowerShell could not be started.
pub fn windows_launch_failed(error: &str) -> (r: InstallResult)
    ensures
        r.outcome() == (false, Some(true), "Failed to launch installer: "@ + error@, None::<
            Seq<char>,
        >),
{
    let mut message = "Failed to launch installer: ".to_owned();
    push_str(&mut message, error);
    InstallResult { success: false, cancelled: Some(true), message, path: None }
}

/// What polling the installer's PowerShell child reported.
pub enum ChildState {
    /// Still running.
    Running,
    /// Exited successfully (the installer may still be finishing).
    ExitedOk,
    /// Exited unsuccessfully: elevation was denied or the installer failed.
    ExitedFailed,
    /// Its state could not be read; the error as text.
    Unreadable { error: String },
}

/// What the caller does with the child when installation ends.
pub enum Cleanup {
    /// Nothing.
    Nothing,
    /// Kill the PowerShell child.
    KillChild,
    /// Kill the PowerShell child and its whole process tree.
    KillTree,
    /// Put this JLink directory on the system PATH.
    AddToPath { dir: String },
}

/// What follows a poll.
pub enum PollStep {
    /// Installation ended: clean up, then report the result.
    Finish { result: InstallResult, cleanup: Cleanup },
    /// Installation goes on; when `check_dll` holds, look for the JLink DLL
    /// before [`WindowsInstall::finish_tick`].
    Continue { check_dll: bool },
}

/// Seconds after which a Windows installation is abandoned.
pub open spec fn install_timeout_secs() -> u64 {
    120
}

/// Watching a running Windows installation. The caller sleeps 300 ms, calls
/// [`WindowsInstall::poll`], and on `Continue` calls
/// [`WindowsInstall::finish_tick`]; the DLL is looked for every third poll,
/// about once a second.
pub struct WindowsInstall {
    /// Polls so far.
    pub ticks: u64,
}

impl WindowsInstall {
    pub fn new() -> (r: WindowsInstall)
        ensures
            r.ticks == 0,
    {
        WindowsInstall { ticks: 0 }
    }

    /// One poll. A cancel request wins: the child and its tree are killed and
    /// the installation reports itself cancelled. Otherwise a child that
    /// exited unsuccessfully means elevation was denied or the installer
    /// failed, and a child whose state cannot be read is reported with the
    /// error. Otherwise the poll is counted, and every third poll looks for
    /// the DLL.
    pub fn poll(&mut self, cancelled: bool, child: ChildState) -> (r: PollStep)
        requires
            old(self).ticks < u64::MAX,
        ensures
            cancelled ==> final(self).ticks == old(self).ticks && (r matches PollStep::Finish {
                result,
                cleanup,
            } && cleanup is KillTree && result.outcome() == (
                false,
                Some(true),
                cancelled_message(),
                None::<Seq<char>>,
            )),
            !cancelled && child is ExitedFailed ==> final(self).ticks == old(self).ticks && (
            r matches PollStep::Finish { result, cleanup } && cleanup is Nothing
                && result.outcome() == (
                false,
                Some(true),
                "UAC denied or installation failed."@,
                None::<Seq<char>>,
            )),
            !cancelled ==> (child matches ChildState::Unreadable { error } ==> final(self).ticks
                == old(self).ticks && (r matches PollStep::Finish { result, cleanup }
                && cleanup is Nothing && result.outcome() == (
                false,
                None::<bool>,
                "Process error: "@ + error@,
                None::<Seq<char>>,
            ))),
            !cancelled && (child is Running || child is ExitedOk) ==> final(self).ticks
                == old(self).ticks + 1 && r == (PollStep::Continue {
                check_dll: (old(self).ticks + 1) % 3 == 0,
            }),
    {
        if cancelled {
            return PollStep::Finish {
                result: result(false, Some(true), "Installation cancelled.", None),
                cleanup: Cleanup::KillTree,
            };
        }
        match child {
            ChildState::ExitedFailed => {
                return PollStep::Finish {
                    result: result(false, Some(true), "UAC denied or installation failed.", None),
                    cleanup: Cleanup::Nothing,
                };
            },
            ChildState::Unreadable { error } => {
                let mut message = "Process error: ".to_owned();
                push_str(&mut message, error.as_str());
                return PollStep::Finish {
                    result: InstallResult { success: false, cancelled: None, message, path: None },
                    cleanup: Cleanup::Nothing,
                };
            },
            _ => {},
        }
        self.ticks = self.ticks + 1;
        PollStep::Continue { check_dll: self.ticks % 3 == 0 }
    }

    /// The end of a poll that went on. `dll` is the JLink directory and the
    /// DLL's modification time in milliseconds since the epoch, when the DLL
    /// was looked for and found. A DLL written since the installation started
    /// (`install_start_ms`) means JLink is installed there: its directory goes
    /// on the system PATH and the installation succeeds. Otherwise, after
    /// more than 120 seconds the child is killed and the installation has
    /// timed out; before that it goes on.
    pub fn finish_tick(
        &self,
        dll: Option<(String, u128)>,
        install_start_ms: u128,
        elapsed_secs: u64,
    ) -> (r: PollStep)
        ensures
            match dll {
                Some((dir, mtime)) if mtime >= install_start_ms => r matches PollStep::Finish {
                    result,
                    cleanup,
                } && (cleanup matches Cleanup::AddToPath { dir: d } && d == dir)
                    && result.outcome() == (true, None::<bool>, installed_message(), Some(dir@)),
                _ => if elapsed_secs > install_timeout_secs() {
                    r matches PollStep::Finish { result, cleanup } && cleanup is KillChild
                        && result.outcome() == (
                        false,
                        None::<bool>,
                        "Installation timed out."@,
                        None::<Seq<char>>,
                    )
                } else {
                    r == (PollStep::Continue { check_dll: false })
                },
            },
    {
        if let Some((dir, mtime)) = dll {
            if mtime >= install_start_ms {
                let path = dir.clone();
                return PollStep::Finish {
                    result: result(true, None, "J-Link installed successfully.", Some(path)),
                    cleanup: Cleanup::AddToPath { dir },
                };
            }
        }
        if elapsed_secs > 120 {
            return PollStep::Finish {
                result: result(false, None, "Installation timed out.", None),
                cleanup: Cleanup::KillChild,
            };
        }
        PollStep::Continue { check_dll: false }
    }
}

// ─── Laws ───────────────────────────────────────────────────────────────────

/// `t` with each backtick-quote pair read back as a single quote.
pub open spec fn ps_unescaped(t: Seq<char>) -> Seq<char>
    decreases t.len(),
{
    if t.len() == 0 {
        seq![]
    } else if t.len() >= 2 && t.last() == '\'' && t[t.len() - 2] == '`' {
        ps_unescaped(t.take(t.len() - 2)).push('\'')
    } else {
        ps_unescaped(t.drop_last()).push(t.last())
    }
}

/// Every single quote in `t` is escaped by a backtick right before it, so
/// `t` cannot end a single-quoted PowerShell string early.
pub open spec fn quotes_escaped(t: Seq<char>) -> bool {
    forall|j: int| 0 <= j < t.len() && #[trigger] t[j] == '\'' ==> j > 0 && t[j - 1] == '`'
}

/// Escaping for PowerShell changes nothing but single quotes: reading the
/// escapes back gives the text, every quote in the result is escaped, and
/// text without quotes is kept as it is.
pub proof fn ps_escaping_changes_only_quotes(s: Seq<char>)
    ensures
        ps_unescaped(ps_escaped(s)) == s,
        quotes_escaped(ps_escaped(s)),
        (forall|j: int| 0 <= j < s.len() ==> s[j] != '\'') ==> ps_escaped(s) == s,
    decreases s.len(),
{
    if s.len() > 0 {
        let p = s.drop_last();
        ps_escaping_changes_only_quotes(p);
        let e = ps_escaped(p);
        if s.last() == '\'' {
            let t = e + seq!['`', '\''];
            assert(t.take(t.len() - 2) =~= e);
            assert(ps_unescaped(t) == ps_unescaped(e).push('\''));
            assert(p.push('\'') =~= s);
            assert forall|j: int| 0 <= j < t.len() && #[trigger] t[j] == '\'' implies j > 0 && t[j
                - 1] == '`' by {
                if j < e.len() {
                    assert(t[j] == e[j]);
                    assert(t[j - 1] == e[j - 1]);
                }
            }
        } else {
            let t = e.push(s.last());
            assert(t.drop_last() =~= e);
            assert(ps_unescaped(t) == ps_unescaped(e).push(s.last()));
            assert(p.push(s.last()) =~= s);
            assert forall|j: int| 0 <= j < t.len() && #[trigger] t[j] == '\'' implies j > 0 && t[j
                - 1] == '`' by {
                if j < e.len() {
                    assert(t[j] == e[j]);
                    assert(t[j - 1] == e[j - 1]);
                }
            }
            if forall|j: int| 0 <= j < s.len() ==> s[j] != '\'' {
                assert forall|j: int| 0 <= j < p.len() implies p[j] != '\'' by {
                    assert(p[j] == s[j]);
                }
                assert(t =~= s);
            }
        }
    } else {
        assert(ps_escaped(s) =~= s);
    }
}

/// The installer command quotes both the installer path and the destination
/// safely: each stands escaped inside its single quotes, with every quote in
/// it escaped, and reads back as the path that was given.
pub proof fn install_command_quotes_both_paths(installer: Seq<char>, dest: Seq<char>)
    ensures
        ({
            let x = ps_escaped(installer);
            let y = ps_escaped(dest);
            &&& windows_install_command_text(installer, dest) == "Start-Process -FilePath '"@ + x
                + "' -ArgumentList '/S','/D="@ + y + "' -Verb RunAs -Wait"@
            &&& quotes_escaped(x) && ps_unescaped(x) == installer
            &&& quotes_escaped(y) && ps_unescaped(y) == dest
        }),
{
    ps_escaping_changes_only_quotes(installer);
    ps_escaping_changes_only_quotes(dest);
}

} // verus!
