//! Linux search directories and PATH management.
//!
//! The directory goes into `/etc/environment` through a script run with
//! `pkexec`; when that fails, an `export` line goes into `~/.profile`.

use vstd::prelude::*;
use crate::platform::shared::{PathStep, PathEvent, runs_elevated, texts, appends, writes_script, profile_line, profile_line_text};
use crate::text::{has_substring, chars_of, str_contains, push_str};

verus! {

broadcast use vstd::string::group_string_axioms;

/// The directories where JLink is looked for, in order.
pub fn search_dirs() -> (r: Vec<String>)
    ensures
        r@.len() == 3,
        r@[0]@ == "/usr/bin"@,
        r@[1]@ == "/usr/local/bin"@,
        r@[2]@ == "/opt/SEGGER/JLink"@,
{
    let mut v: Vec<String> = Vec::new();
    v.push("/usr/bin".to_owned());
    v.push("/usr/local/bin".to_owned());
    v.push("/opt/SEGGER/JLink".to_owned());
    v
}

/// The script, run as root, that adds `dir` to `/etc/environment` unless it
/// is already listed there.
pub open spec fn environment_script_text(dir: Seq<char>) -> Seq<char> {
    "#!/bin/sh\nif ! grep -q '"@ + dir + "' /etc/environment; then\n    echo 'PATH=\""@ + dir
        + ":$PATH\"' >> /etc/environment\nfi"@
}

/// The script described by [`environment_script_text`].
pub fn environment_script(dir: &str) -> (r: String)
    ensures
        r@ == environment_script_text(dir@),
{
    let mut s = "#!/bin/sh\nif ! grep -q '".to_owned();
    push_str(&mut s, dir);
    push_str(&mut s, "' /etc/environment; then\n    echo 'PATH=\"");
    push_str(&mut s, dir);
    push_str(&mut s, ":$PATH\"' >> /etc/environment\nfi");
    s
}


/// Where adding a directory to the PATH stands.
pub enum LinuxPathStage {
    /// `/etc/environment` is being read.
    Reading,
    /// The script is being saved.
    Saving,
    /// The saved script runs under `pkexec`.
    Elevating,
    /// The `~/.profile` line is being appended.
    Appending,
    /// A result has been reported.
    Finished,
}

/// Adding one directory to the persistent PATH.
pub struct LinuxPathUpdate {
    pub dir: String,
    pub stage: LinuxPathStage,
}

/// The event is one that the stage waits for.
pub open spec fn accepts(stage: LinuxPathStage, event: PathEvent) -> bool {
    match stage {
        LinuxPathStage::Reading => event is Current,
        LinuxPathStage::Saving => event is ScriptWritten,
        LinuxPathStage::Elevating => event is Elevated,
        LinuxPathStage::Appending => event is Appended,
        LinuxPathStage::Finished => false,
    }
}

/// Starts adding `dir` to the persistent PATH: `/etc/environment` is read
/// first.
pub fn add_to_system_path(dir: &str) -> (r: (LinuxPathUpdate, PathStep))
    ensures
        r.0.dir@ == dir@,
        r.0.stage is Reading,
        r.1 is ReadCurrent,
{
    (LinuxPathUpdate { dir: dir.to_owned(), stage: LinuxPathStage::Reading }, PathStep::ReadCurrent)
}

impl LinuxPathUpdate {
    /// Decides what follows `event`: a `/etc/environment` that already holds
    /// the directory means done; otherwise the script is saved and run with
    /// `pkexec`, and when saving or running fails, the line goes into
    /// `~/.profile`, whose outcome is the result.
    pub fn advance(self, event: PathEvent) -> (r: (LinuxPathUpdate, PathStep))
        requires
            accepts(self.stage, event),
        ensures
            r.0.dir == self.dir,
            self.stage is Reading ==> if (event->Current_0 matches Some(c) && has_substring(
                c@,
                self.dir@,
            )) {
                r.0.stage is Finished && r.1 == PathStep::Done(true)
            } else {
                r.0.stage is Saving && writes_script(r.1, environment_script_text(self.dir@))
            },
            self.stage is Saving ==> match event->ScriptWritten_0 {
                Some(p) => r.0.stage is Elevating && runs_elevated(
                    r.1,
                    "pkexec"@,
                    seq!["sh"@, p@],
                ),
                None => r.0.stage is Appending && appends(r.1, profile_line_text(self.dir@)),
            },
            self.stage is Elevating ==> if event->Elevated_0 {
                r.0.stage is Finished && r.1 == PathStep::Done(true)
            } else {
                r.0.stage is Appending && appends(r.1, profile_line_text(self.dir@))
            },
            self.stage is Appending ==> r.0.stage is Finished && r.1 == PathStep::Done(
                event->Appended_0,
            ),
    {
        let dir = self.dir;
        match self.stage {
            LinuxPathStage::Reading => {
                let listed = match event {
                    PathEvent::Current(Some(content)) => {
                        let c = chars_of(content.as_str());
                        str_contains(c.as_slice(), dir.as_str())
                    },
                    _ => false,
                };
                if listed {
                    (LinuxPathUpdate { dir, stage: LinuxPathStage::Finished }, PathStep::Done(true))
                } else {
                    let script = environment_script(dir.as_str());
                    (
                        LinuxPathUpdate { dir, stage: LinuxPathStage::Saving },
                        PathStep::WriteScript { script },
                    )
                }
            },
            LinuxPathStage::Saving => {
                match event {
                    PathEvent::ScriptWritten(Some(path)) => {
                        let mut args: Vec<String> = Vec::new();
                        args.push("sh".to_owned());
                        args.push(path);
                        assert(texts(args@) =~= seq!["sh"@, path@]);
                        (
                            LinuxPathUpdate { dir, stage: LinuxPathStage::Elevating },
                            PathStep::RunElevated { program: "pkexec".to_owned(), args },
                        )
                    },
                    _ => {
                        let line = profile_line(dir.as_str());
                        (
                            LinuxPathUpdate { dir, stage: LinuxPathStage::Appending },
                            PathStep::AppendProfile { line },
                        )
                    },
                }
            },
            LinuxPathStage::Elevating => {
                let ok = match event {
                    PathEvent::Elevated(b) => b,
                    _ => false,
                };
                if ok {
                    (LinuxPathUpdate { dir, stage: LinuxPathStage::Finished }, PathStep::Done(true))
                } else {
                    let line = profile_line(dir.as_str());
                    (
                        LinuxPathUpdate { dir, stage: LinuxPathStage::Appending },
                        PathStep::AppendProfile { line },
                    )
                }
            },
            LinuxPathStage::Appending => {
                let ok = match event {
                    PathEvent::Appended(b) => b,
                    _ => false,
                };
                (LinuxPathUpdate { dir, stage: LinuxPathStage::Finished }, PathStep::Done(ok))
            },
            LinuxPathStage::Finished => {
                (LinuxPathUpdate { dir, stage: LinuxPathStage::Finished }, PathStep::Done(false))
            },
        }
    }
}

} // verus!
