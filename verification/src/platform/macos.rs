//! macOS search directories and PATH management.
//!
//! The directory goes into `/etc/paths.d/jlink` through an administrator
//! prompt from `osascript`; when that fails, an `export` line goes into
//! `~/.zprofile`.

use vstd::prelude::*;
use crate::platform::shared::{PathStep, PathEvent, runs_elevated, texts, appends, profile_line, profile_line_text};
use crate::text::{trimmed, chars_of, trim, same_chars, push_str};

verus! {

broadcast use vstd::string::group_string_axioms;

/// The directories where JLink is looked for, in order.
pub fn search_dirs() -> (r: Vec<String>)
    ensures
        r@.len() == 3,
        r@[0]@ == "/Applications/SEGGER/JLink"@,
        r@[1]@ == "/usr/local/bin"@,
        r@[2]@ == "/opt/homebrew/bin"@,
{
    let mut v: Vec<String> = Vec::new();
    v.push("/Applications/SEGGER/JLink".to_owned());
    v.push("/usr/local/bin".to_owned());
    v.push("/opt/homebrew/bin".to_owned());
    v
}

/// The AppleScript that writes `dir` into `/etc/paths.d/jlink` with
/// administrator rights.
pub open spec fn paths_d_script_text(dir: Seq<char>) -> Seq<char> {
    "do shell script \"echo '"@ + dir + "' > /etc/paths.d/jlink\" with administrator privileges"@
}

/// The script described by [`paths_d_script_text`].
pub fn paths_d_script(dir: &str) -> (r: String)
    ensures
        r@ == paths_d_script_text(dir@),
{
    let mut s = "do shell script \"echo '".to_owned();
    push_str(&mut s, dir);
    push_str(&mut s, "' > /etc/paths.d/jlink\" with administrator privileges");
    s
}

/// Where adding a directory to the PATH stands.
pub enum MacPathStage {
    /// `/etc/paths.d/jlink` is being read.
    Reading,
    /// The `osascript` prompt runs.
    Elevating,
    /// The `~/.zprofile` line is being appended.
    Appending,
    /// A result has been reported.
    Finished,
}

/// Adding one directory to the persistent PATH.
pub struct MacPathUpdate {
    pub dir: String,
    pub stage: MacPathStage,
}

/// The event is one that the stage waits for.
pub open spec fn accepts(stage: MacPathStage, event: PathEvent) -> bool {
    match stage {
        MacPathStage::Reading => event is Current,
        MacPathStage::Elevating => event is Elevated,
        MacPathStage::Appending => event is Appended,
        MacPathStage::Finished => false,
    }
}

/// Starts adding `dir` to the persistent PATH: `/etc/paths.d/jlink` is read
/// first.
pub fn add_to_system_path(dir: &str) -> (r: (MacPathUpdate, PathStep))
    ensures
        r.0.dir@ == dir@,
        r.0.stage is Reading,
        r.1 is ReadCurrent,
{
    (MacPathUpdate { dir: dir.to_owned(), stage: MacPathStage::Reading }, PathStep::ReadCurrent)
}

impl MacPathUpdate {
    /// Decides what follows `event`: a `/etc/paths.d/jlink` that holds just
    /// the directory (ignoring surrounding white space) means done; otherwise
    /// `osascript` writes it there, and when that fails the line goes into
    /// `~/.zprofile`, whose outcome is the result.
    pub fn advance(self, event: PathEvent) -> (r: (MacPathUpdate, PathStep))
        requires
            accepts(self.stage, event),
        ensures
            r.0.dir == self.dir,
            self.stage is Reading ==> if (event->Current_0 matches Some(c) && trimmed(c@)
                == self.dir@) {
                r.0.stage is Finished && r.1 == PathStep::Done(true)
            } else {
                r.0.stage is Elevating && runs_elevated(
                    r.1,
                    "osascript"@,
                    seq!["-e"@, paths_d_script_text(self.dir@)],
                )
            },
            self.stage is Elevating ==> if event->Elevated_0 {
                r.0.stage is Finished && r.1 == PathStep::Done(true)
            } else {
                r.0.stage is Appending && appends(r.1, profile_line_text(self.dir@))
            },
            self.stage is Appending ==> r.0.stage is Finished && r.1 == PathStep::Done(
                event->Appended_0,
            ),
    {
        let dir = self.dir;
        match self.stage {
            MacPathStage::Reading => {
                let listed = match event {
                    PathEvent::Current(Some(content)) => {
                        let c = trim(chars_of(content.as_str()).as_slice());
                        let d = chars_of(dir.as_str());
                        same_chars(c.as_slice(), d.as_slice())
                    },
                    _ => false,
                };
                if listed {
                    (MacPathUpdate { dir, stage: MacPathStage::Finished }, PathStep::Done(true))
                } else {
                    let mut args: Vec<String> = Vec::new();
                    args.push("-e".to_owned());
                    let script = paths_d_script(dir.as_str());
                    let ghost sv = script@;
                    args.push(script);
                    assert(texts(args@) =~= seq!["-e"@, sv]);
                    (
                        MacPathUpdate { dir, stage: MacPathStage::Elevating },
                        PathStep::RunElevated { program: "osascript".to_owned(), args },
                    )
                }
            },
            MacPathStage::Elevating => {
                let ok = match event {
                    PathEvent::Elevated(b) => b,
                    _ => false,
                };
                if ok {
                    (MacPathUpdate { dir, stage: MacPathStage::Finished }, PathStep::Done(true))
                } else {
                    let line = profile_line(dir.as_str());
                    (
                        MacPathUpdate { dir, stage: MacPathStage::Appending },
                        PathStep::AppendProfile { line },
                    )
                }
            },
            MacPathStage::Appending => {
                let ok = match event {
                    PathEvent::Appended(b) => b,
                    _ => false,
                };
                (MacPathUpdate { dir, stage: MacPathStage::Finished }, PathStep::Done(ok))
            },
            MacPathStage::Finished => {
                (MacPathUpdate { dir, stage: MacPathStage::Finished }, PathStep::Done(false))
            },
        }
    }
}

} // verus!
