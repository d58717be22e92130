//! Steps and events shared by the platforms' PATH updaters.

use vstd::prelude::*;

verus! {

/// What the caller is to do next while putting a directory on the PATH.
pub enum PathStep {
    /// Read the current persistent PATH setting.
    ReadCurrent,
    /// Save this script to a temporary file and report the file's path.
    WriteScript { script: String },
    /// Run `program` with `args` (it asks for elevation) and report whether
    /// it succeeded.
    RunElevated { program: String, args: Vec<String> },
    /// Append this text to the user's shell profile and report whether it
    /// was written.
    AppendProfile { line: String },
    /// Report whether the directory is on the persistent PATH.
    Done(bool),
}

/// What the caller observed while doing a step.
pub enum PathEvent {
    /// The current setting, if it could be read.
    Current(Option<String>),
    /// The path of the saved script, if it could be saved.
    ScriptWritten(Option<String>),
    /// Whether the elevated command ran and succeeded.
    Elevated(bool),
    /// Whether the profile line was written.
    Appended(bool),
}

/// The texts of `v`.
pub open spec fn texts(v: Seq<String>) -> Seq<Seq<char>> {
    v.map_values(|a: String| a@)
}

/// `step` runs `program` with `args`.
pub open spec fn runs_elevated(step: PathStep, program: Seq<char>, args: Seq<Seq<char>>) -> bool {
    step matches PathStep::RunElevated { program: p, args: a } && p@ == program && texts(a@) == args
}

/// `step` appends `text` to the shell profile.
pub open spec fn appends(step: PathStep, text: Seq<char>) -> bool {
    step matches PathStep::AppendProfile { line } && line@ == text
}

/// `step` saves the script `text`.
pub open spec fn writes_script(step: PathStep, text: Seq<char>) -> bool {
    step matches PathStep::WriteScript { script } && script@ == text
}

/// The shell profile line that puts `dir` in front of the PATH.
pub open spec fn profile_line_text(dir: Seq<char>) -> Seq<char> {
    "\nexport PATH=\""@ + dir + ":$PATH\"\n"@
}

/// The shell profile line that puts `dir` in front of the PATH.
pub fn profile_line(dir: &str) -> (r: String)
    ensures
        r@ == profile_line_text(dir@),
{
    let mut s = "\nexport PATH=\"".to_owned();
    s.append(dir);
    s.append(":$PATH\"\n");
    s
}

} // verus!
