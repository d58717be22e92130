//! Detecting the JLink installation.
//!
//! JLink is first looked for on the PATH: when the global command prints a
//! version banner, it is installed there. Otherwise the platform's search
//! directories are scanned; a directory that holds JLink is put on the PATH
//! and the global command is tried again, and when that still fails the
//! executable is run by its full path. [`DetectStage::advance`] makes these
//! decisions; the caller runs the commands and reports what they printed.

use vstd::prelude::*;
use crate::jlink::runner::{parse_version, parsed_version};
use crate::jlink::nickname::opt_text;
use crate::download::types::{TargetOs, joined, join_path};

verus! {

/// The JLink installation as detected.
pub struct InstallStatus {
    pub installed: bool,
    pub path: Option<String>,
    pub version: Option<String>,
}

impl InstallStatus {
    /// The status as plain values: installed, path, version.
    pub open spec fn outcome(self) -> (bool, Option<Seq<char>>, Option<Seq<char>>) {
        (self.installed, opt_text(self.path), opt_text(self.version))
    }
}

/// Where detection stands.
pub enum DetectStage {
    /// The global command runs; `executable` is the file name of the JLink
    /// executable on `os`, for when it has to be looked for in a directory.
    ProbingGlobal { os: TargetOs, executable: String },
    /// The global command printed `version`; its path is being looked up.
    Locating { version: String },
    /// The search directories are being scanned.
    Searching { os: TargetOs, executable: String },
    /// A directory was found and put on the PATH; the global command runs again.
    ProbingFromDir { full_path: String },
    /// The executable runs by its full path.
    ProbingFullPath { full_path: String },
    /// A status has been reported.
    Finished,
}

/// What the caller is to do next.
pub enum DetectStep {
    /// Run the global JLink command with the detection script.
    RunGlobal,
    /// Look the global command up on the PATH.
    LocateGlobal,
    /// Scan the platform's search directories for the JLink executable.
    SearchDirs,
    /// Put `dir` on this process's PATH and on the persistent system PATH,
    /// then run the global JLink command with the detection script.
    UseDir { dir: String },
    /// Run the JLink executable at `path` with the detection script.
    RunFullPath { path: String },
    /// Report this status; nothing more is to be done.
    Done(InstallStatus),
}

/// What the caller observed while doing a step.
pub enum DetectEvent {
    /// The command ran and printed this on stdout (`None`: it could not run).
    Ran(Option<String>),
    /// Where the global command lies, if it was found on the PATH.
    Located(Option<String>),
    /// The search directory that holds the JLink executable, if one does.
    Searched(Option<String>),
}

/// The version that a run's output announces, if it ran and announces one.
pub open spec fn run_version(output: Option<String>) -> Option<Seq<char>> {
    match output {
        Some(out) => parsed_version(out@),
        None => None,
    }
}

/// `step` reports the status `outcome`.
pub open spec fn reports(
    step: DetectStep,
    outcome: (bool, Option<Seq<char>>, Option<Seq<char>>),
) -> bool {
    step matches DetectStep::Done(s) && s.outcome() == outcome
}

/// The event is one that the stage waits for.
pub open spec fn accepts(stage: DetectStage, event: DetectEvent) -> bool {
    match stage {
        DetectStage::ProbingGlobal { .. } | DetectStage::ProbingFromDir { .. }
        | DetectStage::ProbingFullPath { .. } => event is Ran,
        DetectStage::Locating { .. } => event is Located,
        DetectStage::Searching { .. } => event is Searched,
        DetectStage::Finished => false,
    }
}

/// The full path of the JLink executable `executable` in the directory `dir`.
pub fn full_path(os: TargetOs, dir: &str, executable: &str) -> (r: String)
    ensures
        r@ == joined(os, dir@, executable@),
{
    join_path(os, dir, executable)
}

/// Starts detection on `os`, where the JLink executable's file name is
/// `executable`: the global command runs first.
pub fn detect(os: TargetOs, executable: &str) -> (r: (DetectStage, DetectStep))
    ensures
        r.0 matches DetectStage::ProbingGlobal { os: o, executable: e } && o == os && e@
            == executable@,
        r.1 is RunGlobal,
{
    (DetectStage::ProbingGlobal { os, executable: executable.to_owned() }, DetectStep::RunGlobal)
}

/// Detection in a directory that holds JLink: the executable's full path is
/// the directory joined with its file name, the directory goes on the PATH,
/// and the global command is tried again.
fn detect_from_dir(os: TargetOs, dir: String, executable: &str) -> (r: (DetectStage, DetectStep))
    ensures
        r.0 matches DetectStage::ProbingFromDir { full_path: f } && f@ == joined(
            os,
            dir@,
            executable@,
        ),
        r.1 matches DetectStep::UseDir { dir: d } && d == dir,
{
    let full_path = full_path(os, dir.as_str(), executable);
    (DetectStage::ProbingFromDir { full_path }, DetectStep::UseDir { dir })
}

/// The version that a run's output announces.
fn version_of(output: &Option<String>) -> (r: Option<String>)
    ensures
        opt_text(r) == run_version(*output),
{
    match output {
        Some(out) => parse_version(out.as_str()),
        None => None,
    }
}

fn done(installed: bool, path: Option<String>, version: Option<String>) -> (r: DetectStep)
    ensures
        reports(r, (installed, opt_text(path), opt_text(version))),
{
    DetectStep::Done(InstallStatus { installed, path, version })
}

impl DetectStage {
    /// Decides what follows `event`.
    ///
    /// - After the global command: a version in its output means JLink is on
    ///   the PATH, and the command's location is looked up; otherwise the
    ///   search directories are scanned.
    /// - After the lookup: installed, at the path found (if any), with that
    ///   version.
    /// - After the scan: nothing found means not installed; a found
    ///   directory is put on the PATH and the global command runs again.
    /// - After the second global run: a version means installed at the full
    ///   path with that version; otherwise the executable runs by full path.
    /// - After the full-path run: installed at the full path, with the
    ///   version its output announces, if any.
    pub fn advance(self, event: DetectEvent) -> (r: (DetectStage, DetectStep))
        requires
            accepts(self, event),
        ensures
            r.1 matches DetectStep::Done(s) ==> (!s.installed ==> s.path is None && s.version
                is None),
            self matches DetectStage::ProbingGlobal { os, executable } ==> match run_version(
                event->Ran_0,
            ) {
                Some(v) => r.1 is LocateGlobal && (r.0 matches DetectStage::Locating { version }
                    && version@ == v),
                None => r.1 is SearchDirs && (r.0 matches DetectStage::Searching {
                    os: o,
                    executable: e,
                } && o == os && e == executable),
            },
            self matches DetectStage::Locating { version } ==> r.0 is Finished && reports(
                r.1,
                (true, opt_text(event->Located_0), Some(version@)),
            ),
            self matches DetectStage::Searching { os, executable } ==> match event->Searched_0 {
                None => r.0 is Finished && reports(r.1, (false, None, None)),
                Some(dir) => (r.0 matches DetectStage::ProbingFromDir { full_path }
                    && full_path@ == joined(os, dir@, executable@)) && (
                r.1 matches DetectStep::UseDir { dir: d } && d == dir),
            },
            self matches DetectStage::ProbingFromDir { full_path } ==> match run_version(
                event->Ran_0,
            ) {
                Some(v) => r.0 is Finished && reports(r.1, (true, Some(full_path@), Some(v))),
                None => (r.0 matches DetectStage::ProbingFullPath { full_path: f } && f
                    == full_path) && (r.1 matches DetectStep::RunFullPath { path }
                    && path == full_path),
            },
            self matches DetectStage::ProbingFullPath { full_path } ==> r.0 is Finished
                && reports(r.1, (true, Some(full_path@), run_version(event->Ran_0))),
    {
        match self {
            DetectStage::ProbingGlobal { os, executable } => {
                let output = match event {
                    DetectEvent::Ran(o) => o,
                    _ => None,
                };
                match version_of(&output) {
                    Some(version) => (DetectStage::Locating { version }, DetectStep::LocateGlobal),
                    None => (DetectStage::Searching { os, executable }, DetectStep::SearchDirs),
                }
            },
            DetectStage::Locating { version } => {
                let path = match event {
                    DetectEvent::Located(p) => p,
                    _ => None,
                };
                (DetectStage::Finished, done(true, path, Some(version)))
            },
            DetectStage::Searching { os, executable } => {
                match event {
                    DetectEvent::Searched(Some(dir)) => detect_from_dir(os, dir, executable.as_str()),
                    _ => (DetectStage::Finished, done(false, None, None)),
                }
            },
            DetectStage::ProbingFromDir { full_path } => {
                let output = match event {
                    DetectEvent::Ran(o) => o,
                    _ => None,
                };
                match version_of(&output) {
                    Some(version) => (
                        DetectStage::Finished,
                        done(true, Some(full_path), Some(version)),
                    ),
                    None => {
                        let path = full_path.clone();
                        (DetectStage::ProbingFullPath { full_path }, DetectStep::RunFullPath { path })
                    },
                }
            },
            DetectStage::ProbingFullPath { full_path } => {
                let output = match event {
                    DetectEvent::Ran(o) => o,
                    _ => None,
                };
                let version = version_of(&output);
                (DetectStage::Finished, done(true, Some(full_path), version))
            },
            DetectStage::Finished => (DetectStage::Finished, done(false, None, None)),
        }
    }
}

} // verus!
