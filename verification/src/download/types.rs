//! Types and locations for downloading and installing J-Link.

use vstd::prelude::*;
use crate::text::{push_str, push_char, chars_of};

verus! {

broadcast use vstd::string::group_string_axioms;

/// Progress of a download.
#[derive(Debug, Clone)]
pub struct DownloadProgress {
    pub percent: u32,
    pub transferred: u64,
    pub total: u64,
}

/// What an installation attempt came to.
#[derive(Debug)]
pub struct InstallResult {
    pub success: bool,
    pub cancelled: Option<bool>,
    pub message: String,
    pub path: Option<String>,
}

/// What looking for an already downloaded installer found.
#[derive(Debug)]
pub struct ScanInstallerResult {
    pub found: bool,
    pub path: String,
    pub message: String,
}

/// The operating system the tool runs on.
#[derive(Debug, Clone, Copy, PartialEq, Eq, Structural)]
pub enum TargetOs {
    Windows,
    MacOs,
    Linux,
}

/// Platform-specific download configuration.
#[derive(Debug)]
pub struct DownloadConfig {
    /// Direct download URL for the installer.
    pub url: String,
    /// Save path during the download (`.tmp` extension).
    pub save_tmp: String,
    /// Final path after the rename (`.exe` / `.pkg` / `.deb`).
    pub save_final: String,
    /// Path where an existing installer is looked for.
    pub scan_path: String,
}

// ─── Paths ──────────────────────────────────────────────────────────────────

/// The separator that joining puts between path components.
pub open spec fn separator(os: TargetOs) -> char {
    if os == TargetOs::Windows {
        '\\'
    } else {
        '/'
    }
}

/// Whether `c` separates path components (Windows takes both slashes).
pub open spec fn is_separator(os: TargetOs, c: char) -> bool {
    c == '/' || (os == TargetOs::Windows && c == '\\')
}

/// `base` is a bare Windows drive such as `C:`: an ASCII letter and a colon.
pub open spec fn is_bare_drive(base: Seq<char>) -> bool {
    &&& base.len() == 2
    &&& (('A' <= base[0] && base[0] <= 'Z') || ('a' <= base[0] && base[0] <= 'z'))
    &&& base[1] == ':'
}

/// `base` joined with the relative component `name`: `name` alone when `base`
/// is empty; `base` and `name` directly when `base` already ends in a
/// separator, or on Windows when `base` is a bare drive (`C:` joined with
/// `x` is the drive-relative `C:x`); else with the platform separator
/// between them.
pub open spec fn joined(os: TargetOs, base: Seq<char>, name: Seq<char>) -> Seq<char> {
    if base.len() == 0 {
        name
    } else if is_separator(os, base.last()) {
        base + name
    } else if os == TargetOs::Windows && is_bare_drive(base) {
        base + name
    } else {
        base.push(separator(os)) + name
    }
}

/// Joins the relative component `name` onto the directory path `base`.
pub fn join_path(os: TargetOs, base: &str, name: &str) -> (r: String)
    ensures
        r@ == joined(os, base@, name@),
{
    let b = chars_of(base);
    let mut r = base.to_owned();
    let n = b.len();
    if n == 0 {
        let r2 = name.to_owned();
        return r2;
    }
    let windows = matches!(os, TargetOs::Windows);
    let last = b[n - 1];
    let is_sep = last == '/' || (windows && last == '\\');
    let bare_drive = n == 2 && (('A' <= b[0] && b[0] <= 'Z') || ('a' <= b[0] && b[0] <= 'z'))
        && b[1] == ':';
    if !is_sep && !(windows && bare_drive) {
        let sep = if windows {
            '\\'
        } else {
            '/'
        };
        push_char(&mut r, sep);
    }
    push_str(&mut r, name);
    r
}

/// The SEGGER directory: `AppData\Roaming\SEGGER` under the user profile,
/// or under the home directory when there is no user profile.
pub open spec fn segger_dir_text(user_profile: Option<Seq<char>>, home: Seq<char>) -> Seq<char> {
    let base = match user_profile {
        Some(p) => p,
        None => home,
    };
    joined(
        TargetOs::Windows,
        joined(TargetOs::Windows, joined(TargetOs::Windows, base, "AppData"@), "Roaming"@),
        "SEGGER"@,
    )
}

/// The SEGGER directory, as [`segger_dir_text`] describes it.
pub fn segger_dir(user_profile: Option<&str>, home: &str) -> (r: String)
    ensures
        r@ == segger_dir_text(
            match user_profile {
                Some(p) => Some(p@),
                None => None,
            },
            home@,
        ),
{
    let base = match user_profile {
        Some(p) => p,
        None => home,
    };
    let a = join_path(TargetOs::Windows, base, "AppData");
    let b = join_path(TargetOs::Windows, a.as_str(), "Roaming");
    join_path(TargetOs::Windows, b.as_str(), "SEGGER")
}

// ─── Download configuration ─────────────────────────────────────────────────

/// The installer's download URL for `os`.
pub open spec fn installer_url(os: TargetOs) -> Seq<char> {
    match os {
        TargetOs::Windows => "https://www.segger.com/downloads/jlink/JLink_Windows_x86_64.exe"@,
        TargetOs::MacOs => "https://www.segger.com/downloads/jlink/JLink_MacOSX_universal.pkg"@,
        TargetOs::Linux => "https://www.segger.com/downloads/jlink/JLink_Linux_x86_64.deb"@,
    }
}

/// The installer's file name for `os` without its extension.
pub open spec fn installer_stem(os: TargetOs) -> Seq<char> {
    match os {
        TargetOs::Windows => "JLink_Windows_x86_64"@,
        TargetOs::MacOs => "JLink_MacOSX_universal"@,
        TargetOs::Linux => "JLink_Linux_x86_64"@,
    }
}

/// The installer's final extension for `os`.
pub open spec fn installer_extension(os: TargetOs) -> Seq<char> {
    match os {
        TargetOs::Windows => ".exe"@,
        TargetOs::MacOs => ".pkg"@,
        TargetOs::Linux => ".deb"@,
    }
}

impl DownloadConfig {
    /// The download configuration for `os`. `dir` is where the installer is
    /// saved: the SEGGER directory ([`segger_dir`]) on Windows, the user's
    /// download directory elsewhere. The installer is downloaded to
    /// `<stem>.tmp`, renamed to `<stem><ext>`, and looked for at that name.
    pub fn for_platform(os: TargetOs, dir: &str) -> (r: DownloadConfig)
        ensures
            r.url@ == installer_url(os),
            r.save_tmp@ == joined(os, dir@, installer_stem(os) + ".tmp"@),
            r.save_final@ == joined(os, dir@, installer_stem(os) + installer_extension(os)),
            r.scan_path@ == joined(os, dir@, installer_stem(os) + installer_extension(os)),
    {
        let (url, tmp, fin) = match os {
            TargetOs::Windows => (
                "https://www.segger.com/downloads/jlink/JLink_Windows_x86_64.exe",
                "JLink_Windows_x86_64.tmp",
                "JLink_Windows_x86_64.exe",
            ),
            TargetOs::MacOs => (
                "https://www.segger.com/downloads/jlink/JLink_MacOSX_universal.pkg",
                "JLink_MacOSX_universal.tmp",
                "JLink_MacOSX_universal.pkg",
            ),
            TargetOs::Linux => (
                "https://www.segger.com/downloads/jlink/JLink_Linux_x86_64.deb",
                "JLink_Linux_x86_64.tmp",
                "JLink_Linux_x86_64.deb",
            ),
        };
        proof {
            reveal_strlit("JLink_Windows_x86_64.tmp");
            reveal_strlit("JLink_Windows_x86_64.exe");
            reveal_strlit("JLink_Windows_x86_64");
            reveal_strlit("JLink_MacOSX_universal.tmp");
            reveal_strlit("JLink_MacOSX_universal.pkg");
            reveal_strlit("JLink_MacOSX_universal");
            reveal_strlit("JLink_Linux_x86_64.tmp");
            reveal_strlit("JLink_Linux_x86_64.deb");
            reveal_strlit("JLink_Linux_x86_64");
            reveal_strlit(".tmp");
            reveal_strlit(".exe");
            reveal_strlit(".pkg");
            reveal_strlit(".deb");
            assert(tmp@ =~= installer_stem(os) + ".tmp"@);
            assert(fin@ =~= installer_stem(os) + installer_extension(os));
        }
        DownloadConfig {
            url: url.to_owned(),
            save_tmp: join_path(os, dir, tmp),
            save_final: join_path(os, dir, fin),
            scan_path: join_path(os, dir, fin),
        }
    }
}

// ─── Cached installer ───────────────────────────────────────────────────────

/// The cached installer's file name for `os`.
pub open spec fn cached_installer_name(os: TargetOs) -> Seq<char> {
    match os {
        TargetOs::MacOs => "JLink_installer.pkg"@,
        TargetOs::Windows => "JLink_installer.exe"@,
        TargetOs::Linux => "JLink_installer.deb"@,
    }
}

/// The text of [`cached_installer_path`].
pub open spec fn cached_installer_path_text(
    os: TargetOs,
    data_local_dir: Option<Seq<char>>,
    home: Seq<char>,
) -> Seq<char> {
    let data_dir = match data_local_dir {
        Some(d) => d,
        None => joined(os, joined(os, home, ".local"@), "share"@),
    };
    joined(os, joined(os, data_dir, "com.probeconfigurator.app"@), cached_installer_name(os))
}

/// The installer's cached location in the app-local data directory
/// (`~/.local/share` under the home directory when the platform names none).
///
/// Linux and macOS use this location as the source of truth after a
/// download, so that cancelling can clean up the download directory
/// without losing the cache.
pub fn cached_installer_path(os: TargetOs, data_local_dir: Option<&str>, home: &str) -> (r: String)
    ensures
        r@ == cached_installer_path_text(
            os,
            match data_local_dir {
                Some(d) => Some(d@),
                None => None,
            },
            home@,
        ),
{
    let local;
    let data_dir: &str = match data_local_dir {
        Some(d) => d,
        None => {
            let dot_local = join_path(os, home, ".local");
            local = join_path(os, dot_local.as_str(), "share");
            local.as_str()
        },
    };
    let filename = match os {
        TargetOs::MacOs => "JLink_installer.pkg",
        TargetOs::Windows => "JLink_installer.exe",
        TargetOs::Linux => "JLink_installer.deb",
    };
    let app_dir = join_path(os, data_dir, "com.probeconfigurator.app");
    join_path(os, app_dir.as_str(), filename)
}

} // verus!
