//! Windows search directories and PATH management.
//!
//! The directory is appended to the machine-wide `Path` value under
//! `HKLM\SYSTEM\CurrentControlSet\Control\Session Manager\Environment` by a
//! PowerShell script run elevated through UAC. The script reads the raw value
//! with `DoNotExpandEnvironmentNames`, so that its `REG_EXPAND_SZ` type is
//! kept.

use vstd::prelude::*;
use crate::download::types::{segger_dir, segger_dir_text};
use crate::platform::shared::{PathStep, PathEvent, runs_elevated, texts, writes_script};
use crate::text::{has_substring, occurs_at, chars_of, contains, push_str};

verus! {

broadcast use vstd::string::group_string_axioms;

/// The directories where JLink is looked for, in order: the SEGGER directory
/// under the user profile (when there is one), then the SEGGER directories
/// under Program Files.
pub fn search_dirs(user_profile: Option<&str>) -> (r: Vec<String>)
    ensures
        match user_profile {
            Some(p) => texts(r@) == seq![
                segger_dir_text(Some(p@), seq![]),
                "C:\\Program Files\\SEGGER"@,
                "C:\\Program Files (x86)\\SEGGER"@,
            ],
            None => texts(r@) == seq![
                "C:\\Program Files\\SEGGER"@,
                "C:\\Program Files (x86)\\SEGGER"@,
            ],
        },
{
    let mut dirs: Vec<String> = Vec::new();
    if let Some(profile) = user_profile {
        dirs.push(segger_dir(Some(profile), ""));
    }
    dirs.push("C:\\Program Files\\SEGGER".to_owned());
    dirs.push("C:\\Program Files (x86)\\SEGGER".to_owned());
    proof {
        match user_profile {
            Some(p) => {
                assert(texts(dirs@) =~= seq![
                    segger_dir_text(Some(p@), seq![]),
                    "C:\\Program Files\\SEGGER"@,
                    "C:\\Program Files (x86)\\SEGGER"@,
                ]);
            },
            None => {
                assert(texts(dirs@) =~= seq![
                    "C:\\Program Files\\SEGGER"@,
                    "C:\\Program Files (x86)\\SEGGER"@,
                ]);
            },
        }
    }
    dirs
}

/// `s` in lower case, as `str::to_lowercase` maps it.
pub uninterp spec fn lowercase(s: Seq<char>) -> Seq<char>;

/// `str::to_lowercase`: the Unicode lower-case mapping of `s`, which depends
/// on `s` alone.
#[verifier::external_body]
fn to_lowercase(s: &str) -> (r: String)
    ensures
        r@ == lowercase(s@),
{
    s.to_lowercase()
}

/// Whether the registry `Path` value `current` already holds `dir`, compared
/// without regard to case.
pub open spec fn path_holds(current: Seq<char>, dir: Seq<char>) -> bool {
    has_substring(lowercase(current), lowercase(dir))
}

/// Whether `current` already holds `dir`, as [`path_holds`] decides it.
pub fn path_value_holds(current: &str, dir: &str) -> (r: bool)
    ensures
        r == path_holds(current@, dir@),
{
    let c = to_lowercase(current);
    let d = to_lowercase(dir);
    let cc = chars_of(c.as_str());
    let dc = chars_of(d.as_str());
    contains(cc.as_slice(), dc.as_slice())
}

/// The PowerShell script text before the directory.
pub open spec fn update_script_head() -> Seq<char> {
    "\n$reg = 'HKLM:\\SYSTEM\\CurrentControlSet\\Control\\Session Manager\\Environment'\n$raw = (Get-Item -LiteralPath $reg).GetValue('Path', $null, [Microsoft.Win32.RegistryValueOptions]::DoNotExpandEnvironmentNames)\nif ($null -eq $raw -or $raw.Length -eq 0) { Write-Host 'ERROR: empty PATH'; exit 1 }\n$dir = '"@
}

/// The PowerShell script text after the directory.
pub open spec fn update_script_tail() -> Seq<char> {
    "'\nif ($raw -notlike \"*$dir*\") {\n    $new = $raw.TrimEnd(';') + ';' + $dir\n    Set-ItemProperty -LiteralPath $reg -Name 'Path' -Value $new\n    $r = [UIntPtr]::Zero\n    Add-Type -TypeDefinition 'using System;using System.Runtime.InteropServices;public class B{[DllImport(\"user32.dll\")]public static extern IntPtr SendMessageTimeout(IntPtr h,uint m,UIntPtr w,string l,uint f,uint t,out UIntPtr r);}'\n    [B]::SendMessageTimeout([IntPtr]0xFFFF,0x1A,[UIntPtr]::Zero,'Environment',2,5000,[ref]$r)\n    Write-Host 'Updated'\n} else { Write-Host 'AlreadyPresent' }\n"@
}

/// The PowerShell script that appends `dir` to the machine `Path` value
/// unless it is already there, keeps the value's type, and tells running
/// programs that the environment changed.
pub open spec fn update_script_text(dir: Seq<char>) -> Seq<char> {
    update_script_head() + dir + update_script_tail()
}

/// The script described by [`update_script_text`].
pub fn update_script(dir: &str) -> (r: String)
    ensures
        r@ == update_script_text(dir@),
{
    let mut s = "\n$reg = 'HKLM:\\SYSTEM\\CurrentControlSet\\Control\\Session Manager\\Environment'\n$raw = (Get-Item -LiteralPath $reg).GetValue('Path', $null, [Microsoft.Win32.RegistryValueOptions]::DoNotExpandEnvironmentNames)\nif ($null -eq $raw -or $raw.Length -eq 0) { Write-Host 'ERROR: empty PATH'; exit 1 }\n$dir = '".to_owned();
    push_str(&mut s, dir);
    push_str(
        &mut s,
        "'\nif ($raw -notlike \"*$dir*\") {\n    $new = $raw.TrimEnd(';') + ';' + $dir\n    Set-ItemProperty -LiteralPath $reg -Name 'Path' -Value $new\n    $r = [UIntPtr]::Zero\n    Add-Type -TypeDefinition 'using System;using System.Runtime.InteropServices;public class B{[DllImport(\"user32.dll\")]public static extern IntPtr SendMessageTimeout(IntPtr h,uint m,UIntPtr w,string l,uint f,uint t,out UIntPtr r);}'\n    [B]::SendMessageTimeout([IntPtr]0xFFFF,0x1A,[UIntPtr]::Zero,'Environment',2,5000,[ref]$r)\n    Write-Host 'Updated'\n} else { Write-Host 'AlreadyPresent' }\n",
    );
    s
}

/// The PowerShell command that runs the saved script at `script_path` in an
/// elevated PowerShell and waits for it.
pub open spec fn elevate_command_text(script_path: Seq<char>) -> Seq<char> {
    "Start-Process powershell -ArgumentList '-NoProfile -NonInteractive -ExecutionPolicy Bypass -File \""@
        + script_path + "\"' -Verb RunAs -Wait"@
}

/// The command described by [`elevate_command_text`].
pub fn elevate_command(script_path: &str) -> (r: String)
    ensures
        r@ == elevate_command_text(script_path@),
{
    let mut s =
        "Start-Process powershell -ArgumentList '-NoProfile -NonInteractive -ExecutionPolicy Bypass -File \"".to_owned();
    push_str(&mut s, script_path);
    push_str(&mut s, "\"' -Verb RunAs -Wait");
    s
}

/// The arguments of the hidden PowerShell that runs `command`.
pub open spec fn hidden_powershell_args(command: Seq<char>) -> Seq<Seq<char>> {
    seq!["-NoProfile"@, "-WindowStyle"@, "Hidden"@, "-Command"@, command]
}

/// Where adding a directory to the PATH stands.
pub enum WindowsPathStage {
    /// The registry `Path` value is being read.
    Reading,
    /// The update script is being saved.
    Saving,
    /// The script runs elevated.
    Elevating,
    /// A result has been reported.
    Finished,
}

/// Adding one directory to the machine-wide PATH.
pub struct WindowsPathUpdate {
    pub dir: String,
    pub stage: WindowsPathStage,
}

/// The event is one that the stage waits for.
pub open spec fn accepts(stage: WindowsPathStage, event: PathEvent) -> bool {
    match stage {
        WindowsPathStage::Reading => event is Current,
        WindowsPathStage::Saving => event is ScriptWritten,
        WindowsPathStage::Elevating => event is Elevated,
        WindowsPathStage::Finished => false,
    }
}

/// Starts adding `dir` to the machine-wide PATH: the registry value is read
/// first.
pub fn add_to_system_path(dir: &str) -> (r: (WindowsPathUpdate, PathStep))
    ensures
        r.0.dir@ == dir@,
        r.0.stage is Reading,
        r.1 is ReadCurrent,
{
    (WindowsPathUpdate { dir: dir.to_owned(), stage: WindowsPathStage::Reading }, PathStep::ReadCurrent)
}

impl WindowsPathUpdate {
    /// Decides what follows `event`: a registry value that already holds the
    /// directory (in any case) means done; otherwise the update script is
    /// saved and run elevated, and the result is whether that succeeded (a
    /// script that could not be saved means not persisted).
    pub fn advance(self, event: PathEvent) -> (r: (WindowsPathUpdate, PathStep))
        requires
            accepts(self.stage, event),
        ensures
            r.0.dir == self.dir,
            self.stage is Reading ==> if (event->Current_0 matches Some(c) && path_holds(
                c@,
                self.dir@,
            )) {
                r.0.stage is Finished && r.1 == PathStep::Done(true)
            } else {
                r.0.stage is Saving && writes_script(r.1, update_script_text(self.dir@))
            },
            self.stage is Saving ==> match event->ScriptWritten_0 {
                Some(p) => r.0.stage is Elevating && runs_elevated(
                    r.1,
                    "powershell"@,
                    hidden_powershell_args(elevate_command_text(p@)),
                ),
                None => r.0.stage is Finished && r.1 == PathStep::Done(false),
            },
            self.stage is Elevating ==> r.0.stage is Finished && r.1 == PathStep::Done(
                event->Elevated_0,
            ),
    {
        let dir = self.dir;
        match self.stage {
            WindowsPathStage::Reading => {
                let listed = match event {
                    PathEvent::Current(Some(current)) => path_value_holds(current.as_str(), dir.as_str()),
                    _ => false,
                };
                if listed {
                    (WindowsPathUpdate { dir, stage: WindowsPathStage::Finished }, PathStep::Done(true))
                } else {
                    let script = update_script(dir.as_str());
                    (
                        WindowsPathUpdate { dir, stage: WindowsPathStage::Saving },
                        PathStep::WriteScript { script },
                    )
                }
            },
            WindowsPathStage::Saving => {
                match event {
                    PathEvent::ScriptWritten(Some(path)) => {
                        let command = elevate_command(path.as_str());
                        let ghost cv = command@;
                        let mut args: Vec<String> = Vec::new();
                        args.push("-NoProfile".to_owned());
                        args.push("-WindowStyle".to_owned());
                        args.push("Hidden".to_owned());
                        args.push("-Command".to_owned());
                        args.push(command);
                        assert(texts(args@) =~= hidden_powershell_args(cv));
                        (
                            WindowsPathUpdate { dir, stage: WindowsPathStage::Elevating },
                            PathStep::RunElevated { program: "powershell".to_owned(), args },
                        )
                    },
                    _ => (WindowsPathUpdate { dir, stage: WindowsPathStage::Finished }, PathStep::Done(false)),
                }
            },
            WindowsPathStage::Elevating => {
                let ok = match event {
                    PathEvent::Elevated(b) => b,
                    _ => false,
                };
                (WindowsPathUpdate { dir, stage: WindowsPathStage::Finished }, PathStep::Done(ok))
            },
            WindowsPathStage::Finished => {
                (WindowsPathUpdate { dir, stage: WindowsPathStage::Finished }, PathStep::Done(false))
            },
        }
    }
}

// ─── Laws ───────────────────────────────────────────────────────────────────

/// The update script sets `$dir` to the directory, and appends it to the raw
/// `Path` value (after trimming trailing `;`) exactly when that value does
/// not already hold it; otherwise it only reports that it is present.
pub proof fn update_script_appends_only_when_missing(dir: Seq<char>)
    ensures
        has_substring(update_script_text(dir), "$dir = '"@ + dir + "'\n"@),
        has_substring(update_script_text(dir), "if ($raw -notlike \"*$dir*\") {\n    $new = $raw.TrimEnd(';') + ';' + $dir\n    Set-ItemProperty -LiteralPath $reg -Name 'Path' -Value $new\n"@),
        has_substring(update_script_text(dir), "} else { Write-Host 'AlreadyPresent' }\n"@),
{
    reveal_strlit("\n$reg = 'HKLM:\\SYSTEM\\CurrentControlSet\\Control\\Session Manager\\Environment'\n$raw = (Get-Item -LiteralPath $reg).GetValue('Path', $null, [Microsoft.Win32.RegistryValueOptions]::DoNotExpandEnvironmentNames)\nif ($null -eq $raw -or $raw.Length -eq 0) { Write-Host 'ERROR: empty PATH'; exit 1 }\n$dir = '");
    reveal_strlit("'\nif ($raw -notlike \"*$dir*\") {\n    $new = $raw.TrimEnd(';') + ';' + $dir\n    Set-ItemProperty -LiteralPath $reg -Name 'Path' -Value $new\n    $r = [UIntPtr]::Zero\n    Add-Type -TypeDefinition 'using System;using System.Runtime.InteropServices;public class B{[DllImport(\"user32.dll\")]public static extern IntPtr SendMessageTimeout(IntPtr h,uint m,UIntPtr w,string l,uint f,uint t,out UIntPtr r);}'\n    [B]::SendMessageTimeout([IntPtr]0xFFFF,0x1A,[UIntPtr]::Zero,'Environment',2,5000,[ref]$r)\n    Write-Host 'Updated'\n} else { Write-Host 'AlreadyPresent' }\n");
    reveal_strlit("$dir = '");
    reveal_strlit("'\n");
    reveal_strlit("if ($raw -notlike \"*$dir*\") {\n    $new = $raw.TrimEnd(';') + ';' + $dir\n    Set-ItemProperty -LiteralPath $reg -Name 'Path' -Value $new\n");
    reveal_strlit("} else { Write-Host 'AlreadyPresent' }\n");
    let h = update_script_head();
    let t = update_script_tail();
    let s = update_script_text(dir);
    let d = "$dir = '"@ + dir + "'\n"@;
    let hn = h.len() as int;
    assert(h.subrange(hn - 8, hn) =~= "$dir = '"@);
    assert(s.subrange(hn - 8, hn - 8 + d.len()) =~= d);
    assert(occurs_at(s, d, hn - 8));
    let g = "if ($raw -notlike \"*$dir*\") {\n    $new = $raw.TrimEnd(';') + ';' + $dir\n    Set-ItemProperty -LiteralPath $reg -Name 'Path' -Value $new\n"@;
    let base = hn + dir.len() + 2;
    assert(t.subrange(2, 2int + g.len()) =~= g);
    assert(s.subrange(base, base + g.len()) =~= g);
    assert(occurs_at(s, g, base));
    let o = "} else { Write-Host 'AlreadyPresent' }\n"@;
    let tn = t.len() as int;
    assert(t.subrange(tn - o.len(), tn) =~= o);
    let sn = s.len() as int;
    assert(s.subrange(sn - o.len(), sn) =~= o);
    assert(occurs_at(s, o, sn - o.len()));
}

} // verus!
