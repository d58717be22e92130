//! JLink Commander command scripts.
//!
//! JLink Commander reads commands from stdin when launched with `-NoGUI 1`.
//! Commands are newline-separated and `exit` terminates the session. Every
//! script the probe tools send is built here, and each builder's contract
//! gives the exact text it produces.

use vstd::prelude::*;
use crate::text::{decimal, lines_of, strip_cr, lemma_lines_cons, lemma_decimal_plain, lemma_leading_bound, lemma_trailing_bound, ws_pred, leading, trailing, trimmed, push_str, push_decimal, chars_of, trim, push_chars, lemma_trimmed_idempotent};

verus! {

broadcast use vstd::string::group_string_axioms;

/// `t` is a suffix of `s`.
pub open spec fn ends_with(s: Seq<char>, t: Seq<char>) -> bool {
    t.len() <= s.len() && s.skip(s.len() - t.len()) == t
}

/// A script that selects one probe by index: `head`, the index in decimal,
/// then `tail`.
pub open spec fn probe_script(head: Seq<char>, probe_index: usize, tail: Seq<char>) -> Seq<char> {
    head + decimal(probe_index as nat) + tail
}

/// Builds `head`, the decimal index, then `tail`.
fn probe_session(head: &str, probe_index: usize, tail: &str) -> (r: String)
    ensures
        r@ == probe_script(head@, probe_index, tail@),
{
    let mut s = head.to_owned();
    push_decimal(&mut s, probe_index);
    push_str(&mut s, tail);
    s
}

// ─── Detection ──────────────────────────────────────────────────────────────

/// Probe version banner: used to detect JLink and to read its version.
pub fn detect() -> (r: &'static str)
    ensures
        r@ == "\n\nExit\n"@,
{
    "\n\nExit\n"
}

// ─── Scan ───────────────────────────────────────────────────────────────────

/// Lists all connected probes.
pub fn show_emu_list() -> (r: &'static str)
    ensures
        r@ == "ShowEmuList\nExit\n"@,
{
    "ShowEmuList\nExit\n"
}

/// One `selectprobe` command for each of the probe indices `0..n`.
pub open spec fn select_each(n: nat) -> Seq<char>
    decreases n,
{
    if n == 0 {
        seq![]
    } else {
        select_each((n - 1) as nat) + "selectprobe\n"@ + decimal((n - 1) as nat) + "\n"@
    }
}

/// The text of [`fetch_firmware_dates`].
pub open spec fn fetch_firmware_dates_text(count: usize) -> Seq<char> {
    "exec DisableAutoUpdateFW\n"@ + select_each(count as nat) + "exit\n"@
}

/// Fetches firmware dates for `count` probes by selecting each one by index.
pub fn fetch_firmware_dates(count: usize) -> (r: String)
    ensures
        r@ == fetch_firmware_dates_text(count),
{
    let mut s = "exec DisableAutoUpdateFW\n".to_owned();
    let ghost head = "exec DisableAutoUpdateFW\n"@;
    let mut i: usize = 0;
    while i < count
        invariant
            i <= count,
            head == "exec DisableAutoUpdateFW\n"@,
            s@ == head + select_each(i as nat),
        decreases count - i,
    {
        let ghost before = s@;
        push_str(&mut s, "selectprobe\n");
        push_decimal(&mut s, i);
        push_str(&mut s, "\n");
        proof {
            assert(select_each((i + 1) as nat) == select_each(i as nat) + "selectprobe\n"@
                + decimal(i as nat) + "\n"@);
            assert(s@ =~= head + select_each((i + 1) as nat));
        }
        i += 1;
    }
    push_str(&mut s, "exit\n");
    s
}

// ─── Nickname ───────────────────────────────────────────────────────────────

/// The text of [`set_nickname_write`].
pub open spec fn set_nickname_write_text(probe_index: usize, nickname: Seq<char>) -> Seq<char> {
    probe_script(
        "exec DisableAutoUpdateFW\nselectprobe\n"@,
        probe_index,
        "\nsetnickname "@ + trimmed(nickname) + "\nsleep 100\nexit\n"@,
    )
}

/// Session 1: selects the probe and writes its nickname, then exits.
///
/// The nickname is trimmed first; an empty nickname clears the stored one
/// (`setnickname ` with nothing after it). This must be a session of its
/// own: when stdin is piped, a reboot in the same session as `setnickname`
/// exits before the probe completes its power cycle, and the nickname is
/// not applied.
///
/// Expected output: "was set" / "was unset".
/// Error output: "is not a valid nickname".
pub fn set_nickname_write(probe_index: usize, nickname: &str) -> (r: String)
    ensures
        r@ == set_nickname_write_text(probe_index, nickname@),
{
    let chars = chars_of(nickname);
    let name = trim(chars.as_slice());
    let mut tail = "\nsetnickname ".to_owned();
    push_chars(&mut tail, name.as_slice());
    push_str(&mut tail, "\nsleep 100\nexit\n");
    probe_session("exec DisableAutoUpdateFW\nselectprobe\n", probe_index, tail.as_str())
}

/// The text of [`set_nickname_reboot`].
pub open spec fn set_nickname_reboot_text(probe_index: usize) -> Seq<char> {
    probe_script(
        "exec DisableAutoUpdateFW\nselectprobe\n"@,
        probe_index,
        "\nreboot\nsleep 100\nexit\n"@,
    )
}

/// Session 2: selects the probe and reboots it so that a new nickname takes
/// effect. Run in a fresh session after [`set_nickname_write`] completes, so
/// that JLink waits for the full reboot cycle.
///
/// Expected output: "Rebooted successfully".
pub fn set_nickname_reboot(probe_index: usize) -> (r: String)
    ensures
        r@ == set_nickname_reboot_text(probe_index),
{
    probe_session("exec DisableAutoUpdateFW\nselectprobe\n", probe_index, "\nreboot\nsleep 100\nexit\n")
}

// ─── Firmware ───────────────────────────────────────────────────────────────

/// The text of [`update_firmware`].
pub open spec fn update_firmware_text(probe_index: usize) -> Seq<char> {
    probe_script("exec EnableAutoUpdateFW\nselectprobe\n"@, probe_index, "\nexit\n"@)
}

/// Triggers a firmware update for the probe at `probe_index`:
/// `exec EnableAutoUpdateFW` makes JLink flash newer firmware when there is any.
///
/// Expected output if updated: "New firmware booted successfully".
/// Expected output if current: contains "Firmware: ... compiled ...".
pub fn update_firmware(probe_index: usize) -> (r: String)
    ensures
        r@ == update_firmware_text(probe_index),
{
    probe_session("exec EnableAutoUpdateFW\nselectprobe\n", probe_index, "\nexit\n")
}

// ─── USB driver ─────────────────────────────────────────────────────────────

/// The text of a USB driver switch session that runs `command` on the probe.
pub open spec fn usb_driver_text(probe_index: usize, command: Seq<char>) -> Seq<char> {
    probe_script(
        "exec DisableAutoUpdateFW\nselectprobe\n"@,
        probe_index,
        "\n"@ + command + "\nsleep 100\nexit\n"@,
    )
}

/// Session 1: switches the probe to the WinUSB driver with `WebUSBEnable`.
/// Must be followed by [`set_usb_driver_reboot`] in a separate session.
///
/// Expected output: "Probe configured successfully."
pub fn set_usb_driver_webusb(probe_index: usize) -> (r: String)
    ensures
        r@ == usb_driver_text(probe_index, "WebUSBEnable"@),
{
    let r = probe_session(
        "exec DisableAutoUpdateFW\nselectprobe\n",
        probe_index,
        "\nWebUSBEnable\nsleep 100\nexit\n",
    );
    proof {
        reveal_strlit("\nWebUSBEnable\nsleep 100\nexit\n");
        reveal_strlit("\n");
        reveal_strlit("WebUSBEnable");
        reveal_strlit("\nsleep 100\nexit\n");
        assert("\nWebUSBEnable\nsleep 100\nexit\n"@ =~= "\n"@ + "WebUSBEnable"@
            + "\nsleep 100\nexit\n"@);
    }
    r
}

/// Session 1: switches the probe back to the SEGGER USB driver with
/// `WebUSBDisable`. Must be followed by [`set_usb_driver_reboot`] in a
/// separate session.
///
/// Expected output: "Probe configured successfully."
pub fn set_usb_driver_segger(probe_index: usize) -> (r: String)
    ensures
        r@ == usb_driver_text(probe_index, "WebUSBDisable"@),
{
    let r = probe_session(
        "exec DisableAutoUpdateFW\nselectprobe\n",
        probe_index,
        "\nWebUSBDisable\nsleep 100\nexit\n",
    );
    proof {
        reveal_strlit("\nWebUSBDisable\nsleep 100\nexit\n");
        reveal_strlit("\n");
        reveal_strlit("WebUSBDisable");
        reveal_strlit("\nsleep 100\nexit\n");
        assert("\nWebUSBDisable\nsleep 100\nexit\n"@ =~= "\n"@ + "WebUSBDisable"@
            + "\nsleep 100\nexit\n"@);
    }
    r
}

/// Session 1 fallback: switches the probe to the WinUSB driver with
/// `WinUSBEnable`, for JLink versions without `WebUSBEnable`.
pub fn set_usb_driver_winusb_enable(probe_index: usize) -> (r: String)
    ensures
        r@ == usb_driver_text(probe_index, "WinUSBEnable"@),
{
    let r = probe_session(
        "exec DisableAutoUpdateFW\nselectprobe\n",
        probe_index,
        "\nWinUSBEnable\nsleep 100\nexit\n",
    );
    proof {
        reveal_strlit("\nWinUSBEnable\nsleep 100\nexit\n");
        reveal_strlit("\n");
        reveal_strlit("WinUSBEnable");
        reveal_strlit("\nsleep 100\nexit\n");
        assert("\nWinUSBEnable\nsleep 100\nexit\n"@ =~= "\n"@ + "WinUSBEnable"@
            + "\nsleep 100\nexit\n"@);
    }
    r
}

/// Session 1 fallback: switches the probe back to the SEGGER USB driver with
/// `WinUSBDisable`, for JLink versions without `WebUSBDisable`.
pub fn set_usb_driver_winusb_disable(probe_index: usize) -> (r: String)
    ensures
        r@ == usb_driver_text(probe_index, "WinUSBDisable"@),
{
    let r = probe_session(
        "exec DisableAutoUpdateFW\nselectprobe\n",
        probe_index,
        "\nWinUSBDisable\nsleep 100\nexit\n",
    );
    proof {
        reveal_strlit("\nWinUSBDisable\nsleep 100\nexit\n");
        reveal_strlit("\n");
        reveal_strlit("WinUSBDisable");
        reveal_strlit("\nsleep 100\nexit\n");
        assert("\nWinUSBDisable\nsleep 100\nexit\n"@ =~= "\n"@ + "WinUSBDisable"@
            + "\nsleep 100\nexit\n"@);
    }
    r
}

/// The text of [`set_usb_driver_reboot`].
pub open spec fn set_usb_driver_reboot_text(probe_index: usize) -> Seq<char> {
    probe_script(
        "exec DisableAutoUpdateFW\nselectprobe\n"@,
        probe_index,
        "\nreboot\nsleep 100\nexit\n"@,
    )
}

/// Session 2: reboots the probe so that a USB driver change takes effect.
/// Like [`set_nickname_reboot`], this must be a fresh session.
pub fn set_usb_driver_reboot(probe_index: usize) -> (r: String)
    ensures
        r@ == set_usb_driver_reboot_text(probe_index),
{
    probe_session("exec DisableAutoUpdateFW\nselectprobe\n", probe_index, "\nreboot\nsleep 100\nexit\n")
}

// ─── Laws ───────────────────────────────────────────────────────────────────

/// The USB driver reboot session is the same script as the nickname reboot
/// session.
pub proof fn usb_driver_reboot_is_nickname_reboot(probe_index: usize)
    ensures
        set_usb_driver_reboot_text(probe_index) == set_nickname_reboot_text(probe_index),
{
}

/// The nickname is trimmed before it is written: a nickname and its trimmed
/// form give the same script.
pub proof fn nickname_write_ignores_surrounding_whitespace(probe_index: usize, nickname: Seq<char>)
    ensures
        set_nickname_write_text(probe_index, nickname) == set_nickname_write_text(
            probe_index,
            trimmed(nickname),
        ),
{
    lemma_trimmed_idempotent(nickname);
}

/// Every session script ends with the command that closes the session.
pub proof fn sessions_end_with_exit(probe_index: usize, count: usize, nickname: Seq<char>)
    ensures
        ends_with(fetch_firmware_dates_text(count), "exit\n"@),
        ends_with(set_nickname_write_text(probe_index, nickname), "exit\n"@),
        ends_with(set_nickname_reboot_text(probe_index), "exit\n"@),
        ends_with(update_firmware_text(probe_index), "exit\n"@),
        ends_with(usb_driver_text(probe_index, "WebUSBEnable"@), "exit\n"@),
        ends_with(usb_driver_text(probe_index, "WebUSBDisable"@), "exit\n"@),
        ends_with(usb_driver_text(probe_index, "WinUSBEnable"@), "exit\n"@),
        ends_with(usb_driver_text(probe_index, "WinUSBDisable"@), "exit\n"@),
        ends_with(set_usb_driver_reboot_text(probe_index), "exit\n"@),
        ends_with("\n\nExit\n"@, "Exit\n"@),
        ends_with("ShowEmuList\nExit\n"@, "Exit\n"@),
{
    reveal_strlit("exit\n");
    reveal_strlit("Exit\n");
    reveal_strlit("\n\nExit\n");
    reveal_strlit("ShowEmuList\nExit\n");
    reveal_strlit("\nexit\n");
    reveal_strlit("\nsleep 100\nexit\n");
    reveal_strlit("\nreboot\nsleep 100\nexit\n");
    let e = "exit\n"@;
    assert forall|a: Seq<char>, b: Seq<char>| #[trigger] ends_with(a + b + e, e) by {
        assert((a + b + e).skip((a + b + e).len() - e.len()) =~= e);
    }
    assert forall|a: Seq<char>| #[trigger] ends_with(a + e, e) by {
        assert((a + e).skip((a + e).len() - e.len()) =~= e);
    }
    assert("\nexit\n"@ =~= "\n"@ + e) by {
        reveal_strlit("\n");
    }
    assert("\nsleep 100\nexit\n"@ =~= "\nsleep 100\n"@ + e) by {
        reveal_strlit("\nsleep 100\n");
    }
    assert("\nreboot\nsleep 100\nexit\n"@ =~= "\nreboot\nsleep 100\n"@ + e) by {
        reveal_strlit("\nreboot\nsleep 100\n");
    }
    assert forall|a: Seq<char>, b: Seq<char>| #[trigger] ends_with(a + (b + "\nsleep 100\nexit\n"@), e) by {
        assert(a + (b + "\nsleep 100\nexit\n"@) =~= (a + b + "\nsleep 100\n"@) + e);
        assert(ends_with((a + b + "\nsleep 100\n"@) + e, e));
    }
    assert forall|a: Seq<char>| #[trigger] ends_with(a + "\nexit\n"@, e) by {
        assert(a + "\nexit\n"@ =~= (a + "\n"@) + e);
        assert(ends_with((a + "\n"@) + e, e));
    }
    assert forall|a: Seq<char>| #[trigger] ends_with(a + "\nreboot\nsleep 100\nexit\n"@, e) by {
        assert(a + "\nreboot\nsleep 100\nexit\n"@ =~= (a + "\nreboot\nsleep 100\n"@) + e);
        assert(ends_with((a + "\nreboot\nsleep 100\n"@) + e, e));
    }
    let n = "\n"@;
    let sl = "\nsleep 100\nexit\n"@;
    assert(ends_with(set_nickname_write_text(probe_index, nickname), e)) by {
        let h = "exec DisableAutoUpdateFW\nselectprobe\n"@ + decimal(probe_index as nat);
        let b = "\nsetnickname "@ + trimmed(nickname);
        assert(set_nickname_write_text(probe_index, nickname) =~= h + (b + sl));
    }
    assert forall|c: Seq<char>| #[trigger] ends_with(usb_driver_text(probe_index, c), e) by {
        let h = "exec DisableAutoUpdateFW\nselectprobe\n"@ + decimal(probe_index as nat);
        assert(usb_driver_text(probe_index, c) =~= h + ((n + c) + sl));
    }
    assert("\n\nExit\n"@ =~= "\n\n"@ + "Exit\n"@) by {
        reveal_strlit("\n\n");
    }
    assert("ShowEmuList\nExit\n"@ =~= "ShowEmuList\n"@ + "Exit\n"@) by {
        reveal_strlit("ShowEmuList\n");
    }
    let x = "Exit\n"@;
    assert(("\n\n"@ + x).skip(("\n\n"@ + x).len() - x.len()) =~= x);
    assert(("ShowEmuList\n"@ + x).skip(("ShowEmuList\n"@ + x).len() - x.len()) =~= x);
}


/// The nickname write session and the reboot session are separate: a
/// nickname without a line break in it is written by a session whose
/// commands are exactly these, with no `reboot` among them.
pub proof fn nickname_write_session_commands(probe_index: usize, nickname: Seq<char>)
    requires
        forall|j: int| 0 <= j < trimmed(nickname).len() ==> trimmed(nickname)[j] != '\n',
    ensures
        lines_of(set_nickname_write_text(probe_index, nickname)) == seq![
            "exec DisableAutoUpdateFW"@,
            "selectprobe"@,
            decimal(probe_index as nat),
            "setnickname "@ + trimmed(nickname),
            "sleep 100"@,
            "exit"@,
        ],
{
    let nick = trimmed(nickname);
    trimmed_has_no_trailing_cr(nickname);
    let nl = seq!['\n'];
    let a1 = "exec DisableAutoUpdateFW"@;
    let a2 = "selectprobe"@;
    let d = decimal(probe_index as nat);
    let a4 = "setnickname "@ + nick;
    let a5 = "sleep 100"@;
    let a6 = "exit"@;
    reveal_strlit("exec DisableAutoUpdateFW");
    reveal_strlit("selectprobe");
    reveal_strlit("setnickname ");
    reveal_strlit("sleep 100");
    reveal_strlit("exit");
    reveal_strlit("exec DisableAutoUpdateFW\nselectprobe\n");
    reveal_strlit("\nsetnickname ");
    reveal_strlit("\nsleep 100\nexit\n");
    let e: Seq<char> = seq![];
    let t6 = a6 + nl + e;
    let t5 = a5 + nl + t6;
    let t4 = a4 + nl + t5;
    let t3 = d + nl + t4;
    let t2 = a2 + nl + t3;
    let t1 = a1 + nl + t2;
    assert(set_nickname_write_text(probe_index, nickname) =~= t1);
    lemma_decimal_plain(probe_index as nat);
    assert forall|j: int| 0 <= j < a4.len() implies a4[j] != '\n' by {
        if j >= 12 {
            assert(a4[j] == nick[j - 12]);
        }
    }
    lemma_lines_cons(a6, e);
    lemma_lines_cons(a5, t6);
    lemma_lines_cons(a4, t5);
    lemma_lines_cons(d, t4);
    lemma_lines_cons(a2, t3);
    lemma_lines_cons(a1, t2);
    assert(strip_cr(a1) == a1);
    assert(strip_cr(a2) == a2);
    assert(d.len() > 0);
    assert(strip_cr(d) == d);
    if nick.len() > 0 {
        assert(a4.last() == nick.last());
    }
    assert(strip_cr(a4) == a4);
    assert(strip_cr(a5) == a5);
    assert(strip_cr(a6) == a6);
    assert(lines_of(e) =~= Seq::<Seq<char>>::empty());
    assert(lines_of(t1) =~= seq![a1, a2, d, a4, a5, a6]);
}

/// The reboot session's commands are exactly these.
pub proof fn nickname_reboot_session_commands(probe_index: usize)
    ensures
        lines_of(set_nickname_reboot_text(probe_index)) == seq![
            "exec DisableAutoUpdateFW"@,
            "selectprobe"@,
            decimal(probe_index as nat),
            "reboot"@,
            "sleep 100"@,
            "exit"@,
        ],
{
    let nl = seq!['\n'];
    let a1 = "exec DisableAutoUpdateFW"@;
    let a2 = "selectprobe"@;
    let d = decimal(probe_index as nat);
    let a4 = "reboot"@;
    let a5 = "sleep 100"@;
    let a6 = "exit"@;
    reveal_strlit("exec DisableAutoUpdateFW");
    reveal_strlit("selectprobe");
    reveal_strlit("reboot");
    reveal_strlit("sleep 100");
    reveal_strlit("exit");
    reveal_strlit("exec DisableAutoUpdateFW\nselectprobe\n");
    reveal_strlit("\nreboot\nsleep 100\nexit\n");
    let e: Seq<char> = seq![];
    let t6 = a6 + nl + e;
    let t5 = a5 + nl + t6;
    let t4 = a4 + nl + t5;
    let t3 = d + nl + t4;
    let t2 = a2 + nl + t3;
    let t1 = a1 + nl + t2;
    assert(set_nickname_reboot_text(probe_index) =~= t1);
    lemma_decimal_plain(probe_index as nat);
    lemma_lines_cons(a6, e);
    lemma_lines_cons(a5, t6);
    lemma_lines_cons(a4, t5);
    lemma_lines_cons(d, t4);
    lemma_lines_cons(a2, t3);
    lemma_lines_cons(a1, t2);
    assert(d.len() > 0);
    assert(strip_cr(d) == d);
    assert(lines_of(e) =~= Seq::<Seq<char>>::empty());
    assert(lines_of(t1) =~= seq![a1, a2, d, a4, a5, a6]);
}

/// A trimmed text does not end in a carriage return.
proof fn trimmed_has_no_trailing_cr(s: Seq<char>)
    ensures
        trimmed(s).len() > 0 ==> trimmed(s).last() != '\r',
{
    let p = leading(s, ws_pred());
    lemma_leading_bound(s, ws_pred());
    let t = s.skip(p as int);
    lemma_trailing_bound(t, ws_pred());
    let x = trimmed(s);
    if x.len() > 0 {
        let q = trailing(t, ws_pred());
        assert(x.last() == t[t.len() - 1 - q]);
        assert(!ws_pred()(x.last()));
    }
}

} // verus!
