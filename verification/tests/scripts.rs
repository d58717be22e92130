use jlink_config::jlink::scripts::{
    detect, fetch_firmware_dates, set_nickname_reboot, set_nickname_write, set_usb_driver_reboot,
    set_usb_driver_segger, set_usb_driver_webusb, set_usb_driver_winusb_disable,
    set_usb_driver_winusb_enable, show_emu_list, update_firmware,
};

#[test]
fn detect_script_is_banner_probe() {
    assert_eq!(detect(), "\n\nExit\n");
}

#[test]
fn show_emu_list_script() {
    assert_eq!(show_emu_list(), "ShowEmuList\nExit\n");
}

#[test]
fn fetch_firmware_dates_zero_probes() {
    assert_eq!(fetch_firmware_dates(0), "exec DisableAutoUpdateFW\nexit\n");
}

#[test]
fn fetch_firmware_dates_selects_each_probe() {
    assert_eq!(
        fetch_firmware_dates(3),
        "exec DisableAutoUpdateFW\nselectprobe\n0\nselectprobe\n1\nselectprobe\n2\nexit\n"
    );
}

#[test]
fn fetch_firmware_dates_two_digit_indices() {
    let s = fetch_firmware_dates(12);
    assert!(s.contains("selectprobe\n10\nselectprobe\n11\nexit\n"));
    assert_eq!(s.matches("selectprobe\n").count(), 12);
}

#[test]
fn set_nickname_write_trims_nickname() {
    assert_eq!(
        set_nickname_write(2, "  Lab probe \t"),
        "exec DisableAutoUpdateFW\nselectprobe\n2\nsetnickname Lab probe\nsleep 100\nexit\n"
    );
}

#[test]
fn set_nickname_write_empty_clears() {
    assert_eq!(
        set_nickname_write(0, "   "),
        "exec DisableAutoUpdateFW\nselectprobe\n0\nsetnickname \nsleep 100\nexit\n"
    );
    assert_eq!(set_nickname_write(0, ""), set_nickname_write(0, "   "));
}

#[test]
fn set_nickname_reboot_script() {
    assert_eq!(
        set_nickname_reboot(7),
        "exec DisableAutoUpdateFW\nselectprobe\n7\nreboot\nsleep 100\nexit\n"
    );
}

#[test]
fn update_firmware_script() {
    assert_eq!(update_firmware(1), "exec EnableAutoUpdateFW\nselectprobe\n1\nexit\n");
}

#[test]
fn usb_driver_scripts() {
    assert_eq!(
        set_usb_driver_webusb(3),
        "exec DisableAutoUpdateFW\nselectprobe\n3\nWebUSBEnable\nsleep 100\nexit\n"
    );
    assert_eq!(
        set_usb_driver_segger(3),
        "exec DisableAutoUpdateFW\nselectprobe\n3\nWebUSBDisable\nsleep 100\nexit\n"
    );
    assert_eq!(
        set_usb_driver_winusb_enable(4),
        "exec DisableAutoUpdateFW\nselectprobe\n4\nWinUSBEnable\nsleep 100\nexit\n"
    );
    assert_eq!(
        set_usb_driver_winusb_disable(4),
        "exec DisableAutoUpdateFW\nselectprobe\n4\nWinUSBDisable\nsleep 100\nexit\n"
    );
}

#[test]
fn usb_reboot_equals_nickname_reboot() {
    for i in [0usize, 1, 9, 10, 123, usize::MAX] {
        assert_eq!(set_usb_driver_reboot(i), set_nickname_reboot(i));
    }
}

#[test]
fn large_probe_index_is_decimal() {
    assert_eq!(
        update_firmware(18446744073709551615),
        "exec EnableAutoUpdateFW\nselectprobe\n18446744073709551615\nexit\n"
    );
}

#[test]
fn write_session_has_no_reboot_line() {
    let s = set_nickname_write(5, "reboot me");
    let lines: Vec<&str> = s.lines().collect();
    assert_eq!(
        lines,
        vec!["exec DisableAutoUpdateFW", "selectprobe", "5", "setnickname reboot me", "sleep 100", "exit"]
    );
}

#[test]
fn every_script_ends_with_exit() {
    for s in [
        fetch_firmware_dates(2),
        set_nickname_write(1, "x"),
        set_nickname_reboot(1),
        update_firmware(1),
        set_usb_driver_webusb(1),
        set_usb_driver_reboot(1),
    ] {
        assert!(s.ends_with("exit\n"));
    }
}
