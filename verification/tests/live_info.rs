use mitos_settings::categories::live::{
    about_live_info, battery_live_info, bluetooth_live_info, date_time_live_info, disk_encryption_status,
    display_live_info, firewall_services, firewall_status, is_secure_boot_variable, kernel_version,
    language_live_info, network_live_info, printers_live_info, secure_boot_status, security_live_info,
    sound_live_info, storage_live_info, updates_live_info, users_live_info, Account, BatteryReading,
    BluetoothDevice, Connector, DiskUsage, MountEntry, NetworkInterface, SoundCard,
};

fn rows(v: Vec<(&'static str, String)>) -> Vec<(String, String)> {
    v.into_iter().map(|(a, b)| (a.to_string(), b)).collect()
}

fn expect(list: &[(&str, &str)]) -> Vec<(String, String)> {
    list.iter().map(|(a, b)| (a.to_string(), b.to_string())).collect()
}

#[test]
fn printers_list_configured_queues() {
    let out = "printer office is idle.  enabled since Mon\nsomething else\nprinter lab disabled since Tue\n";
    assert_eq!(
        rows(printers_live_info(Some(out))),
        expect(&[
            ("printer", "printer office is idle.  enabled since Mon"),
            ("printer", "printer lab disabled since Tue"),
        ])
    );
    assert_eq!(rows(printers_live_info(Some(""))), expect(&[("printers", "no printers configured")]));
    assert_eq!(
        rows(printers_live_info(None)),
        expect(&[("printers", "CUPS not available (lpstat not found)")])
    );
}

#[test]
fn single_row_categories() {
    assert_eq!(rows(language_live_info(Some("en_GB.UTF-8"))), expect(&[("current_lang_env", "en_GB.UTF-8")]));
    assert_eq!(rows(language_live_info(None)), expect(&[("current_lang_env", "LANG is not set")]));
    assert_eq!(rows(date_time_live_info(Some("Europe/Oslo"))), expect(&[("system_timezone", "Europe/Oslo")]));
    assert_eq!(
        rows(date_time_live_info(None)),
        expect(&[("system_timezone", "unavailable (timedatectl not found)")])
    );
    assert_eq!(
        rows(updates_live_info(Some("Apt"), Some(12))),
        expect(&[("package_manager", "Apt"), ("pending_updates", "12")])
    );
    assert_eq!(
        rows(updates_live_info(None, None)),
        expect(&[("package_manager", "not detected"), ("pending_updates", "unavailable")])
    );
}

#[test]
fn firewall_is_the_first_active_service() {
    assert_eq!(firewall_services(), &["ufw", "firewalld", "nftables"]);
    let replies = vec![
        ("ufw".to_string(), "inactive\n".to_string()),
        ("firewalld".to_string(), "active\n".to_string()),
        ("nftables".to_string(), "active\n".to_string()),
    ];
    assert_eq!(firewall_status(&replies), "firewalld active");
    assert_eq!(firewall_status(&[]), "no known firewall service active (or systemd not in use)");
}

#[test]
fn secure_boot_reads_the_fifth_byte() {
    assert_eq!(secure_boot_status(false, None), "not applicable (legacy BIOS boot)");
    assert_eq!(secure_boot_status(true, None), "unknown");
    assert_eq!(secure_boot_status(true, Some(&[6, 0, 0, 0, 1])), "enabled");
    assert_eq!(secure_boot_status(true, Some(&[6, 0, 0, 0, 0])), "disabled");
    assert_eq!(secure_boot_status(true, Some(&[6, 0, 0, 0])), "unknown");
    assert!(is_secure_boot_variable("SecureBoot-8be4df61-93ca-11d2-aa0d-00e098032b8c"));
    assert!(!is_secure_boot_variable("SetupMode-8be4df61"));
}

#[test]
fn disk_encryption_looks_for_mapper_mounts() {
    let mounts = "proc /proc proc rw 0 0\n/dev/mapper/root / ext4 rw 0 0\n";
    assert_eq!(disk_encryption_status(Some(mounts)), "likely encrypted (dm-crypt mapping active)");
    assert_eq!(disk_encryption_status(Some("/dev/sda1 / ext4 rw 0 0\n")), "no dm-crypt mapping detected");
    assert_eq!(disk_encryption_status(None), "no dm-crypt mapping detected");
    let sec = rows(security_live_info(&[], false, None, None));
    assert_eq!(
        sec,
        expect(&[
            ("firewall", "no known firewall service active (or systemd not in use)"),
            ("secure_boot", "not applicable (legacy BIOS boot)"),
            ("disk_encryption", "no dm-crypt mapping detected"),
        ])
    );
}

#[test]
fn kernel_prefers_uname() {
    assert_eq!(kernel_version(Some("6.8.0-31-generic\n"), Some("Linux version 6.8")), "6.8.0-31-generic");
    assert_eq!(kernel_version(None, Some(" Linux version 6.8 \n")), "Linux version 6.8");
    assert_eq!(kernel_version(None, None), "unknown");
}

#[test]
fn about_rows_in_order() {
    let gpus = vec!["Intel UHD 620".to_string()];
    assert_eq!(
        rows(about_live_info(None, "0.1.0", "6.8", Some("i7"), 8, Some("15.5 GiB"), &gpus)),
        expect(&[
            ("distribution", "MITOS"),
            ("version", "0.1.0"),
            ("kernel", "6.8"),
            ("cpu", "i7"),
            ("cpu_cores", "8"),
            ("license", "MIT"),
            ("memory", "15.5 GiB"),
            ("gpu", "Intel UHD 620"),
        ])
    );
    let plain = rows(about_live_info(Some("MITOS 1"), "1", "k", None, 1, None, &[]));
    assert_eq!(plain.len(), 6);
    assert_eq!(plain[3], ("cpu".to_string(), "unknown".to_string()));
}

#[test]
fn battery_rows_fill_in_unknowns() {
    assert_eq!(rows(battery_live_info(&[])), expect(&[("battery", "no battery detected (desktop or VM)")]));
    let bats = vec![
        BatteryReading { name: "BAT0".to_string(), capacity_percent: Some(87), status: Some("Charging".to_string()) },
        BatteryReading { name: "BAT1".to_string(), capacity_percent: None, status: None },
    ];
    assert_eq!(
        rows(battery_live_info(&bats)),
        expect(&[("battery", "BAT0: 87%, Charging"), ("battery", "BAT1: unknown, unknown")])
    );
}

#[test]
fn device_lists() {
    let connectors = vec![
        Connector { name: "HDMI-A-1".to_string(), connected: true },
        Connector { name: "DP-1".to_string(), connected: false },
    ];
    assert_eq!(
        rows(display_live_info(&connectors)),
        expect(&[("connector", "HDMI-A-1: connected"), ("connector", "DP-1: disconnected")])
    );
    let ifaces = vec![NetworkInterface { name: "wlan0".to_string(), operstate: "up".to_string() }];
    assert_eq!(rows(network_live_info(&ifaces)), expect(&[("interface", "wlan0: up")]));
    let cards = vec![SoundCard { index: 0, description: "HDA Intel PCH".to_string() }];
    assert_eq!(rows(sound_live_info(&cards)), expect(&[("card", "0: HDA Intel PCH")]));
    let accounts = vec![Account { username: "ada".to_string(), uid: 1000 }];
    assert_eq!(rows(users_live_info(&accounts)), expect(&[("account", "ada (uid 1000)")]));
    assert!(users_live_info(&[]).is_empty());
    let devices = vec![BluetoothDevice { name: "Headset".to_string(), mac: "00:11:22:33:44:55".to_string() }];
    assert_eq!(
        rows(bluetooth_live_info(true, &devices)),
        expect(&[("device", "Headset (00:11:22:33:44:55)")])
    );
    assert_eq!(
        rows(bluetooth_live_info(false, &devices)),
        expect(&[("adapter", "no Bluetooth adapter detected")])
    );
}

#[test]
fn storage_rows_then_mount_rows() {
    let usage = vec![DiskUsage { filesystem: "/dev/sda1".to_string(), mount: "/".to_string(), used_percent: 42 }];
    let mounts = vec![MountEntry { device: "/dev/sda1".to_string(), target: "/".to_string(), fstype: "ext4".to_string() }];
    assert_eq!(
        rows(storage_live_info(Ok(&usage), &mounts)),
        expect(&[("usage", "/dev/sda1 on /: 42% used"), ("mount", "/dev/sda1 -> / (ext4)")])
    );
    assert_eq!(
        rows(storage_live_info(Err("df failed"), &[])),
        expect(&[("usage", "could not read disk usage: df failed")])
    );
}
