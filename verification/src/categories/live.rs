//! The live rows of the categories that report what they read from the
//! machine. The program around this library does the reading (running
//! `lpstat`, walking sysfs, asking systemd ...) and hands the results in as
//! plain values; these functions decide what each category shows for them.

use vstd::prelude::*;
use crate::categories::live_rows_view;
use crate::text::{decimal, lines, occurs_in, starts_with, trim_chars};

verus! {

/// The characters of an optional string.
pub open spec fn opt_chars(o: Option<&str>) -> Option<Seq<char>> {
    match o {
        Some(s) => Some(s@),
        None => None,
    }
}

/// One row with a label and a value.
fn row(label: &'static str, value: &str) -> (r: (&'static str, String))
    ensures
        r.0 == label,
        r.1@ == value@,
{
    (label, String::from_str(value))
}

// ---------------------------------------------------------------------------
// Printers
// ---------------------------------------------------------------------------

/// The `printer ...` lines of `lpstat -p`'s output, each a `printer` row.
pub open spec fn printer_lines(ls: Seq<Seq<char>>) -> Seq<(Seq<char>, Seq<char>)>
    decreases ls.len(),
{
    if ls.len() == 0 {
        Seq::empty()
    } else if starts_with(ls.last(), "printer "@) {
        printer_lines(ls.drop_last()).push(("printer"@, ls.last()))
    } else {
        printer_lines(ls.drop_last())
    }
}

/// What Printers shows: one row per configured CUPS queue, a note when there
/// is none, or a note when `lpstat` could not be run at all.
pub open spec fn printers_rows(lpstat_output: Option<Seq<char>>) -> Seq<(Seq<char>, Seq<char>)> {
    match lpstat_output {
        None => seq![("printers"@, "CUPS not available (lpstat not found)"@)],
        Some(text) => {
            let found = printer_lines(lines(text));
            if found.len() == 0 {
                seq![("printers"@, "no printers configured"@)]
            } else {
                found
            }
        },
    }
}

/// Printers' live rows, from what `lpstat -p` printed (`None` when it could
/// not be run).
pub fn printers_live_info(lpstat_output: Option<&str>) -> (r: Vec<(&'static str, String)>)
    ensures
        live_rows_view(r@) == printers_rows(opt_chars(lpstat_output)),
{
    match lpstat_output {
        None => {
            let mut rows = Vec::new();
            rows.push(row("printers", "CUPS not available (lpstat not found)"));
            assert(live_rows_view(rows@) =~= printers_rows(opt_chars(lpstat_output)));
            rows
        },
        Some(text) => {
            let ls = crate::text::lines_of(text);
            let ghost lv = ls@.map_values(|p: &str| p@);
            let mut rows: Vec<(&'static str, String)> = Vec::new();
            let mut i: usize = 0;
            assert(lv.take(0) =~= Seq::<Seq<char>>::empty());
            assert(live_rows_view(rows@) =~= Seq::<(Seq<char>, Seq<char>)>::empty());
            while i < ls.len()
                invariant
                    lv == ls@.map_values(|p: &str| p@),
                    lv == lines(text@),
                    i <= ls@.len(),
                    live_rows_view(rows@) == printer_lines(lv.take(i as int)),
                decreases ls.len() - i,
            {
                let l = ls[i];
                let ghost before = live_rows_view(rows@);
                proof {
                    assert(lv.take(i + 1).drop_last() =~= lv.take(i as int));
                    assert(lv.take(i + 1).last() == l@);
                    reveal_strlit("printer ");
                }
                if crate::text::strip_prefix(l, "printer ").is_some() {
                    rows.push(row("printer", l));
                    assert(live_rows_view(rows@) =~= before.push(("printer"@, l@)));
                }
                i += 1;
            }
            assert(lv.take(ls@.len() as int) =~= lv);
            if rows.len() == 0 {
                rows.push(row("printers", "no printers configured"));
                assert(live_rows_view(rows@) =~= printers_rows(opt_chars(lpstat_output)));
            }
            rows
        },
    }
}

// ---------------------------------------------------------------------------
// Language, Date & Time, Updates
// ---------------------------------------------------------------------------

/// Language's live row: the `LANG` of the environment, or a note that it is
/// not set.
pub fn language_live_info(lang: Option<&str>) -> (r: Vec<(&'static str, String)>)
    ensures
        live_rows_view(r@) == seq![
            ("current_lang_env"@, match lang {
                Some(l) => l@,
                None => "LANG is not set"@,
            }),
        ],
{
    let mut rows = Vec::new();
    match lang {
        Some(l) => rows.push(row("current_lang_env", l)),
        None => rows.push(row("current_lang_env", "LANG is not set")),
    }
    assert(live_rows_view(rows@) =~= seq![
        ("current_lang_env"@, match lang {
            Some(l) => l@,
            None => "LANG is not set"@,
        }),
    ]);
    rows
}

/// Date & Time's live row: the system time zone, or a note that it could not
/// be read.
pub fn date_time_live_info(timezone: Option<&str>) -> (r: Vec<(&'static str, String)>)
    ensures
        live_rows_view(r@) == seq![
            ("system_timezone"@, match timezone {
                Some(tz) => tz@,
                None => "unavailable (timedatectl not found)"@,
            }),
        ],
{
    let mut rows = Vec::new();
    match timezone {
        Some(tz) => rows.push(row("system_timezone", tz)),
        None => rows.push(row("system_timezone", "unavailable (timedatectl not found)")),
    }
    assert(live_rows_view(rows@) =~= seq![
        ("system_timezone"@, match timezone {
            Some(tz) => tz@,
            None => "unavailable (timedatectl not found)"@,
        }),
    ]);
    rows
}

/// Updates' live rows: the package manager found (by name), and how many
/// updates are pending.
pub fn updates_live_info(package_manager: Option<&str>, pending: Option<u64>) -> (r: Vec<(&'static str, String)>)
    ensures
        live_rows_view(r@) == seq![
            ("package_manager"@, match package_manager {
                Some(pm) => pm@,
                None => "not detected"@,
            }),
            ("pending_updates"@, match pending {
                Some(n) => decimal(n as nat),
                None => "unavailable"@,
            }),
        ],
{
    let mut rows = Vec::new();
    match package_manager {
        Some(pm) => rows.push(row("package_manager", pm)),
        None => rows.push(row("package_manager", "not detected")),
    }
    match pending {
        Some(n) => rows.push(("pending_updates", crate::text::decimal_string(n))),
        None => rows.push(row("pending_updates", "unavailable")),
    }
    assert(live_rows_view(rows@) =~= seq![
        ("package_manager"@, match package_manager {
            Some(pm) => pm@,
            None => "not detected"@,
        }),
        ("pending_updates"@, match pending {
            Some(n) => decimal(n as nat),
            None => "unavailable"@,
        }),
    ]);
    rows
}

// ---------------------------------------------------------------------------
// Security
// ---------------------------------------------------------------------------

/// The firewall services looked for, in order.
pub fn firewall_services() -> (r: &'static [&'static str])
    ensures
        crate::settings::schema::strs_view(r@) == seq!["ufw"@, "firewalld"@, "nftables"@],
{
    let r: &'static [&'static str] = &["ufw", "firewalld", "nftables"];
    assert(crate::settings::schema::strs_view(r@) =~= seq!["ufw"@, "firewalld"@, "nftables"@]);
    r
}

/// The firewall line for the replies of `systemctl is-active <service>`, in
/// order of asking (services whose command could not be run left out): the
/// first service that answered `active`, or a note that none did.
pub open spec fn firewall_text(replies: Seq<(Seq<char>, Seq<char>)>) -> Seq<char>
    decreases replies.len(),
{
    if replies.len() == 0 {
        "no known firewall service active (or systemd not in use)"@
    } else if trim_chars(replies[0].1) == "active"@ {
        replies[0].0 + " active"@
    } else {
        firewall_text(replies.drop_first())
    }
}

/// The characters of each (service, reply) pair.
pub open spec fn replies_view(replies: Seq<(String, String)>) -> Seq<(Seq<char>, Seq<char>)> {
    replies.map_values(|p: (String, String)| (p.0@, p.1@))
}

/// The firewall line.
pub fn firewall_status(replies: &[(String, String)]) -> (r: String)
    ensures
        r@ == firewall_text(replies_view(replies@)),
{
    let ghost rv = replies_view(replies@);
    let mut i: usize = 0;
    assert(rv.skip(0) =~= rv);
    while i < replies.len()
        invariant
            rv == replies_view(replies@),
            i <= replies@.len(),
            firewall_text(rv) == firewall_text(rv.skip(i as int)),
        decreases replies.len() - i,
    {
        let (service, reply) = &replies[i];
        assert(rv.skip(i as int)[0] == (service@, reply@));
        if crate::text::str_eq(crate::text::trim(reply.as_str()), "active") {
            let mut out = String::from_str(service.as_str());
            out.append(" active");
            return out;
        }
        assert(rv.skip(i as int).drop_first() =~= rv.skip(i + 1));
        i += 1;
    }
    assert(rv.skip(replies@.len() as int) =~= Seq::<(Seq<char>, Seq<char>)>::empty());
    String::from_str("no known firewall service active (or systemd not in use)")
}

/// Whether an EFI variable's file name is the `SecureBoot` variable.
pub fn is_secure_boot_variable(file_name: &str) -> (r: bool)
    ensures
        r == starts_with(file_name@, "SecureBoot-"@),
{
    proof {
        reveal_strlit("SecureBoot-");
    }
    crate::text::strip_prefix(file_name, "SecureBoot-").is_some()
}

/// The Secure Boot line: not applicable without EFI variables; otherwise
/// the fifth byte of the `SecureBoot` variable (after four attribute bytes)
/// says whether it is on, and anything else is unknown.
pub open spec fn secure_boot_text(efivars_present: bool, variable: Option<Seq<u8>>) -> Seq<char> {
    if !efivars_present {
        "not applicable (legacy BIOS boot)"@
    } else {
        match variable {
            Some(bytes) => if bytes.len() > 4 {
                if bytes[4] == 1 {
                    "enabled"@
                } else {
                    "disabled"@
                }
            } else {
                "unknown"@
            },
            None => "unknown"@,
        }
    }
}

/// The Secure Boot line, from whether `/sys/firmware/efi/efivars` could be
/// listed and the contents of the `SecureBoot` variable, if one was found
/// and read.
pub fn secure_boot_status(efivars_present: bool, variable: Option<&[u8]>) -> (r: &'static str)
    ensures
        r@ == secure_boot_text(efivars_present, match variable {
            Some(b) => Some(b@),
            None => None,
        }),
{
    if !efivars_present {
        return "not applicable (legacy BIOS boot)";
    }
    match variable {
        Some(bytes) => if bytes.len() > 4 {
            if bytes[4] == 1 {
                "enabled"
            } else {
                "disabled"
            }
        } else {
            "unknown"
        },
        None => "unknown",
    }
}

/// Whether some line of `/proc/mounts` shows a device-mapper device mounted.
pub open spec fn has_crypt_mount(ls: Seq<Seq<char>>) -> bool {
    exists|i: int|
        0 <= i < ls.len() && occurs_in(#[trigger] ls[i], "/dev/mapper/"@) && starts_with(ls[i], "/dev/mapper"@)
}

/// The disk-encryption line for the contents of `/proc/mounts` (`None`
/// when it could not be read).
pub open spec fn disk_encryption_text(proc_mounts: Option<Seq<char>>) -> Seq<char> {
    if (proc_mounts matches Some(m) && has_crypt_mount(lines(m))) {
        "likely encrypted (dm-crypt mapping active)"@
    } else {
        "no dm-crypt mapping detected"@
    }
}

/// Whether one line of `/proc/mounts` shows a device-mapper device mounted.
pub open spec fn is_mapper_mount(line: Seq<char>) -> bool {
    occurs_in(line, "/dev/mapper/"@) && starts_with(line, "/dev/mapper"@)
}

/// Any line can show the mapping, not only the last: the lines of one list
/// followed by another show one exactly when either list does, and a single
/// line shows one exactly when it is a device-mapper mount.
pub proof fn lemma_crypt_mount_any_line(ls: Seq<Seq<char>>, more: Seq<Seq<char>>, line: Seq<char>)
    ensures
        has_crypt_mount(ls + more) == (has_crypt_mount(ls) || has_crypt_mount(more)),
        has_crypt_mount(seq![line]) == is_mapper_mount(line),
        has_crypt_mount(Seq::<Seq<char>>::empty()) == false,
{
    let all = ls + more;
    if has_crypt_mount(ls) {
        let i = choose|i: int|
            0 <= i < ls.len() && occurs_in(#[trigger] ls[i], "/dev/mapper/"@) && starts_with(ls[i], "/dev/mapper"@);
        assert(all[i] == ls[i]);
    }
    if has_crypt_mount(more) {
        let i = choose|i: int|
            0 <= i < more.len() && occurs_in(#[trigger] more[i], "/dev/mapper/"@) && starts_with(more[i], "/dev/mapper"@);
        assert(all[ls.len() + i] == more[i]);
    }
    if has_crypt_mount(all) {
        let i = choose|i: int|
            0 <= i < all.len() && occurs_in(#[trigger] all[i], "/dev/mapper/"@) && starts_with(all[i], "/dev/mapper"@);
        if i < ls.len() {
            assert(all[i] == ls[i]);
        } else {
            assert(all[i] == more[i - ls.len()]);
        }
    }
    if is_mapper_mount(line) {
        assert(seq![line][0] == line);
    }
}

/// The disk-encryption line says "likely encrypted" when some line of
/// `/proc/mounts`, wherever it stands, is a device-mapper mount; text
/// added after a newline never takes that back.
pub proof fn lemma_encryption_seen_on_any_line(m: Seq<char>, i: int, more: Seq<char>)
    requires
        0 <= i < lines(m).len(),
        is_mapper_mount(lines(m)[i]),
    ensures
        disk_encryption_text(Some(m)) == "likely encrypted (dm-crypt mapping active)"@,
        m.len() > 0 && m.last() == '\n' ==> disk_encryption_text(Some(m + more))
            == "likely encrypted (dm-crypt mapping active)"@,
{
    assert(has_crypt_mount(lines(m)));
    if m.len() > 0 && m.last() == '\n' {
        crate::text::lemma_lines_concat(m, more);
        lemma_crypt_mount_any_line(lines(m), lines(more), Seq::empty());
    }
}

/// The disk-encryption line.
pub fn disk_encryption_status(proc_mounts: Option<&str>) -> (r: &'static str)
    ensures
        r@ == disk_encryption_text(opt_chars(proc_mounts)),
{
    let found = match proc_mounts {
        None => false,
        Some(m) => {
            let ls = crate::text::lines_of(m);
            let ghost lv = ls@.map_values(|p: &str| p@);
            let mut i: usize = 0;
            let mut found = false;
            proof {
                reveal_strlit("/dev/mapper");
            }
            while i < ls.len()
                invariant
                    lv == ls@.map_values(|p: &str| p@),
                    lv == lines(m@),
                    i <= ls@.len(),
                    found == exists|j: int|
                        0 <= j < i && occurs_in(#[trigger] lv[j], "/dev/mapper/"@) && starts_with(
                            lv[j],
                            "/dev/mapper"@,
                        ),
                decreases ls.len() - i,
            {
                let l = ls[i];
                assert(lv[i as int] == l@);
                if crate::text::contains(l, "/dev/mapper/") && crate::text::strip_prefix(l, "/dev/mapper").is_some() {
                    found = true;
                }
                i += 1;
            }
            found
        },
    };
    if found {
        "likely encrypted (dm-crypt mapping active)"
    } else {
        "no dm-crypt mapping detected"
    }
}

/// Security's live rows: the firewall, Secure Boot and disk-encryption
/// lines, from what was read for each.
pub fn security_live_info(
    firewall_replies: &[(String, String)],
    efivars_present: bool,
    secure_boot_variable: Option<&[u8]>,
    proc_mounts: Option<&str>,
) -> (r: Vec<(&'static str, String)>)
    ensures
        live_rows_view(r@).len() == 3,
        live_rows_view(r@)[0] == ("firewall"@, firewall_text(replies_view(firewall_replies@))),
        live_rows_view(r@)[1].0 == "secure_boot"@,
        live_rows_view(r@)[1].1 == secure_boot_text(efivars_present, match secure_boot_variable {
            Some(b) => Some(b@),
            None => None,
        }),
        live_rows_view(r@)[2].0 == "disk_encryption"@,
        live_rows_view(r@)[2].1 == disk_encryption_text(opt_chars(proc_mounts)),
{
    let mut rows: Vec<(&'static str, String)> = Vec::new();
    rows.push(("firewall", firewall_status(firewall_replies)));
    rows.push(row("secure_boot", secure_boot_status(efivars_present, secure_boot_variable)));
    rows.push(row("disk_encryption", disk_encryption_status(proc_mounts)));
    rows
}

// ---------------------------------------------------------------------------
// Kernel
// ---------------------------------------------------------------------------

/// The kernel line: what `uname -r` printed when it succeeded (as valid
/// text), else the contents of `/proc/version`, each trimmed; `unknown`
/// when neither could be read.
pub fn kernel_version(uname_output: Option<&str>, proc_version: Option<&str>) -> (r: String)
    ensures
        r@ == (match uname_output {
            Some(u) => trim_chars(u@),
            None => match proc_version {
                Some(p) => trim_chars(p@),
                None => "unknown"@,
            },
        }),
{
    match uname_output {
        Some(u) => String::from_str(crate::text::trim(u)),
        None => match proc_version {
            Some(p) => String::from_str(crate::text::trim(p)),
            None => String::from_str("unknown"),
        },
    }
}

// ---------------------------------------------------------------------------
// Battery
// ---------------------------------------------------------------------------

/// One battery as read from the machine.
pub struct BatteryReading {
    pub name: String,
    pub capacity_percent: Option<u32>,
    pub status: Option<String>,
}

/// A battery's row text: `<name>: <percent>%, <status>`, with `unknown`
/// for what could not be read.
pub open spec fn battery_text(b: BatteryReading) -> Seq<char> {
    b.name@ + ": "@ + (match b.capacity_percent {
        Some(p) => decimal(p as nat) + "%"@,
        None => "unknown"@,
    }) + ", "@ + (match b.status {
        Some(st) => st@,
        None => "unknown"@,
    })
}

/// What Battery shows: a row per battery, or a note when there is none.
pub open spec fn battery_rows(bs: Seq<BatteryReading>) -> Seq<(Seq<char>, Seq<char>)> {
    if bs.len() == 0 {
        seq![("battery"@, "no battery detected (desktop or VM)"@)]
    } else {
        bs.map_values(|b: BatteryReading| ("battery"@, battery_text(b)))
    }
}

/// Battery's live rows.
pub fn battery_live_info(batteries: &[BatteryReading]) -> (r: Vec<(&'static str, String)>)
    ensures
        live_rows_view(r@) == battery_rows(batteries@),
{
    let mut rows: Vec<(&'static str, String)> = Vec::new();
    if batteries.len() == 0 {
        rows.push(row("battery", "no battery detected (desktop or VM)"));
        assert(live_rows_view(rows@) =~= battery_rows(batteries@));
        return rows;
    }
    let ghost bv = batteries@;
    let mut i: usize = 0;
    assert(live_rows_view(rows@) =~= bv.take(0).map_values(|b: BatteryReading| ("battery"@, battery_text(b))));
    while i < batteries.len()
        invariant
            bv == batteries@,
            i <= bv.len(),
            live_rows_view(rows@) == bv.take(i as int).map_values(|b: BatteryReading| ("battery"@, battery_text(b))),
        decreases batteries.len() - i,
    {
        let b = &batteries[i];
        let mut text = String::from_str(b.name.as_str());
        text.append(": ");
        match b.capacity_percent {
            Some(p) => {
                let digits = crate::text::decimal_string(p as u64);
                text.append(digits.as_str());
                text.append("%");
            },
            None => text.append("unknown"),
        }
        text.append(", ");
        match &b.status {
            Some(st) => text.append(st.as_str()),
            None => text.append("unknown"),
        }
        assert(text@ =~= battery_text(*b));
        let ghost before = live_rows_view(rows@);
        rows.push(("battery", text));
        proof {
            assert(bv.take(i + 1) =~= bv.take(i as int).push(bv[i as int]));
            assert(live_rows_view(rows@) =~= before.push(("battery"@, battery_text(bv[i as int]))));
            assert(bv.take(i + 1).map_values(|b: BatteryReading| ("battery"@, battery_text(b))) =~= bv.take(
                i as int,
            ).map_values(|b: BatteryReading| ("battery"@, battery_text(b))).push(("battery"@, battery_text(bv[i as int]))));
        }
        i += 1;
    }
    assert(bv.take(bv.len() as int) =~= bv);
    rows
}

// ---------------------------------------------------------------------------
// Display
// ---------------------------------------------------------------------------

/// A display connector as read from the machine.
pub struct Connector {
    pub name: String,
    pub connected: bool,
}

/// The row text for one `Connector`.
pub open spec fn connector_text(x: Connector) -> Seq<char> {
    x.name@ + ": "@ + (if x.connected { "connected"@ } else { "disconnected"@ })
}

/// Display's live rows: one per connector, saying whether something is plugged in.
pub fn display_live_info(items: &[Connector]) -> (r: Vec<(&'static str, String)>)
    ensures
        live_rows_view(r@) == items@.map_values(|x: Connector| ("connector"@, connector_text(x))),
{
    let ghost iv = items@;
    let mut rows: Vec<(&'static str, String)> = Vec::new();
    let mut i: usize = 0;
    assert(live_rows_view(rows@) =~= iv.take(0).map_values(|x: Connector| ("connector"@, connector_text(x))));
    while i < items.len()
        invariant
            iv == items@,
            i <= iv.len(),
            live_rows_view(rows@) == iv.take(i as int).map_values(|x: Connector| ("connector"@, connector_text(x))),
        decreases items.len() - i,
    {
        let x = &items[i];
        let mut text = String::from_str(x.name.as_str());
        text.append(": ");
        if x.connected {
            text.append("connected");
        } else {
            text.append("disconnected");
        }
        assert(text@ =~= connector_text(*x));
        let ghost before = live_rows_view(rows@);
        rows.push(("connector", text));
        proof {
            assert(iv.take(i + 1) =~= iv.take(i as int).push(iv[i as int]));
            assert(live_rows_view(rows@) =~= before.push(("connector"@, connector_text(iv[i as int]))));
            assert(iv.take(i + 1).map_values(|x: Connector| ("connector"@, connector_text(x))) =~= iv.take(
                i as int,
            ).map_values(|x: Connector| ("connector"@, connector_text(x))).push(("connector"@, connector_text(iv[i as int]))));
        }
        i += 1;
    }
    assert(iv.take(iv.len() as int) =~= iv);
    rows
}

// ---------------------------------------------------------------------------
// Network
// ---------------------------------------------------------------------------

/// A network interface as read from the machine.
pub struct NetworkInterface {
    pub name: String,
    pub operstate: String,
}

/// The row text for one `NetworkInterface`.
pub open spec fn interface_text(x: NetworkInterface) -> Seq<char> {
    x.name@ + ": "@ + x.operstate@
}

/// Network's live rows: one per interface with its operational state.
pub fn network_live_info(items: &[NetworkInterface]) -> (r: Vec<(&'static str, String)>)
    ensures
        live_rows_view(r@) == items@.map_values(|x: NetworkInterface| ("interface"@, interface_text(x))),
{
    let ghost iv = items@;
    let mut rows: Vec<(&'static str, String)> = Vec::new();
    let mut i: usize = 0;
    assert(live_rows_view(rows@) =~= iv.take(0).map_values(|x: NetworkInterface| ("interface"@, interface_text(x))));
    while i < items.len()
        invariant
            iv == items@,
            i <= iv.len(),
            live_rows_view(rows@) == iv.take(i as int).map_values(|x: NetworkInterface| ("interface"@, interface_text(x))),
        decreases items.len() - i,
    {
        let x = &items[i];
        let mut text = String::from_str(x.name.as_str());
        text.append(": ");
        text.append(x.operstate.as_str());
        assert(text@ =~= interface_text(*x));
        let ghost before = live_rows_view(rows@);
        rows.push(("interface", text));
        proof {
            assert(iv.take(i + 1) =~= iv.take(i as int).push(iv[i as int]));
            assert(live_rows_view(rows@) =~= before.push(("interface"@, interface_text(iv[i as int]))));
            assert(iv.take(i + 1).map_values(|x: NetworkInterface| ("interface"@, interface_text(x))) =~= iv.take(
                i as int,
            ).map_values(|x: NetworkInterface| ("interface"@, interface_text(x))).push(("interface"@, interface_text(iv[i as int]))));
        }
        i += 1;
    }
    assert(iv.take(iv.len() as int) =~= iv);
    rows
}

// ---------------------------------------------------------------------------
// Sound
// ---------------------------------------------------------------------------

/// A sound card as read from the machine.
pub struct SoundCard {
    pub index: u32,
    pub description: String,
}

/// The row text for one `SoundCard`.
pub open spec fn card_text(x: SoundCard) -> Seq<char> {
    decimal(x.index as nat) + ": "@ + x.description@
}

/// Sound's live rows: one per card, by index.
pub fn sound_live_info(items: &[SoundCard]) -> (r: Vec<(&'static str, String)>)
    ensures
        live_rows_view(r@) == items@.map_values(|x: SoundCard| ("card"@, card_text(x))),
{
    let ghost iv = items@;
    let mut rows: Vec<(&'static str, String)> = Vec::new();
    let mut i: usize = 0;
    assert(live_rows_view(rows@) =~= iv.take(0).map_values(|x: SoundCard| ("card"@, card_text(x))));
    while i < items.len()
        invariant
            iv == items@,
            i <= iv.len(),
            live_rows_view(rows@) == iv.take(i as int).map_values(|x: SoundCard| ("card"@, card_text(x))),
        decreases items.len() - i,
    {
        let x = &items[i];
        let mut text = crate::text::decimal_string(x.index as u64);
        text.append(": ");
        text.append(x.description.as_str());
        assert(text@ =~= card_text(*x));
        let ghost before = live_rows_view(rows@);
        rows.push(("card", text));
        proof {
            assert(iv.take(i + 1) =~= iv.take(i as int).push(iv[i as int]));
            assert(live_rows_view(rows@) =~= before.push(("card"@, card_text(iv[i as int]))));
            assert(iv.take(i + 1).map_values(|x: SoundCard| ("card"@, card_text(x))) =~= iv.take(
                i as int,
            ).map_values(|x: SoundCard| ("card"@, card_text(x))).push(("card"@, card_text(iv[i as int]))));
        }
        i += 1;
    }
    assert(iv.take(iv.len() as int) =~= iv);
    rows
}

// ---------------------------------------------------------------------------
// Users
// ---------------------------------------------------------------------------

/// A user account as read from the machine.
pub struct Account {
    pub username: String,
    pub uid: u32,
}

/// The row text for one `Account`.
pub open spec fn account_text(x: Account) -> Seq<char> {
    x.username@ + " (uid "@ + decimal(x.uid as nat) + ")"@
}

/// Users' live rows: one per account.
pub fn users_live_info(items: &[Account]) -> (r: Vec<(&'static str, String)>)
    ensures
        live_rows_view(r@) == items@.map_values(|x: Account| ("account"@, account_text(x))),
{
    let ghost iv = items@;
    let mut rows: Vec<(&'static str, String)> = Vec::new();
    let mut i: usize = 0;
    assert(live_rows_view(rows@) =~= iv.take(0).map_values(|x: Account| ("account"@, account_text(x))));
    while i < items.len()
        invariant
            iv == items@,
            i <= iv.len(),
            live_rows_view(rows@) == iv.take(i as int).map_values(|x: Account| ("account"@, account_text(x))),
        decreases items.len() - i,
    {
        let x = &items[i];
        let mut text = String::from_str(x.username.as_str());
        text.append(" (uid ");
        let digits = crate::text::decimal_string(x.uid as u64);
        text.append(digits.as_str());
        text.append(")");
        assert(text@ =~= account_text(*x));
        let ghost before = live_rows_view(rows@);
        rows.push(("account", text));
        proof {
            assert(iv.take(i + 1) =~= iv.take(i as int).push(iv[i as int]));
            assert(live_rows_view(rows@) =~= before.push(("account"@, account_text(iv[i as int]))));
            assert(iv.take(i + 1).map_values(|x: Account| ("account"@, account_text(x))) =~= iv.take(
                i as int,
            ).map_values(|x: Account| ("account"@, account_text(x))).push(("account"@, account_text(iv[i as int]))));
        }
        i += 1;
    }
    assert(iv.take(iv.len() as int) =~= iv);
    rows
}

// ---------------------------------------------------------------------------
// Bluetooth
// ---------------------------------------------------------------------------

/// A paired Bluetooth device as read from the machine.
pub struct BluetoothDevice {
    pub name: String,
    pub mac: String,
}

/// The row text for one `BluetoothDevice`.
pub open spec fn device_text(x: BluetoothDevice) -> Seq<char> {
    x.name@ + " ("@ + x.mac@ + ")"@
}

/// One row per paired Bluetooth device.
fn device_rows(items: &[BluetoothDevice]) -> (r: Vec<(&'static str, String)>)
    ensures
        live_rows_view(r@) == items@.map_values(|x: BluetoothDevice| ("device"@, device_text(x))),
{
    let ghost iv = items@;
    let mut rows: Vec<(&'static str, String)> = Vec::new();
    let mut i: usize = 0;
    assert(live_rows_view(rows@) =~= iv.take(0).map_values(|x: BluetoothDevice| ("device"@, device_text(x))));
    while i < items.len()
        invariant
            iv == items@,
            i <= iv.len(),
            live_rows_view(rows@) == iv.take(i as int).map_values(|x: BluetoothDevice| ("device"@, device_text(x))),
        decreases items.len() - i,
    {
        let x = &items[i];
        let mut text = String::from_str(x.name.as_str());
        text.append(" (");
        text.append(x.mac.as_str());
        text.append(")");
        assert(text@ =~= device_text(*x));
        let ghost before = live_rows_view(rows@);
        rows.push(("device", text));
        proof {
            assert(iv.take(i + 1) =~= iv.take(i as int).push(iv[i as int]));
            assert(live_rows_view(rows@) =~= before.push(("device"@, device_text(iv[i as int]))));
            assert(iv.take(i + 1).map_values(|x: BluetoothDevice| ("device"@, device_text(x))) =~= iv.take(
                i as int,
            ).map_values(|x: BluetoothDevice| ("device"@, device_text(x))).push(("device"@, device_text(iv[i as int]))));
        }
        i += 1;
    }
    assert(iv.take(iv.len() as int) =~= iv);
    rows
}

/// Bluetooth's live rows: a note when no adapter is present, otherwise one
/// row per paired device.
pub fn bluetooth_live_info(adapter_present: bool, devices: &[BluetoothDevice]) -> (r: Vec<(&'static str, String)>)
    ensures
        !adapter_present ==> live_rows_view(r@) == seq![("adapter"@, "no Bluetooth adapter detected"@)],
        adapter_present ==> live_rows_view(r@) == devices@.map_values(
            |x: BluetoothDevice| ("device"@, device_text(x)),
        ),
{
    if !adapter_present {
        let mut rows = Vec::new();
        rows.push(row("adapter", "no Bluetooth adapter detected"));
        assert(live_rows_view(rows@) =~= seq![("adapter"@, "no Bluetooth adapter detected"@)]);
        return rows;
    }
    device_rows(devices)
}

// ---------------------------------------------------------------------------
// Storage
// ---------------------------------------------------------------------------

/// One mounted filesystem's usage as read from the machine.
pub struct DiskUsage {
    pub filesystem: String,
    pub mount: String,
    pub used_percent: u32,
}

/// The row text for one `DiskUsage`.
pub open spec fn usage_text(x: DiskUsage) -> Seq<char> {
    x.filesystem@ + " on "@ + x.mount@ + ": "@ + decimal(x.used_percent as nat) + "% used"@
}

/// One row per filesystem's usage.
fn usage_rows(items: &[DiskUsage]) -> (r: Vec<(&'static str, String)>)
    ensures
        live_rows_view(r@) == items@.map_values(|x: DiskUsage| ("usage"@, usage_text(x))),
{
    let ghost iv = items@;
    let mut rows: Vec<(&'static str, String)> = Vec::new();
    let mut i: usize = 0;
    assert(live_rows_view(rows@) =~= iv.take(0).map_values(|x: DiskUsage| ("usage"@, usage_text(x))));
    while i < items.len()
        invariant
            iv == items@,
            i <= iv.len(),
            live_rows_view(rows@) == iv.take(i as int).map_values(|x: DiskUsage| ("usage"@, usage_text(x))),
        decreases items.len() - i,
    {
        let x = &items[i];
        let mut text = String::from_str(x.filesystem.as_str());
        text.append(" on ");
        text.append(x.mount.as_str());
        text.append(": ");
        let digits = crate::text::decimal_string(x.used_percent as u64);
        text.append(digits.as_str());
        text.append("% used");
        assert(text@ =~= usage_text(*x));
        let ghost before = live_rows_view(rows@);
        rows.push(("usage", text));
        proof {
            assert(iv.take(i + 1) =~= iv.take(i as int).push(iv[i as int]));
            assert(live_rows_view(rows@) =~= before.push(("usage"@, usage_text(iv[i as int]))));
            assert(iv.take(i + 1).map_values(|x: DiskUsage| ("usage"@, usage_text(x))) =~= iv.take(
                i as int,
            ).map_values(|x: DiskUsage| ("usage"@, usage_text(x))).push(("usage"@, usage_text(iv[i as int]))));
        }
        i += 1;
    }
    assert(iv.take(iv.len() as int) =~= iv);
    rows
}

// ---------------------------------------------------------------------------
// Mounts
// ---------------------------------------------------------------------------

/// One mount as read from the machine.
pub struct MountEntry {
    pub device: String,
    pub target: String,
    pub fstype: String,
}

/// The row text for one `MountEntry`.
pub open spec fn mount_text(x: MountEntry) -> Seq<char> {
    x.device@ + " -> "@ + x.target@ + " ("@ + x.fstype@ + ")"@
}

/// One row per mount.
fn mount_rows(items: &[MountEntry]) -> (r: Vec<(&'static str, String)>)
    ensures
        live_rows_view(r@) == items@.map_values(|x: MountEntry| ("mount"@, mount_text(x))),
{
    let ghost iv = items@;
    let mut rows: Vec<(&'static str, String)> = Vec::new();
    let mut i: usize = 0;
    assert(live_rows_view(rows@) =~= iv.take(0).map_values(|x: MountEntry| ("mount"@, mount_text(x))));
    while i < items.len()
        invariant
            iv == items@,
            i <= iv.len(),
            live_rows_view(rows@) == iv.take(i as int).map_values(|x: MountEntry| ("mount"@, mount_text(x))),
        decreases items.len() - i,
    {
        let x = &items[i];
        let mut text = String::from_str(x.device.as_str());
        text.append(" -> ");
        text.append(x.target.as_str());
        text.append(" (");
        text.append(x.fstype.as_str());
        text.append(")");
        assert(text@ =~= mount_text(*x));
        let ghost before = live_rows_view(rows@);
        rows.push(("mount", text));
        proof {
            assert(iv.take(i + 1) =~= iv.take(i as int).push(iv[i as int]));
            assert(live_rows_view(rows@) =~= before.push(("mount"@, mount_text(iv[i as int]))));
            assert(iv.take(i + 1).map_values(|x: MountEntry| ("mount"@, mount_text(x))) =~= iv.take(
                i as int,
            ).map_values(|x: MountEntry| ("mount"@, mount_text(x))).push(("mount"@, mount_text(iv[i as int]))));
        }
        i += 1;
    }
    assert(iv.take(iv.len() as int) =~= iv);
    rows
}

/// What Storage shows: a usage row per filesystem (or one row saying why
/// usage could not be read), then a row per mount.
pub open spec fn storage_rows(usage: Result<Seq<DiskUsage>, Seq<char>>, mounts: Seq<MountEntry>) -> Seq<
    (Seq<char>, Seq<char>),
> {
    (match usage {
        Ok(us) => us.map_values(|x: DiskUsage| ("usage"@, usage_text(x))),
        Err(e) => seq![("usage"@, "could not read disk usage: "@ + e)],
    }) + mounts.map_values(|x: MountEntry| ("mount"@, mount_text(x)))
}

/// Storage's live rows.
pub fn storage_live_info(usage: Result<&[DiskUsage], &str>, mounts: &[MountEntry]) -> (r: Vec<
    (&'static str, String),
>)
    ensures
        live_rows_view(r@) == storage_rows(
            match usage {
                Ok(us) => Ok::<Seq<DiskUsage>, Seq<char>>(us@),
                Err(e) => Err::<Seq<DiskUsage>, Seq<char>>(e@),
            },
            mounts@,
        ),
{
    let mut rows = match usage {
        Ok(us) => usage_rows(us),
        Err(e) => {
            let mut text = String::from_str("could not read disk usage: ");
            text.append(e);
            let mut rows = Vec::new();
            rows.push(("usage", text));
            rows
        },
    };
    let ghost first = live_rows_view(rows@);
    let mut more = mount_rows(mounts);
    let ghost second = live_rows_view(more@);
    rows.append(&mut more);
    assert(live_rows_view(rows@) =~= first + second);
    rows
}

// ---------------------------------------------------------------------------
// About
// ---------------------------------------------------------------------------

/// What About shows: the distribution (`MITOS` when the OS release names
/// none), this program's version, the kernel, the CPU (`unknown` when not
/// read) and its cores, the license, the memory when it was read, then a
/// row per GPU.
pub open spec fn about_rows(
    distro: Option<Seq<char>>,
    version: Seq<char>,
    kernel: Seq<char>,
    cpu_model: Option<Seq<char>>,
    cpu_cores: u64,
    memory: Option<Seq<char>>,
    gpus: Seq<Seq<char>>,
) -> Seq<(Seq<char>, Seq<char>)> {
    seq![
        ("distribution"@, match distro {
            Some(d) => d,
            None => "MITOS"@,
        }),
        ("version"@, version),
        ("kernel"@, kernel),
        ("cpu"@, match cpu_model {
            Some(c) => c,
            None => "unknown"@,
        }),
        ("cpu_cores"@, decimal(cpu_cores as nat)),
        ("license"@, "MIT"@),
    ] + (match memory {
        Some(m) => seq![("memory"@, m)],
        None => Seq::empty(),
    }) + gpus.map_values(|g: Seq<char>| ("gpu"@, g))
}

/// About's live rows; `memory` is the total memory already written out
/// (e.g. `15.5 GiB`).
pub fn about_live_info(
    distro: Option<&str>,
    version: &str,
    kernel: &str,
    cpu_model: Option<&str>,
    cpu_cores: u64,
    memory: Option<&str>,
    gpus: &[String],
) -> (r: Vec<(&'static str, String)>)
    ensures
        live_rows_view(r@) == about_rows(
            opt_chars(distro),
            version@,
            kernel@,
            opt_chars(cpu_model),
            cpu_cores,
            opt_chars(memory),
            gpus@.map_values(|g: String| g@),
        ),
{
    let mut rows: Vec<(&'static str, String)> = Vec::new();
    match distro {
        Some(d) => rows.push(row("distribution", d)),
        None => rows.push(row("distribution", "MITOS")),
    }
    rows.push(row("version", version));
    rows.push(row("kernel", kernel));
    match cpu_model {
        Some(c) => rows.push(row("cpu", c)),
        None => rows.push(row("cpu", "unknown")),
    }
    rows.push(("cpu_cores", crate::text::decimal_string(cpu_cores)));
    rows.push(row("license", "MIT"));
    match memory {
        Some(m) => rows.push(row("memory", m)),
        None => {},
    }
    let ghost head = live_rows_view(rows@);
    let ghost gv = gpus@.map_values(|g: String| g@);
    assert(head =~= seq![
        ("distribution"@, match opt_chars(distro) {
            Some(d) => d,
            None => "MITOS"@,
        }),
        ("version"@, version@),
        ("kernel"@, kernel@),
        ("cpu"@, match opt_chars(cpu_model) {
            Some(c) => c,
            None => "unknown"@,
        }),
        ("cpu_cores"@, decimal(cpu_cores as nat)),
        ("license"@, "MIT"@),
    ] + (match opt_chars(memory) {
        Some(m) => seq![("memory"@, m)],
        None => Seq::empty(),
    }));
    let mut i: usize = 0;
    assert(gv.take(0).map_values(|g: Seq<char>| ("gpu"@, g)) =~= Seq::<(Seq<char>, Seq<char>)>::empty());
    assert(live_rows_view(rows@) =~= head + gv.take(0).map_values(|g: Seq<char>| ("gpu"@, g)));
    while i < gpus.len()
        invariant
            gv == gpus@.map_values(|g: String| g@),
            i <= gpus@.len(),
            live_rows_view(rows@) == head + gv.take(i as int).map_values(|g: Seq<char>| ("gpu"@, g)),
        decreases gpus.len() - i,
    {
        let ghost before = live_rows_view(rows@);
        rows.push(row("gpu", gpus[i].as_str()));
        proof {
            assert(gv.take(i + 1) =~= gv.take(i as int).push(gv[i as int]));
            assert(gv[i as int] == gpus@[i as int]@);
            assert(gv.take(i + 1).map_values(|g: Seq<char>| ("gpu"@, g)) =~= gv.take(i as int).map_values(
                |g: Seq<char>| ("gpu"@, g),
            ).push(("gpu"@, gv[i as int])));
            assert(live_rows_view(rows@) =~= before.push(("gpu"@, gv[i as int])));
        }
        i += 1;
    }
    assert(gv.take(gpus@.len() as int) =~= gv);
    rows
}

} // verus!
