//! Is the machine ready for a mount? Rights, tools, ports and the mount point,
//! checked from what was found out about them.
use crate::mount_command;
use crate::platform;
use crate::platform::Platform;
use crate::text;
use crate::windows;
use vstd::prelude::*;

verus! {

/// How a check came out.
#[derive(Clone, Copy, PartialEq, Eq, Structural, Debug)]
pub enum CheckLevel {
    Pass,
    Warn,
    Fail,
}

/// One check.
#[derive(Clone, PartialEq, Eq, Debug)]
pub struct CheckItem {
    pub level: CheckLevel,
    pub label: String,
    pub detail: String,
}

#[verifier::ext_equal]
pub ghost struct CheckItemView {
    pub level: CheckLevel,
    pub label: Seq<char>,
    pub detail: Seq<char>,
}

impl View for CheckItem {
    type V = CheckItemView;

    open spec fn view(&self) -> CheckItemView {
        CheckItemView { level: self.level, label: self.label@, detail: self.detail@ }
    }
}

/// What the checks hold.
pub open spec fn checks_view(checks: Seq<CheckItem>) -> Seq<CheckItemView> {
    checks.map_values(|c: CheckItem| c@)
}

/// A check that came out as `level`.
pub open spec fn item(level: CheckLevel, label: Seq<char>, detail: Seq<char>) -> CheckItemView {
    CheckItemView { level, label, detail }
}

/// A check that came out as `level`.
pub fn new_item(level: CheckLevel, label: &str, detail: &str) -> (r: CheckItem)
    ensures
        r@ == item(level, label@, detail@),
{
    CheckItem { level, label: label.to_owned(), detail: detail.to_owned() }
}

/// How a check came out, as it is printed.
pub fn check_level_label(level: CheckLevel) -> (r: &'static str)
    ensures
        r@ == match level {
            CheckLevel::Pass => "OK"@,
            CheckLevel::Warn => "WARN"@,
            CheckLevel::Fail => "FAIL"@,
        },
{
    match level {
        CheckLevel::Pass => "OK",
        CheckLevel::Warn => "WARN",
        CheckLevel::Fail => "FAIL",
    }
}

/// Some check came out as `level`.
pub open spec fn any_level(checks: Seq<CheckItemView>, level: CheckLevel) -> bool {
    exists|i: int| 0 <= i < checks.len() && (#[trigger] checks[i]).level == level
}

/// Tells whether some check came out as `level`.
pub fn has_level(checks: &Vec<CheckItem>, level: CheckLevel) -> (r: bool)
    ensures
        r == any_level(checks_view(checks@), level),
{
    let ghost all = checks_view(checks@);
    let mut i: usize = 0;
    while i < checks.len()
        invariant
            i <= checks@.len(),
            all == checks_view(checks@),
            forall|j: int| 0 <= j < i ==> (#[trigger] all[j]).level != level,
        decreases checks@.len() - i,
    {
        assert(all[i as int].level == checks@[i as int].level);
        if checks[i].level == level {
            return true;
        }
        i = i + 1;
    }
    false
}

/// Check `i` is the first that failed.
pub open spec fn is_first_failure(checks: Seq<CheckItemView>, i: int) -> bool {
    &&& 0 <= i < checks.len()
    &&& checks[i].level == CheckLevel::Fail
    &&& forall|j: int| 0 <= j < i ==> (#[trigger] checks[j]).level != CheckLevel::Fail
}

/// The first check that failed.
pub fn find_failure(checks: &Vec<CheckItem>) -> (r: Option<usize>)
    ensures
        match r {
            Some(i) => is_first_failure(checks_view(checks@), i as int),
            None => !any_level(checks_view(checks@), CheckLevel::Fail),
        },
{
    let ghost all = checks_view(checks@);
    let mut i: usize = 0;
    while i < checks.len()
        invariant
            i <= checks@.len(),
            all == checks_view(checks@),
            forall|j: int| 0 <= j < i ==> (#[trigger] all[j]).level != CheckLevel::Fail,
        decreases checks@.len() - i,
    {
        assert(all[i as int].level == checks@[i as int].level);
        if checks[i].level == CheckLevel::Fail {
            return Some(i);
        }
        i = i + 1;
    }
    None
}

/// The check is the one about the NFS client, and failed.
pub open spec fn is_client_failure(check: CheckItemView) -> bool {
    check.label == "Client for NFS"@ && check.level == CheckLevel::Fail
}

/// Check `i` is what stands in the way of a mount: the NFS client where it is
/// missing, and else the first that failed.
pub open spec fn is_blocker(checks: Seq<CheckItemView>, i: int) -> bool {
    if exists|j: int| 0 <= j < checks.len() && is_client_failure(#[trigger] checks[j]) {
        &&& 0 <= i < checks.len()
        &&& is_client_failure(checks[i])
        &&& forall|j: int| 0 <= j < i ==> !is_client_failure(#[trigger] checks[j])
    } else {
        is_first_failure(checks, i)
    }
}

/// The check that stands in the way of a mount.
pub fn find_blocker(checks: &Vec<CheckItem>) -> (r: Option<usize>)
    ensures
        match r {
            Some(i) => is_blocker(checks_view(checks@), i as int),
            None => !any_level(checks_view(checks@), CheckLevel::Fail),
        },
{
    let ghost all = checks_view(checks@);
    let mut i: usize = 0;
    while i < checks.len()
        invariant
            i <= checks@.len(),
            all == checks_view(checks@),
            forall|j: int| 0 <= j < i ==> !is_client_failure(#[trigger] all[j]),
        decreases checks@.len() - i,
    {
        assert(all[i as int] == checks@[i as int]@);
        if checks[i].level == CheckLevel::Fail && text::str_eq(
            checks[i].label.as_str(),
            "Client for NFS",
        ) {
            assert(is_client_failure(all[i as int]));
            return Some(i);
        }
        i = i + 1;
    }
    find_failure(checks)
}

/// The checks in one sentence: the worst of them counts.
pub open spec fn spec_summary(checks: Seq<CheckItemView>) -> Seq<char> {
    if any_level(checks, CheckLevel::Fail) {
        "Setup checks found a blocking issue"@
    } else if any_level(checks, CheckLevel::Warn) {
        "Setup checks passed with warnings"@
    } else {
        "Setup checks passed"@
    }
}

/// The checks in one sentence.
pub fn summarize_checks(checks: &Vec<CheckItem>) -> (r: String)
    ensures
        r@ == spec_summary(checks_view(checks@)),
{
    if has_level(checks, CheckLevel::Fail) {
        "Setup checks found a blocking issue".to_owned()
    } else if has_level(checks, CheckLevel::Warn) {
        "Setup checks passed with warnings".to_owned()
    } else {
        "Setup checks passed".to_owned()
    }
}

/// A check as it is printed.
pub fn check_line(check: &CheckItem) -> (r: String)
    ensures
        r@ == "["@ + (match check.level {
            CheckLevel::Pass => "OK"@,
            CheckLevel::Warn => "WARN"@,
            CheckLevel::Fail => "FAIL"@,
        }) + "] "@ + check.label@ + ": "@ + check.detail@,
{
    let mut r = text::concat3("[", check_level_label(check.level), "] ");
    r.append(check.label.as_str());
    r.append(": ");
    r.append(check.detail.as_str());
    r
}

/// What the user can do about a check that failed.
pub open spec fn spec_blocker_command(platform: Platform, label: Seq<char>) -> Option<Seq<char>> {
    if platform != Platform::Windows {
        None
    } else if label == "Client for NFS"@ {
        Some(platform::spec_enable_nfs_command())
    } else if label == "Administrator"@ {
        Some("Start-Process hf-mount-gui.exe -Verb RunAs"@)
    } else if label == "Portmapper"@ {
        Some("Close other NFS/portmap services or another hf-mount instance, then recheck."@)
    } else if label == "Mount point"@ {
        Some("Use an unused drive letter such as Z:, Y:, or X:."@)
    } else {
        None
    }
}

/// What the user can do about a check that failed.
pub fn blocker_command(platform: Platform, check: &CheckItem) -> (r: Option<&'static str>)
    ensures
        text::opt_view(r) == spec_blocker_command(platform, check.label@),
{
    if platform != Platform::Windows {
        return None;
    }
    let label = check.label.as_str();
    if text::str_eq(label, "Client for NFS") {
        Some(platform::windows_enable_nfs_command())
    } else if text::str_eq(label, "Administrator") {
        Some("Start-Process hf-mount-gui.exe -Verb RunAs")
    } else if text::str_eq(label, "Portmapper") {
        Some("Close other NFS/portmap services or another hf-mount instance, then recheck.")
    } else if text::str_eq(label, "Mount point") {
        Some("Use an unused drive letter such as Z:, Y:, or X:.")
    } else {
        None
    }
}

// ── Findings ────────────────────────────────────────────────────────────

/// What was found out about the machine.
#[derive(PartialEq, Eq, Debug)]
pub struct Findings {
    /// The program runs with raised rights.
    pub elevated: bool,
    /// The programs that mount and unmount are there. On macOS that is one.
    pub mount_tool_exists: bool,
    pub umount_tool_exists: bool,
    /// Whether the UDP port of the port mapper is free, or why not.
    pub udp_port: Result<(), String>,
    /// Whether its TCP port is free, or why not.
    pub tcp_port: Result<(), String>,
    /// There is something at the mount point; at its root where it is a drive.
    pub target_exists: bool,
    pub target_is_dir: bool,
    /// Windows takes the mount point for an absolute path.
    pub target_is_absolute: bool,
}

/// The state of a port in a report.
pub open spec fn spec_bind_label(result: Result<(), String>) -> Seq<char> {
    match result {
        Ok(()) => "ok"@,
        Err(e) => e@,
    }
}

/// The state of a port in a report.
pub fn bind_result_label(result: &Result<(), String>) -> (r: String)
    ensures
        r@ == spec_bind_label(*result),
{
    match result {
        Ok(()) => "ok".to_owned(),
        Err(e) => e.clone(),
    }
}

pub open spec fn spec_administrator_check(f: Findings) -> CheckItemView {
    if f.elevated {
        item(CheckLevel::Pass, "Administrator"@, "The GUI is elevated."@)
    } else {
        item(
            CheckLevel::Fail,
            "Administrator"@,
            "Restart as Administrator so hf-mount can bind the local NFS portmapper."@,
        )
    }
}

pub open spec fn spec_client_check(f: Findings) -> CheckItemView {
    if f.mount_tool_exists && f.umount_tool_exists {
        item(CheckLevel::Pass, "Client for NFS"@, "mount.exe and umount.exe are available."@)
    } else {
        item(
            CheckLevel::Fail,
            "Client for NFS"@,
            "Enable Microsoft's Client for NFS optional feature and reboot if Windows asks."@,
        )
    }
}

/// Without raised rights the ports cannot be tried.
pub open spec fn spec_portmapper_check(f: Findings) -> CheckItemView {
    if !f.elevated {
        item(CheckLevel::Warn, "Portmapper"@, "Port 111 is checked after elevation."@)
    } else if f.udp_port is Ok && f.tcp_port is Ok {
        item(
            CheckLevel::Pass,
            "Portmapper"@,
            "TCP and UDP port 111 are available for the local NFS portmapper."@,
        )
    } else {
        item(
            CheckLevel::Fail,
            "Portmapper"@,
            "Port 111 is not available: UDP="@ + spec_bind_label(f.udp_port) + " TCP="@
                + spec_bind_label(f.tcp_port)
                + ". Close other NFS/portmap services or another hf-mount instance."@,
        )
    }
}

/// A drive letter has to be free. A directory has to be absolute, and is less
/// reliable than a drive letter.
pub open spec fn spec_windows_target_check(mount_point: Seq<char>, f: Findings) -> CheckItemView {
    let path = text::spec_trim(mount_point);
    let label = "Mount point"@;
    if path.len() == 0 {
        item(
            CheckLevel::Fail,
            label,
            "Choose a drive letter like Z: or an empty NTFS directory."@,
        )
    } else {
        match windows::spec_drive_letter(path) {
            Some(drive) => if f.target_exists {
                item(
                    CheckLevel::Fail,
                    label,
                    mount_command::spec_mount_target(path)
                        + " already exists. Pick an unused drive letter such as Y: or X:."@,
                )
            } else {
                item(
                    CheckLevel::Pass,
                    label,
                    mount_command::spec_mount_target(path) + " is a free drive-letter target."@,
                )
            },
            None => if !f.target_is_absolute {
                item(
                    CheckLevel::Fail,
                    label,
                    "Use a drive letter or an absolute directory path."@,
                )
            } else if f.target_exists && !f.target_is_dir {
                item(CheckLevel::Fail, label, "The target exists but is not a directory."@)
            } else if f.target_exists {
                item(
                    CheckLevel::Warn,
                    label,
                    "Directory target is absolute. A drive letter such as Z: is still the most reliable Windows target."@,
                )
            } else {
                item(
                    CheckLevel::Warn,
                    label,
                    "Directory target is absolute and will be created if the Windows NFS client accepts it. A drive letter is more reliable."@,
                )
            },
        }
    }
}

pub open spec fn spec_unix_target_check(mount_point: Seq<char>) -> CheckItemView {
    if platform::spec_is_absolute_unix(text::spec_trim(mount_point)) {
        item(CheckLevel::Pass, "Mount point"@, "Mount point is an absolute path."@)
    } else {
        item(CheckLevel::Fail, "Mount point"@, "Use an absolute local directory path."@)
    }
}

pub open spec fn spec_mount_nfs_check(f: Findings) -> CheckItemView {
    if f.mount_tool_exists {
        item(CheckLevel::Pass, "mount_nfs"@, "/sbin/mount_nfs is available."@)
    } else {
        item(CheckLevel::Fail, "mount_nfs"@, "/sbin/mount_nfs was not found."@)
    }
}

/// All the checks of the operating system, in order.
pub open spec fn spec_preflight(platform: Platform, mount_point: Seq<char>, f: Findings) -> Seq<
    CheckItemView,
> {
    match platform {
        Platform::Windows => seq![
            spec_administrator_check(f),
            spec_client_check(f),
            spec_portmapper_check(f),
            spec_windows_target_check(mount_point, f),
        ],
        Platform::MacOs => seq![spec_mount_nfs_check(f), spec_unix_target_check(mount_point)],
        Platform::Linux => seq![spec_unix_target_check(mount_point)],
    }
}

/// The check of the rights of the program.
pub fn administrator_check(f: &Findings) -> (r: CheckItem)
    ensures
        r@ == spec_administrator_check(*f),
{
    if f.elevated {
        new_item(CheckLevel::Pass, "Administrator", "The GUI is elevated.")
    } else {
        new_item(
            CheckLevel::Fail,
            "Administrator",
            "Restart as Administrator so hf-mount can bind the local NFS portmapper.",
        )
    }
}

/// The check of the programs that mount and unmount on Windows.
pub fn client_check(f: &Findings) -> (r: CheckItem)
    ensures
        r@ == spec_client_check(*f),
{
    if f.mount_tool_exists && f.umount_tool_exists {
        new_item(
            CheckLevel::Pass,
            "Client for NFS",
            "mount.exe and umount.exe are available.",
        )
    } else {
        new_item(
            CheckLevel::Fail,
            "Client for NFS",
            "Enable Microsoft's Client for NFS optional feature and reboot if Windows asks.",
        )
    }
}

/// The check of the ports of the port mapper.
pub fn portmapper_check(f: &Findings) -> (r: CheckItem)
    ensures
        r@ == spec_portmapper_check(*f),
{
    if !f.elevated {
        return new_item(CheckLevel::Warn, "Portmapper", "Port 111 is checked after elevation.");
    }
    match (&f.udp_port, &f.tcp_port) {
        (Ok(()), Ok(())) => new_item(
            CheckLevel::Pass,
            "Portmapper",
            "TCP and UDP port 111 are available for the local NFS portmapper.",
        ),
        (udp, tcp) => {
            let mut detail = "Port 111 is not available: UDP=".to_owned();
            detail.append(bind_result_label(udp).as_str());
            detail.append(" TCP=");
            detail.append(bind_result_label(tcp).as_str());
            detail.append(". Close other NFS/portmap services or another hf-mount instance.");
            new_item(CheckLevel::Fail, "Portmapper", detail.as_str())
        },
    }
}

/// The check of a mount point on Windows.
pub fn windows_target_check(mount_point: &str, f: &Findings) -> (r: CheckItem)
    ensures
        r@ == spec_windows_target_check(mount_point@, *f),
{
    let path = text::trim(mount_point);
    let label = "Mount point";
    if path.as_str().is_empty() {
        return new_item(
            CheckLevel::Fail,
            label,
            "Choose a drive letter like Z: or an empty NTFS directory.",
        );
    }
    if windows::drive_letter(path.as_str()).is_some() {
        let drive = mount_command::windows_nfs_mount_target(path.as_str());
        if f.target_exists {
            let detail = text::concat(
                drive.as_str(),
                " already exists. Pick an unused drive letter such as Y: or X:.",
            );
            new_item(CheckLevel::Fail, label, detail.as_str())
        } else {
            let detail = text::concat(drive.as_str(), " is a free drive-letter target.");
            new_item(CheckLevel::Pass, label, detail.as_str())
        }
    } else if !f.target_is_absolute {
        new_item(CheckLevel::Fail, label, "Use a drive letter or an absolute directory path.")
    } else if f.target_exists && !f.target_is_dir {
        new_item(CheckLevel::Fail, label, "The target exists but is not a directory.")
    } else if f.target_exists {
        new_item(
            CheckLevel::Warn,
            label,
            "Directory target is absolute. A drive letter such as Z: is still the most reliable Windows target.",
        )
    } else {
        new_item(
            CheckLevel::Warn,
            label,
            "Directory target is absolute and will be created if the Windows NFS client accepts it. A drive letter is more reliable.",
        )
    }
}

/// The check of a mount point elsewhere.
pub fn unix_target_check(mount_point: &str) -> (r: CheckItem)
    ensures
        r@ == spec_unix_target_check(mount_point@),
{
    let path = text::trim(mount_point);
    if platform::is_absolute_unix(path.as_str()) {
        new_item(CheckLevel::Pass, "Mount point", "Mount point is an absolute path.")
    } else {
        new_item(CheckLevel::Fail, "Mount point", "Use an absolute local directory path.")
    }
}

/// The check of the program that mounts on macOS.
pub fn mount_nfs_check(f: &Findings) -> (r: CheckItem)
    ensures
        r@ == spec_mount_nfs_check(*f),
{
    if f.mount_tool_exists {
        new_item(CheckLevel::Pass, "mount_nfs", "/sbin/mount_nfs is available.")
    } else {
        new_item(CheckLevel::Fail, "mount_nfs", "/sbin/mount_nfs was not found.")
    }
}

/// All the checks of the operating system.
pub fn run_preflight_checks(platform: Platform, mount_point: &str, f: &Findings) -> (r: Vec<
    CheckItem,
>)
    ensures
        checks_view(r@) == spec_preflight(platform, mount_point@, *f),
{
    let mut checks: Vec<CheckItem> = Vec::new();
    match platform {
        Platform::Windows => {
            checks.push(administrator_check(f));
            checks.push(client_check(f));
            checks.push(portmapper_check(f));
            checks.push(windows_target_check(mount_point, f));
        },
        Platform::MacOs => {
            checks.push(mount_nfs_check(f));
            checks.push(unix_target_check(mount_point));
        },
        Platform::Linux => {
            checks.push(unix_target_check(mount_point));
        },
    }
    assert(checks_view(checks@) =~= spec_preflight(platform, mount_point@, *f));
    checks
}

/// Whatever is found out, the mount point is always checked, and last.
pub proof fn law_mount_point_is_always_checked(
    platform: Platform,
    mount_point: Seq<char>,
    f: Findings,
)
    ensures
        spec_preflight(platform, mount_point, f).len() > 0,
        spec_preflight(platform, mount_point, f).last().label == "Mount point"@,
{
}

/// On Windows no mount is ready without raised rights, the tools and a mount
/// point that can be one.
pub proof fn law_windows_needs(mount_point: Seq<char>, f: Findings)
    requires
        !any_level(spec_preflight(Platform::Windows, mount_point, f), CheckLevel::Fail),
    ensures
        f.elevated,
        f.mount_tool_exists && f.umount_tool_exists,
        f.udp_port is Ok && f.tcp_port is Ok,
        text::spec_trim(mount_point).len() > 0,
        windows::spec_drive_letter(text::spec_trim(mount_point)) is Some ==> !f.target_exists,
{
    let checks = spec_preflight(Platform::Windows, mount_point, f);
    assert(checks[0].level != CheckLevel::Fail);
    assert(checks[1].level != CheckLevel::Fail);
    assert(checks[2].level != CheckLevel::Fail);
    assert(checks[3].level != CheckLevel::Fail);
}

} // verus!
