//! The system facts reported at boot and on each heartbeat.

use vstd::prelude::*;
use crate::text::{decimal, decimal_string};
use crate::webhook::{
    dispatch_spec,
    dispatch_view,
    pairs_view,
    DispatchError,
    EventCategory,
    Outgoing,
    WebhookSender,
};

verus! {

/// A point-in-time reading of the machine. A name the platform could not
/// tell is `None`.
#[derive(Clone, Debug)]
pub struct SystemSnapshot {
    pub os_name: Option<String>,
    pub os_version: Option<String>,
    pub kernel_version: Option<String>,
    pub host_name: Option<String>,
    /// Bytes of memory in all.
    pub total_memory: u64,
    /// Bytes of memory in use.
    pub used_memory: u64,
    pub cpu_count: u64,
    /// Seconds since the machine booted.
    pub uptime: u64,
}

/// The text of `o`, or `default` when it is absent.
pub open spec fn text_or(o: Option<String>, default: Seq<char>) -> Seq<char> {
    match o {
        Some(s) => s@,
        None => default,
    }
}

/// A byte count as whole mebibytes: "<n> MB".
pub open spec fn megabytes_text(bytes: u64) -> Seq<char> {
    decimal((bytes as nat) / 1048576) + " MB"@
}

/// The fields of a heartbeat, in order.
pub open spec fn heartbeat_fields(s: SystemSnapshot) -> Seq<(Seq<char>, Seq<char>)> {
    seq![
        ("OS"@, text_or(s.os_name, "Unknown"@)),
        ("OS Version"@, text_or(s.os_version, "Unknown"@)),
        ("Kernel"@, text_or(s.kernel_version, "Unknown"@)),
        ("Hostname"@, text_or(s.host_name, "Unknown"@)),
        ("Total Memory"@, megabytes_text(s.total_memory)),
        ("Used Memory"@, megabytes_text(s.used_memory)),
        ("CPU Count"@, decimal(s.cpu_count as nat)),
    ]
}

/// The fields of the boot notification, in order.
pub open spec fn boot_fields(s: SystemSnapshot) -> Seq<(Seq<char>, Seq<char>)> {
    seq![
        ("OS"@, text_or(s.os_name, "Unknown OS"@) + " "@ + text_or(s.os_version, "Unknown version"@)),
        ("Kernel"@, text_or(s.kernel_version, "Unknown kernel"@)),
        ("Host"@, text_or(s.host_name, "Unknown hostname"@)),
        ("Uptime"@, decimal(s.uptime as nat) + " seconds"@),
    ]
}

fn string_or(o: &Option<String>, default: &str) -> (r: String)
    ensures
        r@ == text_or(*o, default@),
{
    match o {
        Some(s) => s.clone(),
        None => String::from_str(default),
    }
}

fn megabytes_string(bytes: u64) -> (r: String)
    ensures
        r@ == megabytes_text(bytes),
{
    let mut s = decimal_string(bytes / (1024 * 1024));
    s.append(" MB");
    s
}

fn pair(name: &str, value: String) -> (r: (String, String))
    ensures
        r.0@ == name@,
        r.1 == value,
{
    (String::from_str(name), value)
}

/// The heartbeat's fields: OS, version, kernel, host name, memory and CPU
/// count, with "Unknown" for a name the snapshot lacks.
pub fn get_system_info(snapshot: &SystemSnapshot) -> (r: Vec<(String, String)>)
    ensures
        pairs_view(r@) == heartbeat_fields(*snapshot),
{
    let r = vec![
        pair("OS", string_or(&snapshot.os_name, "Unknown")),
        pair("OS Version", string_or(&snapshot.os_version, "Unknown")),
        pair("Kernel", string_or(&snapshot.kernel_version, "Unknown")),
        pair("Hostname", string_or(&snapshot.host_name, "Unknown")),
        pair("Total Memory", megabytes_string(snapshot.total_memory)),
        pair("Used Memory", megabytes_string(snapshot.used_memory)),
        pair("CPU Count", decimal_string(snapshot.cpu_count)),
    ];
    assert(pairs_view(r@) =~= heartbeat_fields(*snapshot));
    r
}

/// The boot notification's fields: OS with version, kernel, host and uptime.
pub fn boot_info(snapshot: &SystemSnapshot) -> (r: Vec<(String, String)>)
    ensures
        pairs_view(r@) == boot_fields(*snapshot),
{
    let mut os = string_or(&snapshot.os_name, "Unknown OS");
    os.append(" ");
    let version = string_or(&snapshot.os_version, "Unknown version");
    os.append(version.as_str());
    let mut uptime = decimal_string(snapshot.uptime);
    uptime.append(" seconds");
    let r = vec![
        pair("OS", os),
        pair("Kernel", string_or(&snapshot.kernel_version, "Unknown kernel")),
        pair("Host", string_or(&snapshot.host_name, "Unknown hostname")),
        pair("Uptime", uptime),
    ];
    assert(pairs_view(r@) =~= boot_fields(*snapshot));
    r
}

/// The dispatch announcing that the system (or the agent) has started.
pub open spec fn boot_dispatch(w: WebhookSender, s: SystemSnapshot, timestamp: Seq<char>) -> Result<
    crate::webhook::OutgoingView,
    DispatchError,
> {
    dispatch_spec(
        w,
        EventCategory::System,
        "System Started"@,
        "The system has been started or RAA has been launched."@,
        boot_fields(s),
        timestamp,
    )
}

/// Prepares the one notification sent when the agent starts.
pub fn send_boot_notification(webhook: &WebhookSender, snapshot: &SystemSnapshot, timestamp: &str) -> (r:
    Result<Outgoing, DispatchError>)
    ensures
        dispatch_view(r) == boot_dispatch(*webhook, *snapshot, timestamp@),
{
    webhook.send(
        EventCategory::System,
        "System Started",
        "The system has been started or RAA has been launched.",
        boot_info(snapshot),
        timestamp,
    )
}

} // verus!
