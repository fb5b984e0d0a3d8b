//! The heartbeat: a `System` notification with a snapshot of the machine,
//! sent every N minutes.

use vstd::prelude::*;
use crate::system::{get_system_info, heartbeat_fields, SystemSnapshot};
use crate::text::{decimal, decimal_string};
use crate::webhook::{dispatch_spec, dispatch_view, DispatchError, EventCategory, Outgoing, WebhookSender};

verus! {

/// The dispatch of one heartbeat.
pub open spec fn heartbeat_dispatch(
    w: WebhookSender,
    s: SystemSnapshot,
    timestamp: Seq<char>,
) -> Result<crate::webhook::OutgoingView, DispatchError> {
    dispatch_spec(
        w,
        EventCategory::System,
        "Heartbeat"@,
        "Regular system heartbeat check-in"@,
        heartbeat_fields(s),
        timestamp,
    )
}

/// The cron schedule (with a seconds column) that fires every `minutes` minutes.
pub open spec fn cron_every(minutes: u64) -> Seq<char> {
    "0 */"@ + decimal(minutes as nat) + " * * * *"@
}

/// Prepares one heartbeat. It depends on nothing but its arguments, so a
/// failed delivery of an earlier one changes nothing here.
pub fn send_heartbeat(webhook: &WebhookSender, snapshot: &SystemSnapshot, timestamp: &str) -> (r:
    Result<Outgoing, DispatchError>)
    ensures
        dispatch_view(r) == heartbeat_dispatch(*webhook, *snapshot, timestamp@),
{
    webhook.send(
        EventCategory::System,
        "Heartbeat",
        "Regular system heartbeat check-in",
        get_system_info(snapshot),
        timestamp,
    )
}

/// The heartbeat's cadence and the dispatcher it reports through.
pub struct HeartbeatScheduler {
    webhook: WebhookSender,
    interval_minutes: u64,
}

impl HeartbeatScheduler {
    pub closed spec fn spec_webhook(&self) -> WebhookSender {
        self.webhook
    }

    pub closed spec fn spec_interval_minutes(&self) -> u64 {
        self.interval_minutes
    }

    pub fn new(webhook: WebhookSender, interval_minutes: u64) -> (r: Self)
        ensures
            r.spec_webhook() == webhook,
            r.spec_interval_minutes() == interval_minutes,
    {
        HeartbeatScheduler { webhook, interval_minutes }
    }

    pub fn interval_minutes(&self) -> (r: u64)
        ensures
            r == self.spec_interval_minutes(),
    {
        self.interval_minutes
    }

    pub fn webhook(&self) -> (r: &WebhookSender)
        ensures
            *r == self.spec_webhook(),
    {
        &self.webhook
    }

    /// The cron expression of the cadence: second 0 of every N-th minute.
    pub fn cron_expression(&self) -> (r: String)
        ensures
            r@ == cron_every(self.spec_interval_minutes()),
    {
        let mut s = String::from_str("0 */");
        let n = decimal_string(self.interval_minutes);
        s.append(n.as_str());
        s.append(" * * * *");
        s
    }

    /// Prepares the heartbeat of one scheduled fire.
    pub fn fire(&self, snapshot: &SystemSnapshot, timestamp: &str) -> (r: Result<Outgoing, DispatchError>)
        ensures
            dispatch_view(r) == heartbeat_dispatch(self.spec_webhook(), *snapshot, timestamp@),
    {
        send_heartbeat(&self.webhook, snapshot, timestamp)
    }
}

} // verus!
