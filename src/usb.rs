//! Removable media: turns attach and detach events of the watched mount
//! directory into `Usb` notifications, one per event.

use vstd::prelude::*;
use crate::webhook::{dispatch_spec, dispatch_view, pairs_view, DispatchError, EventCategory, Outgoing, WebhookSender};

verus! {

/// The lower-case form of a string, as `str::to_lowercase` gives it.
pub uninterp spec fn lower_of(s: Seq<char>) -> Seq<char>;

/// Relies on `str::to_lowercase`: its result depends on the characters alone.
#[verifier::external_body]
fn lowercase(s: &str) -> (r: String)
    ensures
        r@ == lower_of(s@),
{
    s.to_lowercase()
}

/// What happened in the watched mount directory.
#[derive(Clone, Copy, Debug, PartialEq, Eq, Structural)]
pub enum HotplugKind {
    Created,
    Removed,
    Other,
}

/// The paths of an event, separated by ", ".
pub open spec fn join_paths(paths: Seq<Seq<char>>) -> Seq<char>
    decreases paths.len(),
{
    if paths.len() == 0 {
        Seq::empty()
    } else if paths.len() == 1 {
        paths[0]
    } else {
        join_paths(paths.drop_last()) + ", "@ + paths.last()
    }
}

/// The views of a list of strings.
pub open spec fn strings_view(v: Seq<String>) -> Seq<Seq<char>> {
    v.map_values(|s: String| s@)
}

/// The dispatch reporting that a device was `action` ("Connected", ...), with
/// `lowered` the action in lower case.
pub open spec fn usb_dispatch(
    w: WebhookSender,
    action: Seq<char>,
    lowered: Seq<char>,
    device: Seq<char>,
    timestamp: Seq<char>,
) -> Result<crate::webhook::OutgoingView, DispatchError> {
    dispatch_spec(
        w,
        EventCategory::Usb,
        "USB Device "@ + action,
        "USB device has been "@ + lowered,
        seq![("Action"@, action), ("Device"@, device)],
        timestamp,
    )
}

/// What an event of `kind` on `paths` dispatches: nothing for `Other`.
pub open spec fn event_dispatch(
    w: WebhookSender,
    kind: HotplugKind,
    paths: Seq<Seq<char>>,
    timestamp: Seq<char>,
) -> Option<Result<crate::webhook::OutgoingView, DispatchError>> {
    match kind {
        HotplugKind::Created => Some(
            usb_dispatch(w, "Connected"@, "connected"@, join_paths(paths), timestamp),
        ),
        HotplugKind::Removed => Some(
            usb_dispatch(w, "Disconnected"@, "disconnected"@, join_paths(paths), timestamp),
        ),
        HotplugKind::Other => None,
    }
}

/// Joins `paths` with ", ".
pub fn join_path_list(paths: &Vec<String>) -> (r: String)
    ensures
        r@ == join_paths(strings_view(paths@)),
{
    let mut out = String::new();
    let mut i: usize = 0;
    while i < paths.len()
        invariant
            i <= paths@.len(),
            out@ == join_paths(strings_view(paths@.subrange(0, i as int))),
        decreases paths@.len() - i,
    {
        let ghost prefix = strings_view(paths@.subrange(0, i + 1));
        if i > 0 {
            out.append(", ");
        }
        out.append(paths[i].as_str());
        proof {
            assert(prefix.drop_last() =~= strings_view(paths@.subrange(0, i as int)));
            assert(prefix.last() == paths@[i as int]@);
            if i == 0 {
                assert(out@ =~= prefix[0]);
            }
        }
        i = i + 1;
    }
    assert(paths@.subrange(0, paths@.len() as int) =~= paths@);
    out
}

/// Watches removable media and reports through its dispatcher.
pub struct UsbMonitor {
    webhook: WebhookSender,
}

impl UsbMonitor {
    pub closed spec fn spec_webhook(&self) -> WebhookSender {
        self.webhook
    }

    pub fn new(webhook: WebhookSender) -> (r: Self)
        ensures
            r.spec_webhook() == webhook,
    {
        UsbMonitor { webhook }
    }

    pub fn webhook(&self) -> (r: &WebhookSender)
        ensures
            *r == self.spec_webhook(),
    {
        &self.webhook
    }

    /// Prepares the notification that `device` was `action`, given the
    /// action's lower-case form `lowered_action`.
    pub fn usb_notification(
        &self,
        action: &str,
        lowered_action: &str,
        device: &str,
        timestamp: &str,
    ) -> (r: Result<Outgoing, DispatchError>)
        ensures
            dispatch_view(r) == usb_dispatch(
                self.spec_webhook(),
                action@,
                lowered_action@,
                device@,
                timestamp@,
            ),
    {
        let mut title = String::from_str("USB Device ");
        title.append(action);
        let mut message = String::from_str("USB device has been ");
        message.append(lowered_action);
        let fields = vec![
            (String::from_str("Action"), String::from_str(action)),
            (String::from_str("Device"), String::from_str(device)),
        ];
        assert(pairs_view(fields@) =~= seq![("Action"@, action@), ("Device"@, device@)]);
        self.webhook.send(EventCategory::Usb, title.as_str(), message.as_str(), fields, timestamp)
    }

    /// Prepares the notification that `device` was `action` ("Connected",
    /// "Disconnected"); the message holds the action in lower case.
    pub fn send_usb_notification(&self, action: &str, device: &str, timestamp: &str) -> (r: Result<
        Outgoing,
        DispatchError,
    >)
        ensures
            dispatch_view(r) == usb_dispatch(
                self.spec_webhook(),
                action@,
                lower_of(action@),
                device@,
                timestamp@,
            ),
    {
        let lowered = lowercase(action);
        self.usb_notification(action, lowered.as_str(), device, timestamp)
    }

    /// Turns one event of the watched directory into its notification: a
    /// creation reports a connected device, a removal a disconnected one,
    /// anything else nothing. Events are not merged: each yields its own.
    pub fn handle_event(&self, kind: HotplugKind, paths: &Vec<String>, timestamp: &str) -> (r: Option<
        Result<Outgoing, DispatchError>,
    >)
        ensures
            match (r, event_dispatch(self.spec_webhook(), kind, strings_view(paths@), timestamp@)) {
                (None, None) => true,
                (Some(d), Some(e)) => dispatch_view(d) == e,
                _ => false,
            },
    {
        match kind {
            HotplugKind::Created => {
                let device = join_path_list(paths);
                Some(self.usb_notification("Connected", "connected", device.as_str(), timestamp))
            },
            HotplugKind::Removed => {
                let device = join_path_list(paths);
                Some(self.usb_notification("Disconnected", "disconnected", device.as_str(), timestamp))
            },
            HotplugKind::Other => None,
        }
    }
}

} // verus!
