//! The notification dispatcher: resolves a category's destination and renders
//! the webhook request that delivers a notification there.

use vstd::prelude::*;
use crate::text::{decimal, decimal_string, json_string, push_json_string};

verus! {

/// What a notification is about; selects its destination and its color.
#[derive(Clone, Copy, Debug, PartialEq, Eq, Structural)]
pub enum EventCategory {
    System,
    Usb,
    Idle,
}

impl EventCategory {
    /// The embed color of the category, as a 24-bit RGB value.
    pub open spec fn spec_color(self) -> u32 {
        match self {
            EventCategory::System => 0x3498db,
            EventCategory::Usb => 0xe74c3c,
            EventCategory::Idle => 0xf1c40f,
        }
    }

    /// The lower-case name of the category.
    pub open spec fn spec_name(self) -> Seq<char> {
        match self {
            EventCategory::System => "system"@,
            EventCategory::Usb => "usb"@,
            EventCategory::Idle => "idle"@,
        }
    }

    pub fn color(&self) -> (r: u32)
        ensures
            r == self.spec_color(),
    {
        match self {
            EventCategory::System => 0x3498db,
            EventCategory::Usb => 0xe74c3c,
            EventCategory::Idle => 0xf1c40f,
        }
    }

    pub fn name(&self) -> (r: &'static str)
        ensures
            r@ == self.spec_name(),
    {
        match self {
            EventCategory::System => "system",
            EventCategory::Usb => "usb",
            EventCategory::Idle => "idle",
        }
    }
}

/// Why a notification could not be handed over.
#[derive(Clone, Debug, PartialEq, Eq)]
pub enum DispatchError {
    /// No destination is configured for the category.
    UnconfiguredCategory(EventCategory),
    /// The destination could not be reached; carries the cause.
    TransportError(String),
}

/// A rendered webhook request: a JSON body to POST to `url`.
#[derive(Clone, Debug, PartialEq, Eq)]
pub struct Outgoing {
    pub category: EventCategory,
    pub title: String,
    pub url: String,
    pub body: String,
}

/// What an [`Outgoing`] request holds, as plain sequences.
pub struct OutgoingView {
    pub category: EventCategory,
    pub title: Seq<char>,
    pub url: Seq<char>,
    pub body: Seq<char>,
}

impl View for Outgoing {
    type V = OutgoingView;

    open spec fn view(&self) -> OutgoingView {
        OutgoingView {
            category: self.category,
            title: self.title@,
            url: self.url@,
            body: self.body@,
        }
    }
}

/// The view of a dispatch outcome.
pub open spec fn dispatch_view(r: Result<Outgoing, DispatchError>) -> Result<
    OutgoingView,
    DispatchError,
> {
    match r {
        Ok(o) => Ok(o@),
        Err(e) => Err(e),
    }
}

/// The views of a list of (name, value) pairs.
pub open spec fn pairs_view(v: Seq<(String, String)>) -> Seq<(Seq<char>, Seq<char>)> {
    v.map_values(|p: (String, String)| (p.0@, p.1@))
}

/// One embed field as JSON.
pub open spec fn field_json(name: Seq<char>, value: Seq<char>, inline: bool) -> Seq<char> {
    "{\"name\":"@ + json_string(name) + ",\"value\":"@ + json_string(value) + ",\"inline\":"@
        + (if inline {
        "true"@
    } else {
        "false"@
    }) + "}"@
}

/// The caller's extra fields as JSON, each preceded by a comma and shown inline.
pub open spec fn extra_fields_json(fields: Seq<(Seq<char>, Seq<char>)>) -> Seq<char>
    decreases fields.len(),
{
    if fields.len() == 0 {
        Seq::empty()
    } else {
        extra_fields_json(fields.drop_last()) + ","@ + field_json(
            fields.last().0,
            fields.last().1,
            true,
        )
    }
}

/// The embed's field array: the message first, then the extra fields in order.
pub open spec fn fields_json(message: Seq<char>, extras: Seq<(Seq<char>, Seq<char>)>) -> Seq<
    char,
> {
    "["@ + field_json("Message"@, message, false) + extra_fields_json(extras) + "]"@
}

/// The name the agent posts under.
pub open spec fn username(device: Seq<char>) -> Seq<char> {
    "RAA - "@ + device
}

/// The footer text naming the agent version and the device.
pub open spec fn footer(device: Seq<char>) -> Seq<char> {
    "RAA v0.1.0 | Device: "@ + device
}

/// The whole request body of a notification.
pub open spec fn payload_json(
    device: Seq<char>,
    category: EventCategory,
    title: Seq<char>,
    message: Seq<char>,
    extras: Seq<(Seq<char>, Seq<char>)>,
    timestamp: Seq<char>,
) -> Seq<char> {
    "{\"username\":"@ + json_string(username(device)) + ",\"content\":\"\",\"avatar_url\":"@
        + json_string("https://i.imgur.com/example.png"@) + ",\"embeds\":[{\"title\":"@
        + json_string(title) + ",\"color\":"@ + decimal(category.spec_color() as nat)
        + ",\"timestamp\":"@ + json_string(timestamp) + ",\"fields\":"@ + fields_json(
        message,
        extras,
    ) + ",\"footer\":{\"text\":"@ + json_string(footer(device)) + "}}]}"@
}

/// What dispatching a notification through `w` yields: the rendered request
/// for the category's destination, or the error that it has none.
pub open spec fn dispatch_spec(
    w: WebhookSender,
    category: EventCategory,
    title: Seq<char>,
    message: Seq<char>,
    extras: Seq<(Seq<char>, Seq<char>)>,
    timestamp: Seq<char>,
) -> Result<OutgoingView, DispatchError> {
    match w.spec_destination(category) {
        None => Err(DispatchError::UnconfiguredCategory(category)),
        Some(url) => Ok(
            OutgoingView {
                category,
                title,
                url,
                body: payload_json(
                    w.spec_device_name(),
                    category,
                    title,
                    message,
                    extras,
                    timestamp,
                ),
            },
        ),
    }
}

/// Appends one embed field.
fn push_field(out: &mut String, name: &str, value: &str, inline: bool)
    ensures
        final(out)@ == old(out)@ + field_json(name@, value@, inline),
{
    out.append("{\"name\":");
    push_json_string(out, name);
    out.append(",\"value\":");
    push_json_string(out, value);
    out.append(",\"inline\":");
    if inline {
        out.append("true");
    } else {
        out.append("false");
    }
    out.append("}");
    assert(final(out)@ =~= old(out)@ + field_json(name@, value@, inline));
}

/// Appends the field array.
fn push_fields(out: &mut String, message: &str, extras: &Vec<(String, String)>)
    ensures
        final(out)@ == old(out)@ + fields_json(message@, pairs_view(extras@)),
{
    out.append("[");
    push_field(out, "Message", message, false);
    let ghost start = out@;
    let mut i: usize = 0;
    while i < extras.len()
        invariant
            i <= extras@.len(),
            out@ == start + extra_fields_json(pairs_view(extras@.subrange(0, i as int))),
        decreases extras@.len() - i,
    {
        out.append(",");
        push_field(out, extras[i].0.as_str(), extras[i].1.as_str(), true);
        proof {
            let next = pairs_view(extras@.subrange(0, i + 1));
            assert(next.drop_last() =~= pairs_view(extras@.subrange(0, i as int)));
            assert(next.last() == (extras@[i as int].0@, extras@[i as int].1@));
        }
        i = i + 1;
    }
    assert(extras@.subrange(0, extras@.len() as int) =~= extras@);
    out.append("]");
    assert(final(out)@ =~= old(out)@ + fields_json(message@, pairs_view(extras@)));
}

/// The view of an optional string.
pub open spec fn opt_view(o: Option<String>) -> Option<Seq<char>> {
    match o {
        Some(u) => Some(u@),
        None => None,
    }
}

/// The destinations of the three categories and the name of this device.
#[derive(Clone, Debug)]
pub struct WebhookSender {
    device_name: String,
    system: Option<String>,
    usb: Option<String>,
    idle: Option<String>,
}

impl WebhookSender {
    pub closed spec fn spec_device_name(&self) -> Seq<char> {
        self.device_name@
    }

    /// The destination configured for `category`, if any.
    pub closed spec fn spec_destination(&self, category: EventCategory) -> Option<Seq<char>> {
        opt_view(
            match category {
                EventCategory::System => self.system,
                EventCategory::Usb => self.usb,
                EventCategory::Idle => self.idle,
            },
        )
    }

    /// A dispatcher with a destination for every category.
    pub fn new(device_name: String, system: String, usb: String, idle: String) -> (r: Self)
        ensures
            r.spec_device_name() == device_name@,
            r.spec_destination(EventCategory::System) == Some(system@),
            r.spec_destination(EventCategory::Usb) == Some(usb@),
            r.spec_destination(EventCategory::Idle) == Some(idle@),
    {
        WebhookSender { device_name, system: Some(system), usb: Some(usb), idle: Some(idle) }
    }

    /// A dispatcher whose categories may lack a destination.
    pub fn with_destinations(
        device_name: String,
        system: Option<String>,
        usb: Option<String>,
        idle: Option<String>,
    ) -> (r: Self)
        ensures
            r.spec_device_name() == device_name@,
            r.spec_destination(EventCategory::System) == opt_view(system),
            r.spec_destination(EventCategory::Usb) == opt_view(usb),
            r.spec_destination(EventCategory::Idle) == opt_view(idle),
    {
        WebhookSender { device_name, system, usb, idle }
    }

    pub fn device_name(&self) -> (r: &String)
        ensures
            r@ == self.spec_device_name(),
    {
        &self.device_name
    }

    /// The destination configured for `category`, if any.
    pub fn destination(&self, category: EventCategory) -> (r: Option<&String>)
        ensures
            match r {
                Some(u) => self.spec_destination(category) == Some(u@),
                None => self.spec_destination(category) is None,
            },
    {
        let url = match category {
            EventCategory::System => &self.system,
            EventCategory::Usb => &self.usb,
            EventCategory::Idle => &self.idle,
        };
        match url {
            Some(u) => Some(u),
            None => None,
        }
    }

    /// Prepares one dispatch: looks up the category's destination and renders
    /// the request body, with `message` as the first field and
    /// `additional_fields` after it in order. `timestamp` is the send time in
    /// RFC 3339. Fails, and renders nothing, when the category has no
    /// destination.
    pub fn send(
        &self,
        category: EventCategory,
        title: &str,
        message: &str,
        additional_fields: Vec<(String, String)>,
        timestamp: &str,
    ) -> (r: Result<Outgoing, DispatchError>)
        ensures
            dispatch_view(r) == dispatch_spec(
                *self,
                category,
                title@,
                message@,
                pairs_view(additional_fields@),
                timestamp@,
            ),
    {
        match self.destination(category) {
            None => Err(DispatchError::UnconfiguredCategory(category)),
            Some(url) => {
                let mut body = String::new();
                body.append("{\"username\":");
                let mut user = String::from_str("RAA - ");
                user.append(self.device_name.as_str());
                push_json_string(&mut body, user.as_str());
                body.append(",\"content\":\"\",\"avatar_url\":");
                push_json_string(&mut body, "https://i.imgur.com/example.png");
                body.append(",\"embeds\":[{\"title\":");
                push_json_string(&mut body, title);
                body.append(",\"color\":");
                let color = decimal_string(category.color() as u64);
                body.append(color.as_str());
                body.append(",\"timestamp\":");
                push_json_string(&mut body, timestamp);
                body.append(",\"fields\":");
                push_fields(&mut body, message, &additional_fields);
                body.append(",\"footer\":{\"text\":");
                let mut foot = String::from_str("RAA v0.1.0 | Device: ");
                foot.append(self.device_name.as_str());
                push_json_string(&mut body, foot.as_str());
                body.append("}}]}");
                assert(body@ =~= payload_json(
                    self.spec_device_name(),
                    category,
                    title@,
                    message@,
                    pairs_view(additional_fields@),
                    timestamp@,
                ));
                Ok(Outgoing {
                    category,
                    title: String::from_str(title),
                    url: url.clone(),
                    body,
                })
            },
        }
    }
}

} // verus!
