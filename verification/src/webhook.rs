use vstd::prelude::*;
use crate::text::text_eq;

verus! {

/// Kind of event that a webhook delivers.
#[derive(Debug, Clone, Copy, PartialEq, Eq, Structural)]
pub enum WebhookEventType {
    CastCreated,
}

/// An event type that the webhook payload names and the library does not know.
#[derive(Debug, Clone)]
pub struct UnknownEventType {
    pub name: String,
}

impl WebhookEventType {
    /// The name of the event type in a payload's `type` field.
    pub open spec fn name(self) -> Seq<char> {
        match self {
            WebhookEventType::CastCreated => "cast.created"@,
        }
    }

    /// The name of the event type, as a text.
    pub fn as_str(&self) -> (text: &'static str)
        ensures
            text@ == self.name(),
    {
        match self {
            WebhookEventType::CastCreated => "cast.created",
        }
    }

    /// The event type that a payload's `type` field names; an unknown name is
    /// refused and handed back in the error.
    pub fn from_name(name: &str) -> (r: Result<WebhookEventType, UnknownEventType>)
        ensures
            r matches Ok(k) ==> k.name() == name@,
            r is Err ==> forall|k: WebhookEventType| k.name() != name@,
            forall|k: WebhookEventType| (r == Ok::<WebhookEventType, UnknownEventType>(k)) <==> k.name() == name@,
            r matches Err(e) ==> e.name@ == name@,
    {
        if text_eq(name, "cast.created") {
            Ok(WebhookEventType::CastCreated)
        } else {
            Err(UnknownEventType { name: String::from_str(name) })
        }
    }
}

impl UnknownEventType {
    /// The message that describes the error.
    pub open spec fn message_spec(&self) -> Seq<char> {
        "unknown event type: "@ + self.name@
    }

    /// The message that describes the error.
    pub fn message(&self) -> (text: String)
        ensures
            text@ == self.message_spec(),
    {
        String::from_str("unknown event type: ").concat(self.name.as_str())
    }
}

} // verus!
