use crate::data_types::{Message, ReceivedMessage};
use vstd::pervasive::unreached;
use vstd::prelude::*;

verus! {

/// The parts of a webhook payload that normalization reads, flattened
/// to plain values. The webhook layer owns the payload schema and its
/// parsing; it fills absent parts with `None`.
pub struct WebhookFields {
    /// The payload's event type.
    pub type_webhook: String,
    /// The inner message type of an incoming-message event.
    pub type_message: Option<String>,
    /// The sender's chat identifier.
    pub chat_id: Option<String>,
    /// The sender's display name.
    pub sender_name: Option<String>,
    /// The download URL of an image message's file.
    pub download_url: Option<String>,
    /// The body of a text message.
    pub text: Option<String>,
    /// The instance state of a state-change event.
    pub state_instance: Option<String>,
}

/// The payload is an incoming image message.
pub open spec fn wants_image(w: WebhookFields) -> bool {
    &&& w.type_webhook@ == "incomingMessageReceived"@
    &&& w.type_message is Some
    &&& (w.type_message->0)@ == "imageMessage"@
}

/// The payload is an incoming text message.
pub open spec fn wants_text(w: WebhookFields) -> bool {
    &&& w.type_webhook@ == "incomingMessageReceived"@
    &&& w.type_message is Some
    &&& (w.type_message->0)@ == "textMessage"@
}

/// The payload is a transport state-change event.
pub open spec fn wants_state(w: WebhookFields) -> bool {
    w.type_webhook@ == "stateInstanceChanged"@
}

/// The normalized message for a webhook payload: an image or text
/// message with its sender, a state notification, and `Empty` for every
/// payload type this workflow does not recognize.
pub open spec fn spec_normalize(w: WebhookFields) -> Message {
    if wants_image(w) {
        Message::Image(
            ReceivedMessage {
                chat_id: w.chat_id->0,
                customer_name: w.sender_name->0,
                message: w.download_url->0,
            },
        )
    } else if wants_text(w) {
        Message::Text(
            ReceivedMessage {
                chat_id: w.chat_id->0,
                customer_name: w.sender_name->0,
                message: w.text->0,
            },
        )
    } else if wants_state(w) {
        Message::StateInstance(w.state_instance->0)
    } else {
        Message::Empty
    }
}

/// String equality against an expected literal.
fn str_eq(a: &String, lit: &str) -> (r: bool)
    ensures
        r == (a@ == lit@),
{
    let b = lit.to_owned();
    a.eq(&b)
}

/// Normalize a webhook payload. The parts that a recognized payload
/// type carries must be present, as the schema guarantees; the caller
/// checks this while flattening and treats a violation as the schema
/// error it is.
pub fn normalize(w: WebhookFields) -> (r: Message)
    requires
        wants_image(w) ==> w.chat_id is Some && w.sender_name is Some && w.download_url is Some,
        wants_text(w) ==> w.chat_id is Some && w.sender_name is Some && w.text is Some,
        wants_state(w) ==> w.state_instance is Some,
    ensures
        r == spec_normalize(w),
{
    proof {
        reveal_strlit("incomingMessageReceived");
        reveal_strlit("stateInstanceChanged");
        assert("incomingMessageReceived"@.len() != "stateInstanceChanged"@.len());
    }
    if str_eq(&w.type_webhook, "incomingMessageReceived") {
        match &w.type_message {
            Some(t) => {
                if str_eq(t, "imageMessage") {
                    let chat_id = match w.chat_id {
                        Some(c) => c,
                        None => unreached(),
                    };
                    let customer_name = match w.sender_name {
                        Some(n) => n,
                        None => unreached(),
                    };
                    let message = match w.download_url {
                        Some(u) => u,
                        None => unreached(),
                    };
                    Message::Image(ReceivedMessage { chat_id, customer_name, message })
                } else if str_eq(t, "textMessage") {
                    let chat_id = match w.chat_id {
                        Some(c) => c,
                        None => unreached(),
                    };
                    let customer_name = match w.sender_name {
                        Some(n) => n,
                        None => unreached(),
                    };
                    let message = match w.text {
                        Some(b) => b,
                        None => unreached(),
                    };
                    Message::Text(ReceivedMessage { chat_id, customer_name, message })
                } else {
                    Message::Empty
                }
            },
            None => Message::Empty,
        }
    } else if str_eq(&w.type_webhook, "stateInstanceChanged") {
        let state = match w.state_instance {
            Some(s) => s,
            None => unreached(),
        };
        Message::StateInstance(state)
    } else {
        Message::Empty
    }
}

} // verus!
