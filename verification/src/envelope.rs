//! The wire unit exchanged between a participant and the hub, and its text form.
//!
//! An envelope travels as one JSON object per text frame:
//! `{"messageType":..,"dataArray":..,"data":..}`. A chat line that the hub
//! relays is a record `{"from":..,"message":..}`, written as text into the
//! `data` field of a `message` envelope.

use crate::json::{
    encode_list, json_optional_list, json_optional_text, json_string_literal, quote, texts,
};
use vstd::prelude::*;

verus! {

/// The tag of an envelope.
#[derive(Clone, Copy, Debug, PartialEq, Eq, Structural)]
pub enum MsgTypes {
    /// The roster of online names, or a request for it.
    Users,
    /// A request to bind a display name to the sending session.
    Register,
    /// A chat line.
    Message,
}

impl MsgTypes {
    /// The tag as it is written on the wire.
    pub open spec fn spec_tag(self) -> Seq<char> {
        match self {
            MsgTypes::Users => "users"@,
            MsgTypes::Register => "register"@,
            MsgTypes::Message => "message"@,
        }
    }

    /// The tag as it is written on the wire.
    pub fn tag(self) -> (text: &'static str)
        ensures
            text@ == self.spec_tag(),
    {
        match self {
            MsgTypes::Users => "users",
            MsgTypes::Register => "register",
            MsgTypes::Message => "message",
        }
    }
}

/// One wire message.
#[derive(Clone, Debug, PartialEq, Eq)]
pub struct Envelope {
    pub message_type: MsgTypes,
    /// A list of display names; present only in a roster.
    pub data_array: Option<Vec<String>>,
    /// A display name to register, or the text of a chat line.
    pub data: Option<String>,
}

/// An envelope as plain values.
pub struct EnvelopeView {
    pub message_type: MsgTypes,
    pub data_array: Option<Seq<Seq<char>>>,
    pub data: Option<Seq<char>>,
}

impl View for Envelope {
    type V = EnvelopeView;

    open spec fn view(&self) -> EnvelopeView {
        EnvelopeView {
            message_type: self.message_type,
            data_array: match self.data_array {
                Some(items) => Some(texts(items@)),
                None => None,
            },
            data: match self.data {
                Some(text) => Some(text@),
                None => None,
            },
        }
    }
}

/// A chat line with the name it is attributed to.
#[derive(Clone, Debug, PartialEq, Eq)]
pub struct ChatRecord {
    pub from: String,
    pub message: String,
}

/// A chat record as plain values.
pub struct ChatRecordView {
    pub from: Seq<char>,
    pub message: Seq<char>,
}

impl View for ChatRecord {
    type V = ChatRecordView;

    open spec fn view(&self) -> ChatRecordView {
        ChatRecordView { from: self.from@, message: self.message@ }
    }
}

impl EnvelopeView {
    /// A roster that carries `names`.
    pub open spec fn users(names: Seq<Seq<char>>) -> EnvelopeView {
        EnvelopeView { message_type: MsgTypes::Users, data_array: Some(names), data: None }
    }

    /// A request for the roster.
    pub open spec fn roster_request() -> EnvelopeView {
        EnvelopeView { message_type: MsgTypes::Users, data_array: None, data: None }
    }

    /// A request to bind `name` to the sending session.
    pub open spec fn register(name: Seq<char>) -> EnvelopeView {
        EnvelopeView { message_type: MsgTypes::Register, data_array: None, data: Some(name) }
    }

    /// A `message` envelope that carries `text`.
    pub open spec fn message(text: Seq<char>) -> EnvelopeView {
        EnvelopeView { message_type: MsgTypes::Message, data_array: None, data: Some(text) }
    }

    /// The text frame that carries this envelope.
    pub open spec fn wire_text(self) -> Seq<char> {
        "{\"messageType\":\""@ + self.message_type.spec_tag() + "\",\"dataArray\":"@
            + json_optional_list(self.data_array) + ",\"data\":"@ + json_optional_text(self.data)
            + "}"@
    }
}

impl ChatRecordView {
    /// The text of this record, as it stands in the `data` of an envelope.
    pub open spec fn wire_text(self) -> Seq<char> {
        "{\"from\":"@ + json_string_literal(self.from) + ",\"message\":"@ + json_string_literal(
            self.message,
        ) + "}"@
    }
}

impl Envelope {
    /// A roster envelope that carries `names`.
    pub fn users(names: Vec<String>) -> (envelope: Envelope)
        ensures
            envelope@ == EnvelopeView::users(texts(names@)),
    {
        Envelope { message_type: MsgTypes::Users, data_array: Some(names), data: None }
    }

    /// A request for the roster: a `users` envelope with both fields empty.
    pub fn roster_request() -> (envelope: Envelope)
        ensures
            envelope@ == EnvelopeView::roster_request(),
    {
        Envelope { message_type: MsgTypes::Users, data_array: None, data: None }
    }

    /// A request to bind `name` to the sending session.
    pub fn register(name: String) -> (envelope: Envelope)
        ensures
            envelope@ == EnvelopeView::register(name@),
    {
        Envelope { message_type: MsgTypes::Register, data_array: None, data: Some(name) }
    }

    /// A `message` envelope that carries `text`.
    pub fn message(text: String) -> (envelope: Envelope)
        ensures
            envelope@ == EnvelopeView::message(text@),
    {
        Envelope { message_type: MsgTypes::Message, data_array: None, data: Some(text) }
    }

    /// Writes the envelope as the text of one frame.
    pub fn encode(&self) -> (text: String)
        ensures
            text@ == self@.wire_text(),
    {
        let mut text = "{\"messageType\":\"".to_owned();
        text.append(self.message_type.tag());
        text.append("\",\"dataArray\":");
        match &self.data_array {
            Some(items) => {
                let list = encode_list(items);
                text.append(list.as_str());
            },
            None => {
                text.append("null");
            },
        }
        text.append(",\"data\":");
        match &self.data {
            Some(data) => {
                let literal = quote(data.as_str());
                text.append(literal.as_str());
            },
            None => {
                text.append("null");
            },
        }
        text.append("}");
        text
    }
}

impl ChatRecord {
    /// Writes the record as text.
    pub fn encode(&self) -> (text: String)
        ensures
            text@ == self@.wire_text(),
    {
        let mut text = "{\"from\":".to_owned();
        let from = quote(self.from.as_str());
        text.append(from.as_str());
        text.append(",\"message\":");
        let message = quote(self.message.as_str());
        text.append(message.as_str());
        text.append("}");
        text
    }
}

} // verus!
