//! Message envelopes: a payload paired with the protocol metadata (message
//! kind, method name, sequence id) that the wire format carries for every
//! frame.

use vstd::prelude::*;

verus! {

/// Kind of a protocol message. Requests arrive as `Call` (a reply is owed) or
/// `OneWay` (the protocol defines no reply); responses leave as `Reply`
/// (handler success) or `Exception` (a classified failure), distinguished on
/// the wire only by this kind.
#[derive(Clone, Copy, PartialEq, Eq, Structural, Debug)]
pub enum MessageKind {
    Call,
    OneWay,
    Reply,
    Exception,
}

/// Payload of an envelope: the entry message of one concrete request or
/// response, or a classified failure carried by an exception reply.
#[derive(Clone, PartialEq, Eq, Debug)]
pub enum Payload {
    Entry(Vec<u8>),
    Failure(String),
}

/// Mathematical value of a [`Payload`].
pub enum PayloadV {
    Entry(Seq<u8>),
    Failure(Seq<char>),
}

impl View for Payload {
    type V = PayloadV;

    open spec fn view(&self) -> PayloadV {
        match self {
            Payload::Entry(body) => PayloadV::Entry(body@),
            Payload::Failure(text) => PayloadV::Failure(text@),
        }
    }
}

/// One frame as it crosses the wire: a payload plus protocol metadata.
#[derive(Clone, PartialEq, Eq, Debug)]
pub struct Envelope {
    pub kind: MessageKind,
    pub method: String,
    pub seq_id: i32,
    pub payload: Payload,
}

/// Mathematical value of an [`Envelope`].
pub struct EnvelopeV {
    pub kind: MessageKind,
    pub method: Seq<char>,
    pub seq_id: i32,
    pub payload: PayloadV,
}

impl View for Envelope {
    type V = EnvelopeV;

    open spec fn view(&self) -> EnvelopeV {
        EnvelopeV {
            kind: self.kind,
            method: self.method@,
            seq_id: self.seq_id,
            payload: self.payload@,
        }
    }
}

/// Mathematical value of a handler outcome: the response entry message on
/// success, the failure text of the application exception otherwise.
pub open spec fn outcome_view(outcome: Result<Vec<u8>, String>) -> Result<Seq<u8>, Seq<char>> {
    match outcome {
        Ok(body) => Ok(body@),
        Err(text) => Err(text@),
    }
}

/// The response frame owed for a completed two-way call: a `Reply` carrying
/// the handler's entry message, or an `Exception` carrying the classified
/// failure, under the method name and sequence id of the request.
pub open spec fn reply_envelope(
    method: Seq<char>,
    seq_id: i32,
    outcome: Result<Seq<u8>, Seq<char>>,
) -> EnvelopeV {
    match outcome {
        Ok(body) => EnvelopeV {
            kind: MessageKind::Reply,
            method,
            seq_id,
            payload: PayloadV::Entry(body),
        },
        Err(text) => EnvelopeV {
            kind: MessageKind::Exception,
            method,
            seq_id,
            payload: PayloadV::Failure(text),
        },
    }
}

impl Envelope {
    /// Build the response envelope for a finished two-way call.
    pub fn server_reply(method: String, seq_id: i32, outcome: Result<Vec<u8>, String>) -> (r:
        Envelope)
        ensures
            r@ == reply_envelope(method@, seq_id, outcome_view(outcome)),
    {
        match outcome {
            Ok(body) => Envelope {
                kind: MessageKind::Reply,
                method,
                seq_id,
                payload: Payload::Entry(body),
            },
            Err(text) => Envelope {
                kind: MessageKind::Exception,
                method,
                seq_id,
                payload: Payload::Failure(text),
            },
        }
    }
}

} // verus!
