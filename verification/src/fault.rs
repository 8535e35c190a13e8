//! Failure taxonomy and the error classifier: every failure the loop meets is
//! mapped to a silent close, a best-effort exception frame, or a normal
//! exception reply.

use vstd::prelude::*;

use crate::message::{EnvelopeV, MessageKind, PayloadV};

verus! {

/// The four classes of failure the loop distinguishes.
#[derive(Clone, Copy, PartialEq, Eq, Structural, Debug)]
pub enum FaultClass {
    /// I/O failed or the connection was severed.
    Transport,
    /// Malformed frame or unsupported message type.
    Protocol,
    /// The handler returned an error.
    Application,
    /// Cooperative shutdown was requested; not a fault of the peer.
    Shutdown,
}

/// What the classifier decides for a failure.
#[derive(Clone, Copy, PartialEq, Eq, Structural, Debug)]
pub enum Disposition {
    /// Close the connection with no application-visible payload.
    SilentClose,
    /// Try once to send an exception frame to the peer, then close.
    BestEffortException,
    /// Send an exception reply through the normal encoding path and carry on.
    ExceptionReply,
}

/// The classifier's mapping: transport failures and cooperative shutdown never
/// become application-visible; protocol failures earn the peer one best-effort
/// notification; handler failures travel as ordinary replies distinguished
/// only by message kind.
pub open spec fn spec_classify(class: FaultClass) -> Disposition {
    match class {
        FaultClass::Transport => Disposition::SilentClose,
        FaultClass::Shutdown => Disposition::SilentClose,
        FaultClass::Protocol => Disposition::BestEffortException,
        FaultClass::Application => Disposition::ExceptionReply,
    }
}

/// Classify one failure.
pub fn classify(class: FaultClass) -> (d: Disposition)
    ensures
        d == spec_classify(class),
{
    match class {
        FaultClass::Transport => Disposition::SilentClose,
        FaultClass::Shutdown => Disposition::SilentClose,
        FaultClass::Protocol => Disposition::BestEffortException,
        FaultClass::Application => Disposition::ExceptionReply,
    }
}

/// A failure reported by the decoder, with whatever protocol metadata the
/// partial decode recovered before it failed.
#[derive(Clone, PartialEq, Eq, Debug)]
pub struct DecodeFault {
    /// `Transport` or `Protocol`; the decoder reports nothing else.
    pub class: FaultClass,
    /// Method name the partial decode recovered, possibly empty.
    pub method: String,
    /// Sequence id the partial decode recovered, 0 if none.
    pub seq_id: i32,
    /// Human-readable cause; the body of a best-effort exception frame.
    pub message: String,
}

/// Mathematical value of a [`DecodeFault`].
pub struct DecodeFaultV {
    pub class: FaultClass,
    pub method: Seq<char>,
    pub seq_id: i32,
    pub message: Seq<char>,
}

impl View for DecodeFault {
    type V = DecodeFaultV;

    open spec fn view(&self) -> DecodeFaultV {
        DecodeFaultV {
            class: self.class,
            method: self.method@,
            seq_id: self.seq_id,
            message: self.message@,
        }
    }
}

impl DecodeFaultV {
    /// Decode can only fail for transport or protocol reasons.
    pub open spec fn wf(self) -> bool {
        self.class is Transport || self.class is Protocol
    }
}

/// The best-effort exception frame synthesized for a protocol-class decode
/// failure: an `Exception` under whatever metadata the partial decode left,
/// carrying the failure text.
pub open spec fn fault_envelope(f: DecodeFaultV) -> EnvelopeV {
    EnvelopeV {
        kind: MessageKind::Exception,
        method: f.method,
        seq_id: f.seq_id,
        payload: PayloadV::Failure(f.message),
    }
}

} // verus!
