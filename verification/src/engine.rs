//! The dispatch loop's state machine. One connection is served by one
//! [`Engine`]: the surrounding program performs the slow outside work — the
//! decode raced against the cancellation signal, the handler call, the encode —
//! and hands each outcome to the engine, which makes every decision: it
//! sequences the turn through its phases, classifies failures, builds the
//! response frame, and recycles the per-turn context.
//!
//! A turn runs `Idle → Decoding → Processing → Encoding → Recycling → Idle`;
//! any phase may instead end in `Terminating`, the only terminal phase. The
//! step methods say in their contracts exactly which action the driver owes
//! after each step, including when the stat tracers fire: once after every
//! processed request and after every decode or encode failure, never on the
//! cancellation, end-of-stream or forced-reset exits.

use vstd::pervasive::unreached;
use vstd::prelude::*;

use crate::context::{opt_str_view, ContextV, RequestContext};
use crate::fault::{classify, fault_envelope, DecodeFault, Disposition};
use crate::message::{outcome_view, reply_envelope, Envelope, MessageKind, Payload};
use crate::pool::ContextPool;
use crate::scope::MetadataScope;

verus! {

/// Where the loop stands within the current turn.
#[derive(Clone, Copy, PartialEq, Eq, Structural, Debug)]
pub enum Phase {
    /// Between turns: ready to acquire a context.
    Idle,
    /// A context is out; the decode is racing the cancellation signal.
    Decoding,
    /// A request arrived; the handler is running.
    Processing,
    /// A response frame was built; the encoder is sending it.
    Encoding,
    /// The turn finished cleanly; the context is owed back to the pool.
    Recycling,
    /// The loop is over; no further turn may start.
    Terminating,
}

/// What the decode race settled to: the cancellation signal, a frame, a clean
/// end of stream, or a classified decode failure.
#[derive(Clone, PartialEq, Eq, Debug)]
pub enum DecodeOutcome {
    Cancelled,
    Frame(Envelope),
    EndOfStream,
    Fault(DecodeFault),
}

/// Mathematical value of a [`DecodeOutcome`].
pub enum DecodeOutcomeV {
    Cancelled,
    Frame(crate::message::EnvelopeV),
    EndOfStream,
    Fault(crate::fault::DecodeFaultV),
}

impl View for DecodeOutcome {
    type V = DecodeOutcomeV;

    open spec fn view(&self) -> DecodeOutcomeV {
        match self {
            DecodeOutcome::Cancelled => DecodeOutcomeV::Cancelled,
            DecodeOutcome::Frame(env) => DecodeOutcomeV::Frame(env@),
            DecodeOutcome::EndOfStream => DecodeOutcomeV::EndOfStream,
            DecodeOutcome::Fault(f) => DecodeOutcomeV::Fault(f@),
        }
    }
}

impl DecodeOutcomeV {
    /// What the decoder promises of everything it hands back: a frame is a
    /// well-formed request envelope (a `Call` or `OneWay` carrying an entry
    /// message) and a failure is transport- or protocol-class.
    pub open spec fn wf(self) -> bool {
        match self {
            DecodeOutcomeV::Frame(env) => {
                &&& (env.kind is Call || env.kind is OneWay)
                &&& env.payload is Entry
            },
            DecodeOutcomeV::Fault(f) => f.wf(),
            _ => true,
        }
    }
}

/// What the driver owes after the decode race settled.
pub enum DecodeStep {
    /// Close the connection: no frame, no stat tracers. Taken for the
    /// cancellation signal and for a clean end of stream.
    CloseSilent,
    /// A decode failure ended the connection: best-effort send the enclosed
    /// frame if there is one (a send failure is only logged), fire the stat
    /// tracers, then close.
    CloseOnFault { notify: Option<Envelope> },
    /// A request arrived: invoke the handler with its entry message and
    /// report the outcome through [`Engine::on_handler_result`].
    Invoke { payload: Vec<u8> },
}

/// What the driver owes after the handler returned.
pub enum HandlerStep {
    /// One-way request under a pending shutdown: close with no output, no
    /// stat tracers.
    CloseSilent,
    /// One-way request finished (the handler's outcome is discarded): fire
    /// the stat tracers, then recycle through [`Engine::finish_turn`].
    Complete,
    /// Two-way request: encode and send the enclosed response frame and
    /// report the result through [`Engine::on_encode_result`].
    Encode { frame: Envelope },
}

/// What the driver owes after the encoder reported back.
pub enum EncodeStep {
    /// The reply went out and nothing is pending: fire the stat tracers,
    /// then recycle through [`Engine::finish_turn`].
    Complete,
    /// The reply went out under a forced reset: close, no stat tracers.
    CloseAfterReply,
    /// The encode failed: fire the stat tracers, then close.
    CloseOnError,
}

/// The per-connection dispatch engine.
pub struct Engine {
    /// Idle contexts recycled between this connection's turns.
    pub pool: ContextPool,
    /// Ambient metadata of the current turn, cleared before the next one.
    pub scope: MetadataScope,
    /// Peer address stamped into every turn's context, if known.
    pub peer: Option<String>,
    /// Where the loop stands.
    pub phase: Phase,
}

impl Engine {
    /// Engine invariant: the pool is within bounds and holds only reset
    /// contexts.
    pub open spec fn wf(self) -> bool {
        self.pool.wf()
    }

    /// A new engine for one freshly accepted connection.
    pub fn new(pool_capacity: usize, peer: Option<String>) -> (e: Engine)
        ensures
            e.wf(),
            e.phase == Phase::Idle,
            e.pool.idle@.len() == 0,
            e.pool.capacity == pool_capacity,
            e.scope.entries@.len() == 0,
            e.peer == peer,
    {
        Engine {
            pool: ContextPool::with_capacity(pool_capacity),
            scope: MetadataScope::new(),
            peer,
            phase: Phase::Idle,
        }
    }

    /// Start a turn: acquire a context — from the pool if one is idle, freshly
    /// constructed otherwise — and stamp the peer address. The driver then
    /// races the decode against the cancellation signal.
    pub fn begin_turn(&mut self) -> (ctx: RequestContext)
        requires
            old(self).wf(),
            old(self).phase == Phase::Idle,
        ensures
            final(self).wf(),
            final(self).phase == Phase::Decoding,
            final(self).peer == old(self).peer,
            final(self).scope == old(self).scope,
            final(self).pool.capacity == old(self).pool.capacity,
            ctx@ == ContextV::opened(opt_str_view(old(self).peer)),
            old(self).pool.idle@.len() > 0 ==> final(self).pool.idle@ == old(
                self,
            ).pool.idle@.drop_last(),
            old(self).pool.idle@.len() == 0 ==> final(self).pool.idle@ == old(self).pool.idle@,
    {
        let mut ctx = self.pool.acquire();
        if let Some(addr) = &self.peer {
            ctx.peer = Some(addr.clone());
        }
        self.phase = Phase::Decoding;
        ctx
    }

    /// Take the settled decode race. The cancellation signal and a clean end
    /// of stream terminate the loop silently. A decode failure marks the
    /// context reset, is classified, and — for protocol-class failures only —
    /// earns the peer one best-effort exception frame. A frame moves the turn
    /// to `Processing` and hands the driver the entry message for the handler.
    pub fn on_decode(&mut self, ctx: &mut RequestContext, outcome: DecodeOutcome) -> (step:
        DecodeStep)
        requires
            old(self).phase == Phase::Decoding,
            outcome@.wf(),
        ensures
            final(self).pool == old(self).pool,
            final(self).scope == old(self).scope,
            final(self).peer == old(self).peer,
            match outcome@ {
                DecodeOutcomeV::Cancelled | DecodeOutcomeV::EndOfStream => {
                    &&& step is CloseSilent
                    &&& *final(ctx) == *old(ctx)
                    &&& final(self).phase == Phase::Terminating
                },
                DecodeOutcomeV::Frame(env) => {
                    &&& step matches DecodeStep::Invoke { payload } && payload@
                        == env.payload->Entry_0
                    &&& final(ctx)@ == (ContextV {
                        method: Some(env.method),
                        req_kind: Some(env.kind),
                        seq_id: Some(env.seq_id),
                        ..old(ctx)@
                    })
                    &&& final(self).phase == Phase::Processing
                },
                DecodeOutcomeV::Fault(f) => {
                    &&& step matches DecodeStep::CloseOnFault { notify } && (match notify {
                        Some(frame) => f.class is Protocol && frame@ == fault_envelope(f),
                        None => f.class is Transport,
                    })
                    &&& final(ctx)@ == (ContextV {
                        resp_kind: Some(MessageKind::Exception),
                        conn_reset: true,
                        transport_reset: true,
                        ..old(ctx)@
                    })
                    &&& final(self).phase == Phase::Terminating
                },
            },
    {
        match outcome {
            DecodeOutcome::Cancelled => {
                self.phase = Phase::Terminating;
                DecodeStep::CloseSilent
            },
            DecodeOutcome::EndOfStream => {
                self.phase = Phase::Terminating;
                DecodeStep::CloseSilent
            },
            DecodeOutcome::Frame(env) => {
                let Envelope { kind, method, seq_id, payload } = env;
                ctx.method = Some(method);
                ctx.req_kind = Some(kind);
                ctx.seq_id = Some(seq_id);
                self.phase = Phase::Processing;
                match payload {
                    Payload::Entry(body) => DecodeStep::Invoke { payload: body },
                    Payload::Failure(_) => unreached(),
                }
            },
            DecodeOutcome::Fault(fault) => {
                ctx.resp_kind = Some(MessageKind::Exception);
                ctx.conn_reset = true;
                ctx.transport_reset = true;
                self.phase = Phase::Terminating;
                let notify = match classify(fault.class) {
                    Disposition::BestEffortException => {
                        let DecodeFault { class: _, method, seq_id, message } = fault;
                        Some(
                            Envelope {
                                kind: MessageKind::Exception,
                                method,
                                seq_id,
                                payload: Payload::Failure(message),
                            },
                        )
                    },
                    _ => None,
                };
                DecodeStep::CloseOnFault { notify }
            },
        }
    }

    /// Take the handler's outcome together with the processing timestamps and
    /// the shutdown mark sampled right after the handler returned. A pending
    /// shutdown marks the context for a forced reset. A one-way request skips
    /// encoding — its outcome is recorded in the context and otherwise
    /// discarded. A two-way request earns its response frame: a `Reply` on
    /// success, an `Exception` on failure, under the request's method and
    /// sequence id.
    pub fn on_handler_result(
        &mut self,
        ctx: &mut RequestContext,
        outcome: Result<Vec<u8>, String>,
        started_at: u64,
        ended_at: u64,
        shutdown_pending: bool,
    ) -> (step: HandlerStep)
        requires
            old(self).phase == Phase::Processing,
            old(ctx).req_kind matches Some(k) && (k is Call || k is OneWay),
            old(ctx).seq_id is Some,
            old(ctx).method is Some,
        ensures
            final(self).pool == old(self).pool,
            final(self).scope == old(self).scope,
            final(self).peer == old(self).peer,
            old(ctx).req_kind == Some(MessageKind::OneWay) ==> {
                &&& final(ctx)@ == (ContextV {
                    started_at: Some(started_at),
                    ended_at: Some(ended_at),
                    conn_reset: old(ctx)@.conn_reset || shutdown_pending,
                    transport_reset: old(ctx)@.transport_reset || shutdown_pending,
                    ..old(ctx)@
                })
                &&& if old(ctx)@.transport_reset || shutdown_pending {
                    step is CloseSilent && final(self).phase == Phase::Terminating
                } else {
                    step is Complete && final(self).phase == Phase::Recycling
                }
            },
            old(ctx).req_kind == Some(MessageKind::Call) ==> {
                &&& final(ctx)@ == (ContextV {
                    started_at: Some(started_at),
                    ended_at: Some(ended_at),
                    conn_reset: old(ctx)@.conn_reset || shutdown_pending,
                    transport_reset: old(ctx)@.transport_reset || shutdown_pending,
                    resp_kind: Some(
                        if outcome is Ok {
                            MessageKind::Reply
                        } else {
                            MessageKind::Exception
                        },
                    ),
                    ..old(ctx)@
                })
                &&& step matches HandlerStep::Encode { frame } && frame@ == reply_envelope(
                    old(ctx)@.method->Some_0,
                    old(ctx)@.seq_id->Some_0,
                    outcome_view(outcome),
                )
                &&& final(self).phase == Phase::Encoding
            },
    {
        ctx.started_at = Some(started_at);
        ctx.ended_at = Some(ended_at);
        if shutdown_pending {
            ctx.conn_reset = true;
            ctx.transport_reset = true;
        }
        let one_way = match ctx.req_kind {
            Some(MessageKind::OneWay) => true,
            _ => false,
        };
        if one_way {
            if ctx.transport_reset {
                self.phase = Phase::Terminating;
                HandlerStep::CloseSilent
            } else {
                self.phase = Phase::Recycling;
                HandlerStep::Complete
            }
        } else {
            ctx.resp_kind = Some(
                match &outcome {
                    Ok(_) => MessageKind::Reply,
                    Err(_) => MessageKind::Exception,
                },
            );
            let method = match &ctx.method {
                Some(name) => name.clone(),
                None => unreached(),
            };
            let seq_id = match ctx.seq_id {
                Some(id) => id,
                None => unreached(),
            };
            let frame = Envelope::server_reply(method, seq_id, outcome);
            self.phase = Phase::Encoding;
            HandlerStep::Encode { frame }
        }
    }

    /// Take the encoder's verdict on the response frame. Success recycles the
    /// turn unless a forced reset is pending, in which case the reply is
    /// already out and the loop closes; a failed encode fires the stat tracers
    /// and closes.
    pub fn on_encode_result(&mut self, ctx: &RequestContext, sent: bool) -> (step: EncodeStep)
        requires
            old(self).phase == Phase::Encoding,
        ensures
            final(self).pool == old(self).pool,
            final(self).scope == old(self).scope,
            final(self).peer == old(self).peer,
            !sent ==> step is CloseOnError && final(self).phase == Phase::Terminating,
            sent && ctx.transport_reset ==> step is CloseAfterReply && final(self).phase
                == Phase::Terminating,
            sent && !ctx.transport_reset ==> step is Complete && final(self).phase
                == Phase::Recycling,
    {
        if !sent {
            self.phase = Phase::Terminating;
            EncodeStep::CloseOnError
        } else if ctx.transport_reset {
            self.phase = Phase::Terminating;
            EncodeStep::CloseAfterReply
        } else {
            self.phase = Phase::Recycling;
            EncodeStep::Complete
        }
    }

    /// Recycle after a cleanly finished turn: clear the ambient metadata and
    /// return the context to the pool — reset, and kept only if there is room.
    /// The loop is then idle, ready for the next decode.
    pub fn finish_turn(&mut self, ctx: RequestContext)
        requires
            old(self).wf(),
            old(self).phase == Phase::Recycling,
        ensures
            final(self).wf(),
            final(self).phase == Phase::Idle,
            final(self).peer == old(self).peer,
            final(self).scope.entries@.len() == 0,
            final(self).pool.capacity == old(self).pool.capacity,
            old(self).pool.idle@.len() < old(self).pool.capacity ==> final(self).pool.idle@.len()
                == old(self).pool.idle@.len() + 1,
            old(self).pool.idle@.len() >= old(self).pool.capacity ==> final(self).pool.idle@ == old(
                self,
            ).pool.idle@,
    {
        self.scope.clear();
        self.pool.release(ctx);
        self.phase = Phase::Idle;
    }
}

} // verus!
