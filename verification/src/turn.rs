//! Whole turns and whole connections. A [`TurnInput`] packs everything the
//! outside world decides during one turn — the settled decode race, the
//! handler's outcome, the clock's timestamps, the shutdown mark, the encoder's
//! verdict. [`Engine::run_turn`] drives the engine's step methods through one
//! turn of scripted outcomes, and [`Engine::run_connection`] through a whole
//! script, so that what the loop puts on the wire for any sequence of outside
//! events is stated — and proved — once, here.

use vstd::pervasive::unreached;
use vstd::prelude::*;

use crate::engine::{
    DecodeOutcome, DecodeStep, EncodeStep, Engine, HandlerStep, Phase,
};
use crate::fault::{fault_envelope, DecodeFault, DecodeFaultV};
use crate::message::{outcome_view, reply_envelope, Envelope, EnvelopeV};

verus! {

/// Everything outside the engine's control that one turn consumes.
pub enum TurnInput {
    /// The cancellation signal won the decode race.
    Cancelled,
    /// The peer closed the connection cleanly.
    EndOfStream,
    /// The decode failed.
    Fault(DecodeFault),
    /// A request arrived and the handler ran on it.
    Request {
        /// The decoded request envelope.
        envelope: Envelope,
        /// What the handler returned for it.
        outcome: Result<Vec<u8>, String>,
        /// Clock reading when the handler was invoked.
        started_at: u64,
        /// Clock reading when the handler returned.
        ended_at: u64,
        /// The shutdown mark sampled right after the handler returned.
        shutdown_pending: bool,
        /// Whether the encoder managed to send the response frame; ignored
        /// for one-way requests, which encode nothing.
        encode_ok: bool,
    },
}

/// Mathematical value of a [`TurnInput`].
pub enum TurnInputV {
    Cancelled,
    EndOfStream,
    Fault(DecodeFaultV),
    Request {
        envelope: EnvelopeV,
        outcome: Result<Seq<u8>, Seq<char>>,
        started_at: u64,
        ended_at: u64,
        shutdown_pending: bool,
        encode_ok: bool,
    },
}

impl View for TurnInput {
    type V = TurnInputV;

    open spec fn view(&self) -> TurnInputV {
        match self {
            TurnInput::Cancelled => TurnInputV::Cancelled,
            TurnInput::EndOfStream => TurnInputV::EndOfStream,
            TurnInput::Fault(f) => TurnInputV::Fault(f@),
            TurnInput::Request {
                envelope,
                outcome,
                started_at,
                ended_at,
                shutdown_pending,
                encode_ok,
            } => TurnInputV::Request {
                envelope: envelope@,
                outcome: outcome_view(*outcome),
                started_at: *started_at,
                ended_at: *ended_at,
                shutdown_pending: *shutdown_pending,
                encode_ok: *encode_ok,
            },
        }
    }
}

impl TurnInputV {
    /// What the outside collaborators promise of a turn's inputs: a request
    /// envelope is well formed (a `Call` or `OneWay` carrying an entry
    /// message) and a decode failure is transport- or protocol-class.
    pub open spec fn wf(self) -> bool {
        match self {
            TurnInputV::Fault(f) => f.wf(),
            TurnInputV::Request { envelope, .. } => {
                &&& (envelope.kind is Call || envelope.kind is OneWay)
                &&& envelope.payload is Entry
            },
            _ => true,
        }
    }

    /// The request envelope of a `Request` input.
    pub open spec fn req_envelope(self) -> EnvelopeV
        recommends
            self is Request,
    {
        match self {
            TurnInputV::Request { envelope, .. } => envelope,
            _ => arbitrary(),
        }
    }

    /// The handler outcome of a `Request` input.
    pub open spec fn req_outcome(self) -> Result<Seq<u8>, Seq<char>>
        recommends
            self is Request,
    {
        match self {
            TurnInputV::Request { outcome, .. } => outcome,
            _ => arbitrary(),
        }
    }
}

/// The frame the turn hands the encoder, if any: nothing for cancellation, a
/// clean end of stream, a transport-class failure or a one-way request; one
/// best-effort exception frame for a protocol-class failure; the response
/// frame for a two-way request.
pub open spec fn turn_sends(t: TurnInputV) -> Option<EnvelopeV> {
    match t {
        TurnInputV::Cancelled => None,
        TurnInputV::EndOfStream => None,
        TurnInputV::Fault(f) => if f.class is Protocol {
            Some(fault_envelope(f))
        } else {
            None
        },
        TurnInputV::Request { envelope, outcome, .. } => if envelope.kind is OneWay {
            None
        } else {
            Some(reply_envelope(envelope.method, envelope.seq_id, outcome))
        },
    }
}

/// Whether the loop goes on to another turn: only a processed request with no
/// shutdown pending — and, for a two-way request, a delivered reply — does.
pub open spec fn turn_proceeds(t: TurnInputV) -> bool {
    match t {
        TurnInputV::Request { envelope, shutdown_pending, encode_ok, .. } => !shutdown_pending && (
        envelope.kind is OneWay || encode_ok),
        _ => false,
    }
}

/// Whether the stat tracers fire for this turn: once after every processed
/// request and after every decode or encode failure; never on the
/// cancellation, end-of-stream or forced-reset exits.
pub open spec fn turn_fires_stats(t: TurnInputV) -> bool {
    match t {
        TurnInputV::Cancelled => false,
        TurnInputV::EndOfStream => false,
        TurnInputV::Fault(_) => true,
        TurnInputV::Request { envelope, shutdown_pending, encode_ok, .. } => if envelope.kind
            is OneWay {
            !shutdown_pending
        } else if encode_ok {
            !shutdown_pending
        } else {
            true
        },
    }
}

/// What one turn looked like from the outside.
#[derive(Clone, PartialEq, Eq, Debug)]
pub struct TurnReport {
    /// The frame handed to the encoder this turn, if any.
    pub sent: Option<Envelope>,
    /// Whether the loop goes on to another turn.
    pub proceed: bool,
    /// Whether the stat tracers fired for this turn.
    pub stats_fired: bool,
}

/// Mathematical value of a [`TurnReport`].
pub struct TurnReportV {
    pub sent: Option<EnvelopeV>,
    pub proceed: bool,
    pub stats_fired: bool,
}

impl View for TurnReport {
    type V = TurnReportV;

    open spec fn view(&self) -> TurnReportV {
        TurnReportV {
            sent: match self.sent {
                Some(frame) => Some(frame@),
                None => None,
            },
            proceed: self.proceed,
            stats_fired: self.stats_fired,
        }
    }
}

/// The report one turn owes for one input.
pub open spec fn spec_report(t: TurnInputV) -> TurnReportV {
    TurnReportV { sent: turn_sends(t), proceed: turn_proceeds(t), stats_fired: turn_fires_stats(t) }
}

/// The reports a whole connection owes for a script of inputs: one per turn,
/// in order, stopping after the first turn that does not proceed.
pub open spec fn spec_reports(inputs: Seq<TurnInputV>) -> Seq<TurnReportV>
    decreases inputs.len(),
{
    if inputs.len() == 0 {
        Seq::empty()
    } else if turn_proceeds(inputs[0]) {
        seq![spec_report(inputs[0])] + spec_reports(inputs.drop_first())
    } else {
        seq![spec_report(inputs[0])]
    }
}

/// Mathematical values of a script of inputs.
pub open spec fn views_of_inputs(inputs: Seq<TurnInput>) -> Seq<TurnInputV> {
    inputs.map_values(|t: TurnInput| t@)
}

/// Mathematical values of a sequence of reports.
pub open spec fn views_of_reports(reports: Seq<TurnReport>) -> Seq<TurnReportV> {
    reports.map_values(|r: TurnReport| r@)
}

/// Mathematical values of a sequence of frames.
pub open spec fn views_of_frames(frames: Seq<Envelope>) -> Seq<EnvelopeV> {
    frames.map_values(|e: Envelope| e@)
}

/// Everything a connection put on the wire, in order: the frames of its
/// reports, turn by turn.
pub open spec fn wire_frames(reports: Seq<TurnReportV>) -> Seq<EnvelopeV>
    decreases reports.len(),
{
    if reports.len() == 0 {
        Seq::empty()
    } else {
        match reports[0].sent {
            Some(frame) => seq![frame] + wire_frames(reports.drop_first()),
            None => wire_frames(reports.drop_first()),
        }
    }
}

/// Strip a connection's reports down to its wire output: the frames handed to
/// the encoder, in the order the turns produced them.
pub fn wire_output(reports: Vec<TurnReport>) -> (frames: Vec<Envelope>)
    ensures
        views_of_frames(frames@) == wire_frames(views_of_reports(reports@)),
{
    let ghost all: Seq<TurnReportV> = views_of_reports(reports@);
    let mut rest = reports;
    let mut frames: Vec<Envelope> = Vec::new();
    loop
        invariant_except_break
            wire_frames(all) =~= views_of_frames(frames@) + wire_frames(views_of_reports(rest@)),
        ensures
            views_of_frames(frames@) =~= wire_frames(all),
        decreases rest@.len(),
    {
        if rest.len() == 0 {
            proof {
                assert(views_of_reports(rest@) =~= Seq::<TurnReportV>::empty());
            }
            break ;
        }
        let ghost pending: Seq<TurnReportV> = views_of_reports(rest@);
        let report = rest.remove(0);
        proof {
            assert(pending[0] == report@);
            assert(views_of_reports(rest@) =~= pending.drop_first());
        }
        match report.sent {
            Some(frame) => {
                frames.push(frame);
                proof {
                    assert(views_of_frames(frames@) =~= views_of_frames(frames@.drop_last())
                        + seq![frame@]);
                }
            },
            None => (),
        }
    }
    frames
}

impl Engine {
    /// Drive one whole turn from scripted outside outcomes: acquire a context,
    /// take the decode race, run the handler's outcome through the dispatch
    /// decisions, and — when the turn completes cleanly — recycle. The report
    /// says exactly what the turn put on the wire, whether the tracers fired,
    /// and whether the loop goes on.
    pub fn run_turn(&mut self, input: TurnInput) -> (r: TurnReport)
        requires
            old(self).wf(),
            old(self).phase == Phase::Idle,
            input@.wf(),
        ensures
            final(self).wf(),
            r@ == spec_report(input@),
            final(self).phase == if turn_proceeds(input@) {
                Phase::Idle
            } else {
                Phase::Terminating
            },
            final(self).peer == old(self).peer,
            final(self).pool.capacity == old(self).pool.capacity,
            turn_proceeds(input@) ==> final(self).scope.entries@.len() == 0,
    {
        let mut ctx = self.begin_turn();
        match input {
            TurnInput::Cancelled => {
                let _step = self.on_decode(&mut ctx, DecodeOutcome::Cancelled);
                TurnReport { sent: None, proceed: false, stats_fired: false }
            },
            TurnInput::EndOfStream => {
                let _step = self.on_decode(&mut ctx, DecodeOutcome::EndOfStream);
                TurnReport { sent: None, proceed: false, stats_fired: false }
            },
            TurnInput::Fault(fault) => {
                let step = self.on_decode(&mut ctx, DecodeOutcome::Fault(fault));
                match step {
                    DecodeStep::CloseOnFault { notify } => TurnReport {
                        sent: notify,
                        proceed: false,
                        stats_fired: true,
                    },
                    _ => unreached(),
                }
            },
            TurnInput::Request {
                envelope,
                outcome,
                started_at,
                ended_at,
                shutdown_pending,
                encode_ok,
            } => {
                let step = self.on_decode(&mut ctx, DecodeOutcome::Frame(envelope));
                match step {
                    DecodeStep::Invoke { payload: _ } => (),
                    _ => unreached(),
                }
                let hstep = self.on_handler_result(
                    &mut ctx,
                    outcome,
                    started_at,
                    ended_at,
                    shutdown_pending,
                );
                match hstep {
                    HandlerStep::CloseSilent => TurnReport {
                        sent: None,
                        proceed: false,
                        stats_fired: false,
                    },
                    HandlerStep::Complete => {
                        self.finish_turn(ctx);
                        TurnReport { sent: None, proceed: true, stats_fired: true }
                    },
                    HandlerStep::Encode { frame } => {
                        let estep = self.on_encode_result(&ctx, encode_ok);
                        match estep {
                            EncodeStep::Complete => {
                                self.finish_turn(ctx);
                                TurnReport { sent: Some(frame), proceed: true, stats_fired: true }
                            },
                            EncodeStep::CloseAfterReply => TurnReport {
                                sent: Some(frame),
                                proceed: false,
                                stats_fired: false,
                            },
                            EncodeStep::CloseOnError => TurnReport {
                                sent: Some(frame),
                                proceed: false,
                                stats_fired: true,
                            },
                        }
                    },
                }
            },
        }
    }

    /// Drive turns off the front of the script until it runs out or a turn
    /// ends the loop: the connection's whole observable behaviour, one report
    /// per turn taken.
    pub fn run_connection(&mut self, inputs: Vec<TurnInput>) -> (reports: Vec<TurnReport>)
        requires
            old(self).wf(),
            old(self).phase == Phase::Idle,
            forall|i: int| 0 <= i < inputs@.len() ==> (#[trigger] inputs@[i])@.wf(),
        ensures
            final(self).wf(),
            views_of_reports(reports@) == spec_reports(views_of_inputs(inputs@)),
    {
        let ghost script: Seq<TurnInputV> = views_of_inputs(inputs@);
        let mut queue = inputs;
        let mut reports: Vec<TurnReport> = Vec::new();
        loop
            invariant_except_break
                self.wf(),
                self.phase == Phase::Idle,
                forall|i: int| 0 <= i < queue@.len() ==> (#[trigger] queue@[i])@.wf(),
                spec_reports(script) =~= views_of_reports(reports@) + spec_reports(
                    views_of_inputs(queue@),
                ),
            ensures
                self.wf(),
                views_of_reports(reports@) =~= spec_reports(script),
            decreases queue@.len(),
        {
            if queue.len() == 0 {
                proof {
                    assert(views_of_inputs(queue@) =~= Seq::<TurnInputV>::empty());
                    assert(spec_reports(views_of_inputs(queue@)) =~= Seq::<TurnReportV>::empty());
                    assert(views_of_reports(reports@) =~= spec_reports(script));
                }
                break ;
            }
            let ghost pending: Seq<TurnInputV> = views_of_inputs(queue@);
            let input = queue.remove(0);
            proof {
                assert(pending.len() > 0);
                assert(pending[0] == input@);
                assert(views_of_inputs(queue@) =~= pending.drop_first());
            }
            let report = self.run_turn(input);
            let keep_going = report.proceed;
            reports.push(report);
            proof {
                if turn_proceeds(input@) {
                    assert(spec_reports(pending) =~= seq![spec_report(pending[0])] + spec_reports(
                        pending.drop_first(),
                    ));
                } else {
                    assert(spec_reports(pending) =~= seq![spec_report(pending[0])]);
                }
                assert(views_of_reports(reports@) =~= views_of_reports(reports@.drop_last())
                    + seq![report@]);
            }
            if !keep_going {
                proof {
                    assert(views_of_reports(reports@) =~= spec_reports(script));
                }
                break ;
            }
        }
        reports
    }
}

} // verus!
