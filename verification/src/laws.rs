//! The loop's guarantees, stated over whole connections and proved once: the
//! pingpong sequencing of replies, the silence of one-way requests, what each
//! exit path leaves on the wire, and where the loop stops.

use vstd::prelude::*;

use crate::fault::{fault_envelope, DecodeFaultV};
use crate::message::{reply_envelope, EnvelopeV};
use crate::pool::ContextPool;
use crate::turn::{
    spec_report, spec_reports, turn_fires_stats, turn_proceeds, turn_sends, wire_frames,
    TurnInputV, TurnReportV,
};

verus! {

/// A two-way request turn on a healthy connection: a `Call` arrived, no
/// shutdown was pending when the handler returned, and the encoder delivered
/// the response frame. Nothing is assumed of the handler's outcome.
pub open spec fn clean_two_way(t: TurnInputV) -> bool {
    &&& t matches TurnInputV::Request { envelope, shutdown_pending, encode_ok, .. }
    &&& envelope.kind is Call
    &&& !shutdown_pending
    &&& encode_ok
}

/// The response frame a two-way request turn owes: the handler's outcome under
/// the request's own method name and sequence id.
pub open spec fn owed_reply(t: TurnInputV) -> EnvelopeV
    recommends
        t is Request,
{
    reply_envelope(t.req_envelope().method, t.req_envelope().seq_id, t.req_outcome())
}

/// Law (pingpong sequencing): on a connection whose every turn is a two-way
/// request delivered cleanly, N requests produce exactly N frames on the wire,
/// and the i-th frame is the answer to the i-th request — same method, same
/// sequence id, `Reply` on handler success, `Exception` on handler failure.
/// One frame per turn, in request order: no reordering, no pipelining.
pub proof fn lemma_pingpong_sequencing(inputs: Seq<TurnInputV>)
    requires
        forall|i: int| 0 <= i < inputs.len() ==> clean_two_way(#[trigger] inputs[i]),
    ensures
        spec_reports(inputs).len() == inputs.len(),
        forall|i: int|
            0 <= i < inputs.len() ==> (#[trigger] spec_reports(inputs)[i]).sent == Some(
                owed_reply(inputs[i]),
            ),
        wire_frames(spec_reports(inputs)).len() == inputs.len(),
        forall|i: int|
            0 <= i < inputs.len() ==> #[trigger] wire_frames(spec_reports(inputs))[i] == owed_reply(
                inputs[i],
            ),
    decreases inputs.len(),
{
    if inputs.len() == 0 {
    } else {
        let first = inputs[0];
        let rest = inputs.drop_first();
        assert(clean_two_way(first));
        assert(turn_proceeds(first));
        assert(forall|i: int| 0 <= i < rest.len() ==> clean_two_way(#[trigger] rest[i])) by {
            assert(forall|i: int|
                0 <= i < rest.len() ==> rest[i] == inputs[i + 1] && clean_two_way(
                    #[trigger] inputs[i + 1],
                ));
        }
        lemma_pingpong_sequencing(rest);
        let reports = spec_reports(inputs);
        let rest_reports = spec_reports(rest);
        assert(reports == seq![spec_report(first)] + rest_reports);
        assert(reports[0].sent == Some(owed_reply(first)));
        assert(reports.drop_first() =~= rest_reports);
        assert(wire_frames(reports) == seq![owed_reply(first)] + wire_frames(rest_reports));
        assert forall|i: int| 0 <= i < inputs.len() implies (#[trigger] reports[i]).sent == Some(
            owed_reply(inputs[i]),
        ) by {
            if i > 0 {
                assert(reports[i] == rest_reports[i - 1]);
                assert(rest[i - 1] == inputs[i]);
            }
        }
        assert forall|i: int| 0 <= i < inputs.len() implies #[trigger] wire_frames(reports)[i]
            == owed_reply(inputs[i]) by {
            if i > 0 {
                assert(wire_frames(reports)[i] == wire_frames(rest_reports)[i - 1]);
                assert(rest[i - 1] == inputs[i]);
            }
        }
    }
}

/// Law (termination point): if every turn before `k` proceeds and turn `k`
/// does not, the connection takes exactly the first `k + 1` turns — each of
/// the first `k` in full, then the terminating one — and nothing after it.
pub proof fn lemma_run_stops(inputs: Seq<TurnInputV>, k: int)
    requires
        0 <= k < inputs.len(),
        forall|i: int| 0 <= i < k ==> turn_proceeds(#[trigger] inputs[i]),
        !turn_proceeds(inputs[k]),
    ensures
        spec_reports(inputs).len() == k + 1,
        forall|i: int|
            0 <= i <= k ==> #[trigger] spec_reports(inputs)[i] == spec_report(inputs[i]),
    decreases k,
{
    let rest = inputs.drop_first();
    if k == 0 {
        assert(spec_reports(inputs) == seq![spec_report(inputs[0])]);
    } else {
        assert(turn_proceeds(inputs[0]));
        assert(forall|i: int|
            0 <= i < k - 1 ==> rest[i] == inputs[i + 1] && turn_proceeds(#[trigger] inputs[i + 1]));
        assert(rest[k - 1] == inputs[k]);
        lemma_run_stops(rest, k - 1);
        let reports = spec_reports(inputs);
        assert(reports == seq![spec_report(inputs[0])] + spec_reports(rest));
        assert forall|i: int| 0 <= i <= k implies #[trigger] reports[i] == spec_report(
            inputs[i],
        ) by {
            if i > 0 {
                assert(reports[i] == spec_reports(rest)[i - 1]);
                assert(rest[i - 1] == inputs[i]);
            }
        }
    }
}

/// Law (cancellation between requests): if the signal wins the decode race at
/// turn `k` after `k` cleanly processed turns, the loop ends at turn `k` —
/// before any further decode — with no frame and no tracer firing for that
/// turn, and every earlier turn untouched.
pub proof fn lemma_cancellation_between_requests(inputs: Seq<TurnInputV>, k: int)
    requires
        0 <= k < inputs.len(),
        inputs[k] is Cancelled,
        forall|i: int| 0 <= i < k ==> turn_proceeds(#[trigger] inputs[i]),
    ensures
        spec_reports(inputs).len() == k + 1,
        spec_reports(inputs)[k] == (TurnReportV { sent: None, proceed: false, stats_fired: false }),
        forall|i: int|
            0 <= i < k ==> #[trigger] spec_reports(inputs)[i] == spec_report(inputs[i]),
{
    lemma_run_stops(inputs, k);
}

/// Law (graceful drain of the in-flight request): when shutdown is observed
/// right after the handler returned, an in-flight two-way request still gets
/// its reply — the frame goes out — and only then does the loop stop.
pub proof fn lemma_drain_in_flight(t: TurnInputV)
    requires
        t matches TurnInputV::Request { envelope, shutdown_pending: true, encode_ok: true, .. },
        t.req_envelope().kind is Call,
    ensures
        turn_sends(t) == Some(owed_reply(t)),
        !turn_proceeds(t),
{
}

/// Law (graceful drain, whole connection): after `k` cleanly processed turns,
/// a two-way request that sees the shutdown mark is still the one turn that
/// answers it — its reply is the connection's last frame, and no further turn
/// runs.
pub proof fn lemma_drain_ends_connection(inputs: Seq<TurnInputV>, k: int)
    requires
        0 <= k < inputs.len(),
        forall|i: int| 0 <= i < k ==> turn_proceeds(#[trigger] inputs[i]),
        inputs[k] matches TurnInputV::Request {
            envelope,
            shutdown_pending: true,
            encode_ok: true,
            ..
        },
        inputs[k].req_envelope().kind is Call,
    ensures
        spec_reports(inputs).len() == k + 1,
        spec_reports(inputs)[k].sent == Some(owed_reply(inputs[k])),
        !spec_reports(inputs)[k].proceed,
{
    lemma_drain_in_flight(inputs[k]);
    lemma_run_stops(inputs, k);
}

/// Law (decode failure ends the connection): after `k` cleanly processed
/// turns, a decode failure is the last turn taken — at most one best-effort
/// exception frame leaves (exactly one for a protocol-class failure, none for
/// a transport-class one) and no further turn runs.
pub proof fn lemma_fault_ends_connection(inputs: Seq<TurnInputV>, k: int)
    requires
        0 <= k < inputs.len(),
        forall|i: int| 0 <= i < k ==> turn_proceeds(#[trigger] inputs[i]),
        inputs[k] matches TurnInputV::Fault(f) && f.wf(),
    ensures
        spec_reports(inputs).len() == k + 1,
        inputs[k] matches TurnInputV::Fault(f) ==> spec_reports(inputs)[k].sent == (
        if f.class is Protocol {
            Some(fault_envelope(f))
        } else {
            None
        }),
        !spec_reports(inputs)[k].proceed,
        spec_reports(inputs)[k].stats_fired,
{
    lemma_run_stops(inputs, k);
}

/// Law (one-way silence): a one-way request puts nothing on the wire, whatever
/// the handler's outcome and whatever the shutdown mark.
pub proof fn lemma_one_way_silent(t: TurnInputV)
    requires
        t matches TurnInputV::Request { envelope, .. } && envelope.kind is OneWay,
    ensures
        turn_sends(t) is None,
{
}

/// Law (decode-failure disposition): a protocol-class decode failure yields
/// exactly one best-effort exception frame and ends the loop; a
/// transport-class one yields no frame and ends the loop. Either way the stat
/// tracers fire once for the broken turn.
pub proof fn lemma_decode_fault_disposition(f: DecodeFaultV)
    requires
        f.wf(),
    ensures
        f.class is Protocol ==> turn_sends(TurnInputV::Fault(f)) == Some(fault_envelope(f)),
        f.class is Protocol ==> fault_envelope(f).kind is Exception,
        f.class is Transport ==> turn_sends(TurnInputV::Fault(f)) is None,
        !turn_proceeds(TurnInputV::Fault(f)),
        turn_fires_stats(TurnInputV::Fault(f)),
{
}

/// Law (pool bound): a well-formed pool never holds more idle contexts than
/// its capacity, and every context it holds has all fields at their defaults —
/// so a released-then-reacquired context is indistinguishable from a fresh one.
pub proof fn lemma_pool_within_capacity(p: ContextPool)
    requires
        p.wf(),
    ensures
        p.idle@.len() <= p.capacity,
        forall|i: int|
            0 <= i < p.idle@.len() ==> (#[trigger] p.idle@[i])@
                == crate::context::ContextV::pristine(),
{
}

} // verus!
