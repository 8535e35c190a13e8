//! Per-turn request context: the mutable state the dispatch loop owns for
//! exactly one turn — peer address, RPC metadata, processing timestamps and the
//! reset flags. Before a context is reused, every field equals its default.

use vstd::prelude::*;

use crate::message::MessageKind;

verus! {

/// Mutable per-turn state, exclusively owned by the dispatch loop for one turn.
#[derive(Clone, PartialEq, Eq, Debug)]
pub struct RequestContext {
    /// Address of the peer the connection was accepted from, if known.
    pub peer: Option<String>,
    /// Method name of the request being served.
    pub method: Option<String>,
    /// Kind the request arrived with: `Call` or `OneWay`.
    pub req_kind: Option<MessageKind>,
    /// Kind the response leaves with: `Reply` or `Exception`.
    pub resp_kind: Option<MessageKind>,
    /// Sequence id of the request being served.
    pub seq_id: Option<i32>,
    /// When handler processing started, as the surrounding clock reports it.
    pub started_at: Option<u64>,
    /// When handler processing ended.
    pub ended_at: Option<u64>,
    /// Connection-reset mark advertised to the peer with the next reply.
    pub conn_reset: bool,
    /// The transport closes the connection once the current reply is out.
    pub transport_reset: bool,
}

/// Mathematical value of a [`RequestContext`].
pub struct ContextV {
    pub peer: Option<Seq<char>>,
    pub method: Option<Seq<char>>,
    pub req_kind: Option<MessageKind>,
    pub resp_kind: Option<MessageKind>,
    pub seq_id: Option<i32>,
    pub started_at: Option<u64>,
    pub ended_at: Option<u64>,
    pub conn_reset: bool,
    pub transport_reset: bool,
}

/// Mathematical value of an optional string.
pub open spec fn opt_str_view(s: Option<String>) -> Option<Seq<char>> {
    match s {
        Some(inner) => Some(inner@),
        None => None,
    }
}

impl View for RequestContext {
    type V = ContextV;

    open spec fn view(&self) -> ContextV {
        ContextV {
            peer: opt_str_view(self.peer),
            method: opt_str_view(self.method),
            req_kind: self.req_kind,
            resp_kind: self.resp_kind,
            seq_id: self.seq_id,
            started_at: self.started_at,
            ended_at: self.ended_at,
            conn_reset: self.conn_reset,
            transport_reset: self.transport_reset,
        }
    }
}

impl ContextV {
    /// Every field at its default value: the state a context is constructed
    /// in, and the state it is restored to before it re-enters the pool.
    pub open spec fn pristine() -> ContextV {
        ContextV {
            peer: None,
            method: None,
            req_kind: None,
            resp_kind: None,
            seq_id: None,
            started_at: None,
            ended_at: None,
            conn_reset: false,
            transport_reset: false,
        }
    }

    /// A pristine context stamped with the connection's peer address: the
    /// state every turn starts from.
    pub open spec fn opened(peer: Option<Seq<char>>) -> ContextV {
        ContextV { peer, ..ContextV::pristine() }
    }
}

impl RequestContext {
    /// A freshly constructed context, every field at its default.
    pub fn new() -> (r: RequestContext)
        ensures
            r@ == ContextV::pristine(),
    {
        RequestContext {
            peer: None,
            method: None,
            req_kind: None,
            resp_kind: None,
            seq_id: None,
            started_at: None,
            ended_at: None,
            conn_reset: false,
            transport_reset: false,
        }
    }

    /// Restore every field to its default, so the context can be reused.
    pub fn reset(&mut self)
        ensures
            final(self)@ == ContextV::pristine(),
    {
        self.peer = None;
        self.method = None;
        self.req_kind = None;
        self.resp_kind = None;
        self.seq_id = None;
        self.started_at = None;
        self.ended_at = None;
        self.conn_reset = false;
        self.transport_reset = false;
    }
}

impl Default for RequestContext {
    fn default() -> (r: RequestContext)
        ensures
            r@ == ContextV::pristine(),
    {
        RequestContext::new()
    }
}

} // verus!
