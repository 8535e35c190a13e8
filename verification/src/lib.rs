//! Per-connection serial message-processing engine of an RPC server speaking a
//! binary, length-prefixed protocol under a strict pingpong discipline: decode
//! one request, dispatch it to the application handler, encode a reply when one
//! is expected, and repeat until the stream ends, a framing error occurs, or
//! shutdown is requested.
//!
//! The transport, the codec, the handler and the clock are outside
//! collaborators: they run in the surrounding program, which drives the
//! [`engine::Engine`] state machine through its step methods and performs each
//! action the engine asks for. Every decision the loop makes — sequencing,
//! failure classification, reply construction, context recycling — lives here
//! and is verified.

pub mod context;
pub mod engine;
pub mod fault;
pub mod grpc_backend;
pub mod laws;
pub mod message;
pub mod pool;
pub mod scope;
pub mod turn;
