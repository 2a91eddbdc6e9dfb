//! Erlang Distribution Protocol client library with verified wire codecs,
//! handshake state machine and fragment reassembly.

pub mod flags;
pub mod wire;
pub mod types;
pub mod text;
pub mod errors;
pub mod state_machine;
pub mod digest;
pub mod handshake;
pub mod framing;
pub mod fragmentation;
pub mod epmd_client;
pub mod connection;
pub mod term;
pub mod control;
pub mod pid_allocator;
pub mod date_time;
pub mod range;
pub mod exceptions;
pub mod gen_server_terms;
pub mod builders;
pub mod dispatch;
pub mod registry;
pub mod etf;
mod ready;
