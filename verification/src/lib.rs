//! Supervisory wrapper around a game-server process: a log-matching engine
//! that recognizes semantic events in the server's log stream, a JSON-RPC 2.0
//! codec, and a plugin supervisor that fans events out to plugin processes.

pub mod engine;
pub mod json;
pub mod launch;
pub mod logline;
pub mod matchers;
pub mod payloads;
pub mod plugins;
pub mod rpc;
pub mod strutil;
pub mod supervisor;
