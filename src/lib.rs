//! A bridge between socket peers and a line-delimited JSON assistant CLI.
//!
//! The library holds the logic of the bridge, verified: the JSON tree it
//! reads and writes (`json`), the protocol messages and their codec
//! (`message`), the control engine that writes every line towards the CLI
//! and correlates control requests with their responses (`control`), the
//! per-session state machine (`session`), tool-permission round trips
//! (`permission`), the peer's message schema and the opening handshake
//! (`peer`, `init`), the CLI's command line (`options`), and the event
//! stream of the agent runtime (`events`).

pub mod config;
pub mod control;
pub mod error;
pub mod events;
pub mod identity;
pub mod init;
pub mod json;
pub mod message;
pub mod options;
pub mod peer;
pub mod permission;
pub mod pool;
pub mod protocol;
pub mod session;
