//! Protocol types and helpers for building gamepacks: worker processes that
//! report live game telemetry to a supervising daemon.
//!
//! The daemon and a gamepack exchange newline-delimited JSON:
//!
//! - Commands flow from the daemon to the gamepack.
//! - Responses flow from the gamepack to the daemon, each with the
//!   `request_id` of the command it answers.
//! - Match data flows from the gamepack to the daemon unasked, at any time.
//!
//! A gamepack implements [`GamepackHandler`] and hands each line it reads to
//! [`runner::process_line`], which makes the one handler call the line
//! stands for and gives back the line to write. See [`GamepackCommand`] and
//! [`GamepackResponse`] for the full protocol, and [`wire`] for how the
//! messages are laid out as JSON.

pub mod commands;
pub mod dispatch;
pub mod framing;
pub mod handler;
pub mod json;
pub mod outbox;
pub mod responses;
pub mod runner;
pub mod stats;
pub mod text;
pub mod types;
pub mod version;
pub mod views;
pub mod wire;

pub use commands::GamepackCommand;
pub use handler::{GamepackError, GamepackHandler, GamepackResult};
pub use json::{Json, JsonNumber};
pub use responses::GamepackResponse;
pub use stats::StatMap;
pub use types::{GameEvent, GameStatus, InitResponse, MatchData};
pub use version::PROTOCOL_VERSION;
