//! A verified core for a game-launcher: it derives a time-keyed cipher key,
//! frames an encrypted argument token for the game client, assembles the
//! argument list from a login session, and drives the
//! authentication-to-launch flow as an explicit state machine.

pub mod errors;
pub mod numfmt;
pub mod encoder;
pub mod session;
pub mod args;
pub mod launch;
pub mod orchestrator;
