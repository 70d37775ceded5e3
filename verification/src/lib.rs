//! The serving core of a shared pixel canvas: the canvas itself, the
//! per-connection protocol state machine, paint admission with per-user
//! pacing, batching of outgoing paints, and the bookkeeping that feeds the
//! persistent store.
//!
//! Everything here is sequential: nothing waits, and nothing touches a
//! socket or a file. A server wraps the state in a lock, feeds frames and
//! timer ticks to the functions of [`ws`] and [`save`], and carries their
//! answers to sockets and to the database.

pub mod actions;
pub mod board;
pub mod consts;
pub mod hub;
pub mod pace;
pub mod pixel;
pub mod resp;
pub mod save;
pub mod snapshot;
pub mod state;
pub mod time;
pub mod token;
pub mod ws;
