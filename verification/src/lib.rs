//! Verified core of a terminal dashboard for work items ("tickets")
//! organized into named boards.
//!
//! The library holds the logic of the session: the board and ticket
//! navigation state machine, the input dispatcher with its text-entry
//! sub-mode, the placeholder policy that keeps every fetched ticket list
//! non-empty, and the projections the renderer draws from. Reading the
//! store and painting the terminal stay outside, in the surrounding
//! binary, which hands this library plain values and obeys its contracts.

pub mod clock;
pub mod help;
pub mod nav;
pub mod session;
pub mod ticket;
pub mod timer;
