//! Core of a MIDI control-surface runtime: the MIDI message record and its
//! wire codec, the drivers of the two grid controllers, the endpoint tables
//! behind the router and the port supervisors, and the reference apps' rules
//! (the Chain Reaction board game, the selector's pad mapping, the rainbow).

pub mod channel;
pub mod message;

pub mod launchpad;
pub mod launchpad_x;

pub mod router;
pub mod supervisor;
pub mod table;

pub mod chain_reaction;
pub mod field;
pub mod rainbow;
pub mod select;
