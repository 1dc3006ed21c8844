//! Verified core of a PLC tag-access and flow-bridging utility.
//!
//! The crate models the data and the decisions of a bridge that polls a
//! serial field instrument, corrects its measurement, and writes the result
//! back to controller tags:
//!
//! - [`words`] decodes the paired 16-bit holding-register words that carry
//!   one 32-bit value over the field bus;
//! - [`value`] is the closed sum type of controller tag values;
//! - [`path`] validates symbolic tag addresses through the tag-access
//!   client's own parser;
//! - [`gas`] holds the process-gas composition that the flow correction is
//!   evaluated against;
//! - [`bridge`] is the cycle orchestrator: a state machine from state and
//!   event to next state and action, one protocol exchange at a time.
//!
//! Protocol transport, the terminal, and the floating-point equation-of-state
//! evaluation live in the embedding program, which drives the [`bridge`]
//! machine and performs the actions it asks for.

pub mod bridge;
pub mod gas;
pub mod path;
pub mod value;
pub mod words;
