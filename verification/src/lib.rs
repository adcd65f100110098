//! Driver core for a two-wire soil sensor that reports ambient temperature
//! and capacitive soil moisture through a vendor register protocol.
//!
//! The crate holds the protocol itself: how a measurement request is encoded
//! as a register address pair, in what order the command write, the settle
//! delay and the response read must happen, and how the raw response bytes
//! become calibrated values. The bus transport, scheduling and reporting are
//! the caller's business; the caller drives a [`transaction::Transaction`]
//! by performing each prescribed [`transaction::Action`] and feeding back the
//! resulting [`transaction::Event`].

pub mod codec;
pub mod protocol;
pub mod transaction;
