//! Activity tracking with a decaying energy value.
//!
//! Input events (key presses, button presses, pointer motion) are counted
//! between ticks. Each tick turns the counts into a decay of the energy,
//! clears them and yields a snapshot for a presentation layer. A boost raises
//! the energy on demand.
//!
//! Energy is held in fixed point: one unit is a ten-thousandth of a point, so
//! that the decay of every event is a whole number of units and all
//! arithmetic is exact.

pub mod energy;
pub mod events;
pub mod laws;
pub mod messages;
pub mod state;
