//! Free-look camera control: integrates relative mouse motion and key state
//! into an orientation (yaw and pitch) and a world position, once per frame
//! tick.
//!
//! All quantities are fixed-point integers. Tick inputs (mouse deltas, the
//! speeds, the frame duration in seconds and the components of direction
//! vectors) are given in thousandths of a unit; the stored state (angles in
//! degrees, position in world units) is kept in billionths of a unit, so that
//! one tick's contribution, a product of three inputs, is exact.
//!
//! The trigonometry that turns yaw and pitch into forward and right unit
//! vectors is floating point and lives with the caller; the library takes
//! those vectors back as fixed-point values and does the rest.

pub mod camera;
pub mod laws;
