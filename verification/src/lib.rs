//! An idle-dimming backlight controller.
//!
//! The controller consumes input and lid-switch events, tracks how long the
//! user has been idle, and on each periodic tick decides what brightness the
//! output backlight should have: the lookup-mapped source reading while
//! active, a fixed dim level once idle, zero once long idle or whenever the
//! lid is closed. The surrounding process owns the clock and the devices; it
//! hands the controller plain millisecond timestamps and brightness readings
//! and performs the one write per effective change that the controller asks
//! for.

pub mod backlight;
pub mod lookup_table;
