//! A small virtual-pet simulation core.
//!
//! The crate owns the pet's bounded stats (hunger, happiness, health), the
//! three state transitions (`feed`, `play`, `tick`) under saturating
//! arithmetic, and a queue of transient notifications that are de-duplicated
//! by key and expire by age. All time values are plain milliseconds read from
//! a monotonic clock by the caller; the crate itself does no I/O.

pub mod constants;
pub mod laws;
pub mod notification;
pub mod pet;
pub mod text;
