//! A dawn-anchored time zone: a time-of-day representation whose day starts
//! at the most recent dawn at a given geographic position, rather than at a
//! fixed-zone midnight.
//!
//! Given a reference instant and a position, the resolver finds the most
//! recent dawn there and derives the fixed offset from UTC under which that
//! dawn reads as local 00:00:00.

pub mod offset;
pub mod sun;
pub mod zone;
