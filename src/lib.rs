//! Study-day timing for a spaced-repetition collection: which rollover-anchored
//! day "now" falls into, counted from the collection's creation, and when the
//! next such day begins; plus the command layer that routes a named request to
//! that computation.
pub mod bridge;
pub mod laws;
pub mod timing;
