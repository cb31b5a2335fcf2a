//! Safe, verified model of a foreign tag-detection engine's results.
//!
//! The foreign engine hands out heap records it allocated itself: detection
//! records, pose matrices, growable arrays. This crate models those records
//! as owned plain values, so that ownership, lifetime and bounds questions
//! are settled by the type system and the verifier instead of by convention.
//! The thin unsafe adapter that reads the foreign structs and calls the
//! engine lives outside the library and hands values in and out.

pub mod detection;
pub mod matd;
pub mod pose;
pub mod zarray;
