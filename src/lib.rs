//! Strips emoji-like code points from text.
//!
//! The library classifies single Unicode code points against a fixed table of
//! emoji-related blocks, filters text by that classification, and decides what
//! to do with each processed source.
pub mod classify;
pub mod filter;
pub mod laws;
pub mod process;
pub mod report;
