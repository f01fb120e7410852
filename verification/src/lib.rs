//! Interactive presentation core for a TOTP vault viewer.
//!
//! The library holds the verified logic of the session: entry filtering,
//! the fuzzy-picker labels and its state machine, the live countdown
//! renderer with its rotation detection and urgency bands, and the
//! plain-text exports of the vault entries.

pub mod text;
pub mod otp;
pub mod input;
pub mod render;
pub mod select;
pub mod export;
