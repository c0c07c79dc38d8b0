//! Lock and delegation state machine for single-unit digital assets.
//!
//! An asset is held by its owner; the owner may grant one delegate a role,
//! and only a delegate whose role allows it may lock or unlock the asset.
//! Locking freezes the holding account and blocks every further change of
//! delegation until the asset is unlocked again.

pub mod types;
pub mod authority;
pub mod record;
pub mod engine;
pub mod delegation;
pub mod store;
pub mod laws;
