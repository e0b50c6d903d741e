//! Read-only monitoring of the battery, power source and sleep/wake state of
//! a desktop system.
//!
//! This crate holds the platform-independent core: the unified data model,
//! the rules that decide which change notifications to emit, the mapping of
//! raw platform values into the model, and the decision logic of the native
//! listeners and of the event dispatcher.
use vstd::prelude::*;

pub mod dispatcher;
pub mod error;
pub mod events;
pub mod lifecycle;
pub mod models;
pub mod platform;
pub mod text;

pub use error::{Error, ErrorView, Result};
pub use models::{BatteryInfo, PowerSource, PowerState};

verus! {

} // verus!
