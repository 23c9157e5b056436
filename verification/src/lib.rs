//! Verified core of a four-zone RGB keyboard controller for Lenovo Legion,
//! LOQ and Ideapad laptops: the HID payloads and lighting state of the
//! keyboard driver, device selection, the manager's decisions, the pure parts
//! of the lighting effects, and the logical/physical zone model of the
//! stealth controller.
use vstd::prelude::*;

pub mod driver;
pub mod effects;
pub mod enums;
pub mod manager;
pub mod persist;
pub mod stealth;
pub mod profile;
pub mod text;

verus! {

} // verus!
