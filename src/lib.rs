use vstd::prelude::*;

pub mod backlight;
pub mod position;
pub mod error;
pub mod layout;
pub mod numpad;
pub mod detection;

verus! {

} // verus!
