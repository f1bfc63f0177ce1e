use vstd::prelude::*;

verus! {

/// Failures of the driver's setup steps.
#[derive(Debug, Clone)]
pub enum DriverError {
    /// The device registry could not be read or understood.
    ParseError(String),
    /// No layout has the requested name.
    LayoutNotFound(String),
    /// The devices were not found within the given number of attempts.
    DetectionTimeout(u32),
}

} // verus!
