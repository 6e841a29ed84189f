//! Error taxonomy of the rendering backend.
//!
//! Only surface invalidation is ever handled internally (by the recreate
//! protocol); every other failure is fatal and propagates to the caller.

use vstd::prelude::*;

verus! {

/// Why an adapter was rejected during device selection.
#[derive(Debug, Clone, Copy)]
pub struct CompatibilityError(pub &'static str);

/// A fatal failure of the rendering backend.
///
/// Surface invalidation is deliberately absent: it is recovered locally by
/// rebuilding the swapchain and never surfaces to the caller as an error.
#[derive(Debug, Clone, Copy, PartialEq, Eq, Structural)]
pub enum RhiError {
    /// No adapter meets the minimum requirements (queue families, device
    /// extensions, a non-empty format and present-mode list).
    DeviceSelection,
    /// The surface reports no supported format or no present mode.
    IncompatibleSurface,
    /// A queue submission failed for a reason other than an outdated surface.
    Submission,
    /// A present request failed for a reason other than an outdated surface.
    Present,
    /// A pipeline, buffer or view could not be constructed.
    ResourceCreation,
}

impl RhiError {
    /// A short description of the failure, for callers that log errors.
    pub fn message(&self) -> &'static str {
        match self {
            RhiError::DeviceSelection => "no compatible physical device",
            RhiError::IncompatibleSurface => "surface reports no format or present mode",
            RhiError::Submission => "queue submission failed",
            RhiError::Present => "present request failed",
            RhiError::ResourceCreation => "resource creation failed",
        }
    }
}

} // verus!
