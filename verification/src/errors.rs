//! Error taxonomy of the synchronization core.
//!
//! Startup errors are fatal: no valid compositor/GPU pairing exists and the
//! process cannot proceed. Frame-level conditions are recoverable at frame
//! granularity and are handled by the frame protocol, not represented here.

use vstd::prelude::*;

verus! {

/// A fatal startup failure: the compositor runtime and the GPU backend
/// cannot be brought to agree on a device, or the display configuration is
/// unusable.
#[derive(Clone, Copy, Debug, PartialEq, Eq, Structural)]
pub enum StartupError {
    /// The driver's API version is below the floor required by the
    /// compositor (or by the target), or above the compositor's advertised
    /// ceiling major version.
    VersionMismatch,
    /// A required native extension is absent.
    ExtensionMissing,
    /// The chosen physical device advertises no graphics-capable queue
    /// family.
    NoGraphicsQueue,
    /// The two stereo views report differing recommended configurations, so
    /// a single multiview swapchain cannot serve both eyes.
    ViewMismatch,
    /// The compositor reported no environment blend mode to composite with.
    NoBlendModes,
}

impl StartupError {
    /// A short human-readable description of the failure.
    pub fn message(&self) -> (m: &'static str)
        ensures
            self is VersionMismatch ==> m@ == "graphics API version outside the supported range"@,
            self is ExtensionMissing ==> m@ == "required native extension missing"@,
            self is NoGraphicsQueue ==> m@ == "device has no graphics queue family"@,
            self is ViewMismatch ==> m@ == "stereo views report differing configurations"@,
            self is NoBlendModes ==> m@ == "no environment blend modes reported"@,
    {
        match self {
            StartupError::VersionMismatch => "graphics API version outside the supported range",
            StartupError::ExtensionMissing => "required native extension missing",
            StartupError::NoGraphicsQueue => "device has no graphics queue family",
            StartupError::ViewMismatch => "stereo views report differing configurations",
            StartupError::NoBlendModes => "no environment blend modes reported",
        }
    }
}

} // verus!
