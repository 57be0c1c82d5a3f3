//! The kinds of failure that device operations report.

use vstd::prelude::*;

verus! {

/// Why a device operation was refused.
#[derive(Clone, Copy, Debug, PartialEq, Eq, Structural)]
pub enum Error {
    /// The native graphics stack rejected a call.
    Failed,
    /// This backend does not implement the requested capability.
    UnsupportedOnThisPlatform,
    /// The context renders to a target that was created elsewhere.
    ExternalRenderTarget,
    /// The context already has a surface attached.
    SurfaceAlreadyBound,
    /// The surface was created for another context.
    IncompatibleSurface,
    /// The surface's access mode forbids mapping it for the CPU.
    SurfaceDataInaccessible,
    /// The native buffer could not be locked.
    SurfaceLockFailed,
}

} // verus!
