//! Context and surface lifecycle for an embedded-GL backend.
//!
//! A device creates contexts and surfaces, attaches a surface to the context it
//! was created for, maps its pixels for the CPU, and tears both down. The
//! library keeps the state and decides; the native calls are its caller's, who
//! hands over what they reported.

pub mod attributes;
pub mod context;
pub mod context_id;
pub mod device;
pub mod error;
pub mod framebuffer;
pub mod info;
pub mod probe;
pub mod size;
pub mod surface;

pub use crate::attributes::{ContextAttributeFlags, ContextAttributes};
pub use crate::context::{Context, ContextDescriptor, CurrentContext, NativeContext};
pub use crate::context_id::{ContextID, ContextIdAllocator};
pub use crate::device::Device;
pub use crate::error::Error;
pub use crate::framebuffer::Framebuffer;
pub use crate::info::GLVersion;
pub use crate::probe::VersionProbe;
pub use crate::size::Size2D;
pub use crate::surface::{
    IOSurfaceProperties, NativeSurface, NativeWidget, Surface, SurfaceAccess, SurfaceDataGuard,
    SurfaceID, SurfaceInfo, SurfaceLock, SurfaceTexture, SurfaceType,
};
