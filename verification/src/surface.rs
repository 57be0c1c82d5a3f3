//! Surfaces: pixel buffers that a context renders to and the CPU may map.

use vstd::prelude::*;

use crate::context::Context;
use crate::context_id::ContextID;
use crate::device::Device;
use crate::error::Error;
use crate::size::Size2D;

verus! {

/// Bytes in one pixel of a surface.
pub const BYTES_PER_PIXEL: i32 = 4;

/// The pixel format of every surface: 32-bit BGRA, as a four-character code.
pub const PIXEL_FORMAT_32_BGRA: i32 = 0x42475241;

/// The cache mode of a buffer that needs no special treatment.
pub const MAP_DEFAULT_CACHE: i32 = 0;

/// The cache mode of a buffer that the CPU writes in bursts and seldom reads.
pub const MAP_WRITE_COMBINE_CACHE: i32 = 4;

/// The texture target through which a surface texture is sampled.
pub const SURFACE_GL_TEXTURE_TARGET: u32 = 0x84F5;

/// The status with which the native stack reports success.
pub const KERN_SUCCESS: i32 = 0;

/// Who may touch the pixels of a surface, and how the GPU should cache them.
#[derive(Clone, Copy, Debug, PartialEq, Eq, Structural)]
pub enum SurfaceAccess {
    /// Only the GPU reads and writes the surface.
    GPUOnly,
    /// The CPU may map the surface as well.
    GPUCPU,
    /// The CPU may map the surface, and mostly writes to it.
    GPUCPUWriteCombined,
}

impl SurfaceAccess {
    /// Whether the CPU may map a surface with this access mode.
    pub open spec fn allows_cpu(self) -> bool {
        self != SurfaceAccess::GPUOnly
    }

    /// The cache mode that a buffer with this access mode is allocated with:
    /// write-combined only for the write-combined mode.
    pub open spec fn cache_mode_spec(self) -> i32 {
        if self == SurfaceAccess::GPUCPUWriteCombined {
            MAP_WRITE_COMBINE_CACHE
        } else {
            MAP_DEFAULT_CACHE
        }
    }

    /// Whether the CPU may map a surface with this access mode.
    pub fn cpu_access_allowed(self) -> (allowed: bool)
        ensures
            allowed == self.allows_cpu(),
    {
        match self {
            SurfaceAccess::GPUOnly => false,
            SurfaceAccess::GPUCPU | SurfaceAccess::GPUCPUWriteCombined => true,
        }
    }

    /// The cache mode to allocate a buffer with.
    pub fn cache_mode(self) -> (mode: i32)
        ensures
            mode == self.cache_mode_spec(),
    {
        match self {
            SurfaceAccess::GPUCPUWriteCombined => MAP_WRITE_COMBINE_CACHE,
            SurfaceAccess::GPUOnly | SurfaceAccess::GPUCPU => MAP_DEFAULT_CACHE,
        }
    }
}

/// A window or view of the host that a surface could present into.
///
/// This backend has no windowing of its own, so the value carries nothing.
#[derive(Clone, Copy, Debug, PartialEq, Eq, Structural)]
pub struct NativeWidget();

/// What kind of surface to create.
#[derive(Debug)]
pub enum SurfaceType<NativeWidget> {
    /// An off-screen surface of the given size.
    Generic {
        /// The size of the surface.
        size: Size2D,
    },
    /// A surface that presents into a widget of the host.
    Widget {
        /// The widget to present into.
        native_widget: NativeWidget,
    },
}

/// Identifies a surface for as long as its native buffer lives.
#[derive(Clone, Copy, Debug, PartialEq, Eq, Hash, Structural)]
pub struct SurfaceID(pub usize);

/// The native buffer behind a surface, named by its address.
///
/// Address zero names no buffer.
#[derive(Clone, Copy, Debug, PartialEq, Eq, Structural)]
pub struct NativeSurface(pub usize);

impl NativeSurface {
    /// Whether this names no buffer.
    pub open spec fn is_nil_spec(&self) -> bool {
        self.0 == 0
    }

    /// Whether this names no buffer.
    #[verifier::when_used_as_spec(is_nil_spec)]
    pub fn is_nil(&self) -> (nil: bool)
        ensures
            nil == self.is_nil_spec(),
    {
        self.0 == 0
    }
}

/// The identifier of the surface that owns the buffer `native`.
pub open spec fn surface_id_of(native: NativeSurface) -> SurfaceID {
    SurfaceID(native.0)
}

/// Derives a surface's identifier from the identity of its native buffer.
pub fn derive_surface_id(native: &NativeSurface) -> (id: SurfaceID)
    ensures
        id == surface_id_of(*native),
{
    SurfaceID(native.0)
}

/// A snapshot of what is known about a surface.
#[derive(Clone, Copy, Debug, PartialEq, Eq, Structural)]
pub struct SurfaceInfo {
    /// The size of the surface.
    pub size: Size2D,
    /// The surface's identifier.
    pub id: SurfaceID,
    /// The context that the surface was created for.
    pub context_id: ContextID,
    /// The framebuffer object to render into, zero for the default one.
    pub framebuffer_object: u32,
}

/// The properties that a native buffer is allocated with.
#[derive(Clone, Copy, Debug, PartialEq, Eq, Structural)]
pub struct IOSurfaceProperties {
    /// Pixels per row.
    pub width: i32,
    /// Number of rows.
    pub height: i32,
    /// Bytes in one pixel.
    pub bytes_per_element: i32,
    /// Bytes in one row.
    pub bytes_per_row: i32,
    /// The pixel format, as a four-character code.
    pub pixel_format: i32,
    /// How the buffer is cached.
    pub cache_mode: i32,
}

/// Whether a row of `size` can be measured in bytes with a 32-bit integer.
pub open spec fn row_bytes_fit(size: Size2D) -> bool {
    i32::MIN <= size.width * BYTES_PER_PIXEL <= i32::MAX
}

/// The properties of a buffer that holds `size` pixels of 32-bit BGRA for a
/// surface with the given access mode.
pub open spec fn properties_for(size: Size2D, access: SurfaceAccess) -> IOSurfaceProperties {
    IOSurfaceProperties {
        width: size.width,
        height: size.height,
        bytes_per_element: BYTES_PER_PIXEL,
        bytes_per_row: (size.width * BYTES_PER_PIXEL) as i32,
        pixel_format: PIXEL_FORMAT_32_BGRA,
        cache_mode: access.cache_mode_spec(),
    }
}


/// A buffer of pixels that a context renders to and, where its access mode
/// allows, the CPU maps.
///
/// A surface belongs to the context it was created for and can be attached to
/// no other. It must be destroyed through the device before it is let go.
#[derive(Debug)]
pub struct Surface {
    context_id: ContextID,
    io_surface: NativeSurface,
    size: Size2D,
    access: SurfaceAccess,
    destroyed: bool,
}

impl Surface {
    /// Every surface has a native buffer, and rows that can be measured in bytes.
    #[verifier::type_invariant]
    pub closed spec fn wf(self) -> bool {
        &&& !self.io_surface.is_nil()
        &&& row_bytes_fit(self.size)
    }

    /// The context that the surface was created for.
    pub closed spec fn context_id(self) -> ContextID {
        self.context_id
    }

    /// The native buffer.
    pub closed spec fn native(self) -> NativeSurface {
        self.io_surface
    }

    /// The size that the surface was created with.
    pub closed spec fn size(self) -> Size2D {
        self.size
    }

    /// The access mode that the surface was created with.
    pub closed spec fn access(self) -> SurfaceAccess {
        self.access
    }

    /// Whether the surface has been destroyed.
    pub closed spec fn destroyed(self) -> bool {
        self.destroyed
    }

    /// The surface's identifier.
    pub open spec fn id_spec(self) -> SurfaceID {
        surface_id_of(self.native())
    }

    /// This surface with the destroyed mark set.
    pub closed spec fn marked_destroyed(self) -> Surface {
        Surface { destroyed: true, ..self }
    }

    /// What a snapshot of this surface holds.
    pub open spec fn info(self) -> SurfaceInfo {
        SurfaceInfo {
            size: self.size(),
            id: self.id_spec(),
            context_id: self.context_id(),
            framebuffer_object: 0,
        }
    }

    /// The surface's identifier, derived from its native buffer.
    pub fn id(&self) -> (id: SurfaceID)
        ensures
            id == self.id_spec(),
            id.0 != 0,
    {
        proof {
            use_type_invariant(self);
        }
        derive_surface_id(&self.io_surface)
    }

    /// The identifier of the context that the surface was created for.
    pub fn owner(&self) -> (id: ContextID)
        ensures
            id == self.context_id(),
    {
        self.context_id
    }

    /// Whether the surface has been destroyed.
    pub fn is_destroyed(&self) -> (destroyed: bool)
        ensures
            destroyed == self.destroyed(),
    {
        self.destroyed
    }

    /// Publishes the surface's back buffer. A surface of this backend has a
    /// single buffer, so nothing changes.
    pub fn present(&mut self) -> (r: Result<(), Error>)
        ensures
            r is Ok,
            *final(self) == *old(self),
    {
        Ok(())
    }
}

/// Marking a surface destroyed changes nothing else about it, and marking it
/// twice is the same as marking it once.
pub proof fn lemma_marked_destroyed(surface: Surface)
    ensures
        surface.marked_destroyed().destroyed(),
        surface.marked_destroyed().context_id() == surface.context_id(),
        surface.marked_destroyed().native() == surface.native(),
        surface.marked_destroyed().size() == surface.size(),
        surface.marked_destroyed().access() == surface.access(),
        surface.marked_destroyed().wf() == surface.wf(),
        surface.marked_destroyed().marked_destroyed() == surface.marked_destroyed(),
        surface.destroyed() ==> surface.marked_destroyed() == surface,
{
}


/// The hold that a guard has on its surface: which surface is locked, and how
/// far its rows are apart. Only a successful lock makes one.
#[derive(Debug)]
pub struct SurfaceLock<'a> {
    surface: &'a Surface,
    stride: usize,
}

impl<'a> SurfaceLock<'a> {
    /// The surface that is locked.
    pub closed spec fn surface(self) -> Surface {
        *self.surface
    }

    /// The number of bytes from one row to the next.
    pub closed spec fn stride(self) -> usize {
        self.stride
    }
}

/// The CPU's view of a locked surface: the bytes that are mapped, and how far
/// the rows are apart.
///
/// While the guard lives the surface cannot be locked again or changed. The
/// guard ends with `release`, which names the buffer to unlock.
#[derive(Debug)]
pub struct SurfaceDataGuard<'a> {
    /// The hold on the surface.
    pub lock: SurfaceLock<'a>,
    /// The bytes that are mapped.
    pub data: &'a mut [u8],
}

impl<'a> SurfaceDataGuard<'a> {
    /// The surface that is locked.
    pub open spec fn surface(self) -> Surface {
        self.lock.surface()
    }

    /// The number of bytes from one row to the next.
    pub open spec fn stride_spec(self) -> usize {
        self.lock.stride()
    }

    /// The bytes that are mapped.
    pub open spec fn view(self) -> Seq<u8> {
        self.data@
    }

    /// The number of bytes from one row to the next.
    pub fn stride(&self) -> (stride: usize)
        ensures
            stride == self.stride_spec(),
    {
        self.lock.stride
    }

    /// The number of bytes that are mapped.
    pub fn len(&self) -> (len: usize)
        ensures
            len == self@.len(),
    {
        self.data.len()
    }

    /// The pixels of the surface, in BGRA, for reading and writing. What is
    /// written through the slice is what the guard holds afterwards, and what
    /// the mapped bytes hold when the guard is gone.
    pub fn data(&mut self) -> (data: &mut [u8])
        ensures
            data@ == old(self)@,
            final(self)@ == final(data)@,
            final(final(self).data)@ == final(old(self).data)@,
            final(self).lock == old(self).lock,
    {
        &mut *self.data
    }

    /// Ends the CPU's access and names the buffer that must be unlocked, once.
    /// The bytes stay as the guard leaves them.
    pub fn release(self) -> (native: NativeSurface)
        ensures
            native == self.surface().native(),
            !native.is_nil(),
            final(self.data)@ == self@,
    {
        proof {
            use_type_invariant(self.lock.surface);
        }
        self.lock.surface.io_surface
    }
}

/// What locking `surface` returns when the native lock ended with `status` and
/// mapped `bytes` in rows that are `stride` bytes apart: the reason for a
/// refusal, or a guard over all those bytes of that surface.
pub open spec fn locks(
    surface: Surface,
    status: i32,
    stride: usize,
    bytes: Seq<u8>,
    r: Result<SurfaceDataGuard, Error>,
) -> bool {
    match surface.lock_refusal(status) {
        Some(error) => r == Err::<SurfaceDataGuard, Error>(error),
        None => {
            &&& r matches Ok(guard)
            &&& guard.surface() == surface
            &&& guard@ == bytes
            &&& guard.stride_spec() == stride
        },
    }
}

/// The number of bytes that the pixels of a surface of `size` take.
pub open spec fn pixel_bytes(size: Size2D) -> int {
    size.width * size.height * BYTES_PER_PIXEL
}

/// Whether `len` mapped bytes are the rows that `properties` ask for and
/// nothing more.
pub open spec fn rows_as_asked(len: nat, properties: IOSurfaceProperties) -> bool {
    len == properties.bytes_per_row * properties.height
}

impl Surface {
    /// Why the CPU may not map this surface, if it may not: the access mode
    /// must let the CPU in, and the native lock must have succeeded.
    pub open spec fn lock_refusal(self, status: i32) -> Option<Error> {
        if !self.access().allows_cpu() {
            Some(Error::SurfaceDataInaccessible)
        } else if status != KERN_SUCCESS {
            Some(Error::SurfaceLockFailed)
        } else {
            None
        }
    }

    /// Names the buffer to lock natively before the CPU maps this surface.
    ///
    /// Fails with `SurfaceDataInaccessible`, and no lock may be attempted, when
    /// the surface's access mode keeps the CPU out.
    pub fn lock_request(&self) -> (r: Result<NativeSurface, Error>)
        ensures
            self.access().allows_cpu() ==> r == Ok::<NativeSurface, Error>(self.native()),
            !self.access().allows_cpu() ==> r == Err::<NativeSurface, Error>(
                Error::SurfaceDataInaccessible,
            ),
    {
        if !self.access.cpu_access_allowed() {
            return Err(Error::SurfaceDataInaccessible);
        }
        Ok(self.io_surface)
    }

    /// Gives the CPU a view of the surface's pixels, from what the native lock
    /// reported: its status, the distance between rows, and the mapped bytes.
    ///
    /// Fails with `SurfaceDataInaccessible` when the access mode keeps the CPU
    /// out, whatever the native stack said, and with `SurfaceLockFailed` when the
    /// native lock did not succeed. Otherwise the guard covers the whole mapped
    /// region, with the native row stride. The surface itself does not change.
    pub fn lock_data<'a>(&'a mut self, status: i32, stride: usize, data: &'a mut [u8]) -> (r:
        Result<SurfaceDataGuard<'a>, Error>)
        ensures
            *final(self) == *old(self),
            locks(*old(self), status, stride, old(data)@, r),
            match r {
                Ok(guard) => final(data)@ == final(guard.data)@,
                Err(_) => final(data)@ == old(data)@,
            },
    {
        if !self.access.cpu_access_allowed() {
            return Err(Error::SurfaceDataInaccessible);
        }
        if status != KERN_SUCCESS {
            return Err(Error::SurfaceLockFailed);
        }
        Ok(SurfaceDataGuard { lock: SurfaceLock { surface: &*self, stride }, data })
    }
}


/// A surface whose pixels the GPU samples as a texture.
///
/// This backend has no way to hand a buffer to the GPU as a texture, so it
/// never makes one.
#[derive(Debug)]
pub struct SurfaceTexture {
    surface: Surface,
    texture_object: u32,
}

impl SurfaceTexture {
    /// The surface behind the texture.
    pub closed spec fn surface(self) -> Surface {
        self.surface
    }

    /// The name of the texture object.
    pub closed spec fn texture_object(self) -> u32 {
        self.texture_object
    }
}

/// Why no buffer can be allocated for a surface of this type, if none can: a
/// widget surface is beyond this backend, and the rows of a generic one must be
/// measurable in bytes.
pub open spec fn type_refusal(surface_type: SurfaceType<NativeWidget>) -> Option<Error> {
    match surface_type {
        SurfaceType::Widget { .. } => Some(Error::UnsupportedOnThisPlatform),
        SurfaceType::Generic { size } => if row_bytes_fit(size) {
            None
        } else {
            Some(Error::Failed)
        },
    }
}

/// Why no surface is made of this type from the buffer `io_surface`, if none is.
pub open spec fn creation_refusal(
    surface_type: SurfaceType<NativeWidget>,
    io_surface: NativeSurface,
) -> Option<Error> {
    if type_refusal(surface_type) is Some {
        type_refusal(surface_type)
    } else if io_surface.is_nil() {
        Some(Error::Failed)
    } else {
        None
    }
}

impl Device {
    /// The properties to allocate the buffer of a surface with: the given size
    /// in 32-bit BGRA pixels, rows packed, cached as the access mode asks.
    ///
    /// Fails with `Failed` when a row of that width has more bytes than the
    /// properties can state.
    pub fn io_surface_properties(&self, size: &Size2D, access: SurfaceAccess) -> (r: Result<
        IOSurfaceProperties,
        Error,
    >)
        ensures
            row_bytes_fit(*size) ==> r == Ok::<IOSurfaceProperties, Error>(
                properties_for(*size, access),
            ),
            !row_bytes_fit(*size) ==> r == Err::<IOSurfaceProperties, Error>(Error::Failed),
    {
        let cache_mode = access.cache_mode();
        match size.width.checked_mul(BYTES_PER_PIXEL) {
            None => Err(Error::Failed),
            Some(bytes_per_row) => Ok(
                IOSurfaceProperties {
                    width: size.width,
                    height: size.height,
                    bytes_per_element: BYTES_PER_PIXEL,
                    bytes_per_row,
                    pixel_format: PIXEL_FORMAT_32_BGRA,
                    cache_mode,
                },
            ),
        }
    }

    /// The properties to allocate the buffer of a surface of the given type
    /// with, before the surface is created.
    ///
    /// Fails with `UnsupportedOnThisPlatform` for a widget surface, and with
    /// `Failed` for a generic one whose rows cannot be measured.
    pub fn surface_properties(
        &self,
        access: SurfaceAccess,
        surface_type: &SurfaceType<NativeWidget>,
    ) -> (r: Result<IOSurfaceProperties, Error>)
        ensures
            match type_refusal(*surface_type) {
                Some(error) => r == Err::<IOSurfaceProperties, Error>(error),
                None => r == Ok::<IOSurfaceProperties, Error>(
                    properties_for(surface_type->size, access),
                ),
            },
    {
        match surface_type {
            SurfaceType::Generic { size } => self.io_surface_properties(size, access),
            SurfaceType::Widget { .. } => Err(Error::UnsupportedOnThisPlatform),
        }
    }

    /// Creates a generic surface for `context` over the buffer `io_surface`,
    /// which the caller allocated with the properties that `surface_properties`
    /// gave.
    ///
    /// A widget surface is refused with `UnsupportedOnThisPlatform`. A generic
    /// one fails with `Failed` when its rows cannot be measured or when the
    /// allocation yielded no buffer.
    pub fn create_surface(
        &mut self,
        context: &Context,
        access: SurfaceAccess,
        surface_type: SurfaceType<NativeWidget>,
        io_surface: NativeSurface,
    ) -> (r: Result<Surface, Error>)
        ensures
            *final(self) == *old(self),
            match creation_refusal(surface_type, io_surface) {
                Some(error) => r == Err::<Surface, Error>(error),
                None => {
                    &&& r matches Ok(surface)
                    &&& surface.wf()
                    &&& surface.context_id() == context.id()
                    &&& surface.native() == io_surface
                    &&& surface.size() == surface_type->size
                    &&& surface.access() == access
                    &&& !surface.destroyed()
                },
            },
    {
        let size = match surface_type {
            SurfaceType::Generic { size } => size,
            SurfaceType::Widget { .. } => {
                return Err(Error::UnsupportedOnThisPlatform);
            },
        };
        if let Err(error) = self.io_surface_properties(&size, access) {
            return Err(error);
        }
        if io_surface.is_nil() {
            return Err(Error::Failed);
        }
        let context_id = self.context_id(context);
        Ok(Surface { context_id, io_surface, size, access, destroyed: false })
    }

    /// Marks a surface destroyed, after which its owner may let it go and the
    /// native buffer may be released. Destroying it again changes nothing.
    pub fn destroy_surface(&self, context: &Context, surface: &mut Surface) -> (r: Result<
        (),
        Error,
    >)
        ensures
            r is Ok,
            *final(surface) == old(surface).marked_destroyed(),
    {
        proof {
            use_type_invariant(&*surface);
        }
        surface.destroyed = true;
        Ok(())
    }

    /// The texture target through which a surface texture is sampled.
    pub fn surface_gl_texture_target(&self) -> (target: u32)
        ensures
            target == SURFACE_GL_TEXTURE_TARGET,
    {
        SURFACE_GL_TEXTURE_TARGET
    }

    /// The texture object that holds the contents of a surface texture.
    pub fn surface_texture_object(&self, surface_texture: &SurfaceTexture) -> (object: u32)
        ensures
            object == surface_texture.texture_object(),
    {
        surface_texture.texture_object
    }

    /// Shows the contents of a surface. Surfaces of this backend have a single
    /// buffer, so there is nothing to publish.
    pub fn present_surface(&self, context: &Context, surface: &mut Surface) -> (r: Result<
        (),
        Error,
    >)
        ensures
            r is Ok,
            *final(surface) == *old(surface),
    {
        surface.present()
    }

    /// Asks for a surface to have the given size.
    ///
    /// A surface keeps the size it was created with: the call succeeds for every
    /// size and changes nothing, so the surface never reports a size that its
    /// buffer does not have. For another size the caller must destroy the
    /// surface and create another.
    pub fn resize_surface(&self, context: &Context, surface: &mut Surface, size: Size2D) -> (r:
        Result<(), Error>)
        ensures
            r == Ok::<(), Error>(()),
            *final(surface) == *old(surface),
    {
        Ok(())
    }

    /// Gives the CPU a view of a surface's pixels, from what the native lock
    /// reported: its status, the distance between rows, and the mapped bytes.
    ///
    /// Fails with `SurfaceDataInaccessible` when the access mode keeps the CPU
    /// out and with `SurfaceLockFailed` when the native lock did not succeed.
    pub fn lock_surface_data<'s>(
        &self,
        surface: &'s mut Surface,
        status: i32,
        stride: usize,
        data: &'s mut [u8],
    ) -> (r: Result<SurfaceDataGuard<'s>, Error>)
        ensures
            *final(surface) == *old(surface),
            locks(*old(surface), status, stride, old(data)@, r),
            match r {
                Ok(guard) => final(data)@ == final(guard.data)@,
                Err(_) => final(data)@ == old(data)@,
            },
    {
        surface.lock_data(status, stride, data)
    }

    /// A snapshot of a surface: its size, its identifier, its context, and the
    /// default framebuffer object.
    pub fn surface_info(&self, surface: &Surface) -> (info: SurfaceInfo)
        ensures
            info == surface.info(),
    {
        SurfaceInfo {
            size: surface.size,
            id: surface.id(),
            context_id: surface.context_id,
            framebuffer_object: 0,
        }
    }

    /// Names the native buffer of a surface. The surface keeps it.
    pub fn native_surface(&self, surface: &Surface) -> (native: NativeSurface)
        ensures
            native == surface.native(),
            !native.is_nil(),
    {
        proof {
            use_type_invariant(surface);
        }
        surface.io_surface
    }

    /// Turns a surface into a texture. This backend cannot, and hands the
    /// surface back with `UnsupportedOnThisPlatform`.
    pub fn create_surface_texture(&self, context: &mut Context, surface: Surface) -> (r: Result<
        SurfaceTexture,
        (Error, Surface),
    >)
        ensures
            *final(context) == *old(context),
            r == Err::<SurfaceTexture, (Error, Surface)>(
                (Error::UnsupportedOnThisPlatform, surface),
            ),
    {
        Err((Error::UnsupportedOnThisPlatform, surface))
    }

    /// Turns a texture back into its surface. This backend cannot, and hands
    /// the texture back with `UnsupportedOnThisPlatform`.
    pub fn destroy_surface_texture(
        &self,
        context: &mut Context,
        surface_texture: SurfaceTexture,
    ) -> (r: Result<Surface, (Error, SurfaceTexture)>)
        ensures
            *final(context) == *old(context),
            r == Err::<Surface, (Error, SurfaceTexture)>(
                (Error::UnsupportedOnThisPlatform, surface_texture),
            ),
    {
        Err((Error::UnsupportedOnThisPlatform, surface_texture))
    }
}


/// A surface that the CPU may map, locked natively with success, yields a guard.
/// Where the mapped bytes are the rows that its buffer was asked to have and
/// nothing more, the guard covers four bytes for each pixel of the surface; and
/// where the rows are as far apart as asked, that is four bytes per pixel.
pub proof fn lemma_lock_covers_pixels(
    surface: Surface,
    status: i32,
    stride: usize,
    bytes: Seq<u8>,
    r: Result<SurfaceDataGuard, Error>,
)
    requires
        surface.wf(),
        surface.access().allows_cpu(),
        status == KERN_SUCCESS,
        locks(surface, status, stride, bytes, r),
    ensures
        r is Ok,
        rows_as_asked(bytes.len(), properties_for(surface.size(), surface.access()))
            ==> r->Ok_0@.len() == pixel_bytes(surface.size()),
        stride == properties_for(surface.size(), surface.access()).bytes_per_row
            ==> r->Ok_0.stride_spec() == surface.size().width * BYTES_PER_PIXEL,
{
    let size = surface.size();
    assert(size.width * BYTES_PER_PIXEL * size.height == size.width * size.height
        * BYTES_PER_PIXEL) by (nonlinear_arith);
}

/// A surface that only the GPU may touch is never mapped, whatever the native
/// stack reports: locking it fails with `SurfaceDataInaccessible`.
pub proof fn lemma_gpu_only_never_locks(
    surface: Surface,
    status: i32,
    stride: usize,
    bytes: Seq<u8>,
    r: Result<SurfaceDataGuard, Error>,
)
    requires
        surface.access() == SurfaceAccess::GPUOnly,
        locks(surface, status, stride, bytes, r),
    ensures
        r == Err::<SurfaceDataGuard, Error>(Error::SurfaceDataInaccessible),
{
}

} // verus!
