//! Contexts: their creation, their render target, and which one is current.

use vstd::prelude::*;

use crate::attributes::ContextAttributes;
use crate::context_id::{ContextID, ContextIdAllocator};
use crate::device::Device;
use crate::error::Error;
use crate::framebuffer::Framebuffer;
use crate::info::GLVersion;
use crate::probe::VersionProbe;
use crate::surface::{lemma_marked_destroyed, Surface, SurfaceInfo};

verus! {

/// The lowest API level that the platform offers.
pub const RENDERING_API_OPENGLES1: u8 = 1;

/// The highest API level that the platform offers.
pub const RENDERING_API_OPENGLES3: u8 = 3;

/// A native context that was made elsewhere, named by its address.
///
/// Address zero names no context.
#[derive(Clone, Copy, Debug, PartialEq, Eq, Structural)]
pub struct NativeContext {
    /// The address of the native context.
    pub handle: usize,
    /// Whether the context renders to a target of its maker's.
    pub has_render_target: bool,
}

/// What a context is created from: a GL version and the requested attributes.
#[derive(Clone, Copy, Debug)]
pub struct ContextDescriptor {
    gl_version: GLVersion,
    attribs: ContextAttributes,
}

impl ContextDescriptor {
    /// The GL version that the descriptor asks for.
    pub closed spec fn gl_version(self) -> GLVersion {
        self.gl_version
    }

    /// The attributes that the descriptor was made from.
    pub closed spec fn attribs(self) -> ContextAttributes {
        self.attribs
    }

    /// The GL version that the descriptor asks for.
    pub fn version(&self) -> (version: GLVersion)
        ensures
            version == self.gl_version(),
    {
        self.gl_version
    }
}

/// The version that a context reports when it was asked for `requested` and
/// obtained at API level `level`: the requested one at its own level, and the
/// first version of the level below otherwise.
pub open spec fn obtained_version(requested: GLVersion, level: u8) -> GLVersion {
    if level == requested.major {
        requested
    } else {
        GLVersion { major: level, minor: 0 }
    }
}

/// A rendering context: a native context, and at most one render target.
#[derive(Debug)]
pub struct Context {
    id: ContextID,
    eagl_context: usize,
    gl_version: GLVersion,
    framebuffer: Framebuffer<Surface, ()>,
}

impl Context {
    /// A surface that is attached to a context was created for that context.
    #[verifier::type_invariant]
    pub closed spec fn wf(self) -> bool {
        self.framebuffer matches Framebuffer::Surface(surface) ==> surface.wf()
            && surface.context_id() == self.id
    }

    /// The context's identifier.
    pub closed spec fn id(self) -> ContextID {
        self.id
    }

    /// The address of the native context, zero once the context is destroyed.
    pub closed spec fn native(self) -> usize {
        self.eagl_context
    }

    /// The GL version that the context reports.
    pub closed spec fn gl_version(self) -> GLVersion {
        self.gl_version
    }

    /// The context's render target.
    pub closed spec fn framebuffer(self) -> Framebuffer<Surface, ()> {
        self.framebuffer
    }

    /// Both are the same context, whatever each renders to: same identifier,
    /// same native context, same version.
    pub open spec fn same_context(self, other: Context) -> bool {
        &&& self.id() == other.id()
        &&& self.native() == other.native()
        &&& self.gl_version() == other.gl_version()
    }

    /// Builds the context that a version search ended with.
    ///
    /// Fails with `Failed` when the search found no native context. Otherwise
    /// the context takes the next identifier, owns the native context that was
    /// found, reports the version that was obtained, and renders to nothing.
    pub fn create_context(
        ids: &mut ContextIdAllocator,
        probe: &VersionProbe,
        descriptor: &ContextDescriptor,
    ) -> (r: Result<Context, Error>)
        requires
            !old(ids).exhausted(),
        ensures
            match probe.obtained() {
                Some(level) => {
                    &&& r matches Ok(context)
                    &&& context.wf()
                    &&& context.id() == old(ids).next_id()
                    &&& context.native() == probe.found()
                    &&& context.gl_version() == obtained_version(descriptor.gl_version(), level)
                    &&& context.framebuffer() is Unbound
                    &&& final(ids)@ == old(ids)@.insert(context.id())
                    &&& final(ids).next_id().0 == context.id().0 + 1
                },
                None => r == Err::<Context, Error>(Error::Failed) && *final(ids) == *old(ids),
            },
    {
        match probe.obtained_level() {
            None => Err(Error::Failed),
            Some(level) => {
                let gl_version = if level == descriptor.gl_version.major {
                    descriptor.gl_version
                } else {
                    GLVersion::new(level, 0)
                };
                let id = ids.allocate_context_id();
                Ok(
                    Context {
                        id,
                        eagl_context: probe.valid_context(),
                        gl_version,
                        framebuffer: Framebuffer::Unbound,
                    },
                )
            },
        }
    }
}

/// Which context is current: the one that GPU commands are issued against.
///
/// The platform keeps this for the whole process. The token stands for that
/// state, so that whoever switches contexts holds it and nobody switches
/// unseen.
#[derive(Debug)]
pub struct CurrentContext {
    current: Option<ContextID>,
}

impl CurrentContext {
    /// The identifier of the current context, if there is one.
    pub closed spec fn view(self) -> Option<ContextID> {
        self.current
    }

    /// The state of a process in which no context is current.
    pub fn new() -> (token: CurrentContext)
        ensures
            token@ is None,
    {
        CurrentContext { current: None }
    }

    /// The identifier of the current context, if there is one.
    pub fn current(&self) -> (id: Option<ContextID>)
        ensures
            id == self@,
    {
        self.current
    }
}

impl Context {
    /// Whether the context is destroyed: it has no native context any more.
    pub open spec fn destroyed(self) -> bool {
        self.native() == 0
    }

    /// Makes this context the current one, given whether the native switch to
    /// it was accepted.
    ///
    /// Fails with `Failed`, and leaves current what was, when the switch was
    /// rejected or the context is destroyed.
    pub fn make_current(&self, current: &mut CurrentContext, accepted: bool) -> (r: Result<
        (),
        Error,
    >)
        ensures
            accepted && !self.destroyed() ==> r is Ok && final(current)@ == Some(self.id()),
            !(accepted && !self.destroyed()) ==> r == Err::<(), Error>(Error::Failed)
                && *final(current) == *old(current),
    {
        if accepted && self.eagl_context != 0 {
            current.current = Some(self.id);
            Ok(())
        } else {
            Err(Error::Failed)
        }
    }

    /// Makes no context current, given whether the native switch was accepted.
    ///
    /// With nothing current there is nothing to clear, and the call succeeds
    /// whatever the native stack said. Otherwise it fails with `Failed`, and
    /// leaves current what was, when the switch was rejected.
    pub fn make_no_context_current(current: &mut CurrentContext, accepted: bool) -> (r: Result<
        (),
        Error,
    >)
        ensures
            old(current)@ is None || accepted ==> r is Ok && final(current)@ is None,
            old(current)@ is Some && !accepted ==> r == Err::<(), Error>(Error::Failed)
                && *final(current) == *old(current),
    {
        if current.current.is_none() {
            Ok(())
        } else if accepted {
            current.current = None;
            Ok(())
        } else {
            Err(Error::Failed)
        }
    }

    /// Why `surface` cannot be attached to this context, if it cannot: the
    /// context must render to nothing, and the surface must be its own.
    pub open spec fn bind_refusal(self, surface: Surface) -> Option<Error> {
        match self.framebuffer() {
            Framebuffer::External(_) => Some(Error::ExternalRenderTarget),
            Framebuffer::Surface(_) => Some(Error::SurfaceAlreadyBound),
            Framebuffer::Unbound => if surface.context_id() != self.id() {
                Some(Error::IncompatibleSurface)
            } else {
                None
            },
        }
    }
}

/// What attaching `surface` to a context does: `before` and `after` are the
/// context around the call, and `r` is what the call returns.
///
/// A refused surface comes back with the reason and the context is as it was.
/// An accepted one becomes the render target of the same context.
pub open spec fn binds(
    before: Context,
    surface: Surface,
    after: Context,
    r: Result<(), (Error, Surface)>,
) -> bool {
    match before.bind_refusal(surface) {
        Some(error) => r == Err::<(), (Error, Surface)>((error, surface)) && after == before,
        None => {
            &&& r is Ok
            &&& after.framebuffer() == Framebuffer::<Surface, ()>::Surface(surface)
            &&& after.same_context(before)
        },
    }
}

/// What detaching the render target of a context does: `before` and `after` are
/// the context around the call, and `r` is what the call returns.
///
/// An attached surface comes back and the same context renders to nothing; it
/// is a surface of that context, so it can be attached again. With nothing
/// attached nothing changes. A target from elsewhere is never detached.
pub open spec fn unbinds(
    before: Context,
    after: Context,
    r: Result<Option<Surface>, Error>,
) -> bool {
    match before.framebuffer() {
        Framebuffer::External(_) => r == Err::<Option<Surface>, Error>(
            Error::ExternalRenderTarget,
        ) && after == before,
        Framebuffer::Unbound => r == Ok::<Option<Surface>, Error>(None) && after == before,
        Framebuffer::Surface(surface) => {
            &&& r == Ok::<Option<Surface>, Error>(Some(surface))
            &&& surface.context_id() == before.id()
            &&& after.framebuffer() is Unbound
            &&& after.same_context(before)
        },
    }
}

/// Whether the platform offers the API level `version`: only 1, 2 and 3 are.
pub open spec fn offered(version: u8) -> bool {
    RENDERING_API_OPENGLES1 <= version <= RENDERING_API_OPENGLES3
}

/// Whether no context is made from `descriptor` with the outcome of `probe`:
/// the version must be one that the platform offers, the search must have
/// started from it, and it must have found a native context.
pub open spec fn context_refusal(descriptor: ContextDescriptor, probe: VersionProbe) -> bool {
    ||| !offered(descriptor.gl_version().major)
    ||| probe.requested() != descriptor.gl_version().major
    ||| probe.obtained() is None
}

impl Device {
    /// Describes the context that `attributes` ask for. Nothing native is
    /// touched, and every set of attributes is accepted.
    pub fn create_context_descriptor(&self, attributes: &ContextAttributes) -> (r: Result<
        ContextDescriptor,
        Error,
    >)
        ensures
            r matches Ok(descriptor) && descriptor.gl_version() == attributes.version
                && descriptor.attribs() == *attributes,
    {
        Ok(ContextDescriptor { gl_version: attributes.version, attribs: *attributes })
    }

    /// Starts the search for a native context for `descriptor`.
    ///
    /// Fails with `Failed` when the descriptor asks for a version that the
    /// platform does not offer: only 1, 2 and 3 are API levels.
    pub fn start_context_probe(&self, descriptor: &ContextDescriptor) -> (r: Result<
        VersionProbe,
        Error,
    >)
        ensures
            offered(descriptor.gl_version().major) ==> {
                &&& r == Ok::<VersionProbe, Error>(
                    VersionProbe::started(descriptor.gl_version().major),
                )
                &&& r->Ok_0.wf()
                &&& r->Ok_0.requested() == descriptor.gl_version().major
                &&& r->Ok_0.pending_spec() == Some(descriptor.gl_version().major)
                &&& r->Ok_0.obtained() is None
            },
            !offered(descriptor.gl_version().major) ==> r == Err::<VersionProbe, Error>(
                Error::Failed,
            ),
    {
        let version = descriptor.gl_version.major;
        if version >= RENDERING_API_OPENGLES1 && version <= RENDERING_API_OPENGLES3 {
            Ok(VersionProbe::new(version))
        } else {
            Err(Error::Failed)
        }
    }

    /// Creates a context for `descriptor` from the outcome of the search that
    /// `start_context_probe` began.
    ///
    /// Fails with `Failed`, and issues no identifier, when the version is none
    /// that the platform offers, when the search was begun for another version,
    /// and when it found no native context. This backend shares nothing between
    /// contexts: `share_with` is accepted and has no effect.
    pub fn create_context(
        &self,
        ids: &mut ContextIdAllocator,
        descriptor: &ContextDescriptor,
        share_with: Option<&Context>,
        probe: &VersionProbe,
    ) -> (r: Result<Context, Error>)
        requires
            !old(ids).exhausted(),
        ensures
            context_refusal(*descriptor, *probe) ==> r == Err::<Context, Error>(Error::Failed)
                && *final(ids) == *old(ids),
            !context_refusal(*descriptor, *probe) ==> {
                &&& r matches Ok(context)
                &&& context.wf()
                &&& context.id() == old(ids).next_id()
                &&& context.native() == probe.found()
                &&& context.gl_version() == obtained_version(
                    descriptor.gl_version(),
                    probe.obtained()->0,
                )
                &&& context.framebuffer() is Unbound
                &&& final(ids)@ == old(ids)@.insert(context.id())
                &&& final(ids).next_id().0 == context.id().0 + 1
            },
    {
        let version = descriptor.gl_version.major;
        if version >= RENDERING_API_OPENGLES1 && version <= RENDERING_API_OPENGLES3
            && probe.requested_level() == version {
            Context::create_context(ids, probe, descriptor)
        } else {
            Err(Error::Failed)
        }
    }

    /// Wraps a native context that was made elsewhere. The new context owns it,
    /// takes the next identifier and reports version 0.0. It renders to its
    /// maker's target where the native context has one, and to nothing
    /// otherwise.
    ///
    /// Fails with `Failed`, and issues no identifier, when `native_context`
    /// names no context.
    pub fn create_context_from_native_context(
        &self,
        ids: &mut ContextIdAllocator,
        native_context: NativeContext,
    ) -> (r: Result<Context, Error>)
        requires
            !old(ids).exhausted(),
        ensures
            native_context.handle == 0 ==> r == Err::<Context, Error>(Error::Failed)
                && *final(ids) == *old(ids),
            native_context.handle != 0 ==> {
                &&& r matches Ok(context)
                &&& context.wf()
                &&& context.id() == old(ids).next_id()
                &&& context.native() == native_context.handle
                &&& context.gl_version() == ContextAttributes::zeroed().version
                &&& context.framebuffer() == if native_context.has_render_target {
                    Framebuffer::<Surface, ()>::External(())
                } else {
                    Framebuffer::<Surface, ()>::Unbound
                }
                &&& final(ids)@ == old(ids)@.insert(context.id())
                &&& final(ids).next_id().0 == context.id().0 + 1
            },
    {
        if native_context.handle == 0 {
            return Err(Error::Failed);
        }
        let attribs = ContextAttributes::zeroed();
        let framebuffer = if native_context.has_render_target {
            Framebuffer::External(())
        } else {
            Framebuffer::Unbound
        };
        let id = ids.allocate_context_id();
        Ok(
            Context {
                id,
                eagl_context: native_context.handle,
                gl_version: attribs.version,
                framebuffer,
            },
        )
    }

    /// Destroys a context: it gives up its native context, which the caller
    /// releases, and renders to nothing any more.
    ///
    /// A surface that is still attached is detached, marked destroyed and
    /// handed back, for its buffer to be released: it is the surface of this
    /// context that was attached, with nothing but the mark changed. Destroying
    /// a context again changes nothing.
    pub fn destroy_context(&self, context: &mut Context) -> (r: Result<Option<Surface>, Error>)
        ensures
            final(context).id() == old(context).id(),
            final(context).gl_version() == old(context).gl_version(),
            final(context).destroyed(),
            final(context).framebuffer() is Unbound,
            match old(context).framebuffer() {
                Framebuffer::Surface(surface) => {
                    &&& r == Ok::<Option<Surface>, Error>(Some(surface.marked_destroyed()))
                    &&& surface.context_id() == old(context).id()
                    &&& r->Ok_0->0.destroyed()
                    &&& r->Ok_0->0.context_id() == old(context).id()
                    &&& r->Ok_0->0.info() == surface.info()
                    &&& r->Ok_0->0.access() == surface.access()
                },
                _ => r == Ok::<Option<Surface>, Error>(None),
            },
    {
        proof {
            use_type_invariant(&*context);
        }
        let mut framebuffer = Framebuffer::Unbound;
        core::mem::swap(&mut context.framebuffer, &mut framebuffer);
        context.eagl_context = 0;
        match framebuffer {
            Framebuffer::Surface(mut surface) => {
                proof {
                    lemma_marked_destroyed(surface);
                }
                match self.destroy_surface(context, &mut surface) {
                    Ok(()) => Ok(Some(surface)),
                    Err(error) => Err(error),
                }
            },
            _ => Ok(None),
        }
    }

    /// The descriptor of a context: the version that it reports, and
    /// attributes that ask for nothing.
    pub fn context_descriptor(&self, context: &Context) -> (descriptor: ContextDescriptor)
        ensures
            descriptor.gl_version() == context.gl_version(),
            descriptor.attribs() == ContextAttributes::zeroed(),
    {
        ContextDescriptor { gl_version: context.gl_version, attribs: ContextAttributes::zeroed() }
    }

    /// The attributes that a descriptor was made from.
    pub fn context_descriptor_attributes(
        &self,
        context_descriptor: &ContextDescriptor,
    ) -> (attributes: ContextAttributes)
        ensures
            attributes == context_descriptor.attribs(),
    {
        context_descriptor.attribs
    }

    /// Makes `context` the current one, given whether the native switch to it
    /// was accepted.
    ///
    /// Fails with `Failed`, and leaves current what was, when the switch was
    /// rejected or the context is destroyed.
    pub fn make_context_current(
        &self,
        context: &Context,
        current: &mut CurrentContext,
        accepted: bool,
    ) -> (r: Result<(), Error>)
        ensures
            accepted && !context.destroyed() ==> r is Ok && final(current)@ == Some(context.id()),
            !(accepted && !context.destroyed()) ==> r == Err::<(), Error>(Error::Failed)
                && *final(current) == *old(current),
    {
        context.make_current(current, accepted)
    }

    /// Makes no context current, given whether the native switch was accepted.
    ///
    /// With nothing current the call succeeds whatever the native stack said.
    /// Otherwise it fails with `Failed`, and leaves current what was, when the
    /// switch was rejected.
    pub fn make_no_context_current(&self, current: &mut CurrentContext, accepted: bool) -> (r:
        Result<(), Error>)
        ensures
            old(current)@ is None || accepted ==> r is Ok && final(current)@ is None,
            old(current)@ is Some && !accepted ==> r == Err::<(), Error>(Error::Failed)
                && *final(current) == *old(current),
    {
        Context::make_no_context_current(current, accepted)
    }

    /// Attaches a surface to a context as its render target.
    ///
    /// The context must render to nothing and the surface must have been
    /// created for it. A refused surface is handed back with the reason:
    /// `ExternalRenderTarget` or `SurfaceAlreadyBound` for what the context
    /// renders to, else `IncompatibleSurface`.
    pub fn bind_surface_to_context(&self, context: &mut Context, new_surface: Surface) -> (r:
        Result<(), (Error, Surface)>)
        ensures
            binds(*old(context), new_surface, *final(context), r),
    {
        proof {
            use_type_invariant(&*context);
            use_type_invariant(&new_surface);
        }
        match context.framebuffer {
            Framebuffer::External(_) => {
                return Err((Error::ExternalRenderTarget, new_surface));
            },
            Framebuffer::Surface(_) => {
                return Err((Error::SurfaceAlreadyBound, new_surface));
            },
            Framebuffer::Unbound => {},
        }
        if new_surface.owner() != context.id {
            return Err((Error::IncompatibleSurface, new_surface));
        }
        context.framebuffer = Framebuffer::Surface(new_surface);
        Ok(())
    }

    /// Detaches the surface that a context renders to and hands it back, or
    /// `None` where the context renders to nothing.
    ///
    /// Fails with `ExternalRenderTarget`, and changes nothing, where the context
    /// renders to a target from elsewhere.
    pub fn unbind_surface_from_context(&self, context: &mut Context) -> (r: Result<
        Option<Surface>,
        Error,
    >)
        ensures
            unbinds(*old(context), *final(context), r),
    {
        proof {
            use_type_invariant(&*context);
        }
        match context.framebuffer {
            Framebuffer::External(_) => {
                return Err(Error::ExternalRenderTarget);
            },
            Framebuffer::Unbound | Framebuffer::Surface(_) => {},
        }
        let mut framebuffer = Framebuffer::Unbound;
        core::mem::swap(&mut context.framebuffer, &mut framebuffer);
        match framebuffer {
            Framebuffer::External(_) => vstd::pervasive::unreached(),
            Framebuffer::Unbound => Ok(None),
            Framebuffer::Surface(surface) => Ok(Some(surface)),
        }
    }

    /// The identifier of a context.
    ///
    /// No two contexts that are alive at once share it, but a later context may
    /// get the number of one that is gone.
    pub fn context_id(&self, context: &Context) -> (id: ContextID)
        ensures
            id == context.id(),
    {
        context.id
    }

    /// A snapshot of the surface that a context renders to, or `None` where it
    /// renders to nothing.
    ///
    /// Fails with `ExternalRenderTarget` where the context renders to a target
    /// from elsewhere.
    pub fn context_surface_info(&self, context: &Context) -> (r: Result<
        Option<SurfaceInfo>,
        Error,
    >)
        ensures
            match context.framebuffer() {
                Framebuffer::Unbound => r == Ok::<Option<SurfaceInfo>, Error>(None),
                Framebuffer::External(_) => r == Err::<Option<SurfaceInfo>, Error>(
                    Error::ExternalRenderTarget,
                ),
                Framebuffer::Surface(surface) => r == Ok::<Option<SurfaceInfo>, Error>(
                    Some(surface.info()),
                ) && surface.context_id() == context.id(),
            },
    {
        proof {
            use_type_invariant(context);
        }
        match context.framebuffer {
            Framebuffer::Unbound => Ok(None),
            Framebuffer::External(_) => Err(Error::ExternalRenderTarget),
            Framebuffer::Surface(ref surface) => Ok(Some(self.surface_info(surface))),
        }
    }

    /// Names the native context of a context, and whether it renders to a
    /// target from elsewhere. The context keeps both.
    pub fn native_context(&self, context: &Context) -> (native: NativeContext)
        ensures
            native.handle == context.native(),
            native.has_render_target == (context.framebuffer() is External),
    {
        let has_render_target = match context.framebuffer {
            Framebuffer::External(_) => true,
            _ => false,
        };
        NativeContext { handle: context.eagl_context, has_render_target }
    }
}

/// A surface that was created for one context is refused by every other
/// context that renders to nothing: the call fails with `IncompatibleSurface`,
/// hands the surface back and leaves the context as it was.
pub proof fn lemma_foreign_surface_refused(
    owner: Context,
    other: Context,
    surface: Surface,
    after: Context,
    r: Result<(), (Error, Surface)>,
)
    requires
        surface.context_id() == owner.id(),
        other.id() != owner.id(),
        other.framebuffer() is Unbound,
        binds(other, surface, after, r),
    ensures
        r == Err::<(), (Error, Surface)>((Error::IncompatibleSurface, surface)),
        after == other,
{
}

/// Attaching a surface and detaching it again hands back the very surface that
/// went in, and leaves the context as it was before: rendering to nothing.
pub proof fn lemma_bind_then_unbind(
    before: Context,
    surface: Surface,
    bound: Context,
    bind_result: Result<(), (Error, Surface)>,
    after: Context,
    unbind_result: Result<Option<Surface>, Error>,
)
    requires
        binds(before, surface, bound, bind_result),
        bind_result is Ok,
        unbinds(bound, after, unbind_result),
    ensures
        unbind_result == Ok::<Option<Surface>, Error>(Some(surface)),
        unbind_result->Ok_0->0.id_spec() == surface.id_spec(),
        after.framebuffer() is Unbound,
        after == before,
{
}

/// A surface that a context hands back is one of its own, and the context then
/// renders to nothing: the surface can be attached to it again.
pub proof fn lemma_unbound_surface_rebinds(
    before: Context,
    after: Context,
    r: Result<Option<Surface>, Error>,
)
    requires
        unbinds(before, after, r),
        r matches Ok(Some(_)),
    ensures
        r->Ok_0->0.context_id() == after.id(),
        after.bind_refusal(r->Ok_0->0) is None,
{
}

/// Attaching a second surface to a context that already has one fails with
/// `SurfaceAlreadyBound`, hands the second surface back, and leaves the first
/// one attached.
pub proof fn lemma_double_bind(
    before: Context,
    first: Surface,
    bound: Context,
    first_result: Result<(), (Error, Surface)>,
    second: Surface,
    after: Context,
    second_result: Result<(), (Error, Surface)>,
)
    requires
        binds(before, first, bound, first_result),
        first_result is Ok,
        binds(bound, second, after, second_result),
    ensures
        second_result == Err::<(), (Error, Surface)>((Error::SurfaceAlreadyBound, second)),
        after == bound,
        after.framebuffer() == Framebuffer::<Surface, ()>::Surface(first),
{
}

/// Whether a surface is accepted or refused, the context stays the same context
/// and keeps its invariant, and a surface that it accepts is one that was
/// created for it.
pub proof fn lemma_binding_keeps_context(
    before: Context,
    surface: Surface,
    after: Context,
    r: Result<(), (Error, Surface)>,
)
    requires
        before.wf(),
        surface.wf(),
        binds(before, surface, after, r),
    ensures
        after.same_context(before),
        after.wf(),
        r is Ok ==> surface.context_id() == before.id(),
{
}

} // verus!
