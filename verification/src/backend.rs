//! One concrete rendering backend: a device with its driver state, and
//! the contexts, descriptors and surfaces it manages.
//!
//! The hardware and the software arm of the dispatcher expose exactly
//! this shape; the dispatcher's tagged wrappers keep values of the two
//! arms from ever being mixed.

use vstd::prelude::*;
use vstd::pervasive::unreached;
use crate::context::{spec_current_handle, NativeGLContext, GLES_CONFIG};
use crate::egl::{supported_version, CurrentSlot, Egl, NO_CONTEXT, NO_SURFACE};
use crate::resolver::GlLibrary;
use crate::{ContextAttributes, ContextID, Error, GLVersion};

verus! {

/// The off-screen buffer edge backing every context of this backend.
pub const DUMMY_SURFACE_SIZE: i32 = 16;

/// An opaque, cloneable description of a config: portable across context
/// creations, but not across device variants.
#[derive(Clone, Copy, Debug, PartialEq, Eq, Structural)]
pub struct ContextDescriptor {
    attributes: ContextAttributes,
}

impl ContextDescriptor {
    /// The attributes this descriptor was created from.
    pub closed spec fn attributes(self) -> ContextAttributes {
        self.attributes
    }
}

/// An off-screen render target.  A surface is owned by at most one
/// context at a time: binding transfers ownership into the context and
/// unbinding returns it to the caller.
#[derive(Debug, PartialEq, Eq, Structural)]
pub struct Surface {
    id: u64,
    width: i32,
    height: i32,
}

impl Surface {
    /// The surface's native id.
    pub closed spec fn id(self) -> u64 {
        self.id
    }

    /// The surface's width in pixels.
    pub closed spec fn spec_width(self) -> i32 {
        self.width
    }

    /// The surface's height in pixels.
    pub closed spec fn spec_height(self) -> i32 {
        self.height
    }

    /// The surface's native id: surfaces are compared by identity.
    pub fn surface_id(&self) -> (r: u64)
        ensures
            r == self.id(),
    {
        self.id
    }

    /// The surface's size in pixels.
    pub fn size(&self) -> (r: (i32, i32))
        ensures
            r.0 == self.spec_width(),
            r.1 == self.spec_height(),
    {
        (self.width, self.height)
    }
}

/// One rendering context of this backend: its native context, its stable
/// id within the device, the attributes it was created with, and the
/// surface currently bound to it, if any.
pub struct Context {
    native: NativeGLContext,
    id: u64,
    attributes: ContextAttributes,
    surface: Option<Surface>,
}

impl Context {
    /// The native context underneath.
    pub closed spec fn native(self) -> NativeGLContext {
        self.native
    }

    /// The context's stable id within its device.
    pub closed spec fn id(self) -> u64 {
        self.id
    }

    /// The attributes the context was created with.
    pub closed spec fn attributes(self) -> ContextAttributes {
        self.attributes
    }

    /// The surface bound to this context, if any.
    pub closed spec fn bound_surface(self) -> Option<Surface> {
        self.surface
    }

    /// A context is valid when it stands for a real native context.
    pub open spec fn valid(self) -> bool {
        self.native().context_id() != NO_CONTEXT
    }
}

/// One logical rendering backend: the platform API state it drives, the
/// implementation library its entry points come from, the display it
/// opened, and the counter its context ids are drawn from.
pub struct Device {
    egl: Egl,
    lib: GlLibrary,
    display: u64,
    next_context_id: u64,
}

/// What a successful context creation changes: the fresh context carries
/// the descriptor's attributes, no bound surface, the next stable id,
/// and a fresh native context against a fresh off-screen buffer; the
/// thread's current slot is untouched, so the fresh context is not
/// current.
pub open spec fn create_context_post(
    pre: Device,
    post: Device,
    descriptor: ContextDescriptor,
    c: Context,
) -> bool {
    &&& c.valid()
    &&& !c.native().is_weak()
    &&& c.attributes() == descriptor.attributes()
    &&& c.bound_surface() is None
    &&& c.id() == pre.context_id_bound()
    &&& c.native().display_id() == pre.display_id()
    &&& post.context_id_bound() == pre.context_id_bound() + 1
    &&& !pre.egl().live_contexts().contains(c.native().context_id())
    &&& post.egl().live_contexts() == pre.egl().live_contexts().insert(c.native().context_id())
    &&& !pre.egl().live_surfaces().contains(c.native().surface_id())
    &&& post.egl().live_surfaces() == pre.egl().live_surfaces().insert(c.native().surface_id())
    &&& post.egl().current_slot() == pre.egl().current_slot()
    &&& post.egl().current_context_id() != c.native().context_id()
    &&& post.egl().live_displays() == pre.egl().live_displays()
    &&& post.egl().live_devices() == pre.egl().live_devices()
    &&& post.egl().same_config(pre.egl())
    &&& post.display_id() == pre.display_id()
    &&& post.lib() == pre.lib()
    &&& post.wf()
}

/// What destroying a context changes: the context gives up its bound
/// surface, which — being owned by it — is dropped and destroyed with
/// it.  An owning context then takes its native surface and native
/// context out of the live sets, clearing the thread's slot exactly if
/// it held it; a weak context releases no native resource and leaves the
/// slot alone.
pub open spec fn destroy_context_post(
    pre: Device,
    post: Device,
    c_pre: Context,
    c_post: Context,
) -> bool {
    let surfaces_less_bound = match c_pre.bound_surface() {
        Some(s) => pre.egl().live_surfaces().remove(s.id()),
        None => pre.egl().live_surfaces(),
    };
    &&& c_post.native() == c_pre.native()
    &&& c_post.id() == c_pre.id()
    &&& c_post.attributes() == c_pre.attributes()
    &&& c_post.bound_surface() is None
    &&& (c_pre.native().is_weak() ==> {
        &&& post.egl().live_contexts() == pre.egl().live_contexts()
        &&& post.egl().live_surfaces() == surfaces_less_bound
        &&& post.egl().current_slot() == pre.egl().current_slot()
    })
    &&& (!c_pre.native().is_weak() ==> {
        &&& post.egl().live_contexts() == pre.egl().live_contexts().remove(
            c_pre.native().context_id(),
        )
        &&& post.egl().live_surfaces() == surfaces_less_bound.remove(c_pre.native().surface_id())
        &&& post.egl().current_slot() == (if c_pre.native().spec_is_current(pre.egl()) {
            None
        } else {
            pre.egl().current_slot()
        })
    })
    &&& post.egl().live_displays() == pre.egl().live_displays()
    &&& post.egl().live_devices() == pre.egl().live_devices()
    &&& post.egl().id_bound() == pre.egl().id_bound()
    &&& post.egl().same_config(pre.egl())
    &&& post.display_id() == pre.display_id()
    &&& post.lib() == pre.lib()
    &&& post.context_id_bound() == pre.context_id_bound()
    &&& post.wf()
}

/// What making a context current changes: nothing but the thread's
/// current slot, which afterwards holds the context's triple — unless
/// the context already held it, in which case the call was a no-op.
pub open spec fn make_current_post(pre: Device, post: Device, c: Context, ok: bool) -> bool {
    &&& ok <==> (c.native().spec_is_current(pre.egl()) || pre.egl().bind_ok(
        c.native().display_id(),
        c.native().surface_id(),
        c.native().context_id(),
    ))
    &&& ok ==> c.native().spec_is_current(post.egl())
    &&& c.native().spec_is_current(pre.egl()) ==> post.egl().current_slot()
        == pre.egl().current_slot()
    &&& (ok && !c.native().spec_is_current(pre.egl())) ==> post.egl().current_slot() == Some(
        c.native().slot(),
    )
    &&& !ok ==> post.egl().current_slot() == pre.egl().current_slot()
    &&& same_but_slot(pre, post)
}

/// The device states agree on everything except possibly the thread's
/// current slot.
pub open spec fn same_but_slot(pre: Device, post: Device) -> bool {
    &&& post.egl().live_contexts() == pre.egl().live_contexts()
    &&& post.egl().live_surfaces() == pre.egl().live_surfaces()
    &&& post.egl().live_displays() == pre.egl().live_displays()
    &&& post.egl().live_devices() == pre.egl().live_devices()
    &&& post.egl().id_bound() == pre.egl().id_bound()
    &&& post.egl().same_config(pre.egl())
    &&& post.display_id() == pre.display_id()
    &&& post.lib() == pre.lib()
    &&& post.context_id_bound() == pre.context_id_bound()
    &&& post.wf()
}

impl Device {
    /// The platform API state this device drives.
    pub closed spec fn egl(self) -> Egl {
        self.egl
    }

    /// The implementation library this device resolves entry points from.
    pub closed spec fn lib(self) -> GlLibrary {
        self.lib
    }

    /// The display this device opened.
    pub closed spec fn display_id(self) -> u64 {
        self.display
    }

    /// Stable context ids handed out so far are below this bound.
    pub closed spec fn context_id_bound(self) -> u64 {
        self.next_context_id
    }

    /// A device is well-formed when its driver state is and its display
    /// is live.
    pub open spec fn wf(self) -> bool {
        &&& self.egl().wf()
        &&& self.egl().live_displays().contains(self.display_id())
        &&& 1 <= self.context_id_bound()
    }

    /// Whether a context-creation request would be honoured: the
    /// descriptor's client version must be one the driver supports, and
    /// the id spaces must not be exhausted.  (Two native ids are needed:
    /// one for the backing off-screen buffer, one for the context.)
    pub open spec fn create_context_ok(self, descriptor: ContextDescriptor) -> bool {
        &&& supported_version(descriptor.attributes().version.major)
        &&& self.egl().can_alloc(2)
        &&& self.context_id_bound() < u64::MAX
    }

    /// A read-only view of the platform API state this device drives,
    /// for callers that want to observe the thread's current slot or the
    /// live resources.
    pub fn driver(&self) -> (r: &Egl)
        ensures
            *r == self.egl(),
    {
        &self.egl
    }

    /// Opens the device on the driver's default display.
    pub fn new(egl: Egl, lib: GlLibrary) -> (d: Device)
        requires
            egl.wf(),
        ensures
            d.wf(),
            d.egl() == egl,
            d.lib() == lib,
            d.display_id() == egl.default_display_id(),
            d.context_id_bound() == 1,
    {
        proof {
            egl.lemma_wf();
        }
        let display = egl.get_default_display();
        Device { egl, lib, display, next_context_id: 1 }
    }

    /// Opens the device and context corresponding to whatever context is
    /// current on the calling thread.  The context is weak: destroying
    /// it will not release the native resources it observes.  Fails when
    /// nothing is current, or when the current display is not live.
    pub fn from_current_context(egl: Egl, lib: GlLibrary) -> (r: Result<(Device, Context), Error>)
        requires
            egl.wf(),
        ensures
            r.is_ok() <==> (spec_current_handle(egl).is_some() && egl.live_displays().contains(
                egl.current_display_id(),
            )),
            r.is_err() ==> r == Err::<(Device, Context), Error>(Error::DeviceOpenFailed),
            r.is_ok() ==> ({
                let (d, c) = r.unwrap();
                &&& d.wf()
                &&& d.egl() == egl
                &&& d.lib() == lib
                &&& d.display_id() == egl.current_display_id()
                &&& d.context_id_bound() == 1
                &&& c.valid()
                &&& c.native().is_weak()
                &&& c.native().context_id() == egl.current_context_id()
                &&& c.native().display_id() == egl.current_display_id()
                &&& c.native().surface_id() == egl.current_surface_id()
                &&& c.bound_surface() is None
                &&& c.id() == 0
            }),
    {
        let native = match NativeGLContext::current(&egl) {
            Some(native) => native,
            None => return Err(Error::DeviceOpenFailed),
        };
        let display = egl.get_current_display();
        if !egl.is_live_display(display) {
            return Err(Error::DeviceOpenFailed);
        }
        let device = Device { egl, lib, display, next_context_id: 1 };
        let context = Context {
            native,
            id: 0,
            attributes: ContextAttributes { version: GLVersion { major: 0, minor: 0 } },
            surface: None,
        };
        Ok((device, context))
    }

    /// Creates a context descriptor for the given attributes.  This
    /// backend accepts every attribute combination.
    pub fn create_context_descriptor(&self, attributes: &ContextAttributes) -> (r: Result<
        ContextDescriptor,
        Error,
    >)
        ensures
            r.is_ok(),
            r.unwrap().attributes() == *attributes,
    {
        Ok(ContextDescriptor { attributes: *attributes })
    }

    /// Creates a context for the given descriptor, backed by a fresh
    /// dummy-sized off-screen buffer.  Fails — with
    /// `ContextCreationFailed` and the device untouched — exactly when an
    /// id space is exhausted.
    pub fn create_context(&mut self, descriptor: &ContextDescriptor) -> (r: Result<Context, Error>)
        requires
            old(self).wf(),
        ensures
            r.is_ok() <==> old(self).create_context_ok(*descriptor),
            r.is_ok() ==> create_context_post(*old(self), *final(self), *descriptor, r.unwrap()),
            r.is_err() ==> r == Err::<Context, Error>(Error::ContextCreationFailed) && *final(self)
                == *old(self),
    {
        let version = descriptor.attributes.version.major;
        if version < 1 || version > 3 {
            return Err(Error::ContextCreationFailed);
        }
        if self.next_context_id == u64::MAX {
            return Err(Error::ContextCreationFailed);
        }
        if self.egl.id_headroom() < 2 {
            return Err(Error::ContextCreationFailed);
        }
        let display = self.display;
        let surface = self.egl.create_pbuffer_surface(
            display,
            DUMMY_SURFACE_SIZE,
            DUMMY_SURFACE_SIZE,
        );
        assert(surface != NO_SURFACE);
        let native = match NativeGLContext::new(
            &mut self.egl,
            None,
            display,
            surface,
            GLES_CONFIG,
            version,
        ) {
            Ok(native) => native,
            Err(_) => unreached(),
        };
        let id = self.next_context_id;
        self.next_context_id = id + 1;
        Ok(Context { native, id, attributes: descriptor.attributes, surface: None })
    }

    /// Destroys a context: the surface still bound to it, if any, is
    /// dropped with it, then its native surface and native context are
    /// released (unbinding it first if it was current).
    pub fn destroy_context(&mut self, context: &mut Context) -> (r: Result<(), Error>)
        requires
            old(self).wf(),
            old(context).native().display_id() == old(self).display_id(),
        ensures
            r.is_ok(),
            destroy_context_post(*old(self), *final(self), *old(context), *final(context)),
    {
        let bound = context.surface.take();
        if let Some(surface) = bound {
            self.egl.destroy_surface(self.display, surface.id);
        }
        context.native.destroy(&mut self.egl);
        Ok(())
    }

    /// The descriptor of the given context.
    pub fn context_descriptor(&self, context: &Context) -> (r: ContextDescriptor)
        ensures
            r.attributes() == context.attributes(),
    {
        ContextDescriptor { attributes: context.attributes }
    }

    /// Makes the given context current on the calling thread, or reports
    /// `BindFailed` if the driver rejects the transition.
    pub fn make_context_current(&mut self, context: &Context) -> (r: Result<(), Error>)
        requires
            old(self).wf(),
            context.valid(),
        ensures
            r.is_err() ==> r == Err::<(), Error>(Error::BindFailed),
            make_current_post(*old(self), *final(self), *context, r.is_ok()),
    {
        match context.native.make_current(&mut self.egl) {
            Ok(()) => Ok(()),
            Err(_) => Err(Error::BindFailed),
        }
    }

    /// Clears the thread's current-context slot.
    pub fn make_no_context_current(&mut self) -> (r: Result<(), Error>)
        requires
            old(self).wf(),
        ensures
            r.is_ok(),
            final(self).egl().current_slot() == None::<CurrentSlot>,
            same_but_slot(*old(self), *final(self)),
    {
        let ok = self.egl.make_current(self.display, NO_SURFACE, NO_SURFACE, NO_CONTEXT);
        let _ = ok;
        Ok(())
    }

    /// Creates an off-screen surface that contexts of this device can
    /// draw into.
    pub fn create_surface(&mut self, width: i32, height: i32) -> (s: Surface)
        requires
            old(self).wf(),
            0 < width,
            0 < height,
            old(self).egl().can_alloc(1),
        ensures
            s.spec_width() == width,
            s.spec_height() == height,
            !old(self).egl().live_surfaces().contains(s.id()),
            final(self).egl().live_surfaces() == old(self).egl().live_surfaces().insert(s.id()),
            final(self).egl().live_contexts() == old(self).egl().live_contexts(),
            final(self).egl().live_displays() == old(self).egl().live_displays(),
            final(self).egl().live_devices() == old(self).egl().live_devices(),
            final(self).egl().current_slot() == old(self).egl().current_slot(),
            final(self).egl().same_config(old(self).egl()),
            final(self).display_id() == old(self).display_id(),
            final(self).lib() == old(self).lib(),
            final(self).context_id_bound() == old(self).context_id_bound(),
            final(self).wf(),
    {
        let id = self.egl.create_pbuffer_surface(self.display, width, height);
        if id == NO_SURFACE {
            unreached()
        } else {
            Surface { id, width, height }
        }
    }

    /// Binds `surface` to `context`, transferring ownership of the
    /// surface into the context.  The context must not already hold a
    /// surface: a bound surface must be explicitly unbound first.
    pub fn bind_surface_to_context(&self, context: &mut Context, surface: Surface) -> (r: Result<
        (),
        Error,
    >)
        requires
            old(context).bound_surface() is None,
        ensures
            r.is_ok(),
            final(context).bound_surface() == Some(surface),
            final(context).native() == old(context).native(),
            final(context).id() == old(context).id(),
            final(context).attributes() == old(context).attributes(),
    {
        context.surface = Some(surface);
        Ok(())
    }

    /// Takes the surface bound to `context` back out of it, returning
    /// ownership to the caller, or `None` if nothing was bound.
    pub fn unbind_surface_from_context(&self, context: &mut Context) -> (r: Result<
        Option<Surface>,
        Error,
    >)
        ensures
            r == Ok::<Option<Surface>, Error>(old(context).bound_surface()),
            final(context).bound_surface() is None,
            final(context).native() == old(context).native(),
            final(context).id() == old(context).id(),
            final(context).attributes() == old(context).attributes(),
    {
        Ok(context.surface.take())
    }

    /// The attributes a descriptor was created from.
    pub fn context_descriptor_attributes(&self, context_descriptor: &ContextDescriptor) -> (r:
        ContextAttributes)
        ensures
            r == context_descriptor.attributes(),
    {
        context_descriptor.attributes
    }

    /// Resolves a named entry point of this device's GPU API.
    pub fn get_proc_address(&self, _context: &Context, symbol_name: &str) -> (r: u64)
        ensures
            r == self.lib().spec_resolve(symbol_name@),
    {
        self.lib.resolve(symbol_name)
    }

    /// The stable id of the given context.
    pub fn context_id(&self, context: &Context) -> (r: ContextID)
        ensures
            r == ContextID(context.id()),
    {
        ContextID(context.id)
    }

    /// A borrow of the surface bound to the given context, if any.
    pub fn context_surface<'c>(&self, context: &'c Context) -> (r: Result<Option<&'c Surface>, Error>)
        ensures
            r.is_ok(),
            r.unwrap() is Some <==> context.bound_surface() is Some,
            r.unwrap() is Some ==> *r.unwrap().unwrap() == context.bound_surface().unwrap(),
    {
        Ok(context.surface.as_ref())
    }
}

} // verus!
