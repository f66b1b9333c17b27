//! A device/context abstraction that can switch between hardware and
//! software rendering.
//!
//! Every type is a closed sum over {Hardware, Software}, and every
//! operation is one exhaustive two-way match that forwards to the
//! matching arm.  Operands whose tags do not match are never silently
//! coerced: each such call fails with the specific incompatibility error
//! for the operand kind.

use vstd::prelude::*;
use vstd::pervasive::unreached;
use crate::backend;
use crate::backend::{create_context_post, destroy_context_post, make_current_post, same_but_slot};
use crate::context::spec_current_handle;
use crate::egl::{CurrentSlot, Egl};
use crate::resolver::GlLibrary;
use crate::{ContextAttributes, ContextID, Error};

verus! {

/// Which rendering backend a value belongs to.
#[derive(Clone, Copy, Debug, PartialEq, Eq, Structural)]
pub enum BackendKind {
    /// The hardware-accelerated backend.
    Hardware,
    /// The software-rasterizer backend.
    Software,
}

/// A rendering device backed by either hardware or software.
pub enum Device {
    /// A hardware-accelerated device.
    Hardware(backend::Device),
    /// A software-rasterizer device.
    Software(backend::Device),
}

/// A rendering context backed by either hardware or software.
pub enum Context {
    /// A context of a hardware device.
    Hardware(backend::Context),
    /// A context of a software device.
    Software(backend::Context),
}

/// A context descriptor for either a hardware or a software device.
#[derive(Clone, Copy, Debug, PartialEq, Eq, Structural)]
pub enum ContextDescriptor {
    /// A descriptor for contexts of a hardware device.
    Hardware(backend::ContextDescriptor),
    /// A descriptor for contexts of a software device.
    Software(backend::ContextDescriptor),
}

/// A render target owned by either a hardware or a software device.
#[derive(Debug, PartialEq, Eq, Structural)]
pub enum Surface {
    /// A surface of a hardware device.
    Hardware(backend::Surface),
    /// A surface of a software device.
    Software(backend::Surface),
}

/// A borrow of a surface bound to a context.
pub enum SurfaceRef<'a> {
    /// A borrow of a hardware surface.
    Hardware(&'a backend::Surface),
    /// A borrow of a software surface.
    Software(&'a backend::Surface),
}

impl Device {
    /// The backend this device belongs to.
    pub open spec fn tag(self) -> BackendKind {
        match self {
            Device::Hardware(_) => BackendKind::Hardware,
            Device::Software(_) => BackendKind::Software,
        }
    }

    /// The concrete device inside.
    pub open spec fn arm(self) -> backend::Device {
        match self {
            Device::Hardware(device) => device,
            Device::Software(device) => device,
        }
    }

    /// A device is well-formed when its arm is.
    pub open spec fn wf(self) -> bool {
        self.arm().wf()
    }
}

impl Context {
    /// The backend this context belongs to.
    pub open spec fn tag(self) -> BackendKind {
        match self {
            Context::Hardware(_) => BackendKind::Hardware,
            Context::Software(_) => BackendKind::Software,
        }
    }

    /// The concrete context inside.
    pub open spec fn arm(self) -> backend::Context {
        match self {
            Context::Hardware(context) => context,
            Context::Software(context) => context,
        }
    }
}

impl ContextDescriptor {
    /// The backend this descriptor belongs to.
    pub open spec fn tag(self) -> BackendKind {
        match self {
            ContextDescriptor::Hardware(_) => BackendKind::Hardware,
            ContextDescriptor::Software(_) => BackendKind::Software,
        }
    }

    /// The concrete descriptor inside.
    pub open spec fn arm(self) -> backend::ContextDescriptor {
        match self {
            ContextDescriptor::Hardware(descriptor) => descriptor,
            ContextDescriptor::Software(descriptor) => descriptor,
        }
    }
}

impl Surface {
    /// The backend this surface belongs to.
    pub open spec fn tag(self) -> BackendKind {
        match self {
            Surface::Hardware(_) => BackendKind::Hardware,
            Surface::Software(_) => BackendKind::Software,
        }
    }

    /// The concrete surface inside.
    pub open spec fn arm(self) -> backend::Surface {
        match self {
            Surface::Hardware(surface) => surface,
            Surface::Software(surface) => surface,
        }
    }
}

impl<'a> SurfaceRef<'a> {
    /// The backend this surface borrow belongs to.
    pub open spec fn tag(self) -> BackendKind {
        match self {
            SurfaceRef::Hardware(_) => BackendKind::Hardware,
            SurfaceRef::Software(_) => BackendKind::Software,
        }
    }

    /// The concrete surface borrowed.
    pub open spec fn arm(self) -> backend::Surface {
        match self {
            SurfaceRef::Hardware(surface) => *surface,
            SurfaceRef::Software(surface) => *surface,
        }
    }
}

/// An optional concrete surface, wrapped back into the tagged sum at the
/// given backend.
pub open spec fn wrap_surface(tag: BackendKind, s: Option<backend::Surface>) -> Option<Surface> {
    match s {
        Some(s) => Some(
            if tag is Hardware {
                Surface::Hardware(s)
            } else {
                Surface::Software(s)
            },
        ),
        None => None,
    }
}

/// Wrapping a surface's arm back at its own tag yields the surface
/// itself.  Hence binding a surface to a context and then unbinding it
/// returns a surface equal by identity to the one bound, and the context
/// reports no bound surface afterwards (see
/// [`Device::bind_surface_to_context`] and
/// [`Device::unbind_surface_from_context`]).
pub proof fn lemma_surface_round_trip(s: Surface)
    ensures
        wrap_surface(s.tag(), Some(s.arm())) == Some(s),
{
}

impl Device {
    /// Creates a descriptor for contexts of this device.  The descriptor
    /// carries the device's tag: it is portable across context creations
    /// but not across device variants.
    pub fn create_context_descriptor(&self, attributes: &ContextAttributes) -> (r: Result<
        ContextDescriptor,
        Error,
    >)
        ensures
            r.is_ok(),
            r.unwrap().tag() == self.tag(),
            r.unwrap().arm().attributes() == *attributes,
    {
        match self {
            Device::Hardware(device) => {
                match device.create_context_descriptor(attributes) {
                    Ok(descriptor) => Ok(ContextDescriptor::Hardware(descriptor)),
                    Err(error) => Err(error),
                }
            },
            Device::Software(device) => {
                match device.create_context_descriptor(attributes) {
                    Ok(descriptor) => Ok(ContextDescriptor::Software(descriptor)),
                    Err(error) => Err(error),
                }
            },
        }
    }

    /// Opens the device and context corresponding to the current
    /// hardware context.  The caller must guarantee that the context
    /// current on this thread genuinely belongs to the hardware backend.
    pub fn from_current_hardware_context(egl: Egl, lib: GlLibrary) -> (r: Result<
        (Device, Context),
        Error,
    >)
        requires
            egl.wf(),
        ensures
            r.is_ok() <==> (spec_current_handle(egl).is_some() && egl.live_displays().contains(
                egl.current_display_id(),
            )),
            r.is_err() ==> r == Err::<(Device, Context), Error>(Error::DeviceOpenFailed),
            r.is_ok() ==> ({
                let (d, c) = r.unwrap();
                &&& d.tag() == BackendKind::Hardware
                &&& c.tag() == BackendKind::Hardware
                &&& d.wf()
                &&& d.arm().egl() == egl
                &&& d.arm().lib() == lib
                &&& c.arm().native().is_weak()
                &&& c.arm().valid()
                &&& c.arm().native().context_id() == egl.current_context_id()
                &&& c.arm().bound_surface() is None
            }),
    {
        match backend::Device::from_current_context(egl, lib) {
            Ok((device, context)) => Ok((Device::Hardware(device), Context::Hardware(context))),
            Err(error) => Err(error),
        }
    }

    /// Opens the device and context corresponding to the current
    /// software context.  The caller must guarantee that the context
    /// current on this thread genuinely belongs to the software backend.
    pub fn from_current_software_context(egl: Egl, lib: GlLibrary) -> (r: Result<
        (Device, Context),
        Error,
    >)
        requires
            egl.wf(),
        ensures
            r.is_ok() <==> (spec_current_handle(egl).is_some() && egl.live_displays().contains(
                egl.current_display_id(),
            )),
            r.is_err() ==> r == Err::<(Device, Context), Error>(Error::DeviceOpenFailed),
            r.is_ok() ==> ({
                let (d, c) = r.unwrap();
                &&& d.tag() == BackendKind::Software
                &&& c.tag() == BackendKind::Software
                &&& d.wf()
                &&& d.arm().egl() == egl
                &&& d.arm().lib() == lib
                &&& c.arm().native().is_weak()
                &&& c.arm().valid()
                &&& c.arm().native().context_id() == egl.current_context_id()
                &&& c.arm().bound_surface() is None
            }),
    {
        match backend::Device::from_current_context(egl, lib) {
            Ok((device, context)) => Ok((Device::Software(device), Context::Software(context))),
            Err(error) => Err(error),
        }
    }

    /// Creates a context for the given descriptor.  A descriptor whose
    /// tag does not match the device's fails with
    /// `IncompatibleContextDescriptor`; otherwise the context is created
    /// by the matching arm, and carries the device's — and the
    /// descriptor's — tag.
    pub fn create_context(&mut self, descriptor: &ContextDescriptor) -> (r: Result<Context, Error>)
        requires
            old(self).tag() == descriptor.tag() ==> old(self).wf(),
        ensures
            old(self).tag() != descriptor.tag() ==> r == Err::<Context, Error>(
                Error::IncompatibleContextDescriptor,
            ) && *final(self) == *old(self),
            old(self).tag() == descriptor.tag() ==> {
                &&& final(self).tag() == old(self).tag()
                &&& (r.is_ok() <==> old(self).arm().create_context_ok(descriptor.arm()))
                &&& r.is_ok() ==> ({
                    let c = r.unwrap();
                    &&& c.tag() == old(self).tag()
                    &&& c.tag() == descriptor.tag()
                    &&& create_context_post(
                        old(self).arm(),
                        final(self).arm(),
                        descriptor.arm(),
                        c.arm(),
                    )
                })
                &&& r.is_err() ==> r == Err::<Context, Error>(Error::ContextCreationFailed)
                    && *final(self) == *old(self)
            },
    {
        match self {
            Device::Hardware(device) => {
                match descriptor {
                    ContextDescriptor::Hardware(descriptor) => {
                        match device.create_context(descriptor) {
                            Ok(context) => Ok(Context::Hardware(context)),
                            Err(error) => Err(error),
                        }
                    },
                    _ => Err(Error::IncompatibleContextDescriptor),
                }
            },
            Device::Software(device) => {
                match descriptor {
                    ContextDescriptor::Software(descriptor) => {
                        match device.create_context(descriptor) {
                            Ok(context) => Ok(Context::Software(context)),
                            Err(error) => Err(error),
                        }
                    },
                    _ => Err(Error::IncompatibleContextDescriptor),
                }
            },
        }
    }

    /// Destroys a context of this device.  A context whose tag does not
    /// match fails with `IncompatibleContext` and is left untouched.
    pub fn destroy_context(&mut self, context: &mut Context) -> (r: Result<(), Error>)
        requires
            old(self).tag() == old(context).tag() ==> {
                &&& old(self).wf()
                &&& old(context).arm().native().display_id() == old(self).arm().display_id()
            },
        ensures
            old(self).tag() != old(context).tag() ==> r == Err::<(), Error>(
                Error::IncompatibleContext,
            ) && *final(self) == *old(self) && *final(context) == *old(context),
            old(self).tag() == old(context).tag() ==> {
                &&& r.is_ok()
                &&& final(self).tag() == old(self).tag()
                &&& final(context).tag() == old(context).tag()
                &&& destroy_context_post(
                    old(self).arm(),
                    final(self).arm(),
                    old(context).arm(),
                    final(context).arm(),
                )
            },
    {
        match self {
            Device::Hardware(device) => {
                match context {
                    Context::Hardware(context) => device.destroy_context(context),
                    _ => Err(Error::IncompatibleContext),
                }
            },
            Device::Software(device) => {
                match context {
                    Context::Software(context) => device.destroy_context(context),
                    _ => Err(Error::IncompatibleContext),
                }
            },
        }
    }

    /// The descriptor of a context of this device.  A context of the
    /// other backend signals an impossible state: callers must not hand
    /// one in.
    pub fn context_descriptor(&self, context: &Context) -> (r: ContextDescriptor)
        requires
            self.tag() == context.tag(),
        ensures
            r.tag() == self.tag(),
            r.arm().attributes() == context.arm().attributes(),
    {
        match self {
            Device::Hardware(device) => {
                match context {
                    Context::Hardware(context) => ContextDescriptor::Hardware(
                        device.context_descriptor(context),
                    ),
                    _ => unreached(),
                }
            },
            Device::Software(device) => {
                match context {
                    Context::Software(context) => ContextDescriptor::Software(
                        device.context_descriptor(context),
                    ),
                    _ => unreached(),
                }
            },
        }
    }

    /// Makes the given context current on the calling thread.  A context
    /// of the other backend fails with `IncompatibleContext`; a rejected
    /// transition fails with `BindFailed`.
    pub fn make_context_current(&mut self, context: &Context) -> (r: Result<(), Error>)
        requires
            old(self).tag() == context.tag() ==> {
                &&& old(self).wf()
                &&& context.arm().valid()
            },
        ensures
            old(self).tag() != context.tag() ==> r == Err::<(), Error>(Error::IncompatibleContext)
                && *final(self) == *old(self),
            old(self).tag() == context.tag() ==> {
                &&& final(self).tag() == old(self).tag()
                &&& make_current_post(old(self).arm(), final(self).arm(), context.arm(), r.is_ok())
                &&& r.is_err() ==> r == Err::<(), Error>(Error::BindFailed)
            },
    {
        match self {
            Device::Hardware(device) => {
                match context {
                    Context::Hardware(context) => device.make_context_current(context),
                    _ => Err(Error::IncompatibleContext),
                }
            },
            Device::Software(device) => {
                match context {
                    Context::Software(context) => device.make_context_current(context),
                    _ => Err(Error::IncompatibleContext),
                }
            },
        }
    }

    /// Clears the thread's current-context slot of this device's
    /// backend.  There is no tag-matching concern: the call applies to
    /// whichever backend the device itself is.
    pub fn make_no_context_current(&mut self) -> (r: Result<(), Error>)
        requires
            old(self).wf(),
        ensures
            r.is_ok(),
            final(self).tag() == old(self).tag(),
            final(self).arm().egl().current_slot() == None::<CurrentSlot>,
            same_but_slot(old(self).arm(), final(self).arm()),
    {
        match self {
            Device::Hardware(device) => device.make_no_context_current(),
            Device::Software(device) => device.make_no_context_current(),
        }
    }

    /// Binds a surface to a context, transferring ownership of the
    /// surface into the context.  A context of the other backend fails
    /// with `IncompatibleContext`; a surface of the other backend — even
    /// when the context's own tag matches the device — fails with
    /// `IncompatibleSurface`, never with success and never by silently
    /// picking a backend.
    pub fn bind_surface_to_context(&self, context: &mut Context, surface: Surface) -> (r: Result<
        (),
        Error,
    >)
        requires
            (self.tag() == old(context).tag() && surface.tag() == old(context).tag()) ==> old(
                context,
            ).arm().bound_surface() is None,
        ensures
            self.tag() != old(context).tag() ==> r == Err::<(), Error>(Error::IncompatibleContext)
                && *final(context) == *old(context),
            (self.tag() == old(context).tag() && surface.tag() != old(context).tag()) ==> r
                == Err::<(), Error>(Error::IncompatibleSurface) && *final(context) == *old(
                context,
            ),
            (self.tag() == old(context).tag() && surface.tag() == old(context).tag()) ==> {
                &&& r.is_ok()
                &&& final(context).tag() == old(context).tag()
                &&& final(context).arm().bound_surface() == Some(surface.arm())
                &&& final(context).arm().native() == old(context).arm().native()
                &&& final(context).arm().id() == old(context).arm().id()
                &&& final(context).arm().attributes() == old(context).arm().attributes()
            },
    {
        match self {
            Device::Hardware(device) => {
                match context {
                    Context::Hardware(context) => {
                        match surface {
                            Surface::Hardware(surface) => device.bind_surface_to_context(
                                context,
                                surface,
                            ),
                            _ => Err(Error::IncompatibleSurface),
                        }
                    },
                    _ => Err(Error::IncompatibleContext),
                }
            },
            Device::Software(device) => {
                match context {
                    Context::Software(context) => {
                        match surface {
                            Surface::Software(surface) => device.bind_surface_to_context(
                                context,
                                surface,
                            ),
                            _ => Err(Error::IncompatibleSurface),
                        }
                    },
                    _ => Err(Error::IncompatibleContext),
                }
            },
        }
    }

    /// Takes the surface bound to a context back out of it, returning
    /// ownership to the caller, or `None` if nothing was bound.  A
    /// context of the other backend fails with `IncompatibleContext`.
    pub fn unbind_surface_from_context(&self, context: &mut Context) -> (r: Result<
        Option<Surface>,
        Error,
    >)
        ensures
            self.tag() != old(context).tag() ==> r == Err::<Option<Surface>, Error>(
                Error::IncompatibleContext,
            ) && *final(context) == *old(context),
            self.tag() == old(context).tag() ==> {
                &&& r == Ok::<Option<Surface>, Error>(
                    wrap_surface(old(context).tag(), old(context).arm().bound_surface()),
                )
                &&& final(context).tag() == old(context).tag()
                &&& final(context).arm().bound_surface() is None
                &&& final(context).arm().native() == old(context).arm().native()
                &&& final(context).arm().id() == old(context).arm().id()
                &&& final(context).arm().attributes() == old(context).arm().attributes()
            },
    {
        match self {
            Device::Hardware(device) => {
                match context {
                    Context::Hardware(context) => {
                        match device.unbind_surface_from_context(context) {
                            Ok(Some(surface)) => Ok(Some(Surface::Hardware(surface))),
                            Ok(None) => Ok(None),
                            Err(error) => Err(error),
                        }
                    },
                    _ => Err(Error::IncompatibleContext),
                }
            },
            Device::Software(device) => {
                match context {
                    Context::Software(context) => {
                        match device.unbind_surface_from_context(context) {
                            Ok(Some(surface)) => Ok(Some(Surface::Software(surface))),
                            Ok(None) => Ok(None),
                            Err(error) => Err(error),
                        }
                    },
                    _ => Err(Error::IncompatibleContext),
                }
            },
        }
    }

    /// The attributes a descriptor was created from.  A descriptor of
    /// the other backend signals an impossible state: callers must not
    /// hand one in.
    pub fn context_descriptor_attributes(&self, context_descriptor: &ContextDescriptor) -> (r:
        ContextAttributes)
        requires
            self.tag() == context_descriptor.tag(),
        ensures
            r == context_descriptor.arm().attributes(),
    {
        match self {
            Device::Hardware(device) => {
                match context_descriptor {
                    ContextDescriptor::Hardware(descriptor) => device.context_descriptor_attributes(
                        descriptor,
                    ),
                    _ => unreached(),
                }
            },
            Device::Software(device) => {
                match context_descriptor {
                    ContextDescriptor::Software(descriptor) => device.context_descriptor_attributes(
                        descriptor,
                    ),
                    _ => unreached(),
                }
            },
        }
    }

    /// Resolves a named entry point of this device's GPU API, returning
    /// its address as a plain value, or 0 if unresolved.  A context of
    /// the other backend signals an impossible state: callers must not
    /// hand one in.
    pub fn get_proc_address(&self, context: &Context, symbol_name: &str) -> (r: u64)
        requires
            self.tag() == context.tag(),
        ensures
            r == self.arm().lib().spec_resolve(symbol_name@),
    {
        match self {
            Device::Hardware(device) => {
                match context {
                    Context::Hardware(context) => device.get_proc_address(context, symbol_name),
                    _ => unreached(),
                }
            },
            Device::Software(device) => {
                match context {
                    Context::Software(context) => device.get_proc_address(context, symbol_name),
                    _ => unreached(),
                }
            },
        }
    }

    /// The stable id of a context, usable to correlate contexts without
    /// holding a reference.  A context of the other backend signals an
    /// impossible state: callers must not hand one in.
    pub fn context_id(&self, context: &Context) -> (r: ContextID)
        requires
            self.tag() == context.tag(),
        ensures
            r == ContextID(context.arm().id()),
    {
        match self {
            Device::Hardware(device) => {
                match context {
                    Context::Hardware(context) => device.context_id(context),
                    _ => unreached(),
                }
            },
            Device::Software(device) => {
                match context {
                    Context::Software(context) => device.context_id(context),
                    _ => unreached(),
                }
            },
        }
    }

    /// A borrow of the surface bound to a context, if any.  A context of
    /// the other backend fails with `UnsupportedOnThisPlatform`.
    pub fn context_surface<'c>(&self, context: &'c Context) -> (r: Result<
        Option<SurfaceRef<'c>>,
        Error,
    >)
        ensures
            self.tag() != context.tag() ==> r == Err::<Option<SurfaceRef<'c>>, Error>(
                Error::UnsupportedOnThisPlatform,
            ),
            self.tag() == context.tag() ==> {
                &&& r.is_ok()
                &&& (r.unwrap() is Some <==> context.arm().bound_surface() is Some)
                &&& r.unwrap() is Some ==> ({
                    let s = r.unwrap().unwrap();
                    &&& s.tag() == context.tag()
                    &&& s.arm() == context.arm().bound_surface().unwrap()
                })
            },
    {
        match self {
            Device::Hardware(device) => {
                match context {
                    Context::Hardware(context) => {
                        match device.context_surface(context) {
                            Ok(Some(surface)) => Ok(Some(SurfaceRef::Hardware(surface))),
                            Ok(None) => Ok(None),
                            Err(error) => Err(error),
                        }
                    },
                    _ => Err(Error::UnsupportedOnThisPlatform),
                }
            },
            Device::Software(device) => {
                match context {
                    Context::Software(context) => {
                        match device.context_surface(context) {
                            Ok(Some(surface)) => Ok(Some(SurfaceRef::Software(surface))),
                            Ok(None) => Ok(None),
                            Err(error) => Err(error),
                        }
                    },
                    _ => Err(Error::UnsupportedOnThisPlatform),
                }
            },
        }
    }
}

} // verus!
