//! One native rendering context bound to one native display/surface
//! triple.
//!
//! A `NativeGLContext` either owns its native context and surface, or is a
//! *weak* observer of a context owned by someone else (for instance one
//! that was already bound on the current thread).  Only an owning context
//! ever destroys native resources; destroying a weak context performs no
//! native call at all.

use vstd::prelude::*;
use crate::egl::{supported_version, CurrentSlot, Egl, NO_CONTEXT, NO_DISPLAY, NO_SURFACE};
use crate::resolver::GlLibrary;
use crate::{GLVersion, GlType};

verus! {

/// The model config id chosen for desktop OpenGL requests.
pub const GL_CONFIG: u64 = 1;

/// The model config id chosen for OpenGL ES requests, whose
/// renderable-type bit keeps contexts ES2-compliant whatever client
/// version field they were created with.
pub const GLES_CONFIG: u64 = 2;

/// The off-screen buffer edge used for headless contexts, which cannot
/// rely on a default framebuffer.
pub const HEADLESS_SIZE: i32 = 16;

/// A transferable, non-owning descriptor of a context: its native context
/// id and its native display id.  It carries no destructor obligations
/// and is enough to reconstruct a weak context on another thread.
#[derive(Clone, Copy, Debug, PartialEq, Eq, Structural)]
pub struct NativeGLContextHandle(pub u64, pub u64);

/// One native rendering context, the display it belongs to, and the
/// surface it was created against.
pub struct NativeGLContext {
    native_display: u64,
    native_surface: u64,
    native_context: u64,
    weak: bool,
}

/// The sharing context actually passed to the driver: the handed-in id,
/// or `NO_CONTEXT` when no sharing was requested.
pub open spec fn share_spec(share_context: Option<u64>) -> u64 {
    match share_context {
        Some(share) => share,
        None => NO_CONTEXT,
    }
}

/// When `NativeGLContext::new` succeeds: the driver must have ids left
/// and a live display, a nonzero sharing context must be live, and the
/// client version must be supported — except that any sharing request is
/// saved by the version-downgrade retry, which re-asks at version 3.
/// For the same reason a driver that is strict about the client version
/// of shared contexts never makes a sharing request fail (see
/// [`lemma_shared_version_retry`]).
pub open spec fn create_ok(
    egl: Egl,
    share_context: Option<u64>,
    display: u64,
    client_version: u8,
) -> bool {
    let share = share_spec(share_context);
    &&& egl.can_alloc(1)
    &&& egl.live_displays().contains(display)
    &&& (share != NO_CONTEXT ==> egl.live_contexts().contains(share))
    &&& (supported_version(client_version) || share_context.is_some())
}

/// The handle the thread's current-context slot yields: the current
/// context and display, or `None` when either is absent.
pub open spec fn spec_current_handle(egl: Egl) -> Option<NativeGLContextHandle> {
    if egl.current_context_id() != NO_CONTEXT && egl.current_display_id() != NO_DISPLAY {
        Some(NativeGLContextHandle(egl.current_context_id(), egl.current_display_id()))
    } else {
        None
    }
}

impl NativeGLContext {
    /// The native display this context belongs to.
    pub closed spec fn display_id(self) -> u64 {
        self.native_display
    }

    /// The native surface this context was created against.
    pub closed spec fn surface_id(self) -> u64 {
        self.native_surface
    }

    /// The native context id.
    pub closed spec fn context_id(self) -> u64 {
        self.native_context
    }

    /// Whether this context merely observes a context owned elsewhere.
    pub closed spec fn is_weak(self) -> bool {
        self.weak
    }

    /// The display/surface/context triple this context binds when made
    /// current.
    pub open spec fn slot(self) -> CurrentSlot {
        CurrentSlot {
            display: self.display_id(),
            surface: self.surface_id(),
            context: self.context_id(),
        }
    }

    /// Whether this context occupies the thread's current-context slot.
    pub open spec fn spec_is_current(self, egl: Egl) -> bool {
        egl.current_context_id() == self.context_id()
    }

    /// Requests an owning context for `client_version` against `config`,
    /// optionally sharing object namespaces with `share_context`.
    ///
    /// If sharing is requested, the chosen version is not 3, and creation
    /// fails, this retries exactly once with client version 3: a
    /// documented workaround for drivers that refuse to share contexts
    /// created with a different client-version field than the sharing
    /// context, even though the resulting context remains compliant with
    /// the originally requested API level (the config's renderable-type
    /// bit already constrains it).  If creation still fails, the surface
    /// the caller handed in is destroyed — ownership would only have
    /// transferred on success — and a creation failure is reported.
    pub fn new(
        egl: &mut Egl,
        share_context: Option<u64>,
        display: u64,
        surface: u64,
        config: u64,
        client_version: u8,
    ) -> (r: Result<NativeGLContext, &'static str>)
        requires
            old(egl).wf(),
        ensures
            final(egl).wf(),
            r.is_ok() <==> create_ok(*old(egl), share_context, display, client_version),
            r.is_ok() ==> ({
                let c = r.unwrap();
                &&& !c.is_weak()
                &&& c.context_id() != NO_CONTEXT
                &&& c.display_id() == display
                &&& c.surface_id() == surface
                &&& !old(egl).live_contexts().contains(c.context_id())
                &&& final(egl).live_contexts() == old(egl).live_contexts().insert(c.context_id())
                &&& final(egl).live_surfaces() == old(egl).live_surfaces()
                &&& final(egl).id_bound() == old(egl).id_bound() + 1
                &&& final(egl).current_context_id() != c.context_id()
            }),
            r.is_err() ==> ({
                &&& final(egl).live_contexts() == old(egl).live_contexts()
                &&& (old(egl).live_displays().contains(display) ==> final(egl).live_surfaces()
                    == old(egl).live_surfaces().remove(surface))
                &&& (!old(egl).live_displays().contains(display) ==> final(egl).live_surfaces()
                    == old(egl).live_surfaces())
                &&& final(egl).id_bound() == old(egl).id_bound()
            }),
            final(egl).current_slot() == old(egl).current_slot(),
            final(egl).live_displays() == old(egl).live_displays(),
            final(egl).live_devices() == old(egl).live_devices(),
            final(egl).same_config(*old(egl)),
    {
        let shared = match share_context {
            Some(share) => share,
            None => NO_CONTEXT,
        };

        let mut ctx = egl.create_context(display, config, shared, client_version);

        if share_context.is_some() && ctx == NO_CONTEXT && client_version != 3 {
            // Retry once at client version 3, for drivers that refuse a
            // different client-version field when sharing.
            ctx = egl.create_context(display, config, shared, 3);
        }

        if ctx == NO_CONTEXT {
            egl.destroy_surface(display, surface);
            return Err("native context creation failed");
        }

        Ok(NativeGLContext {
            native_display: display,
            native_surface: surface,
            native_context: ctx,
            weak: false,
        })
    }

    /// Creates a headless context: an off-screen pixel-buffer-backed
    /// context of a dummy size against the default display, sharing with
    /// nobody.
    pub fn create_headless(egl: &mut Egl, api_type: &GlType, api_version: GLVersion) -> (r: Result<
        NativeGLContext,
        &'static str,
    >)
        requires
            old(egl).wf(),
        ensures
            final(egl).wf(),
            r.is_ok() <==> (old(egl).can_alloc(2) && supported_version(api_version.major)),
            r.is_ok() ==> ({
                let c = r.unwrap();
                &&& !c.is_weak()
                &&& c.context_id() != NO_CONTEXT
                &&& c.display_id() == old(egl).default_display_id()
                &&& !old(egl).live_contexts().contains(c.context_id())
                &&& final(egl).live_contexts() == old(egl).live_contexts().insert(c.context_id())
                &&& !old(egl).live_surfaces().contains(c.surface_id())
                &&& final(egl).live_surfaces() == old(egl).live_surfaces().insert(c.surface_id())
                &&& final(egl).current_context_id() != c.context_id()
            }),
            r.is_err() ==> ({
                &&& final(egl).live_contexts() == old(egl).live_contexts()
                &&& final(egl).live_surfaces() == old(egl).live_surfaces()
            }),
            final(egl).current_slot() == old(egl).current_slot(),
            final(egl).live_displays() == old(egl).live_displays(),
            final(egl).live_devices() == old(egl).live_devices(),
            final(egl).same_config(*old(egl)),
    {
        create_offscreen(egl, None, api_type, api_version)
    }

    /// Creates an off-screen context sharing object namespaces with the
    /// context `with` describes, if any.
    pub fn create_shared(
        egl: &mut Egl,
        with: Option<&NativeGLContextHandle>,
        api_type: &GlType,
        api_version: GLVersion,
    ) -> (r: Result<NativeGLContext, &'static str>)
        requires
            old(egl).wf(),
        ensures
            final(egl).wf(),
            r.is_ok() <==> (old(egl).can_alloc(2) && (match with {
                Some(handle) => handle.0 != NO_CONTEXT ==> old(egl).live_contexts().contains(
                    handle.0,
                ),
                None => supported_version(api_version.major),
            })),
            r.is_ok() ==> ({
                let c = r.unwrap();
                &&& !c.is_weak()
                &&& c.context_id() != NO_CONTEXT
                &&& c.display_id() == old(egl).default_display_id()
                &&& !old(egl).live_contexts().contains(c.context_id())
                &&& final(egl).live_contexts() == old(egl).live_contexts().insert(c.context_id())
                &&& !old(egl).live_surfaces().contains(c.surface_id())
                &&& final(egl).live_surfaces() == old(egl).live_surfaces().insert(c.surface_id())
                &&& final(egl).current_context_id() != c.context_id()
            }),
            r.is_err() ==> ({
                &&& final(egl).live_contexts() == old(egl).live_contexts()
                &&& final(egl).live_surfaces() == old(egl).live_surfaces()
            }),
            final(egl).current_slot() == old(egl).current_slot(),
            final(egl).live_displays() == old(egl).live_displays(),
            final(egl).live_devices() == old(egl).live_devices(),
            final(egl).same_config(*old(egl)),
    {
        let share = match with {
            Some(handle) => Some(handle.0),
            None => None,
        };
        create_offscreen(egl, share, api_type, api_version)
    }

    /// Inspects the thread-local current-context slot, returning a
    /// transferable handle to whatever is current, or `None`.
    pub fn current_handle(egl: &Egl) -> (r: Option<NativeGLContextHandle>)
        ensures
            r == spec_current_handle(*egl),
    {
        current_handle(egl)
    }

    /// Wraps whatever context is current on the calling thread as a
    /// **weak** context: one that observes, and never destroys, a context
    /// owned elsewhere.
    pub fn current(egl: &Egl) -> (r: Option<NativeGLContext>)
        requires
            egl.wf(),
        ensures
            r.is_some() <==> spec_current_handle(*egl).is_some(),
            r.is_some() ==> ({
                let c = r.unwrap();
                &&& c.is_weak()
                &&& c.context_id() != NO_CONTEXT
                &&& c.context_id() == egl.current_context_id()
                &&& c.display_id() == egl.current_display_id()
                &&& c.surface_id() == egl.current_surface_id()
            }),
    {
        if let Some(handle) = current_handle(egl) {
            let surface = egl.get_current_surface();
            proof {
                egl.lemma_wf();
            }
            assert(surface != NO_SURFACE);
            Some(NativeGLContext {
                native_context: handle.0,
                native_display: handle.1,
                native_surface: surface,
                weak: true,
            })
        } else {
            None
        }
    }

    /// Whether this context's native handle equals the thread's
    /// current-context slot.
    pub fn is_current(&self, egl: &Egl) -> (r: bool)
        ensures
            r == self.spec_is_current(*egl),
    {
        egl.get_current_context() == self.native_context
    }

    /// Makes this context current on the calling thread, with its surface
    /// as both draw and read surface.  A no-op if the context is already
    /// current; otherwise the transition fails exactly when the driver
    /// rejects the bind.
    pub fn make_current(&self, egl: &mut Egl) -> (r: Result<(), &'static str>)
        requires
            old(egl).wf(),
            self.context_id() != NO_CONTEXT,
        ensures
            final(egl).wf(),
            r.is_ok() <==> (self.spec_is_current(*old(egl)) || old(egl).bind_ok(
                self.display_id(),
                self.surface_id(),
                self.context_id(),
            )),
            r.is_ok() ==> self.spec_is_current(*final(egl)),
            self.spec_is_current(*old(egl)) ==> final(egl).current_slot() == old(
                egl,
            ).current_slot(),
            (r.is_ok() && !self.spec_is_current(*old(egl))) ==> final(egl).current_slot() == Some(
                self.slot(),
            ),
            r.is_err() ==> final(egl).current_slot() == old(egl).current_slot(),
            final(egl).live_contexts() == old(egl).live_contexts(),
            final(egl).live_surfaces() == old(egl).live_surfaces(),
            final(egl).live_displays() == old(egl).live_displays(),
            final(egl).live_devices() == old(egl).live_devices(),
            final(egl).id_bound() == old(egl).id_bound(),
            final(egl).same_config(*old(egl)),
    {
        if self.is_current(egl) {
            return Ok(());
        }
        let ok = egl.make_current(
            self.native_display,
            self.native_surface,
            self.native_surface,
            self.native_context,
        );
        if ok {
            Ok(())
        } else {
            Err("make-current rejected by the native API")
        }
    }

    /// Extracts a transferable, non-owning handle to this context.
    pub fn handle(&self) -> (r: NativeGLContextHandle)
        ensures
            r == NativeGLContextHandle(self.context_id(), self.display_id()),
    {
        NativeGLContextHandle(self.native_context, self.native_display)
    }

    /// Clears the thread's current-context slot if this context occupies
    /// it.  On a context that is not current this is a no-op returning
    /// success, and it leaves the thread's slot untouched.
    pub fn unbind(&self, egl: &mut Egl) -> (r: Result<(), &'static str>)
        requires
            old(egl).wf(),
        ensures
            final(egl).wf(),
            r.is_ok(),
            !self.spec_is_current(*old(egl)) ==> *final(egl) == *old(egl),
            self.spec_is_current(*old(egl)) ==> final(egl).current_slot()
                == None::<CurrentSlot>,
            final(egl).live_contexts() == old(egl).live_contexts(),
            final(egl).live_surfaces() == old(egl).live_surfaces(),
            final(egl).live_displays() == old(egl).live_displays(),
            final(egl).live_devices() == old(egl).live_devices(),
            final(egl).id_bound() == old(egl).id_bound(),
            final(egl).same_config(*old(egl)),
    {
        if self.is_current(egl) {
            let ok = egl.make_current(
                self.native_display,
                NO_SURFACE,
                NO_SURFACE,
                NO_CONTEXT,
            );
            let _ = ok;
        }
        Ok(())
    }

    /// Tears this context down.  A weak context performs no step at all:
    /// it never releases the native resources it observes.  An owning
    /// context first unbinds itself (best-effort), then destroys its
    /// native surface, then its native context.
    pub fn destroy(&self, egl: &mut Egl)
        requires
            old(egl).wf(),
        ensures
            final(egl).wf(),
            destroy_post(*self, *old(egl), *final(egl)),
    {
        if self.weak {
            return;
        }
        let _ = self.unbind(egl);
        egl.destroy_surface(self.native_display, self.native_surface);
        egl.destroy_context(self.native_display, self.native_context);
    }

    /// Resolves a named entry point of the platform's GPU API.
    pub fn get_proc_address(lib: &GlLibrary, addr: &str) -> (r: u64)
        ensures
            r == lib.spec_resolve(addr@),
    {
        crate::resolver::get_proc_address(lib, addr)
    }
}

/// What destroying a context does to the platform state.  A weak context
/// leaves it untouched; an owning one gives up the current slot if it
/// held it and takes its surface and its context out of the live sets.
pub open spec fn destroy_post(ctx: NativeGLContext, before: Egl, after: Egl) -> bool {
    if ctx.is_weak() {
        after == before
    } else {
        &&& (before.live_displays().contains(ctx.display_id()) ==> {
            &&& after.live_surfaces() == before.live_surfaces().remove(ctx.surface_id())
            &&& after.live_contexts() == before.live_contexts().remove(ctx.context_id())
        })
        &&& (!before.live_displays().contains(ctx.display_id()) ==> {
            &&& after.live_surfaces() == before.live_surfaces()
            &&& after.live_contexts() == before.live_contexts()
        })
        &&& after.current_slot() == (if ctx.spec_is_current(before) {
            None
        } else {
            before.current_slot()
        })
        &&& after.live_displays() == before.live_displays()
        &&& after.live_devices() == before.live_devices()
        &&& after.id_bound() == before.id_bound()
        &&& after.same_config(before)
    }
}

/// Destroying a weak context — such as one obtained from
/// [`NativeGLContext::current`] — never invalidates the context it
/// observed: the platform state is untouched, so a subsequent
/// current-context query on the same thread still yields an equivalent
/// handle.
pub proof fn lemma_weak_destroy_keeps_current(ctx: NativeGLContext, before: Egl, after: Egl)
    requires
        ctx.is_weak(),
        destroy_post(ctx, before, after),
    ensures
        after == before,
        spec_current_handle(after) == spec_current_handle(before),
{
}

/// A context that was just made current is the one the thread's slot
/// reports: making a context current and immediately asking whether it
/// is current answers true, as long as no other operation intervened.
pub proof fn lemma_make_current_then_is_current(ctx: NativeGLContext, egl: Egl)
    requires
        egl.current_slot() == Some(ctx.slot()),
    ensures
        ctx.spec_is_current(egl),
{
}

/// The documented version-downgrade workaround: a driver that is strict
/// about the client version of shared contexts refuses a direct request
/// at any version other than 3, yet creation through
/// [`NativeGLContext::new`] still succeeds for such a request, because it
/// retries once at version 3.
pub proof fn lemma_shared_version_retry(egl: Egl, share: u64, display: u64, client_version: u8)
    requires
        egl.strict_shared_version(),
        share != NO_CONTEXT,
        client_version != 3,
        egl.can_alloc(1),
        egl.live_displays().contains(display),
        egl.live_contexts().contains(share),
    ensures
        !egl.create_context_ok(display, share, client_version),
        create_ok(egl, Some(share), display, client_version),
{
}

/// Creates a pixel-buffer-backed off-screen context against the default
/// display: chooses the config matching the requested API type, creates a
/// dummy-sized buffer, and requests a context at the version's major
/// number.
fn create_offscreen(
    egl: &mut Egl,
    share: Option<u64>,
    api_type: &GlType,
    api_version: GLVersion,
) -> (r: Result<NativeGLContext, &'static str>)
    requires
        old(egl).wf(),
    ensures
        final(egl).wf(),
        r.is_ok() <==> (old(egl).can_alloc(2) && (share_spec(share) != NO_CONTEXT ==> old(
            egl,
        ).live_contexts().contains(share_spec(share))) && (supported_version(api_version.major)
            || share.is_some())),
        r.is_ok() ==> ({
            let c = r.unwrap();
            &&& !c.is_weak()
            &&& c.context_id() != NO_CONTEXT
            &&& c.display_id() == old(egl).default_display_id()
            &&& !old(egl).live_contexts().contains(c.context_id())
            &&& final(egl).live_contexts() == old(egl).live_contexts().insert(c.context_id())
            &&& !old(egl).live_surfaces().contains(c.surface_id())
            &&& final(egl).live_surfaces() == old(egl).live_surfaces().insert(c.surface_id())
            &&& final(egl).current_context_id() != c.context_id()
        }),
        r.is_err() ==> ({
            &&& final(egl).live_contexts() == old(egl).live_contexts()
            &&& final(egl).live_surfaces() == old(egl).live_surfaces()
        }),
        final(egl).current_slot() == old(egl).current_slot(),
        final(egl).live_displays() == old(egl).live_displays(),
        final(egl).live_devices() == old(egl).live_devices(),
        final(egl).same_config(*old(egl)),
{
    let config = match api_type {
        GlType::Gl => GL_CONFIG,
        GlType::Gles => GLES_CONFIG,
    };
    let display = egl.get_default_display();
    proof {
        egl.lemma_wf();
    }
    let ghost egl0 = *egl;
    let surface = egl.create_pbuffer_surface(display, HEADLESS_SIZE, HEADLESS_SIZE);
    if surface == NO_SURFACE {
        return Err("off-screen buffer creation failed");
    }
    let r = NativeGLContext::new(egl, share, display, surface, config, api_version.major);
    proof {
        if r.is_err() {
            assert(egl.live_surfaces() =~= egl0.live_surfaces());
        }
    }
    r
}

/// Reads the thread's current context and display out of the platform's
/// thread-local slot.
fn current_handle(egl: &Egl) -> (r: Option<NativeGLContextHandle>)
    ensures
        r == spec_current_handle(*egl),
{
    let native_context = egl.get_current_context();
    let native_display = egl.get_current_display();

    if native_context != NO_CONTEXT && native_display != NO_DISPLAY {
        Some(NativeGLContextHandle(native_context, native_display))
    } else {
        None
    }
}

} // verus!
