//! A model of the EGL-style platform graphics interface.
//!
//! The platform API owns the per-thread current-context slot and the native
//! context, surface, display and device resources.  This layer never caches
//! that state: it queries and manipulates it only through the operations
//! below.  The model represents the API's observable state as an explicit
//! value, so that the lifecycle rules built on top of it can be stated as
//! contracts and proved.
//!
//! Two documented driver behaviours are part of the model, so that the
//! workarounds for them can be exercised and verified:
//! - a driver that refuses to create a shared context whose requested
//!   client version differs from 3 (`strict_shared_version`);
//! - a driver that rejects make-current transitions (`bind_fails`).

use vstd::prelude::*;
use std::collections::HashSet;

verus! {

broadcast use vstd::std_specs::hash::group_hash_axioms;

/// The id that stands for "no context".
pub const NO_CONTEXT: u64 = 0;

/// The id that stands for "no surface".
pub const NO_SURFACE: u64 = 0;

/// The id that stands for "no display".
pub const NO_DISPLAY: u64 = 0;

/// Whether the driver supports contexts of the given client version.
pub open spec fn supported_version(client_version: u8) -> bool {
    1 <= client_version <= 3
}

/// The contents of the thread's current-context slot: the display, draw
/// surface and context that are current.
#[derive(Clone, Copy, Debug, PartialEq, Eq, Structural)]
pub struct CurrentSlot {
    /// The display the current context was made current against.
    pub display: u64,
    /// The draw surface bound with the current context.
    pub surface: u64,
    /// The current context itself.
    pub context: u64,
}

/// The observable state of the platform graphics API.
///
/// At most one native context is current per thread at any instant; that
/// single slot is `current`.  The registries hold the ids of the native
/// resources that are live (created and not yet destroyed).  Fresh ids are
/// drawn from a counter, so an id is never reused within one `Egl` value.
pub struct Egl {
    next_id: u64,
    default_display: u64,
    contexts: HashSet<u64>,
    surfaces: HashSet<u64>,
    displays: HashSet<u64>,
    devices: HashSet<u64>,
    current: Option<CurrentSlot>,
    strict_shared_version: bool,
    bind_fails: bool,
}

impl Egl {
    /// The thread's current-context slot, or `None` if nothing is current.
    pub closed spec fn current_slot(self) -> Option<CurrentSlot> {
        self.current
    }

    /// The ids of the live native contexts.
    pub closed spec fn live_contexts(self) -> Set<u64> {
        self.contexts@
    }

    /// The ids of the live native surfaces.
    pub closed spec fn live_surfaces(self) -> Set<u64> {
        self.surfaces@
    }

    /// The ids of the live native displays.
    pub closed spec fn live_displays(self) -> Set<u64> {
        self.displays@
    }

    /// The ids of the live device-extension handles.
    pub closed spec fn live_devices(self) -> Set<u64> {
        self.devices@
    }

    /// Whether this driver refuses to create a shared context whose
    /// requested client version differs from 3.
    pub closed spec fn strict_shared_version(self) -> bool {
        self.strict_shared_version
    }

    /// Whether this driver rejects make-current transitions.
    pub closed spec fn bind_would_fail(self) -> bool {
        self.bind_fails
    }

    /// The id of the display that is open by default.
    pub closed spec fn default_display_id(self) -> u64 {
        self.default_display
    }

    /// All ids handed out so far are below this bound.
    pub closed spec fn id_bound(self) -> u64 {
        self.next_id
    }

    /// The id of the current context, or `NO_CONTEXT`.
    pub open spec fn current_context_id(self) -> u64 {
        match self.current_slot() {
            Some(slot) => slot.context,
            None => NO_CONTEXT,
        }
    }

    /// The id of the current display, or `NO_DISPLAY`.
    pub open spec fn current_display_id(self) -> u64 {
        match self.current_slot() {
            Some(slot) => slot.display,
            None => NO_DISPLAY,
        }
    }

    /// The id of the current draw surface, or `NO_SURFACE`.
    pub open spec fn current_surface_id(self) -> u64 {
        match self.current_slot() {
            Some(slot) => slot.surface,
            None => NO_SURFACE,
        }
    }

    /// Whether `n` more fresh ids can still be handed out.
    pub open spec fn can_alloc(self, n: int) -> bool {
        self.id_bound() + n <= u64::MAX
    }

    /// The driver's configuration: its quirks and its default display.
    /// No operation of the API changes these.
    pub open spec fn same_config(self, other: Egl) -> bool {
        &&& self.strict_shared_version() == other.strict_shared_version()
        &&& self.bind_would_fail() == other.bind_would_fail()
        &&& self.default_display_id() == other.default_display_id()
    }

    /// Well-formedness: ids are nonzero and below the freshness bound, the
    /// default display is live, and an occupied current slot holds nonzero
    /// ids below the bound.
    pub closed spec fn wf(self) -> bool {
        &&& 1 <= self.next_id
        &&& forall|id: u64| self.contexts@.contains(id) ==> 0 < id < self.next_id
        &&& forall|id: u64| self.surfaces@.contains(id) ==> 0 < id < self.next_id
        &&& forall|id: u64| self.displays@.contains(id) ==> 0 < id < self.next_id
        &&& forall|id: u64| self.devices@.contains(id) ==> 0 < id < self.next_id
        &&& 0 < self.default_display < self.next_id
        &&& self.displays@.contains(self.default_display)
        &&& match self.current {
            Some(slot) => {
                &&& 0 < slot.context < self.next_id
                &&& 0 < slot.display < self.next_id
                &&& 0 < slot.surface < self.next_id
            },
            None => true,
        }
    }

    /// Whether a context-creation request would be honoured: ids must not
    /// be exhausted, the display must be live, the client version must be
    /// one the driver supports, a sharing context must be live, and a
    /// strict driver additionally insists that a shared context be
    /// requested with client version 3.
    pub open spec fn create_context_ok(self, display: u64, share: u64, client_version: u8) -> bool {
        &&& self.can_alloc(1)
        &&& self.live_displays().contains(display)
        &&& supported_version(client_version)
        &&& share != NO_CONTEXT ==> self.live_contexts().contains(share)
        &&& (share != NO_CONTEXT && self.strict_shared_version()) ==> client_version == 3
    }

    /// Whether a make-current request for a real context would be
    /// honoured: the driver must not reject binds, and the display,
    /// surface and context must all be live.
    pub open spec fn bind_ok(self, display: u64, surface: u64, context: u64) -> bool {
        &&& !self.bind_would_fail()
        &&& self.live_displays().contains(display)
        &&& self.live_surfaces().contains(surface)
        &&& self.live_contexts().contains(context)
    }

    /// The consequences of well-formedness that clients of the platform
    /// API rely on: the default display is live, live ids are nonzero,
    /// and an occupied current slot holds nonzero ids below the
    /// freshness bound.
    pub proof fn lemma_wf(self)
        requires
            self.wf(),
        ensures
            self.live_displays().contains(self.default_display_id()),
            self.default_display_id() != NO_DISPLAY,
            forall|id: u64| self.live_contexts().contains(id) ==> 0 < id < self.id_bound(),
            forall|id: u64| self.live_surfaces().contains(id) ==> 0 < id < self.id_bound(),
            forall|id: u64| self.live_displays().contains(id) ==> 0 < id < self.id_bound(),
            forall|id: u64| self.live_devices().contains(id) ==> 0 < id < self.id_bound(),
            match self.current_slot() {
                Some(slot) => {
                    &&& 0 < slot.context < self.id_bound()
                    &&& 0 < slot.display < self.id_bound()
                    &&& 0 < slot.surface < self.id_bound()
                },
                None => true,
            },
    {
    }

    /// Opens the platform API with a well-behaved driver: one default
    /// display, nothing current, no resources live.
    pub fn new() -> (r: Egl)
        ensures
            r.wf(),
            r.current_slot() == None::<CurrentSlot>,
            r.live_contexts() == Set::<u64>::empty(),
            r.live_surfaces() == Set::<u64>::empty(),
            r.live_devices() == Set::<u64>::empty(),
            r.live_displays() == Set::<u64>::empty().insert(r.default_display_id()),
            !r.strict_shared_version(),
            !r.bind_would_fail(),
            r.can_alloc(u64::MAX - 2),
    {
        Egl::with_quirks(false, false)
    }

    /// Opens the platform API with a driver that exhibits the requested
    /// quirks.
    pub fn with_quirks(strict_shared_version: bool, bind_fails: bool) -> (r: Egl)
        ensures
            r.wf(),
            r.current_slot() == None::<CurrentSlot>,
            r.live_contexts() == Set::<u64>::empty(),
            r.live_surfaces() == Set::<u64>::empty(),
            r.live_devices() == Set::<u64>::empty(),
            r.live_displays() == Set::<u64>::empty().insert(r.default_display_id()),
            r.strict_shared_version() == strict_shared_version,
            r.bind_would_fail() == bind_fails,
            r.can_alloc(u64::MAX - 2),
    {
        let mut displays: HashSet<u64> = HashSet::new();
        displays.insert(1);
        Egl {
            next_id: 2,
            default_display: 1,
            contexts: HashSet::new(),
            surfaces: HashSet::new(),
            displays,
            devices: HashSet::new(),
            current: None,
            strict_shared_version,
            bind_fails,
        }
    }

    /// How many fresh ids the driver can still hand out.
    pub fn id_headroom(&self) -> (r: u64)
        ensures
            r as int == u64::MAX - self.id_bound(),
    {
        u64::MAX - self.next_id
    }

    /// Whether `display` is a live display.
    pub fn is_live_display(&self, display: u64) -> (r: bool)
        ensures
            r == self.live_displays().contains(display),
    {
        self.displays.contains(&display)
    }

    /// Whether `context` is a live context.
    pub fn is_live_context(&self, context: u64) -> (r: bool)
        ensures
            r == self.live_contexts().contains(context),
    {
        self.contexts.contains(&context)
    }

    /// Whether `surface` is a live surface.
    pub fn is_live_surface(&self, surface: u64) -> (r: bool)
        ensures
            r == self.live_surfaces().contains(surface),
    {
        self.surfaces.contains(&surface)
    }

    /// The display that is open by default.
    pub fn get_default_display(&self) -> (d: u64)
        ensures
            d == self.default_display_id(),
    {
        self.default_display
    }

    /// Hands out a fresh nonzero id, or 0 if the id space is exhausted.
    fn alloc_id(&mut self) -> (id: u64)
        requires
            old(self).wf(),
        ensures
            final(self).wf(),
            id != 0 <==> old(self).can_alloc(1),
            id != 0 ==> {
                &&& id == old(self).id_bound()
                &&& final(self).id_bound() == old(self).id_bound() + 1
                &&& !old(self).live_contexts().contains(id)
                &&& !old(self).live_surfaces().contains(id)
                &&& !old(self).live_displays().contains(id)
                &&& !old(self).live_devices().contains(id)
            },
            id == 0 ==> final(self).id_bound() == old(self).id_bound(),
            final(self).live_contexts() == old(self).live_contexts(),
            final(self).live_surfaces() == old(self).live_surfaces(),
            final(self).live_displays() == old(self).live_displays(),
            final(self).live_devices() == old(self).live_devices(),
            final(self).current_slot() == old(self).current_slot(),
            final(self).same_config(*old(self)),
    {
        if self.next_id == u64::MAX {
            0
        } else {
            let id = self.next_id;
            self.next_id = id + 1;
            id
        }
    }

    /// Creates a native context against `display` and `config`, optionally
    /// sharing object namespaces with `share`.  Returns the fresh context
    /// id, or `NO_CONTEXT` if the driver refuses the request.  The config
    /// does not constrain this model driver.
    pub fn create_context(&mut self, display: u64, _config: u64, share: u64, client_version: u8) -> (ctx: u64)
        requires
            old(self).wf(),
        ensures
            final(self).wf(),
            ctx != NO_CONTEXT <==> old(self).create_context_ok(display, share, client_version),
            ctx != NO_CONTEXT ==> {
                &&& !old(self).live_contexts().contains(ctx)
                &&& final(self).live_contexts() == old(self).live_contexts().insert(ctx)
                &&& final(self).id_bound() == old(self).id_bound() + 1
                &&& final(self).current_context_id() != ctx
            },
            ctx == NO_CONTEXT ==> {
                &&& final(self).live_contexts() == old(self).live_contexts()
                &&& final(self).id_bound() == old(self).id_bound()
            },
            final(self).live_surfaces() == old(self).live_surfaces(),
            final(self).live_displays() == old(self).live_displays(),
            final(self).live_devices() == old(self).live_devices(),
            final(self).current_slot() == old(self).current_slot(),
            final(self).same_config(*old(self)),
    {
        if !self.displays.contains(&display) {
            return NO_CONTEXT;
        }
        if client_version < 1 || client_version > 3 {
            return NO_CONTEXT;
        }
        if share != NO_CONTEXT && !self.contexts.contains(&share) {
            return NO_CONTEXT;
        }
        if share != NO_CONTEXT && self.strict_shared_version && client_version != 3 {
            return NO_CONTEXT;
        }
        let id = self.alloc_id();
        if id == 0 {
            return NO_CONTEXT;
        }
        self.contexts.insert(id);
        id
    }

    /// Creates an off-screen pixel-buffer surface on `display`.  Returns
    /// the fresh surface id, or `NO_SURFACE` if the display is not live or
    /// the id space is exhausted.
    pub fn create_pbuffer_surface(&mut self, display: u64, width: i32, height: i32) -> (s: u64)
        requires
            old(self).wf(),
            0 < width,
            0 < height,
        ensures
            final(self).wf(),
            s != NO_SURFACE <==> (old(self).can_alloc(1) && old(self).live_displays().contains(display)),
            s != NO_SURFACE ==> {
                &&& !old(self).live_surfaces().contains(s)
                &&& final(self).live_surfaces() == old(self).live_surfaces().insert(s)
                &&& final(self).id_bound() == old(self).id_bound() + 1
            },
            s == NO_SURFACE ==> {
                &&& final(self).live_surfaces() == old(self).live_surfaces()
                &&& final(self).id_bound() == old(self).id_bound()
            },
            final(self).live_contexts() == old(self).live_contexts(),
            final(self).live_displays() == old(self).live_displays(),
            final(self).live_devices() == old(self).live_devices(),
            final(self).current_slot() == old(self).current_slot(),
            final(self).same_config(*old(self)),
    {
        if !self.displays.contains(&display) {
            return NO_SURFACE;
        }
        let id = self.alloc_id();
        if id == 0 {
            return NO_SURFACE;
        }
        self.surfaces.insert(id);
        id
    }

    /// Makes `context` current on the calling thread with `draw` and
    /// `read` as its surfaces, or clears the slot when `context` is
    /// `NO_CONTEXT`.  Returns whether the driver accepted the transition.
    /// Clearing the slot always succeeds; a real bind succeeds under
    /// [`Egl::bind_ok`].  This layer always passes one surface for both
    /// draw and read; the model tracks the draw surface.
    pub fn make_current(&mut self, display: u64, draw: u64, _read: u64, context: u64) -> (ok: bool)
        requires
            old(self).wf(),
        ensures
            final(self).wf(),
            context == NO_CONTEXT ==> {
                &&& ok
                &&& final(self).current_slot() == None::<CurrentSlot>
            },
            context != NO_CONTEXT ==> {
                &&& ok <==> old(self).bind_ok(display, draw, context)
                &&& ok ==> final(self).current_slot() == Some(CurrentSlot { display, surface: draw, context })
                &&& !ok ==> final(self).current_slot() == old(self).current_slot()
            },
            final(self).live_contexts() == old(self).live_contexts(),
            final(self).live_surfaces() == old(self).live_surfaces(),
            final(self).live_displays() == old(self).live_displays(),
            final(self).live_devices() == old(self).live_devices(),
            final(self).id_bound() == old(self).id_bound(),
            final(self).same_config(*old(self)),
    {
        if context == NO_CONTEXT {
            self.current = None;
            return true;
        }
        if self.bind_fails {
            return false;
        }
        if !self.displays.contains(&display) {
            return false;
        }
        if !self.surfaces.contains(&draw) {
            return false;
        }
        if !self.contexts.contains(&context) {
            return false;
        }
        self.current = Some(CurrentSlot { display, surface: draw, context });
        true
    }

    /// The context occupying the thread's current slot, or `NO_CONTEXT`.
    pub fn get_current_context(&self) -> (ctx: u64)
        ensures
            ctx == self.current_context_id(),
    {
        match self.current {
            Some(slot) => slot.context,
            None => NO_CONTEXT,
        }
    }

    /// The display occupying the thread's current slot, or `NO_DISPLAY`.
    pub fn get_current_display(&self) -> (d: u64)
        ensures
            d == self.current_display_id(),
    {
        match self.current {
            Some(slot) => slot.display,
            None => NO_DISPLAY,
        }
    }

    /// The draw surface occupying the thread's current slot, or
    /// `NO_SURFACE`.
    pub fn get_current_surface(&self) -> (s: u64)
        ensures
            s == self.current_surface_id(),
    {
        match self.current {
            Some(slot) => slot.surface,
            None => NO_SURFACE,
        }
    }

    /// Destroys a native surface.  Returns whether the driver accepted:
    /// the display must be live and the surface must have been live.
    /// Destruction does not touch the current slot.
    pub fn destroy_surface(&mut self, display: u64, surface: u64) -> (ok: bool)
        requires
            old(self).wf(),
        ensures
            final(self).wf(),
            ok <==> (old(self).live_displays().contains(display)
                && old(self).live_surfaces().contains(surface)),
            old(self).live_displays().contains(display) ==> final(self).live_surfaces()
                == old(self).live_surfaces().remove(surface),
            !old(self).live_displays().contains(display) ==> final(self).live_surfaces()
                == old(self).live_surfaces(),
            final(self).live_contexts() == old(self).live_contexts(),
            final(self).live_displays() == old(self).live_displays(),
            final(self).live_devices() == old(self).live_devices(),
            final(self).current_slot() == old(self).current_slot(),
            final(self).id_bound() == old(self).id_bound(),
            final(self).same_config(*old(self)),
    {
        if !self.displays.contains(&display) {
            return false;
        }
        self.surfaces.remove(&surface)
    }

    /// Destroys a native context.  Returns whether the driver accepted:
    /// the display must be live and the context must have been live.
    /// Destruction does not touch the current slot.
    pub fn destroy_context(&mut self, display: u64, context: u64) -> (ok: bool)
        requires
            old(self).wf(),
        ensures
            final(self).wf(),
            ok <==> (old(self).live_displays().contains(display)
                && old(self).live_contexts().contains(context)),
            old(self).live_displays().contains(display) ==> final(self).live_contexts()
                == old(self).live_contexts().remove(context),
            !old(self).live_displays().contains(display) ==> final(self).live_contexts()
                == old(self).live_contexts(),
            final(self).live_surfaces() == old(self).live_surfaces(),
            final(self).live_displays() == old(self).live_displays(),
            final(self).live_devices() == old(self).live_devices(),
            final(self).current_slot() == old(self).current_slot(),
            final(self).id_bound() == old(self).id_bound(),
            final(self).same_config(*old(self)),
    {
        if !self.displays.contains(&display) {
            return false;
        }
        self.contexts.remove(&context)
    }

    /// Registers a foreign 3D-API device with the device-creation
    /// extension, yielding a device-extension handle.  Given a real
    /// foreign device and a free id, registration always succeeds.
    pub fn create_device_from_d3d11(&mut self, d3d11_device: u64) -> (dev: u64)
        requires
            old(self).wf(),
            d3d11_device != 0,
            old(self).can_alloc(1),
        ensures
            final(self).wf(),
            dev != 0,
            !old(self).live_devices().contains(dev),
            final(self).live_devices() == old(self).live_devices().insert(dev),
            final(self).id_bound() == old(self).id_bound() + 1,
            final(self).live_contexts() == old(self).live_contexts(),
            final(self).live_surfaces() == old(self).live_surfaces(),
            final(self).live_displays() == old(self).live_displays(),
            final(self).current_slot() == old(self).current_slot(),
            final(self).same_config(*old(self)),
    {
        let id = self.alloc_id();
        self.devices.insert(id);
        id
    }

    /// Opens a display bound to a device-extension handle.  Given a live
    /// device handle and a free id, this always succeeds.
    pub fn get_platform_display(&mut self, device: u64) -> (d: u64)
        requires
            old(self).wf(),
            old(self).live_devices().contains(device),
            old(self).can_alloc(1),
        ensures
            final(self).wf(),
            d != NO_DISPLAY,
            !old(self).live_displays().contains(d),
            final(self).live_displays() == old(self).live_displays().insert(d),
            final(self).id_bound() == old(self).id_bound() + 1,
            final(self).live_contexts() == old(self).live_contexts(),
            final(self).live_surfaces() == old(self).live_surfaces(),
            final(self).live_devices() == old(self).live_devices(),
            final(self).current_slot() == old(self).current_slot(),
            final(self).same_config(*old(self)),
    {
        let id = self.alloc_id();
        self.displays.insert(id);
        id
    }

    /// Initializes a live display, reporting the version of the platform
    /// API it speaks.  Initializing a live display always succeeds.
    pub fn initialize(&mut self, display: u64) -> (version: (i32, i32))
        requires
            old(self).wf(),
            old(self).live_displays().contains(display),
        ensures
            final(self).wf(),
            *final(self) == *old(self),
            version.0 == 1i32 && version.1 == 4i32,
    {
        let _ = display;
        (1, 4)
    }
}

} // verus!
