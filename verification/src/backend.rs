//! The backend contract: the external collaborator owning the native
//! surface, current-binding and presentation, plus a verified simulated
//! implementation.

use vstd::prelude::*;
use crate::device::{same_report, NativeCall, NativeDevice};
use crate::extensions::ExtensionsList;
use crate::version::Version;

verus! {

/// One observable action performed on a backend.
#[derive(Clone, Copy, Debug, PartialEq, Eq, Structural)]
pub enum BackendEvent {
    /// The backend's context was bound as current.
    MadeCurrent,
    /// A frame was presented.
    Presented,
}

/// What a backend must provide: current-binding control, drawable size,
/// presentation, and a one-time resolution of the raw function table.
///
/// Any type meeting this contract is an acceptable backend.
pub trait Backend: Sized {
    /// Whether this backend's context is bound as current.
    spec fn sim_current(&self) -> bool;

    /// The drawable's dimensions, in pixels.
    spec fn sim_dimensions(&self) -> (u32, u32);

    /// The observable actions performed so far, oldest first.
    spec fn sim_events(&self) -> Seq<BackendEvent>;

    /// The version the fronted driver reports.
    spec fn sim_version(&self) -> Version;

    /// The extension flags the fronted driver reports.
    spec fn sim_extensions(&self) -> ExtensionsList;

    /// The anisotropy limit the fronted driver reports, if any.
    spec fn sim_max_anisotropy(&self) -> Option<u32>;

    /// Binds this backend's context as current on the calling thread.
    fn make_current(&mut self)
        ensures
            final(self).sim_current(),
            final(self).sim_events() == old(self).sim_events().push(BackendEvent::MadeCurrent),
            final(self).sim_dimensions() == old(self).sim_dimensions(),
            final(self).sim_version() == old(self).sim_version(),
            final(self).sim_extensions() == old(self).sim_extensions(),
            final(self).sim_max_anisotropy() == old(self).sim_max_anisotropy(),
    ;

    /// Reports whether this backend's context is bound as current.
    fn is_current(&self) -> (r: bool)
        ensures
            r == self.sim_current(),
    ;

    /// Reports the drawable's dimensions.
    fn get_framebuffer_dimensions(&self) -> (r: (u32, u32))
        ensures
            r == self.sim_dimensions(),
    ;

    /// Presents the current frame; may block on vertical synchronization.
    ///
    /// Takes the function table so the presentation lands on the same
    /// ordered log as the native calls around it: whether a flush came
    /// before the present is then a fact of one trace.
    fn swap_buffers(&mut self, device: &mut NativeDevice)
        ensures
            final(self).sim_events() == old(self).sim_events().push(BackendEvent::Presented),
            final(self).sim_current() == old(self).sim_current(),
            final(self).sim_dimensions() == old(self).sim_dimensions(),
            final(self).sim_version() == old(self).sim_version(),
            final(self).sim_extensions() == old(self).sim_extensions(),
            final(self).sim_max_anisotropy() == old(self).sim_max_anisotropy(),
            final(device).calls@ == old(device).calls@.push(NativeCall::Present),
            final(device).next_sampler_id == old(device).next_sampler_id,
            same_report(*old(device), *final(device)),
    ;

    /// Resolves the raw function table, done once at construction; the
    /// table fronts the same driver this backend reports for.
    fn resolve_function_table(&self) -> (d: NativeDevice)
        ensures
            d.reported_version == self.sim_version(),
            d.reported_extensions == self.sim_extensions(),
            d.reported_max_anisotropy == self.sim_max_anisotropy(),
            d.next_sampler_id == 1u32,
            d.calls@ == Seq::<NativeCall>::empty(),
    ;
}

/// A backend fronting a simulated driver, for tests and harnesses.
pub struct SimBackend {
    /// The version the simulated driver reports.
    pub version: Version,
    /// The extension flags the simulated driver reports.
    pub extensions: ExtensionsList,
    /// The anisotropy limit the simulated driver reports, if any.
    pub max_anisotropy: Option<u32>,
    /// Whether this backend's context is bound as current.
    pub current: bool,
    /// Drawable width in pixels.
    pub width: u32,
    /// Drawable height in pixels.
    pub height: u32,
    /// The observable actions performed so far.
    pub events: Vec<BackendEvent>,
}

impl SimBackend {
    /// A fresh simulated backend, not yet bound as current.
    pub fn new(
        version: Version,
        extensions: ExtensionsList,
        max_anisotropy: Option<u32>,
        width: u32,
        height: u32,
    ) -> (r: SimBackend)
        ensures
            r.version == version,
            r.extensions == extensions,
            r.max_anisotropy == max_anisotropy,
            r.current == false,
            r.width == width,
            r.height == height,
            r.events@ == Seq::<BackendEvent>::empty(),
    {
        let events: Vec<BackendEvent> = Vec::new();
        proof {
            assert(events@ =~= Seq::<BackendEvent>::empty());
        }
        SimBackend { version, extensions, max_anisotropy, current: false, width, height, events }
    }
}

impl Backend for SimBackend {
    open spec fn sim_current(&self) -> bool {
        self.current
    }

    open spec fn sim_dimensions(&self) -> (u32, u32) {
        (self.width, self.height)
    }

    open spec fn sim_events(&self) -> Seq<BackendEvent> {
        self.events@
    }

    open spec fn sim_version(&self) -> Version {
        self.version
    }

    open spec fn sim_extensions(&self) -> ExtensionsList {
        self.extensions
    }

    open spec fn sim_max_anisotropy(&self) -> Option<u32> {
        self.max_anisotropy
    }

    fn make_current(&mut self) {
        self.current = true;
        self.events.push(BackendEvent::MadeCurrent);
    }

    fn is_current(&self) -> (r: bool) {
        self.current
    }

    fn get_framebuffer_dimensions(&self) -> (r: (u32, u32)) {
        (self.width, self.height)
    }

    fn swap_buffers(&mut self, device: &mut NativeDevice) {
        device.record(NativeCall::Present);
        self.events.push(BackendEvent::Presented);
    }

    fn resolve_function_table(&self) -> (d: NativeDevice) {
        NativeDevice::new(self.version, self.extensions, self.max_anisotropy)
    }
}

} // verus!
