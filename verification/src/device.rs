//! The native side, modelled explicitly.
//!
//! A [`NativeDevice`] stands for the raw function table resolved once at
//! construction: it carries what the driver reports (version, extension
//! flags, limits) and an ordered log of every native call issued through it.
//! Contracts elsewhere in the crate state exactly which calls an operation
//! appends to that log.

use vstd::prelude::*;
use crate::extensions::ExtensionsList;
use crate::uniforms::{MagnifySamplerFilter, MinifySamplerFilter, SamplerWrapFunction};
use crate::version::Version;

verus! {

/// Which installation tier of the debug facility an entry point belongs to.
#[derive(Clone, Copy, Debug, PartialEq, Eq, Structural)]
pub enum DebugTier {
    /// The core-promoted facility.
    Core,
    /// The mobile-profile variant of the same extension.
    Khr,
    /// The legacy vendor-suffixed extension.
    Arb,
}

/// One native call, as recorded on the device log.
#[derive(Clone, Copy, Debug, PartialEq, Eq, Structural)]
pub enum NativeCall {
    /// Allocation of one sampler object with the given name.
    GenSamplers { id: u32 },
    /// Wrap mode applied to the S axis of a sampler.
    SamplerWrapS { sampler: u32, wrap: SamplerWrapFunction },
    /// Wrap mode applied to the T axis of a sampler.
    SamplerWrapT { sampler: u32, wrap: SamplerWrapFunction },
    /// Wrap mode applied to the R axis of a sampler.
    SamplerWrapR { sampler: u32, wrap: SamplerWrapFunction },
    /// Minification filter applied to a sampler.
    SamplerMinFilter { sampler: u32, minify: MinifySamplerFilter },
    /// Magnification filter applied to a sampler.
    SamplerMagFilter { sampler: u32, magnify: MagnifySamplerFilter },
    /// Anisotropy level applied to a sampler, already clamped to the device
    /// limit.
    SamplerAnisotropy { sampler: u32, level: u32 },
    /// Deletion of one sampler object.
    DeleteSampler { id: u32 },
    /// Enabling of synchronous debug output.
    EnableDebugOutputSynchronous,
    /// Registration of the debug trampoline through one tier's entry point.
    RegisterDebugCallback { tier: DebugTier },
    /// Configuration of the native filter to pass every source, type and
    /// severity through to the trampoline.
    ConfigureDebugFilter { tier: DebugTier },
    /// Enabling of debug output.
    EnableDebugOutput,
    /// Disabling of debug output through the core-style toggle.
    DisableDebugOutput,
    /// Unregistration of the legacy vendor-suffixed debug callback.
    ClearDebugCallbackArb,
    /// The framebuffer-container collaborator's teardown work.
    CleanupFramebuffers,
    /// The vertex-attribute-system collaborator's teardown work.
    CleanupVertexArrays,
    /// A full pipeline flush.
    Flush,
    /// A full pipeline finish.
    Finish,
    /// Presentation of the frame, performed by the backend; recorded here so
    /// that its order relative to the native calls around it is part of one
    /// trace.
    Present,
}

/// The raw native function table, resolved once from the backend.
///
/// The `reported_*` fields are what the driver answers to the probes run at
/// construction; they never change. `calls` is the ordered log of every
/// action issued while holding the exclusive handle — the native calls, and
/// the presentation the backend performs — and `next_sampler_id` the name
/// the driver will give the next sampler allocation.
pub struct NativeDevice {
    /// The version the driver reports.
    pub reported_version: Version,
    /// The extension flags the driver reports.
    pub reported_extensions: ExtensionsList,
    /// The anisotropy limit the driver reports, if any.
    pub reported_max_anisotropy: Option<u32>,
    /// The name the next sampler allocation will return.
    pub next_sampler_id: u32,
    /// Every native call issued through this table, oldest first.
    pub calls: Vec<NativeCall>,
}

/// True when `post` reports exactly what `pre` reports.
pub open spec fn same_report(pre: NativeDevice, post: NativeDevice) -> bool {
    &&& post.reported_version == pre.reported_version
    &&& post.reported_extensions == pre.reported_extensions
    &&& post.reported_max_anisotropy == pre.reported_max_anisotropy
}

impl NativeDevice {
    /// A freshly resolved table: nothing called yet, first sampler name is 1.
    pub fn new(
        version: Version,
        extensions: ExtensionsList,
        max_anisotropy: Option<u32>,
    ) -> (r: NativeDevice)
        ensures
            r.reported_version == version,
            r.reported_extensions == extensions,
            r.reported_max_anisotropy == max_anisotropy,
            r.next_sampler_id == 1u32,
            r.calls@ == Seq::<NativeCall>::empty(),
    {
        let calls: Vec<NativeCall> = Vec::new();
        assert(calls@ =~= Seq::<NativeCall>::empty());
        NativeDevice {
            reported_version: version,
            reported_extensions: extensions,
            reported_max_anisotropy: max_anisotropy,
            next_sampler_id: 1,
            calls,
        }
    }

    /// Issues one native call: appends it to the log and changes nothing
    /// else.
    pub fn record(&mut self, call: NativeCall)
        ensures
            final(self).calls@ == old(self).calls@.push(call),
            final(self).next_sampler_id == old(self).next_sampler_id,
            same_report(*old(self), *final(self)),
    {
        self.calls.push(call);
    }

    /// Allocates one sampler object: logs the allocation and hands out the
    /// next driver name.
    pub fn gen_sampler(&mut self) -> (id: u32)
        requires
            old(self).next_sampler_id < u32::MAX,
        ensures
            id == old(self).next_sampler_id,
            final(self).next_sampler_id == old(self).next_sampler_id + 1,
            final(self).calls@ == old(self).calls@.push(NativeCall::GenSamplers { id }),
            same_report(*old(self), *final(self)),
    {
        let id = self.next_sampler_id;
        self.next_sampler_id = self.next_sampler_id + 1;
        self.calls.push(NativeCall::GenSamplers { id });
        id
    }
}

} // verus!
