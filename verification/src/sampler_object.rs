//! Sampler resources: lazily created, cached by descriptor, destroyed
//! exactly once before being discarded.

use vstd::prelude::*;
use crate::capabilities::Capabilities;
use crate::context::{same_context_probe, CommandContext};
use crate::device::NativeCall;
use crate::extensions::ExtensionsList;
use crate::uniforms::SamplerBehavior;
use crate::version::{Api, Version};

verus! {

/// Why a per-call resource request failed.
#[derive(Clone, Copy, Debug, PartialEq, Eq, Structural)]
pub enum DrawError {
    /// Sampler objects are unavailable on this version and extension set.
    SamplersNotSupported,
}

/// Sampler objects are available: core promotion reached or the dedicated
/// extension present.
pub open spec fn supports_samplers(v: Version, e: ExtensionsList) -> bool {
    v.spec_at_least(Api::Gl, 3, 2) || e.gl_arb_sampler_objects
}

/// The anisotropy level actually applied: the request, clamped to the
/// device's reported maximum.
pub open spec fn spec_applied_anisotropy(requested: u16, max: u32) -> u32 {
    if requested as u32 > max {
        max
    } else {
        requested as u32
    }
}

/// The native calls that configure one fresh sampler, in fixed order:
/// allocation, the three wrap axes, the two filters, and the clamped
/// anisotropy exactly when the device reports a maximum.
pub open spec fn spec_sampler_setup_calls(
    b: SamplerBehavior,
    caps: Capabilities,
    id: u32,
) -> Seq<NativeCall> {
    let base = seq![
        NativeCall::GenSamplers { id },
        NativeCall::SamplerWrapS { sampler: id, wrap: b.wrap_s },
        NativeCall::SamplerWrapT { sampler: id, wrap: b.wrap_t },
        NativeCall::SamplerWrapR { sampler: id, wrap: b.wrap_r },
        NativeCall::SamplerMinFilter { sampler: id, minify: b.minify_filter },
        NativeCall::SamplerMagFilter { sampler: id, magnify: b.magnify_filter },
    ];
    match caps.max_texture_max_anisotropy {
        Some(max) => base.push(
            NativeCall::SamplerAnisotropy {
                sampler: id,
                level: spec_applied_anisotropy(b.max_anisotropy, max),
            },
        ),
        None => base,
    }
}

/// Configuring one sampler performs exactly one allocation: the first call,
/// and no later one.
pub proof fn lemma_setup_calls_single_allocation(b: SamplerBehavior, caps: Capabilities, id: u32)
    ensures
        spec_sampler_setup_calls(b, caps, id)[0] == (NativeCall::GenSamplers { id }),
        forall|i: int|
            1 <= i < spec_sampler_setup_calls(b, caps, id).len() ==> !((
            #[trigger] spec_sampler_setup_calls(b, caps, id)[i]
            ) matches NativeCall::GenSamplers { .. }),
{
}

/// A native sampler object: a driver name plus the destroyed marker.
pub struct SamplerObject {
    id: u32,
    destroyed: bool,
}

impl SamplerObject {
    /// The driver name of this sampler.
    pub closed spec fn spec_id(&self) -> u32 {
        self.id
    }

    /// Whether the mandatory destroy has happened.
    pub closed spec fn spec_destroyed(&self) -> bool {
        self.destroyed
    }

    /// The driver name of this sampler.
    pub fn get_id(&self) -> (r: u32)
        ensures
            r == self.spec_id(),
    {
        self.id
    }

    /// Builds a new sampler object and applies its parameters in fixed
    /// order.
    pub fn new(ctxt: &mut CommandContext, behavior: &SamplerBehavior) -> (r: SamplerObject)
        requires
            supports_samplers(old(ctxt).version, old(ctxt).extensions),
            old(ctxt).device.next_sampler_id < u32::MAX,
        ensures
            r.spec_id() == old(ctxt).device.next_sampler_id,
            !r.spec_destroyed(),
            final(ctxt).device.calls@ == old(ctxt).device.calls@ + spec_sampler_setup_calls(
                *behavior,
                old(ctxt).capabilities,
                r.spec_id(),
            ),
            final(ctxt).device.next_sampler_id == old(ctxt).device.next_sampler_id + 1,
            final(ctxt).state == old(ctxt).state,
            same_context_probe(*old(ctxt), *final(ctxt)),
    {
        let sampler = ctxt.device.gen_sampler();

        ctxt.device.record(NativeCall::SamplerWrapS { sampler, wrap: behavior.wrap_s });
        ctxt.device.record(NativeCall::SamplerWrapT { sampler, wrap: behavior.wrap_t });
        ctxt.device.record(NativeCall::SamplerWrapR { sampler, wrap: behavior.wrap_r });
        ctxt.device.record(
            NativeCall::SamplerMinFilter { sampler, minify: behavior.minify_filter },
        );
        ctxt.device.record(
            NativeCall::SamplerMagFilter { sampler, magnify: behavior.magnify_filter },
        );

        match ctxt.capabilities.max_texture_max_anisotropy {
            Some(max_value) => {
                let value: u32 = if behavior.max_anisotropy as u32 > max_value {
                    max_value
                } else {
                    behavior.max_anisotropy as u32
                };
                ctxt.device.record(NativeCall::SamplerAnisotropy { sampler, level: value });
            },
            None => {},
        }

        proof {
            assert(ctxt.device.calls@ =~= old(ctxt).device.calls@ + spec_sampler_setup_calls(
                *behavior,
                old(ctxt).capabilities,
                sampler,
            ));
        }

        SamplerObject { id: sampler, destroyed: false }
    }

    /// Issues the native deletion call, marks the resource destroyed, and
    /// lets the now-clean resource reach end of life.
    pub fn destroy(self, ctxt: &mut CommandContext)
        ensures
            final(ctxt).device.calls@ == old(ctxt).device.calls@.push(
                NativeCall::DeleteSampler { id: self.spec_id() },
            ),
            final(ctxt).device.next_sampler_id == old(ctxt).device.next_sampler_id,
            final(ctxt).state == old(ctxt).state,
            same_context_probe(*old(ctxt), *final(ctxt)),
    {
        let mut resource = self;
        resource.destroyed = true;
        ctxt.device.record(NativeCall::DeleteSampler { id: resource.id });
        // Destroying then discarding must never trip the end-of-life check.
        let clean = resource.discard();
        assert(clean);
    }

    /// Consumes a resource at end of life and reports whether the mandatory
    /// destroy had happened; a `false` verdict is an invariant violation,
    /// never silently tolerated.
    pub fn discard(self) -> (clean: bool)
        ensures
            clean == self.spec_destroyed(),
    {
        self.destroyed
    }
}

/// The descriptor-keyed store of sampler resources.
///
/// Entries are kept in creation order; a well-formed cache never holds two
/// entries for one descriptor, nor a destroyed resource.
pub struct SamplerCache {
    /// The cached resources, oldest first.
    pub entries: Vec<(SamplerBehavior, SamplerObject)>,
}

/// The native deletions that drain a cache, in entry order.
pub open spec fn spec_delete_calls(entries: Seq<(SamplerBehavior, SamplerObject)>) -> Seq<
    NativeCall,
> {
    entries.map_values(|e: (SamplerBehavior, SamplerObject)| NativeCall::DeleteSampler {
        id: e.1.spec_id(),
    })
}

impl SamplerCache {
    /// An empty cache.
    pub fn new() -> (r: SamplerCache)
        ensures
            r.entries@.len() == 0,
            r.spec_wf(),
    {
        SamplerCache { entries: Vec::new() }
    }

    /// The cache holds an entry for this descriptor.
    pub open spec fn spec_contains(&self, b: SamplerBehavior) -> bool {
        exists|i: int| 0 <= i < self.entries@.len() && self.entries@[i].0 == b
    }

    /// Well-formedness: distinct descriptors, and no destroyed resource is
    /// still cached.
    pub open spec fn spec_wf(&self) -> bool {
        &&& forall|i: int, j: int|
            0 <= i < j < self.entries@.len() ==> self.entries@[i].0 != self.entries@[j].0
        &&& forall|i: int|
            0 <= i < self.entries@.len() ==> !self.entries@[i].1.spec_destroyed()
    }
}

/// With a well-formed cache, two entries matching one descriptor are the
/// same entry, so the id a hit returns is uniquely determined.
pub proof fn lemma_cached_id_unique(c: SamplerCache, b: SamplerBehavior, i: int, j: int)
    requires
        c.spec_wf(),
        0 <= i < c.entries@.len(),
        0 <= j < c.entries@.len(),
        c.entries@[i].0 == b,
        c.entries@[j].0 == b,
    ensures
        i == j,
        c.entries@[i].1.spec_id() == c.entries@[j].1.spec_id(),
{
}

/// A descriptor cached by a miss is what the next request finds: in the
/// grown cache, any entry matching that descriptor carries exactly the id
/// the miss returned, so requesting the same descriptor twice yields the
/// same resource id and the one allocation the miss performed.
pub proof fn lemma_repeat_request_returns_cached_id(
    pre: Seq<(SamplerBehavior, SamplerObject)>,
    obj: SamplerObject,
    b: SamplerBehavior,
    i: int,
)
    requires
        forall|j: int| 0 <= j < pre.len() ==> pre[j].0 != b,
        0 <= i < pre.push((b, obj)).len(),
        pre.push((b, obj))[i].0 == b,
    ensures
        i == pre.len(),
        pre.push((b, obj))[i].1.spec_id() == obj.spec_id(),
{
    if i < pre.len() {
        assert(pre.push((b, obj))[i] == pre[i]);
    }
}

/// The repeated-request law: two consecutive requests for one descriptor,
/// against any well-formed cache, fail together or return the same resource
/// id both times; the second request touches neither the device nor the
/// cache; and across the two requests the device performed exactly the one
/// configuration sequence when the descriptor was new — whose sole
/// allocation `lemma_setup_calls_single_allocation` pins — and nothing at
/// all when it was already cached or samplers are unsupported.
pub proof fn lemma_get_sampler_twice(
    ctxt0: CommandContext,
    cache0: SamplerCache,
    ctxt1: CommandContext,
    cache1: SamplerCache,
    ctxt2: CommandContext,
    cache2: SamplerCache,
    b: SamplerBehavior,
    r1: Result<u32, DrawError>,
    r2: Result<u32, DrawError>,
)
    requires
        cache0.spec_wf(),
        cache1.spec_wf(),
        get_sampler_post(ctxt0, cache0, b, ctxt1, cache1, r1),
        get_sampler_post(ctxt1, cache1, b, ctxt2, cache2, r2),
    ensures
        r1 is Ok <==> r2 is Ok,
        r1 is Ok ==> r1 == r2,
        ctxt2 == ctxt1,
        cache2 == cache1,
        r1 is Ok && !cache0.spec_contains(b) ==> ctxt2.device.calls@ == ctxt0.device.calls@
            + spec_sampler_setup_calls(b, ctxt0.capabilities, r1->Ok_0),
        !(r1 is Ok && !cache0.spec_contains(b)) ==> ctxt2 == ctxt0 && cache2 == cache0,
{
    match r1 {
        Err(_) => {
            if r2 is Ok {
                assert(supports_samplers(ctxt1.version, ctxt1.extensions));
                assert(false);
            }
        },
        Ok(id1) => {
            assert(supports_samplers(ctxt1.version, ctxt1.extensions));
            if r2 is Err {
                assert(false);
            }
            let id2 = r2->Ok_0;
            if cache0.spec_contains(b) {
                let i = choose|i: int|
                    0 <= i < cache0.entries@.len() && cache0.entries@[i].0 == b && id1
                        == cache0.entries@[i].1.spec_id();
                let j = choose|j: int|
                    0 <= j < cache1.entries@.len() && cache1.entries@[j].0 == b && id2
                        == cache1.entries@[j].1.spec_id();
                lemma_cached_id_unique(cache0, b, i, j);
            } else {
                let last = cache1.entries@.len() - 1;
                assert(cache1.entries@[last].0 == b);
                assert(cache1.spec_contains(b));
                let j = choose|j: int|
                    0 <= j < cache1.entries@.len() && cache1.entries@[j].0 == b && id2
                        == cache1.entries@[j].1.spec_id();
                if j < last {
                    assert(cache1.entries@.drop_last()[j] == cache0.entries@[j]);
                    assert(cache0.entries@[j].0 == b);
                    assert(false);
                }
                assert(id2 == cache1.entries@[last].1.spec_id());
            }
        },
    }
}

/// What one request leaves behind, given the handle and cache it started
/// from: the exact relation `get_sampler` establishes.
///
/// An unsupported request fails and touches nothing. A hit returns a cached
/// id and touches nothing. A miss returns the next driver name, appends
/// exactly the fixed configuration sequence to the device log, and grows the
/// cache by the one new entry.
pub open spec fn get_sampler_post(
    pre_ctxt: CommandContext,
    pre_cache: SamplerCache,
    b: SamplerBehavior,
    post_ctxt: CommandContext,
    post_cache: SamplerCache,
    r: Result<u32, DrawError>,
) -> bool {
    match r {
        Err(e) => {
            &&& e == DrawError::SamplersNotSupported
            &&& !supports_samplers(pre_ctxt.version, pre_ctxt.extensions)
            &&& post_ctxt == pre_ctxt
            &&& post_cache == pre_cache
        },
        Ok(id) => {
            &&& supports_samplers(pre_ctxt.version, pre_ctxt.extensions)
            &&& if pre_cache.spec_contains(b) {
                &&& post_ctxt == pre_ctxt
                &&& post_cache == pre_cache
                &&& exists|i: int|
                    0 <= i < pre_cache.entries@.len() && pre_cache.entries@[i].0 == b && id
                        == pre_cache.entries@[i].1.spec_id()
            } else {
                &&& id == pre_ctxt.device.next_sampler_id
                &&& post_cache.entries@.len() == pre_cache.entries@.len() + 1
                &&& post_cache.entries@.drop_last() == pre_cache.entries@
                &&& post_cache.entries@.last().0 == b
                &&& post_cache.entries@.last().1.spec_id() == id
                &&& post_ctxt.device.calls@ == pre_ctxt.device.calls@
                    + spec_sampler_setup_calls(b, pre_ctxt.capabilities, id)
                &&& post_ctxt.device.next_sampler_id == pre_ctxt.device.next_sampler_id + 1
                &&& post_ctxt.state == pre_ctxt.state
                &&& same_context_probe(pre_ctxt, post_ctxt)
            }
        },
    }
}

/// Returns the sampler for the given descriptor, creating and caching it on
/// the first request, or an error when samplers are unsupported.
///
/// The capability check comes first: an unsupported request touches neither
/// the cache nor the device. A hit performs zero native calls; a miss
/// performs exactly the fixed configuration sequence and appends the new
/// resource to the cache.
#[verifier::loop_isolation(false)]
pub fn get_sampler(
    ctxt: &mut CommandContext,
    samplers: &mut SamplerCache,
    behavior: &SamplerBehavior,
) -> (r: Result<u32, DrawError>)
    requires
        old(samplers).spec_wf(),
        old(ctxt).device.next_sampler_id < u32::MAX,
    ensures
        final(samplers).spec_wf(),
        get_sampler_post(
            *old(ctxt),
            *old(samplers),
            *behavior,
            *final(ctxt),
            *final(samplers),
            r,
        ),
{
    if !ctxt.version.at_least(Api::Gl, 3, 2) && !ctxt.extensions.gl_arb_sampler_objects {
        return Err(DrawError::SamplersNotSupported);
    }

    let mut i: usize = 0;
    while i < samplers.entries.len()
        invariant
            i <= samplers.entries@.len(),
            forall|j: int| 0 <= j < i ==> samplers.entries@[j].0 != *behavior,
        decreases samplers.entries@.len() - i,
    {
        if samplers.entries[i].0 == *behavior {
            return Ok(samplers.entries[i].1.get_id());
        }
        i = i + 1;
    }
    assert(!samplers.spec_contains(*behavior));

    let sampler = SamplerObject::new(ctxt, behavior);
    let id = sampler.get_id();
    samplers.entries.push((*behavior, sampler));
    proof {
        assert(samplers.entries@.drop_last() =~= old(samplers).entries@);
        assert(samplers.spec_wf()) by {
            assert(forall|j: int|
                0 <= j < old(samplers).entries@.len() ==> samplers.entries@[j]
                    == old(samplers).entries@[j]);
        }
    }
    Ok(id)
}

} // verus!
