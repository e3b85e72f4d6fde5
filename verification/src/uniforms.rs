//! Sampler descriptors: the value-typed cache keys for sampler resources.

use vstd::prelude::*;

verus! {

/// How a sampled texture coordinate behaves outside `[0, 1]` on one axis.
#[derive(Clone, Copy, Debug, PartialEq, Eq, Hash, Structural)]
pub enum SamplerWrapFunction {
    Repeat,
    Mirror,
    Clamp,
    MirrorClamp,
}

/// Filtering applied when a texture is sampled below its native resolution.
#[derive(Clone, Copy, Debug, PartialEq, Eq, Hash, Structural)]
pub enum MinifySamplerFilter {
    Nearest,
    Linear,
    NearestMipmapNearest,
    LinearMipmapNearest,
    NearestMipmapLinear,
    LinearMipmapLinear,
}

/// Filtering applied when a texture is sampled above its native resolution.
#[derive(Clone, Copy, Debug, PartialEq, Eq, Hash, Structural)]
pub enum MagnifySamplerFilter {
    Nearest,
    Linear,
}

/// The full description of a sampler resource.
///
/// Descriptors are compared by exact field-wise equality: semantically
/// equivalent settings written differently are distinct cache keys.
#[derive(Clone, Copy, Debug, PartialEq, Eq, Hash, Structural)]
pub struct SamplerBehavior {
    /// Wrap behavior on the S axis.
    pub wrap_s: SamplerWrapFunction,
    /// Wrap behavior on the T axis.
    pub wrap_t: SamplerWrapFunction,
    /// Wrap behavior on the R axis.
    pub wrap_r: SamplerWrapFunction,
    /// Filter used when minifying.
    pub minify_filter: MinifySamplerFilter,
    /// Filter used when magnifying.
    pub magnify_filter: MagnifySamplerFilter,
    /// Requested anisotropy level, in whole units; the device may clamp it.
    pub max_anisotropy: u16,
}

} // verus!
