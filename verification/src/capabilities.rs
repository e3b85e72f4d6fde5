//! Derived numeric and boolean limits, computed once at construction.

use vstd::prelude::*;
use crate::device::NativeDevice;
use crate::extensions::ExtensionsList;
use crate::version::Version;

verus! {

/// Limits derived from the reported version and extensions.
///
/// Computed once when the context is built and never mutated.
#[derive(Clone, Copy, Debug, PartialEq, Eq, Structural)]
pub struct Capabilities {
    /// Largest anisotropy level the device supports, in whole units, or
    /// `None` when the device reports no anisotropy limit at all.
    pub max_texture_max_anisotropy: Option<u32>,
}

/// What the capability probe returns for a given device report.
///
/// The anisotropy limit is exposed only when the anisotropic-filtering
/// extension is present; otherwise no limit is reported.
pub open spec fn spec_capabilities(
    reported_max_anisotropy: Option<u32>,
    extensions: ExtensionsList,
) -> Capabilities {
    Capabilities {
        max_texture_max_anisotropy: if extensions.gl_ext_texture_filter_anisotropic {
            reported_max_anisotropy
        } else {
            None
        },
    }
}

/// Probes the device for its derived limits.
pub fn get_capabilities(
    device: &NativeDevice,
    _version: &Version,
    extensions: &ExtensionsList,
) -> (r: Capabilities)
    ensures
        r == spec_capabilities(device.reported_max_anisotropy, *extensions),
{
    Capabilities {
        max_texture_max_anisotropy: if extensions.gl_ext_texture_filter_anisotropic {
            device.reported_max_anisotropy
        } else {
            None
        },
    }
}

} // verus!
