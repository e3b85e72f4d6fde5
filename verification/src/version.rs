//! API versions and profile-qualified version comparison.

use vstd::prelude::*;
use crate::device::NativeDevice;

verus! {

/// Which profile of the native API a version number belongs to.
#[derive(Clone, Copy, Debug, PartialEq, Eq, Hash, Structural)]
pub enum Api {
    /// The desktop profile.
    Gl,
    /// The mobile / embedded profile.
    GlEs,
}

/// An API version: profile, major number, minor number.
///
/// Comparisons are always profile-qualified: a desktop version is never
/// "at least" a mobile version, whatever the numbers say.
#[derive(Clone, Copy, Debug, PartialEq, Eq, Hash, Structural)]
pub struct Version(pub Api, pub u8, pub u8);

impl Version {
    /// True when this version belongs to `api` and is numerically at least
    /// `major.minor`.
    pub open spec fn spec_at_least(self, api: Api, major: u8, minor: u8) -> bool {
        &&& self.0 == api
        &&& (self.1 > major || (self.1 == major && self.2 >= minor))
    }

    /// Profile-qualified comparison against a threshold version.
    pub fn at_least(&self, api: Api, major: u8, minor: u8) -> (r: bool)
        ensures
            r == self.spec_at_least(api, major, minor),
    {
        self.0 == api && (self.1 > major || (self.1 == major && self.2 >= minor))
    }
}

/// Probes the driver for the version it reports.
pub fn get_gl_version(device: &NativeDevice) -> (v: Version)
    ensures
        v == device.reported_version,
{
    device.reported_version
}

} // verus!
