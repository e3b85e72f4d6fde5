//! Context-management core of a safety layer over a stateful, version- and
//! extension-gated native graphics API.
//!
//! The crate owns the single mutable handle to the native rendering context,
//! mirrors the toggle state it has itself set, negotiates capabilities from
//! the reported version and extension flags, manages descriptor-keyed caches
//! of driver-side resources with a mandatory destroy-before-discard
//! discipline, and decides when a driver diagnostic must be fatal.
//!
//! Every native call the core issues is recorded on an explicit
//! [`device::NativeDevice`], so contracts can state exactly which calls an
//! operation performs and in what order.

pub mod backend;
pub mod capabilities;
pub mod compatibility;
pub mod context;
pub mod debug_callback;
pub mod device;
pub mod extensions;
pub mod sampler_object;
pub mod state;
pub mod uniforms;
pub mod version;
