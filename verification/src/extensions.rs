//! The fixed set of extension flags the core consults.
//!
//! The registry is populated once when a context is constructed, from what
//! the driver reports, and never mutated afterwards.

use vstd::prelude::*;
use crate::device::NativeDevice;

verus! {

/// Boolean availability flags for every extension the core ever consults.
#[derive(Clone, Copy, Debug, PartialEq, Eq, Structural)]
pub struct ExtensionsList {
    pub gl_arb_vertex_buffer_object: bool,
    pub gl_arb_map_buffer_range: bool,
    pub gl_arb_shader_objects: bool,
    pub gl_arb_vertex_shader: bool,
    pub gl_arb_fragment_shader: bool,
    pub gl_ext_framebuffer_object: bool,
    pub gl_ext_framebuffer_blit: bool,
    pub gl_arb_vertex_array_object: bool,
    pub gl_apple_vertex_array_object: bool,
    pub gl_oes_vertex_array_object: bool,
    pub gl_arb_uniform_buffer_object: bool,
    pub gl_arb_sync: bool,
    pub gl_arb_buffer_storage: bool,
    pub gl_arb_get_program_binary: bool,
    pub gl_arb_tessellation_shader: bool,
    pub gl_arb_instanced_arrays: bool,
    pub gl_ext_texture_integer: bool,
    pub gl_arb_depth_texture: bool,
    pub gl_ext_packed_depth_stencil: bool,
    pub gl_khr_debug: bool,
    pub gl_arb_debug_output: bool,
    pub gl_arb_sampler_objects: bool,
    pub gl_ext_texture_filter_anisotropic: bool,
}

impl ExtensionsList {
    /// The registry with every flag cleared.
    pub open spec fn spec_none() -> ExtensionsList {
        ExtensionsList {
            gl_arb_vertex_buffer_object: false,
            gl_arb_map_buffer_range: false,
            gl_arb_shader_objects: false,
            gl_arb_vertex_shader: false,
            gl_arb_fragment_shader: false,
            gl_ext_framebuffer_object: false,
            gl_ext_framebuffer_blit: false,
            gl_arb_vertex_array_object: false,
            gl_apple_vertex_array_object: false,
            gl_oes_vertex_array_object: false,
            gl_arb_uniform_buffer_object: false,
            gl_arb_sync: false,
            gl_arb_buffer_storage: false,
            gl_arb_get_program_binary: false,
            gl_arb_tessellation_shader: false,
            gl_arb_instanced_arrays: false,
            gl_ext_texture_integer: false,
            gl_arb_depth_texture: false,
            gl_ext_packed_depth_stencil: false,
            gl_khr_debug: false,
            gl_arb_debug_output: false,
            gl_arb_sampler_objects: false,
            gl_ext_texture_filter_anisotropic: false,
        }
    }

    /// Builds the registry with every flag cleared.
    pub fn none() -> (r: ExtensionsList)
        ensures
            r == ExtensionsList::spec_none(),
    {
        ExtensionsList {
            gl_arb_vertex_buffer_object: false,
            gl_arb_map_buffer_range: false,
            gl_arb_shader_objects: false,
            gl_arb_vertex_shader: false,
            gl_arb_fragment_shader: false,
            gl_ext_framebuffer_object: false,
            gl_ext_framebuffer_blit: false,
            gl_arb_vertex_array_object: false,
            gl_apple_vertex_array_object: false,
            gl_oes_vertex_array_object: false,
            gl_arb_uniform_buffer_object: false,
            gl_arb_sync: false,
            gl_arb_buffer_storage: false,
            gl_arb_get_program_binary: false,
            gl_arb_tessellation_shader: false,
            gl_arb_instanced_arrays: false,
            gl_ext_texture_integer: false,
            gl_arb_depth_texture: false,
            gl_ext_packed_depth_stencil: false,
            gl_khr_debug: false,
            gl_arb_debug_output: false,
            gl_arb_sampler_objects: false,
            gl_ext_texture_filter_anisotropic: false,
        }
    }
}

impl Default for ExtensionsList {
    /// The default registry has every flag cleared.
    fn default() -> (r: ExtensionsList)
        ensures
            r == ExtensionsList::spec_none(),
    {
        ExtensionsList::none()
    }
}

/// Probes the driver for the extension flags it reports.
pub fn get_extensions(device: &NativeDevice) -> (e: ExtensionsList)
    ensures
        e == device.reported_extensions,
{
    device.reported_extensions
}

} // verus!
