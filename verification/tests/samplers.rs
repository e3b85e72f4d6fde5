use glctx::backend::SimBackend;
use glctx::compatibility::OptionalChecks;
use glctx::context::Context;
use glctx::device::NativeCall;
use glctx::extensions::ExtensionsList;
use glctx::sampler_object::{get_sampler, DrawError, SamplerObject};
use glctx::uniforms::{
    MagnifySamplerFilter, MinifySamplerFilter, SamplerBehavior, SamplerWrapFunction,
};
use glctx::version::{Api, Version};

fn behavior(anisotropy: u16) -> SamplerBehavior {
    SamplerBehavior {
        wrap_s: SamplerWrapFunction::Repeat,
        wrap_t: SamplerWrapFunction::Mirror,
        wrap_r: SamplerWrapFunction::Clamp,
        minify_filter: MinifySamplerFilter::LinearMipmapLinear,
        magnify_filter: MagnifySamplerFilter::Linear,
        max_anisotropy: anisotropy,
    }
}

fn context_on(
    version: Version,
    extensions: ExtensionsList,
    max_anisotropy: Option<u32>,
) -> Context<SimBackend> {
    let backend = SimBackend::new(version, extensions, max_anisotropy, 640, 480);
    Context::new(backend, false, &OptionalChecks::none(), false)
        .expect("the simulated driver must be compatible")
}

fn gen_sampler_count(calls: &[NativeCall]) -> usize {
    calls
        .iter()
        .filter(|c| matches!(c, NativeCall::GenSamplers { .. }))
        .count()
}

#[test]
fn get_sampler_twice_returns_one_id_and_allocates_once() {
    let mut c = context_on(Version(Api::Gl, 3, 3), ExtensionsList::none(), None);
    let b = behavior(1);
    let first = get_sampler(&mut c.ctxt, &mut c.samplers, &b).unwrap();
    let second = get_sampler(&mut c.ctxt, &mut c.samplers, &b).unwrap();
    assert_eq!(first, second);
    assert_eq!(gen_sampler_count(&c.ctxt.device.calls), 1);
}

#[test]
fn get_sampler_distinct_descriptors_allocate_separately() {
    let mut c = context_on(Version(Api::Gl, 3, 3), ExtensionsList::none(), None);
    let a = get_sampler(&mut c.ctxt, &mut c.samplers, &behavior(1)).unwrap();
    let b = get_sampler(&mut c.ctxt, &mut c.samplers, &behavior(2)).unwrap();
    assert_ne!(a, b);
    assert_eq!(gen_sampler_count(&c.ctxt.device.calls), 2);
}

#[test]
fn sampler_anisotropy_request_clamped_to_reported_maximum() {
    let mut extensions = ExtensionsList::none();
    extensions.gl_ext_texture_filter_anisotropic = true;
    let mut c = context_on(Version(Api::Gl, 3, 3), extensions, Some(4));
    let id = get_sampler(&mut c.ctxt, &mut c.samplers, &behavior(8)).unwrap();
    assert!(c
        .ctxt
        .device
        .calls
        .iter()
        .any(|c| *c == NativeCall::SamplerAnisotropy { sampler: id, level: 4 }));
}

#[test]
fn sampler_anisotropy_not_applied_without_a_reported_maximum() {
    let mut c = context_on(Version(Api::Gl, 3, 3), ExtensionsList::none(), None);
    get_sampler(&mut c.ctxt, &mut c.samplers, &behavior(8)).unwrap();
    assert!(!c
        .ctxt
        .device
        .calls
        .iter()
        .any(|c| matches!(c, NativeCall::SamplerAnisotropy { .. })));
}

#[test]
fn sampler_parameters_applied_in_fixed_order() {
    let mut c = context_on(Version(Api::Gl, 3, 3), ExtensionsList::none(), None);
    let baseline = c.ctxt.device.calls.len();
    let b = behavior(1);
    let id = get_sampler(&mut c.ctxt, &mut c.samplers, &b).unwrap();
    assert_eq!(
        &c.ctxt.device.calls[baseline..],
        &[
            NativeCall::GenSamplers { id },
            NativeCall::SamplerWrapS { sampler: id, wrap: SamplerWrapFunction::Repeat },
            NativeCall::SamplerWrapT { sampler: id, wrap: SamplerWrapFunction::Mirror },
            NativeCall::SamplerWrapR { sampler: id, wrap: SamplerWrapFunction::Clamp },
            NativeCall::SamplerMinFilter {
                sampler: id,
                minify: MinifySamplerFilter::LinearMipmapLinear,
            },
            NativeCall::SamplerMagFilter { sampler: id, magnify: MagnifySamplerFilter::Linear },
        ]
    );
}

#[test]
fn get_sampler_below_3_2_without_extension_touches_nothing() {
    let mut c = context_on(Version(Api::Gl, 3, 1), ExtensionsList::none(), None);
    let baseline = c.ctxt.device.calls.len();
    let r = get_sampler(&mut c.ctxt, &mut c.samplers, &behavior(1));
    assert_eq!(r, Err(DrawError::SamplersNotSupported));
    assert_eq!(c.ctxt.device.calls.len(), baseline);
    assert_eq!(c.samplers.entries.len(), 0);
}

#[test]
fn get_sampler_supported_through_the_extension_alone() {
    let mut extensions = ExtensionsList::none();
    extensions.gl_arb_sampler_objects = true;
    let mut c = context_on(Version(Api::Gl, 3, 1), extensions, None);
    assert!(get_sampler(&mut c.ctxt, &mut c.samplers, &behavior(1)).is_ok());
}

#[test]
fn discarding_an_undestroyed_resource_trips_the_invariant_check() {
    let mut c = context_on(Version(Api::Gl, 3, 3), ExtensionsList::none(), None);
    let b = behavior(1);
    let resource = SamplerObject::new(&mut c.ctxt, &b);
    assert!(!resource.discard());
}

#[test]
fn destroying_a_resource_then_discarding_it_never_trips() {
    let mut c = context_on(Version(Api::Gl, 3, 3), ExtensionsList::none(), None);
    let b = behavior(1);
    let resource = SamplerObject::new(&mut c.ctxt, &b);
    let id = resource.get_id();
    // destroy marks the resource and runs the end-of-life check itself; a
    // trip there would be a verification-time contradiction.
    resource.destroy(&mut c.ctxt);
    assert_eq!(
        c.ctxt.device.calls.last(),
        Some(&NativeCall::DeleteSampler { id })
    );
}
