use glctx::backend::{BackendEvent, SimBackend};
use glctx::compatibility::OptionalChecks;
use glctx::context::{Context, GliumCreationError, SharedDebugOutput};
use glctx::device::NativeCall;
use glctx::extensions::ExtensionsList;
use glctx::sampler_object::get_sampler;
use glctx::state::GLState;
use glctx::uniforms::{
    MagnifySamplerFilter, MinifySamplerFilter, SamplerBehavior, SamplerWrapFunction,
};
use glctx::version::{Api, Version};

fn behavior(anisotropy: u16) -> SamplerBehavior {
    SamplerBehavior {
        wrap_s: SamplerWrapFunction::Repeat,
        wrap_t: SamplerWrapFunction::Repeat,
        wrap_r: SamplerWrapFunction::Repeat,
        minify_filter: MinifySamplerFilter::Nearest,
        magnify_filter: MagnifySamplerFilter::Nearest,
        max_anisotropy: anisotropy,
    }
}

fn backend_on(version: Version, extensions: ExtensionsList) -> SimBackend {
    SimBackend::new(version, extensions, None, 800, 600)
}

#[test]
fn shared_debug_output_starts_reporting() {
    let flag = SharedDebugOutput::new();
    assert!(flag.report_errors);
}

#[test]
fn context_new_probes_and_binds() {
    let backend = backend_on(Version(Api::Gl, 3, 3), ExtensionsList::none());
    let c = Context::new(backend, true, &OptionalChecks::none(), false).unwrap();
    assert_eq!(*c.get_version(), Version(Api::Gl, 3, 3));
    assert_eq!(*c.get_extensions(), ExtensionsList::none());
    assert_eq!(c.capabilities().max_texture_max_anisotropy, None);
    assert_eq!(c.get_framebuffer_dimensions(), (800, 600));
    assert!(c.backend.current);
    assert_eq!(c.backend.events, vec![BackendEvent::MadeCurrent]);
    assert_eq!(c.ctxt.state, GLState::default());
    assert!(c.ctxt.device.calls.is_empty());
}

#[test]
fn context_new_incompatible_driver_fails_with_joined_diagnostics() {
    let backend = backend_on(Version(Api::Gl, 1, 0), ExtensionsList::none());
    let e = match Context::new(backend, false, &OptionalChecks::none(), false) {
        Ok(_) => panic!("an ancient driver must be rejected"),
        Err(e) => e,
    };
    let GliumCreationError::IncompatibleOpenGl(s) = e;
    assert_eq!(
        s,
        "OpenGL implementation doesn't support buffer objects\n\
         OpenGL implementation doesn't support vertex/fragment shaders\n\
         OpenGL implementation doesn't support framebuffers\n\
         OpenGL implementation doesn't support blitting framebuffers\n\
         OpenGL implementation doesn't support vertex array objects"
    );
}

#[test]
fn context_new_installs_the_debug_bridge_when_allowed() {
    let backend = backend_on(Version(Api::Gl, 4, 5), ExtensionsList::none());
    let c = Context::new(backend, false, &OptionalChecks::none(), true).unwrap();
    assert_eq!(
        c.ctxt.device.calls,
        vec![
            NativeCall::EnableDebugOutputSynchronous,
            NativeCall::RegisterDebugCallback { tier: glctx::device::DebugTier::Core },
            NativeCall::ConfigureDebugFilter { tier: glctx::device::DebugTier::Core },
            NativeCall::EnableDebugOutput,
        ]
    );
    assert_eq!(c.ctxt.state.enabled_debug_output, Some(true));
    assert!(c.ctxt.state.enabled_debug_output_synchronous);
}

#[test]
fn swap_buffers_flushes_before_presenting() {
    let backend = backend_on(Version(Api::Gl, 3, 3), ExtensionsList::none());
    let mut c = Context::new(backend, true, &OptionalChecks::none(), false).unwrap();
    c.swap_buffers();
    // One trace holds both actions: the flush comes strictly first.
    assert_eq!(
        c.ctxt.device.calls,
        vec![NativeCall::Flush, NativeCall::Present]
    );
    assert_eq!(
        c.backend.events,
        vec![BackendEvent::MadeCurrent, BackendEvent::Presented]
    );
}

#[test]
fn swap_buffers_rebinds_a_lost_context_first() {
    let backend = backend_on(Version(Api::Gl, 3, 3), ExtensionsList::none());
    let mut c = Context::new(backend, true, &OptionalChecks::none(), false).unwrap();
    c.backend.current = false;
    c.swap_buffers();
    assert_eq!(
        c.backend.events,
        vec![
            BackendEvent::MadeCurrent,
            BackendEvent::MadeCurrent,
            BackendEvent::Presented,
        ]
    );
}

#[test]
fn make_current_rebinds_only_when_not_current() {
    let backend = backend_on(Version(Api::Gl, 3, 3), ExtensionsList::none());
    let mut c = Context::new(backend, true, &OptionalChecks::none(), false).unwrap();
    c.make_current();
    assert_eq!(c.backend.events, vec![BackendEvent::MadeCurrent]);
    c.backend.current = false;
    c.make_current();
    assert_eq!(
        c.backend.events,
        vec![BackendEvent::MadeCurrent, BackendEvent::MadeCurrent]
    );
}

#[test]
fn make_current_without_checking_never_rebinds() {
    let backend = backend_on(Version(Api::Gl, 3, 3), ExtensionsList::none());
    let mut c = Context::new(backend, false, &OptionalChecks::none(), false).unwrap();
    c.backend.current = false;
    c.make_current();
    assert_eq!(c.backend.events, vec![BackendEvent::MadeCurrent]);
    assert!(!c.backend.current);
}

#[test]
fn rebuild_resets_mirrored_state_without_reprobing() {
    let backend = backend_on(Version(Api::Gl, 4, 5), ExtensionsList::none());
    let mut c = Context::new(backend, false, &OptionalChecks::none(), true).unwrap();
    assert_eq!(c.ctxt.state.enabled_debug_output, Some(true));

    let replacement = backend_on(Version(Api::Gl, 3, 0), ExtensionsList::none());
    c.rebuild(replacement).unwrap();
    assert_eq!(c.ctxt.state, GLState::default());
    // The replacement is not re-probed: construction-time results stand.
    assert_eq!(*c.get_version(), Version(Api::Gl, 4, 5));
    assert!(c.backend.current);
    assert_eq!(c.backend.events, vec![BackendEvent::MadeCurrent]);
}

#[test]
fn teardown_drains_caches_before_uninstalling_debug_output() {
    let backend = backend_on(Version(Api::Gl, 4, 5), ExtensionsList::none());
    let mut c = Context::new(backend, false, &OptionalChecks::none(), true).unwrap();
    let id1 = get_sampler(&mut c.ctxt, &mut c.samplers, &behavior(1)).unwrap();
    let id2 = get_sampler(&mut c.ctxt, &mut c.samplers, &behavior(2)).unwrap();
    let id3 = get_sampler(&mut c.ctxt, &mut c.samplers, &behavior(3)).unwrap();

    let (ctxt, backend) = c.teardown();
    let calls = &ctxt.device.calls;

    let delete_positions: Vec<usize> = calls
        .iter()
        .enumerate()
        .filter(|(_, c)| matches!(c, NativeCall::DeleteSampler { .. }))
        .map(|(i, _)| i)
        .collect();
    assert_eq!(delete_positions.len(), 3);

    let deleted: Vec<NativeCall> = delete_positions.iter().map(|&i| calls[i]).collect();
    assert_eq!(
        deleted,
        vec![
            NativeCall::DeleteSampler { id: id1 },
            NativeCall::DeleteSampler { id: id2 },
            NativeCall::DeleteSampler { id: id3 },
        ]
    );

    let disable_positions: Vec<usize> = calls
        .iter()
        .enumerate()
        .filter(|(_, c)| matches!(c, NativeCall::DisableDebugOutput))
        .map(|(i, _)| i)
        .collect();
    assert_eq!(disable_positions.len(), 1, "debug output disabled exactly once");
    assert!(delete_positions.iter().all(|&d| d < disable_positions[0]));

    let fbo_cleanup = calls
        .iter()
        .position(|c| *c == NativeCall::CleanupFramebuffers)
        .unwrap();
    let vao_cleanup = calls
        .iter()
        .position(|c| *c == NativeCall::CleanupVertexArrays)
        .unwrap();
    assert!(fbo_cleanup < vao_cleanup);
    assert!(vao_cleanup < delete_positions[0]);

    assert_eq!(calls.last(), Some(&NativeCall::Finish));
    assert_eq!(ctxt.state.enabled_debug_output, Some(false));
    assert!(backend.current);
}

#[test]
fn teardown_without_enabled_debug_output_skips_the_uninstall() {
    let backend = backend_on(Version(Api::Gl, 4, 5), ExtensionsList::none());
    let c = Context::new(backend, false, &OptionalChecks::none(), false).unwrap();
    let (ctxt, _) = c.teardown();
    assert!(!ctxt
        .device
        .calls
        .iter()
        .any(|c| matches!(c, NativeCall::DisableDebugOutput | NativeCall::Finish)));
    assert_eq!(ctxt.state.enabled_debug_output, None);
}

#[test]
fn teardown_self_binds_when_the_context_was_lost() {
    let backend = backend_on(Version(Api::Gl, 3, 3), ExtensionsList::none());
    let mut c = Context::new(backend, false, &OptionalChecks::none(), false).unwrap();
    c.backend.current = false;
    let (_, backend) = c.teardown();
    assert!(backend.current);
    assert_eq!(
        backend.events,
        vec![BackendEvent::MadeCurrent, BackendEvent::MadeCurrent]
    );
}
