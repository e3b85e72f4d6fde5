//! The owning context, the exclusive handle on native state, and the
//! collaborators drained at teardown.

use vstd::prelude::*;
use crate::backend::{Backend, BackendEvent};
use crate::capabilities::{get_capabilities, spec_capabilities, Capabilities};
use crate::compatibility::{
    check_gl_compatibility, join_diagnostics, spec_gate_messages, spec_join_lines, OptionalChecks,
};
use crate::debug_callback::{
    init_debug_callback, spec_install_calls, spec_state_after_install, spec_state_after_uninstall,
    spec_uninstall_calls, uninstall_debug_callback,
};
use crate::device::{same_report, NativeCall, NativeDevice};
use crate::extensions::{get_extensions, ExtensionsList};
use crate::sampler_object::{spec_delete_calls, SamplerCache};
use crate::state::GLState;
use crate::version::{get_gl_version, Version};

verus! {

/// Why a context could not be constructed.
#[derive(Debug)]
pub enum GliumCreationError {
    /// The running driver misses required features; carries every failing
    /// capability-gate diagnostic, newline-separated.
    IncompatibleOpenGl(String),
}

/// State shared between the context and the installed debug trampoline.
///
/// The real callback may run on a driver-internal thread and reads this flag
/// through an atomic cell; the core models the flag's value.
pub struct SharedDebugOutput {
    /// Whether a qualifying debug message must become a fatal diagnostic.
    pub report_errors: bool,
}

impl SharedDebugOutput {
    /// A fresh flag: errors are reported.
    pub fn new() -> (r: Box<SharedDebugOutput>)
        ensures
            r.report_errors == true,
    {
        Box::new(SharedDebugOutput { report_errors: true })
    }
}

/// The exclusive aggregate handle on native state.
///
/// Holding `&mut CommandContext` is the only way to touch the device, so the
/// borrow rules guarantee a single writer without a runtime lock.
pub struct CommandContext {
    /// The native function table and its call log.
    pub device: NativeDevice,
    /// The mirror of the toggles this layer has set.
    pub state: GLState,
    /// The version reported at construction.
    pub version: Version,
    /// The extension flags reported at construction.
    pub extensions: ExtensionsList,
    /// The limits derived at construction.
    pub capabilities: Capabilities,
    /// The flag shared with the debug trampoline.
    pub shared_debug_output: SharedDebugOutput,
}

/// The probe results and the shared flag of `post` are those of `pre`, and
/// the device still reports the same; only the call log, the allocation
/// counter and the mirrored state may differ.
pub open spec fn same_context_probe(pre: CommandContext, post: CommandContext) -> bool {
    &&& post.version == pre.version
    &&& post.extensions == pre.extensions
    &&& post.capabilities == pre.capabilities
    &&& post.shared_debug_output.report_errors == pre.shared_debug_output.report_errors
    &&& same_report(pre.device, post.device)
}

/// The framebuffer-container collaborator, opaque to this core but for its
/// teardown contract.
pub struct FramebuffersContainer {
    _private: (),
}

impl FramebuffersContainer {
    /// A container with nothing tracked yet.
    pub fn new() -> (r: FramebuffersContainer) {
        FramebuffersContainer { _private: () }
    }

    /// Hands the collaborator its teardown call on the native context.
    pub fn cleanup(self, ctxt: &mut CommandContext)
        ensures
            final(ctxt).device.calls@ == old(ctxt).device.calls@.push(
                NativeCall::CleanupFramebuffers,
            ),
            final(ctxt).device.next_sampler_id == old(ctxt).device.next_sampler_id,
            final(ctxt).state == old(ctxt).state,
            same_context_probe(*old(ctxt), *final(ctxt)),
    {
        ctxt.device.record(NativeCall::CleanupFramebuffers);
    }
}

/// The vertex-attribute-system collaborator, opaque to this core but for its
/// teardown contract.
pub struct VertexAttributesSystem {
    _private: (),
}

impl VertexAttributesSystem {
    /// A system with nothing tracked yet.
    pub fn new() -> (r: VertexAttributesSystem) {
        VertexAttributesSystem { _private: () }
    }

    /// Hands the collaborator its teardown call on the native context.
    pub fn cleanup(&mut self, ctxt: &mut CommandContext)
        ensures
            final(ctxt).device.calls@ == old(ctxt).device.calls@.push(
                NativeCall::CleanupVertexArrays,
            ),
            final(ctxt).device.next_sampler_id == old(ctxt).device.next_sampler_id,
            final(ctxt).state == old(ctxt).state,
            same_context_probe(*old(ctxt), *final(ctxt)),
    {
        ctxt.device.record(NativeCall::CleanupVertexArrays);
    }
}

/// The sole owner of the backend, the probe results, the mirrored state and
/// every resource cache. Exactly one lives per native surface.
pub struct Context<B: Backend> {
    /// The exclusive handle on native state; borrow it mutably to touch the
    /// device, after `make_current` re-established the binding.
    pub ctxt: CommandContext,
    /// The owned backend collaborator.
    pub backend: B,
    /// Whether operations re-check the native current-binding.
    pub check_current_context: bool,
    /// The framebuffer-container collaborator, drained at teardown.
    pub framebuffer_objects: Option<FramebuffersContainer>,
    /// The vertex-attribute-system collaborator, drained at teardown.
    pub vertex_array_objects: VertexAttributesSystem,
    /// The sampler cache, drained at teardown.
    pub samplers: SamplerCache,
}

impl<B: Backend> Context<B> {
    /// The owned backend.
    pub open spec fn spec_backend(&self) -> B {
        self.backend
    }

    /// Whether operations re-check the native current-binding.
    pub open spec fn spec_check_current(&self) -> bool {
        self.check_current_context
    }

    /// A context in a usable state: the sampler cache is well-formed and the
    /// framebuffer collaborator has not been taken yet.
    pub open spec fn wf(&self) -> bool {
        &&& self.samplers.spec_wf()
        &&& self.framebuffer_objects is Some
    }

    /// Binds the backend, probes version, extensions and capabilities, runs
    /// the capability gate, and installs the debug bridge.
    ///
    /// Fails with every gate diagnostic, newline-joined, when the driver
    /// misses a required feature; no partial context is returned. The build
    /// configuration's optional checks and the externally read
    /// debug-callback toggle arrive as plain values.
    pub fn new(
        backend: B,
        check_current_context: bool,
        checks: &OptionalChecks,
        debug_callback_allowed: bool,
    ) -> (r: Result<Context<B>, GliumCreationError>)
        ensures
            match r {
                Ok(c) => {
                    &&& spec_gate_messages(
                        backend.sim_version(),
                        backend.sim_extensions(),
                        *checks,
                    ).len() == 0
                    &&& c.wf()
                    &&& c.ctxt.version == backend.sim_version()
                    &&& c.ctxt.extensions == backend.sim_extensions()
                    &&& c.ctxt.capabilities == spec_capabilities(
                        backend.sim_max_anisotropy(),
                        backend.sim_extensions(),
                    )
                    &&& c.ctxt.device.reported_version == backend.sim_version()
                    &&& c.ctxt.device.reported_extensions == backend.sim_extensions()
                    &&& c.ctxt.device.reported_max_anisotropy == backend.sim_max_anisotropy()
                    &&& c.ctxt.device.next_sampler_id == 1u32
                    &&& c.ctxt.shared_debug_output.report_errors
                    &&& c.ctxt.state == (if debug_callback_allowed {
                        spec_state_after_install(
                            backend.sim_version(),
                            backend.sim_extensions(),
                            GLState::spec_default(),
                        )
                    } else {
                        GLState::spec_default()
                    })
                    &&& c.ctxt.device.calls@ == (if debug_callback_allowed {
                        spec_install_calls(
                            backend.sim_version(),
                            backend.sim_extensions(),
                            GLState::spec_default(),
                        )
                    } else {
                        Seq::<NativeCall>::empty()
                    })
                    &&& c.samplers.entries@.len() == 0
                    &&& c.spec_check_current() == check_current_context
                    &&& c.spec_backend().sim_current()
                    &&& c.spec_backend().sim_events() == backend.sim_events().push(
                        BackendEvent::MadeCurrent,
                    )
                    &&& c.spec_backend().sim_version() == backend.sim_version()
                    &&& c.spec_backend().sim_extensions() == backend.sim_extensions()
                    &&& c.spec_backend().sim_max_anisotropy() == backend.sim_max_anisotropy()
                    &&& c.spec_backend().sim_dimensions() == backend.sim_dimensions()
                },
                Err(e) => {
                    &&& spec_gate_messages(
                        backend.sim_version(),
                        backend.sim_extensions(),
                        *checks,
                    ).len() > 0
                    &&& match e {
                        GliumCreationError::IncompatibleOpenGl(s) => s@ == spec_join_lines(
                            spec_gate_messages(
                                backend.sim_version(),
                                backend.sim_extensions(),
                                *checks,
                            ),
                        ),
                    }
                },
            },
    {
        let mut backend = backend;
        backend.make_current();

        let device = backend.resolve_function_table();
        let gl_state = GLState::default();
        let version = get_gl_version(&device);
        let extensions = get_extensions(&device);
        let capabilities = get_capabilities(&device, &version, &extensions);
        let shared_debug = SharedDebugOutput::new();

        match check_gl_compatibility(&version, &extensions, checks) {
            Err(msgs) => {
                return Err(GliumCreationError::IncompatibleOpenGl(join_diagnostics(&msgs)));
            },
            Ok(()) => {},
        }

        let mut ctxt = CommandContext {
            device,
            state: gl_state,
            version,
            extensions,
            capabilities,
            shared_debug_output: *shared_debug,
        };
        init_debug_callback(&mut ctxt, debug_callback_allowed);
        proof {
            if debug_callback_allowed {
                assert(ctxt.device.calls@ =~= spec_install_calls(
                    backend.sim_version(),
                    backend.sim_extensions(),
                    GLState::spec_default(),
                ));
            }
        }

        Ok(
            Context {
                ctxt,
                backend,
                check_current_context,
                framebuffer_objects: Some(FramebuffersContainer::new()),
                vertex_array_objects: VertexAttributesSystem::new(),
                samplers: SamplerCache::new(),
            },
        )
    }

    /// Delegates to the backend; performs no native call.
    pub fn get_framebuffer_dimensions(&self) -> (r: (u32, u32))
        ensures
            r == self.spec_backend().sim_dimensions(),
    {
        self.backend.get_framebuffer_dimensions()
    }

    /// Re-establishes the native current-binding when this context checks
    /// it and another context took over; otherwise touches nothing.
    ///
    /// Call it before borrowing `ctxt`: the `&mut` borrow that follows is
    /// the exclusive handle.
    pub fn make_current(&mut self)
        ensures
            final(self).ctxt == old(self).ctxt,
            final(self).samplers == old(self).samplers,
            final(self).framebuffer_objects == old(self).framebuffer_objects,
            final(self).vertex_array_objects == old(self).vertex_array_objects,
            final(self).spec_check_current() == old(self).spec_check_current(),
            old(self).spec_check_current() && !old(self).spec_backend().sim_current() ==> {
                &&& final(self).spec_backend().sim_current()
                &&& final(self).spec_backend().sim_events() == old(
                    self,
                ).spec_backend().sim_events().push(BackendEvent::MadeCurrent)
                &&& final(self).spec_backend().sim_version() == old(
                    self,
                ).spec_backend().sim_version()
                &&& final(self).spec_backend().sim_extensions() == old(
                    self,
                ).spec_backend().sim_extensions()
                &&& final(self).spec_backend().sim_max_anisotropy() == old(
                    self,
                ).spec_backend().sim_max_anisotropy()
                &&& final(self).spec_backend().sim_dimensions() == old(
                    self,
                ).spec_backend().sim_dimensions()
            },
            !(old(self).spec_check_current() && !old(self).spec_backend().sim_current())
                ==> final(self).spec_backend() == old(self).spec_backend(),
    {
        if self.check_current_context {
            if !self.backend.is_current() {
                self.backend.make_current();
            }
        }
    }

    /// Binds a replacement backend as current, installs it, and resets the
    /// mirrored state to its default, forcing every toggle to be
    /// re-established.
    ///
    /// Deliberately permissive: the replacement is not re-probed, so the
    /// version, extensions and capabilities of construction time keep
    /// governing — the caller answers for handing over a compatible
    /// backend.
    pub fn rebuild(&mut self, new_backend: B) -> (r: Result<(), GliumCreationError>)
        ensures
            r is Ok,
            final(self).ctxt.state == GLState::spec_default(),
            final(self).ctxt.device == old(self).ctxt.device,
            final(self).ctxt.version == old(self).ctxt.version,
            final(self).ctxt.extensions == old(self).ctxt.extensions,
            final(self).ctxt.capabilities == old(self).ctxt.capabilities,
            final(self).ctxt.shared_debug_output.report_errors == old(
                self,
            ).ctxt.shared_debug_output.report_errors,
            final(self).samplers == old(self).samplers,
            final(self).framebuffer_objects == old(self).framebuffer_objects,
            final(self).spec_check_current() == old(self).spec_check_current(),
            final(self).spec_backend().sim_current(),
            final(self).spec_backend().sim_events() == new_backend.sim_events().push(
                BackendEvent::MadeCurrent,
            ),
            final(self).spec_backend().sim_version() == new_backend.sim_version(),
            final(self).spec_backend().sim_extensions() == new_backend.sim_extensions(),
            final(self).spec_backend().sim_max_anisotropy() == new_backend.sim_max_anisotropy(),
            final(self).spec_backend().sim_dimensions() == new_backend.sim_dimensions(),
    {
        let mut new_backend = new_backend;
        new_backend.make_current();

        self.ctxt.state = GLState::default();
        self.backend = new_backend;

        Ok(())
    }

    /// Rebinds if needed, issues a full pipeline flush, then asks the
    /// backend to present: the flush comes strictly before the
    /// presentation on the device log, an ordering at least one real
    /// target platform requires to avoid blank frames.
    pub fn swap_buffers(&mut self)
        ensures
            final(self).ctxt.device.calls@ == old(self).ctxt.device.calls@.push(
                NativeCall::Flush,
            ).push(NativeCall::Present),
            final(self).ctxt.device.next_sampler_id == old(self).ctxt.device.next_sampler_id,
            final(self).ctxt.state == old(self).ctxt.state,
            same_context_probe(old(self).ctxt, final(self).ctxt),
            final(self).samplers == old(self).samplers,
            final(self).framebuffer_objects == old(self).framebuffer_objects,
            final(self).spec_check_current() == old(self).spec_check_current(),
            final(self).spec_backend().sim_events() == (if old(self).spec_check_current() && !old(
                self,
            ).spec_backend().sim_current() {
                old(self).spec_backend().sim_events().push(BackendEvent::MadeCurrent).push(
                    BackendEvent::Presented,
                )
            } else {
                old(self).spec_backend().sim_events().push(BackendEvent::Presented)
            }),
            final(self).spec_backend().sim_version() == old(self).spec_backend().sim_version(),
            final(self).spec_backend().sim_extensions() == old(
                self,
            ).spec_backend().sim_extensions(),
            final(self).spec_backend().sim_dimensions() == old(
                self,
            ).spec_backend().sim_dimensions(),
    {
        if self.check_current_context {
            if !self.backend.is_current() {
                self.backend.make_current();
            }
        }

        self.ctxt.device.record(NativeCall::Flush);

        self.backend.swap_buffers(&mut self.ctxt.device);
    }

    /// The limits derived at construction.
    pub fn capabilities(&self) -> (r: &Capabilities)
        ensures
            *r == self.ctxt.capabilities,
    {
        &self.ctxt.capabilities
    }

    /// The version reported at construction.
    pub fn get_version(&self) -> (r: &Version)
        ensures
            *r == self.ctxt.version,
    {
        &self.ctxt.version
    }

    /// The extension flags reported at construction.
    pub fn get_extensions(&self) -> (r: &ExtensionsList)
        ensures
            *r == self.ctxt.extensions,
    {
        &self.ctxt.extensions
    }

    /// Ordered teardown, run exactly once at end of life: self-binds if
    /// necessary, hands the framebuffer and vertex-attribute collaborators
    /// their cleanup calls, drains the sampler cache destroying every entry,
    /// and only then uninstalls the debug bridge, finishing the pipeline so
    /// no in-flight callback fires afterwards.
    ///
    /// Returns the spent handle and the backend, so a caller can inspect
    /// the final device log or reuse the surface.
    #[verifier::rlimit(100)]
    #[verifier::loop_isolation(false)]
    pub fn teardown(self) -> (r: (CommandContext, B))
        requires
            self.wf(),
        ensures
            r.0.device.calls@ == self.ctxt.device.calls@ + seq![
                NativeCall::CleanupFramebuffers,
                NativeCall::CleanupVertexArrays,
            ] + spec_delete_calls(self.samplers.entries@) + spec_uninstall_calls(
                self.ctxt.version,
                self.ctxt.extensions,
                self.ctxt.state,
            ),
            r.0.state == spec_state_after_uninstall(self.ctxt.state),
            r.0.device.next_sampler_id == self.ctxt.device.next_sampler_id,
            same_context_probe(self.ctxt, r.0),
            r.1.sim_current(),
            r.1.sim_events() == (if self.spec_backend().sim_current() {
                self.spec_backend().sim_events()
            } else {
                self.spec_backend().sim_events().push(BackendEvent::MadeCurrent)
            }),
            r.1.sim_version() == self.spec_backend().sim_version(),
            r.1.sim_extensions() == self.spec_backend().sim_extensions(),
            r.1.sim_dimensions() == self.spec_backend().sim_dimensions(),
    {
        let Context {
            mut ctxt,
            mut backend,
            check_current_context: _,
            framebuffer_objects,
            mut vertex_array_objects,
            mut samplers,
        } = self;

        if !backend.is_current() {
            backend.make_current();
        }

        if let Some(fbos) = framebuffer_objects {
            fbos.cleanup(&mut ctxt);
        }
        vertex_array_objects.cleanup(&mut ctxt);
        proof {
            assert(ctxt.device.calls@ =~= self.ctxt.device.calls@ + seq![
                NativeCall::CleanupFramebuffers,
                NativeCall::CleanupVertexArrays,
            ]);
        }

        let ghost entries0 = samplers.entries@;
        let ghost base = ctxt.device.calls@;
        let ghost pre_loop = ctxt;
        let ghost n0: int = entries0.len() as int;
        proof {
            assert(entries0.subrange(0, n0) =~= entries0);
            assert(spec_delete_calls(entries0.subrange(0, 0)) =~= Seq::<NativeCall>::empty());
            assert(base + spec_delete_calls(entries0.subrange(0, 0)) =~= base);
        }

        while samplers.entries.len() > 0
            invariant
                samplers.entries@.len() <= n0,
                samplers.entries@ == entries0.subrange(
                    n0 - samplers.entries@.len(),
                    n0,
                ),
                ctxt.device.calls@ == base + spec_delete_calls(
                    entries0.subrange(0, n0 - samplers.entries@.len()),
                ),
                ctxt.state == pre_loop.state,
                ctxt.device.next_sampler_id == pre_loop.device.next_sampler_id,
                same_context_probe(pre_loop, ctxt),
            decreases samplers.entries.len(),
        {
            let ghost pre_entries = samplers.entries@;
            let ghost k = n0 - pre_entries.len();
            proof {
                assert(pre_entries[0] == entries0[k]);
            }
            let entry = samplers.entries.remove(0);
            proof {
                assert(entry == entries0[k]);
                assert(samplers.entries@ =~= entries0.subrange(k + 1, n0));
            }
            entry.1.destroy(&mut ctxt);
            proof {
                assert(entries0.subrange(0, k + 1) =~= entries0.subrange(0, k).push(entries0[k]));
                assert(spec_delete_calls(entries0.subrange(0, k + 1)) =~= spec_delete_calls(
                    entries0.subrange(0, k),
                ).push(NativeCall::DeleteSampler { id: entries0[k].1.spec_id() }));
            }
        }
        proof {
            assert(entries0.subrange(0, n0) =~= entries0);
        }

        uninstall_debug_callback(&mut ctxt);

        proof {
            assert(ctxt.device.calls@ =~= self.ctxt.device.calls@ + seq![
                NativeCall::CleanupFramebuffers,
                NativeCall::CleanupVertexArrays,
            ] + spec_delete_calls(self.samplers.entries@) + spec_uninstall_calls(
                self.ctxt.version,
                self.ctxt.extensions,
                self.ctxt.state,
            ));
        }

        (ctxt, backend)
    }
}

} // verus!
