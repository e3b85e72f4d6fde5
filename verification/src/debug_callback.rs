//! The debug bridge: tier selection, installation of the native diagnostic
//! callback, and the trampoline's fatal-or-ignore decision.

use vstd::prelude::*;
use crate::context::{same_context_probe, CommandContext};
use crate::device::{DebugTier, NativeCall};
use crate::extensions::ExtensionsList;
use crate::state::GLState;
use crate::version::{Api, Version};

verus! {

/// Severity of a driver-reported diagnostic.
#[derive(Clone, Copy, Debug, PartialEq, Eq, Structural)]
pub enum Severity {
    High,
    Medium,
    Low,
    Notification,
}

/// Category of a driver-reported diagnostic.
#[derive(Clone, Copy, Debug, PartialEq, Eq, Structural)]
pub enum MessageType {
    Error,
    DeprecatedBehavior,
    UndefinedBehavior,
    Portability,
    Performance,
    Marker,
    Other,
}

/// The trampoline fires a fatal diagnostic exactly for a high- or
/// medium-severity message of a misuse category, while reporting is on.
pub open spec fn spec_fatal_diagnostic(
    ty: MessageType,
    severity: Severity,
    report_errors: bool,
) -> bool {
    &&& (severity == Severity::High || severity == Severity::Medium)
    &&& (ty == MessageType::Error || ty == MessageType::UndefinedBehavior || ty
        == MessageType::Portability || ty == MessageType::DeprecatedBehavior)
    &&& report_errors
}

/// Decides whether a driver diagnostic must terminate the process.
///
/// The caller-supplied `report_errors` is the value of the shared flag, read
/// by the real trampoline with relaxed atomic ordering.
pub fn should_raise_fatal(ty: MessageType, severity: Severity, report_errors: bool) -> (r: bool)
    ensures
        r == spec_fatal_diagnostic(ty, severity, report_errors),
{
    (severity == Severity::High || severity == Severity::Medium) && (ty == MessageType::Error
        || ty == MessageType::UndefinedBehavior || ty == MessageType::Portability
        || ty == MessageType::DeprecatedBehavior) && report_errors
}

/// Some debug facility is available at all.
pub open spec fn spec_debug_available(v: Version, e: ExtensionsList) -> bool {
    v.spec_at_least(Api::Gl, 4, 5) || e.gl_khr_debug || e.gl_arb_debug_output
}

/// Which installation tier wins, in priority order: the core-promoted
/// facility, the mobile-profile variant, then the legacy vendor-suffixed
/// extension; `None` when no facility is available.
///
/// A corner falls through to the legacy tier: on a mobile version below 2.0
/// whose driver reports only the core-equivalent extension, the facility
/// counts as available, neither preferred tier qualifies, and the legacy
/// entry points are used.
pub open spec fn spec_debug_tier(v: Version, e: ExtensionsList) -> Option<DebugTier> {
    if !spec_debug_available(v, e) {
        None
    } else if v.spec_at_least(Api::Gl, 4, 5) || (v.spec_at_least(Api::Gl, 1, 0)
        && e.gl_khr_debug) {
        Some(DebugTier::Core)
    } else if v.spec_at_least(Api::GlEs, 2, 0) && e.gl_khr_debug {
        Some(DebugTier::Khr)
    } else {
        Some(DebugTier::Arb)
    }
}

/// The native calls installation issues for the winning tier, given the
/// mirrored state: enable synchronous mode unless already mirrored, register
/// the trampoline, open the native filter, and enable debug output unless
/// already mirrored as enabled.
pub open spec fn spec_install_calls(v: Version, e: ExtensionsList, pre: GLState) -> Seq<
    NativeCall,
> {
    match spec_debug_tier(v, e) {
        None => Seq::empty(),
        Some(tier) => (if !pre.enabled_debug_output_synchronous {
            seq![NativeCall::EnableDebugOutputSynchronous]
        } else {
            Seq::empty()
        }) + seq![
            NativeCall::RegisterDebugCallback { tier },
            NativeCall::ConfigureDebugFilter { tier },
        ] + (if pre.enabled_debug_output != Some(true) {
            seq![NativeCall::EnableDebugOutput]
        } else {
            Seq::empty()
        }),
    }
}

/// The mirrored state after installation: both toggles recorded as enabled
/// when a tier was installed, untouched otherwise.
pub open spec fn spec_state_after_install(v: Version, e: ExtensionsList, pre: GLState) -> GLState {
    match spec_debug_tier(v, e) {
        None => pre,
        Some(_) => GLState {
            enabled_debug_output: Some(true),
            enabled_debug_output_synchronous: true,
        },
    }
}

/// The native calls that uninstall the bridge: when the mirror shows debug
/// output enabled, the disable entry point of whichever tier installed it,
/// then a pipeline finish that closes the race window with in-flight
/// callbacks; nothing otherwise.
pub open spec fn spec_uninstall_calls(v: Version, e: ExtensionsList, st: GLState) -> Seq<
    NativeCall,
> {
    if st.enabled_debug_output == Some(true) {
        (if v.spec_at_least(Api::Gl, 4, 5) || e.gl_khr_debug {
            seq![NativeCall::DisableDebugOutput]
        } else if e.gl_arb_debug_output {
            seq![NativeCall::ClearDebugCallbackArb]
        } else {
            Seq::empty()
        }) + seq![NativeCall::Finish]
    } else {
        Seq::empty()
    }
}

/// The mirrored state after uninstallation: debug output recorded as
/// disabled when it was enabled, untouched otherwise.
pub open spec fn spec_state_after_uninstall(st: GLState) -> GLState {
    if st.enabled_debug_output == Some(true) {
        GLState { enabled_debug_output: Some(false), ..st }
    } else {
        st
    }
}

/// Uninstalls the debug bridge when the mirror shows debug output enabled:
/// disables through the tier that installed it, updates the mirror, and
/// issues a pipeline finish before returning.
#[verifier::rlimit(100)]
pub fn uninstall_debug_callback(ctxt: &mut CommandContext)
    ensures
        final(ctxt).device.calls@ == old(ctxt).device.calls@ + spec_uninstall_calls(
            old(ctxt).version,
            old(ctxt).extensions,
            old(ctxt).state,
        ),
        final(ctxt).state == spec_state_after_uninstall(old(ctxt).state),
        final(ctxt).device.next_sampler_id == old(ctxt).device.next_sampler_id,
        same_context_probe(*old(ctxt), *final(ctxt)),
{
    let ghost expected = spec_uninstall_calls(
        old(ctxt).version,
        old(ctxt).extensions,
        old(ctxt).state,
    );
    let currently_enabled = match ctxt.state.enabled_debug_output {
        Some(b) => b,
        None => false,
    };
    if currently_enabled {
        if ctxt.version.at_least(Api::Gl, 4, 5) || ctxt.extensions.gl_khr_debug {
            ctxt.device.record(NativeCall::DisableDebugOutput);
            ctxt.device.record(NativeCall::Finish);
            proof {
                assert(expected =~= seq![NativeCall::DisableDebugOutput, NativeCall::Finish]);
                assert(ctxt.device.calls@ =~= old(ctxt).device.calls@ + expected);
            }
        } else if ctxt.extensions.gl_arb_debug_output {
            ctxt.device.record(NativeCall::ClearDebugCallbackArb);
            ctxt.device.record(NativeCall::Finish);
            proof {
                assert(expected =~= seq![NativeCall::ClearDebugCallbackArb, NativeCall::Finish]);
                assert(ctxt.device.calls@ =~= old(ctxt).device.calls@ + expected);
            }
        } else {
            ctxt.device.record(NativeCall::Finish);
            proof {
                assert(expected =~= seq![NativeCall::Finish]);
                assert(ctxt.device.calls@ =~= old(ctxt).device.calls@ + expected);
            }
        }
        ctxt.state.enabled_debug_output = Some(false);
    } else {
        proof {
            assert(expected =~= Seq::<NativeCall>::empty());
            assert(ctxt.device.calls@ =~= old(ctxt).device.calls@ + expected);
        }
    }
}

/// Picks the winning tier, if any facility is available.
pub fn debug_tier(version: &Version, extensions: &ExtensionsList) -> (r: Option<DebugTier>)
    ensures
        r == spec_debug_tier(*version, *extensions),
{
    if !(version.at_least(Api::Gl, 4, 5) || extensions.gl_khr_debug
        || extensions.gl_arb_debug_output) {
        None
    } else if version.at_least(Api::Gl, 4, 5) || (version.at_least(Api::Gl, 1, 0)
        && extensions.gl_khr_debug) {
        Some(DebugTier::Core)
    } else if version.at_least(Api::GlEs, 2, 0) && extensions.gl_khr_debug {
        Some(DebugTier::Khr)
    } else {
        Some(DebugTier::Arb)
    }
}

/// Installs the winning tier: enables synchronous mode unless mirrored,
/// registers the trampoline, opens the native filter, and enables debug
/// output unless mirrored as enabled.
#[verifier::rlimit(100)]
fn install_tier(ctxt: &mut CommandContext, tier: DebugTier)
    requires
        spec_debug_tier(old(ctxt).version, old(ctxt).extensions) == Some(tier),
    ensures
        final(ctxt).device.calls@ == old(ctxt).device.calls@ + spec_install_calls(
            old(ctxt).version,
            old(ctxt).extensions,
            old(ctxt).state,
        ),
        final(ctxt).state == spec_state_after_install(
            old(ctxt).version,
            old(ctxt).extensions,
            old(ctxt).state,
        ),
        final(ctxt).device.next_sampler_id == old(ctxt).device.next_sampler_id,
        same_context_probe(*old(ctxt), *final(ctxt)),
{
    let ghost seg_sync: Seq<NativeCall> = if !old(ctxt).state.enabled_debug_output_synchronous {
        seq![NativeCall::EnableDebugOutputSynchronous]
    } else {
        Seq::empty()
    };
    let ghost seg_register: Seq<NativeCall> = seq![
        NativeCall::RegisterDebugCallback { tier },
        NativeCall::ConfigureDebugFilter { tier },
    ];
    let ghost seg_enable: Seq<NativeCall> = if old(ctxt).state.enabled_debug_output != Some(
        true,
    ) {
        seq![NativeCall::EnableDebugOutput]
    } else {
        Seq::empty()
    };

    if !ctxt.state.enabled_debug_output_synchronous {
        ctxt.device.record(NativeCall::EnableDebugOutputSynchronous);
        ctxt.state.enabled_debug_output_synchronous = true;
    }
    proof {
        assert(ctxt.device.calls@ =~= old(ctxt).device.calls@ + seg_sync);
    }

    ctxt.device.record(NativeCall::RegisterDebugCallback { tier });
    ctxt.device.record(NativeCall::ConfigureDebugFilter { tier });
    proof {
        assert(ctxt.device.calls@ =~= old(ctxt).device.calls@ + seg_sync + seg_register);
    }

    let already_enabled = match ctxt.state.enabled_debug_output {
        Some(b) => b,
        None => false,
    };
    if !already_enabled {
        ctxt.device.record(NativeCall::EnableDebugOutput);
    }
    ctxt.state.enabled_debug_output = Some(true);

    proof {
        assert(ctxt.device.calls@ =~= old(ctxt).device.calls@ + seg_sync + seg_register
            + seg_enable);
        assert(spec_install_calls(old(ctxt).version, old(ctxt).extensions, old(ctxt).state)
            == seg_sync + seg_register + seg_enable);
    }
}

/// Installs the debug bridge through the winning tier, unless the caller's
/// configuration suppresses installation altogether.
///
/// The build configuration and the environment toggle are read outside the
/// core and arrive as `callback_allowed`.
pub fn init_debug_callback(ctxt: &mut CommandContext, callback_allowed: bool)
    ensures
        final(ctxt).device.next_sampler_id == old(ctxt).device.next_sampler_id,
        same_context_probe(*old(ctxt), *final(ctxt)),
        callback_allowed ==> {
            &&& final(ctxt).device.calls@ == old(ctxt).device.calls@ + spec_install_calls(
                old(ctxt).version,
                old(ctxt).extensions,
                old(ctxt).state,
            )
            &&& final(ctxt).state == spec_state_after_install(
                old(ctxt).version,
                old(ctxt).extensions,
                old(ctxt).state,
            )
        },
        !callback_allowed ==> *final(ctxt) == *old(ctxt),
{
    if !callback_allowed {
        return ;
    }

    let tier = debug_tier(&ctxt.version, &ctxt.extensions);
    match tier {
        None => {
            proof {
                assert(ctxt.device.calls@ =~= old(ctxt).device.calls@ + spec_install_calls(
                    old(ctxt).version,
                    old(ctxt).extensions,
                    old(ctxt).state,
                ));
            }
        },
        Some(tier) => {
            install_tier(ctxt, tier);
        },
    }
}

} // verus!
