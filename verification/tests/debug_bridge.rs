use glctx::backend::SimBackend;
use glctx::compatibility::OptionalChecks;
use glctx::context::Context;
use glctx::debug_callback::{debug_tier, should_raise_fatal, MessageType, Severity};
use glctx::device::{DebugTier, NativeCall};
use glctx::extensions::ExtensionsList;
use glctx::version::{Api, Version};

#[test]
fn trampoline_fires_on_qualifying_severity_and_type() {
    assert!(should_raise_fatal(MessageType::Error, Severity::High, true));
    assert!(should_raise_fatal(MessageType::UndefinedBehavior, Severity::Medium, true));
    assert!(should_raise_fatal(MessageType::Portability, Severity::High, true));
    assert!(should_raise_fatal(MessageType::DeprecatedBehavior, Severity::Medium, true));
}

#[test]
fn trampoline_silent_when_reporting_is_suppressed() {
    assert!(!should_raise_fatal(MessageType::Error, Severity::High, false));
}

#[test]
fn trampoline_ignores_low_severities_and_benign_types() {
    assert!(!should_raise_fatal(MessageType::Error, Severity::Low, true));
    assert!(!should_raise_fatal(MessageType::Error, Severity::Notification, true));
    assert!(!should_raise_fatal(MessageType::Performance, Severity::High, true));
    assert!(!should_raise_fatal(MessageType::Marker, Severity::Medium, true));
    assert!(!should_raise_fatal(MessageType::Other, Severity::High, true));
}

#[test]
fn debug_tier_prefers_the_core_facility() {
    assert_eq!(
        debug_tier(&Version(Api::Gl, 4, 5), &ExtensionsList::none()),
        Some(DebugTier::Core)
    );
    let mut khr = ExtensionsList::none();
    khr.gl_khr_debug = true;
    assert_eq!(debug_tier(&Version(Api::Gl, 3, 3), &khr), Some(DebugTier::Core));
}

#[test]
fn debug_tier_falls_back_to_the_mobile_variant_then_the_legacy_one() {
    let mut khr = ExtensionsList::none();
    khr.gl_khr_debug = true;
    assert_eq!(debug_tier(&Version(Api::GlEs, 3, 0), &khr), Some(DebugTier::Khr));

    let mut arb = ExtensionsList::none();
    arb.gl_arb_debug_output = true;
    assert_eq!(debug_tier(&Version(Api::Gl, 3, 3), &arb), Some(DebugTier::Arb));
}

#[test]
fn debug_tier_absent_without_any_facility() {
    assert_eq!(debug_tier(&Version(Api::Gl, 4, 4), &ExtensionsList::none()), None);
}

#[test]
fn install_uses_the_legacy_entry_points_when_only_they_exist() {
    let mut arb = ExtensionsList::none();
    arb.gl_arb_debug_output = true;
    let backend = SimBackend::new(Version(Api::Gl, 3, 3), arb, None, 100, 100);
    let c = Context::new(backend, false, &OptionalChecks::none(), true).unwrap();
    assert_eq!(
        c.ctxt.device.calls,
        vec![
            NativeCall::EnableDebugOutputSynchronous,
            NativeCall::RegisterDebugCallback { tier: DebugTier::Arb },
            NativeCall::ConfigureDebugFilter { tier: DebugTier::Arb },
            NativeCall::EnableDebugOutput,
        ]
    );
}

#[test]
fn install_skipped_when_no_facility_is_available() {
    let backend =
        SimBackend::new(Version(Api::Gl, 4, 4), ExtensionsList::none(), None, 100, 100);
    let c = Context::new(backend, false, &OptionalChecks::none(), true).unwrap();
    assert!(c.ctxt.device.calls.is_empty());
    assert_eq!(c.ctxt.state.enabled_debug_output, None);
}

#[test]
fn install_suppressed_by_the_external_toggle() {
    let backend =
        SimBackend::new(Version(Api::Gl, 4, 5), ExtensionsList::none(), None, 100, 100);
    let c = Context::new(backend, false, &OptionalChecks::none(), false).unwrap();
    assert!(c.ctxt.device.calls.is_empty());
    assert_eq!(c.ctxt.state.enabled_debug_output, None);
}
