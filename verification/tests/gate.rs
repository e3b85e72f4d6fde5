use glctx::compatibility::{check_gl_compatibility, join_diagnostics, OptionalChecks};
use glctx::extensions::ExtensionsList;
use glctx::version::{Api, Version};

fn all_required_extensions() -> ExtensionsList {
    let mut e = ExtensionsList::none();
    e.gl_arb_vertex_buffer_object = true;
    e.gl_arb_map_buffer_range = true;
    e.gl_arb_shader_objects = true;
    e.gl_arb_vertex_shader = true;
    e.gl_arb_fragment_shader = true;
    e.gl_ext_framebuffer_object = true;
    e.gl_ext_framebuffer_blit = true;
    e.gl_arb_vertex_array_object = true;
    e
}

#[test]
fn capability_gate_nothing_satisfied_lists_the_five_required_checks() {
    let version = Version(Api::Gl, 1, 0);
    let extensions = ExtensionsList::none();
    let checks = OptionalChecks::none();
    let r = check_gl_compatibility(&version, &extensions, &checks);
    let msgs = r.expect_err("an ancient driver with no extensions must fail");
    assert_eq!(
        msgs,
        vec![
            "OpenGL implementation doesn't support buffer objects".to_string(),
            "OpenGL implementation doesn't support vertex/fragment shaders".to_string(),
            "OpenGL implementation doesn't support framebuffers".to_string(),
            "OpenGL implementation doesn't support blitting framebuffers".to_string(),
            "OpenGL implementation doesn't support vertex array objects".to_string(),
        ]
    );
}

#[test]
fn capability_gate_diagnostics_join_with_newlines() {
    let version = Version(Api::Gl, 1, 0);
    let extensions = ExtensionsList::none();
    let checks = OptionalChecks::none();
    let msgs = check_gl_compatibility(&version, &extensions, &checks).unwrap_err();
    let joined = join_diagnostics(&msgs);
    assert_eq!(
        joined,
        "OpenGL implementation doesn't support buffer objects\n\
         OpenGL implementation doesn't support vertex/fragment shaders\n\
         OpenGL implementation doesn't support framebuffers\n\
         OpenGL implementation doesn't support blitting framebuffers\n\
         OpenGL implementation doesn't support vertex array objects"
    );
}

#[test]
fn capability_gate_desktop_3_0_meets_every_required_check() {
    let version = Version(Api::Gl, 3, 0);
    let extensions = ExtensionsList::none();
    let checks = OptionalChecks::none();
    assert!(check_gl_compatibility(&version, &extensions, &checks).is_ok());
}

#[test]
fn capability_gate_extension_fallbacks_cover_an_old_version() {
    let version = Version(Api::Gl, 1, 0);
    let extensions = all_required_extensions();
    let checks = OptionalChecks::none();
    assert!(check_gl_compatibility(&version, &extensions, &checks).is_ok());
}

#[test]
fn capability_gate_mobile_2_0_misses_only_vertex_array_objects() {
    let version = Version(Api::GlEs, 2, 0);
    let extensions = ExtensionsList::none();
    let checks = OptionalChecks::none();
    let msgs = check_gl_compatibility(&version, &extensions, &checks).unwrap_err();
    assert_eq!(
        msgs,
        vec!["OpenGL implementation doesn't support vertex array objects".to_string()]
    );
}

#[test]
fn capability_gate_version_comparison_is_profile_qualified() {
    // A mobile 3.0 version is never "at least" desktop 1.5: the buffer-object
    // check passes only through its mobile threshold, never across kinds.
    let version = Version(Api::GlEs, 3, 0);
    let extensions = ExtensionsList::none();
    let checks = OptionalChecks::none();
    assert!(check_gl_compatibility(&version, &extensions, &checks).is_ok());

    let v = Version(Api::GlEs, 9, 9);
    assert!(!v.at_least(Api::Gl, 1, 0));
    assert!(v.at_least(Api::GlEs, 3, 0));
}

#[test]
fn capability_gate_optional_checks_add_their_diagnostics() {
    let version = Version(Api::Gl, 3, 2);
    let extensions = ExtensionsList::none();
    let mut checks = OptionalChecks::none();
    checks.tessellation = true;
    checks.persistent_mapping = true;
    let msgs = check_gl_compatibility(&version, &extensions, &checks).unwrap_err();
    assert_eq!(
        msgs,
        vec![
            "OpenGL implementation doesn't support persistent mapping".to_string(),
            "OpenGL implementation doesn't support tessellation".to_string(),
        ]
    );
}

#[test]
fn capability_gate_optional_checks_satisfied_by_version_or_extension() {
    let mut checks = OptionalChecks::none();
    checks.tessellation = true;
    let extensions = ExtensionsList::none();
    assert!(check_gl_compatibility(&Version(Api::Gl, 4, 0), &extensions, &checks).is_ok());

    let mut with_ext = ExtensionsList::none();
    with_ext.gl_arb_tessellation_shader = true;
    assert!(check_gl_compatibility(&Version(Api::Gl, 3, 2), &with_ext, &checks).is_ok());
}
