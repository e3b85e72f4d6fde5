//! The capability gate: a pure check of required and optional features
//! against the reported version and extensions.
//!
//! An ordered table of independent checks is evaluated without
//! short-circuiting: every failing check appends one human-readable
//! diagnostic, and success requires that none failed.

use vstd::prelude::*;
use crate::extensions::ExtensionsList;
use crate::version::{Api, Version};

verus! {

/// Which optional checks the build has enabled.
///
/// Each flag gates one entry of the check table; the always-enforced checks
/// run regardless.
#[derive(Clone, Copy, Debug, PartialEq, Eq, Structural)]
pub struct OptionalChecks {
    pub uniform_blocks: bool,
    pub sync: bool,
    pub persistent_mapping: bool,
    pub program_binary: bool,
    pub tessellation: bool,
    pub instancing: bool,
    pub integral_textures: bool,
    pub depth_textures: bool,
    pub stencil_textures: bool,
    pub texture_multisample: bool,
    pub texture_multisample_array: bool,
}

impl OptionalChecks {
    /// The configuration with every optional check disabled.
    pub open spec fn spec_none() -> OptionalChecks {
        OptionalChecks {
            uniform_blocks: false,
            sync: false,
            persistent_mapping: false,
            program_binary: false,
            tessellation: false,
            instancing: false,
            integral_textures: false,
            depth_textures: false,
            stencil_textures: false,
            texture_multisample: false,
            texture_multisample_array: false,
        }
    }

    /// Builds the configuration with every optional check disabled.
    pub fn none() -> (r: OptionalChecks)
        ensures
            r == OptionalChecks::spec_none(),
    {
        OptionalChecks {
            uniform_blocks: false,
            sync: false,
            persistent_mapping: false,
            program_binary: false,
            tessellation: false,
            instancing: false,
            integral_textures: false,
            depth_textures: false,
            stencil_textures: false,
            texture_multisample: false,
            texture_multisample_array: false,
        }
    }
}

impl Default for OptionalChecks {
    /// By default no optional check is enforced.
    fn default() -> (r: OptionalChecks)
        ensures
            r == OptionalChecks::spec_none(),
    {
        OptionalChecks::none()
    }
}

/// Buffer objects are missing: version below both thresholds and the two
/// fallback extensions are not both present.
pub open spec fn missing_buffer_objects(v: Version, e: ExtensionsList) -> bool {
    &&& !v.spec_at_least(Api::Gl, 1, 5)
    &&& !v.spec_at_least(Api::GlEs, 2, 0)
    &&& (!e.gl_arb_vertex_buffer_object || !e.gl_arb_map_buffer_range)
}

/// Shader objects are missing: version below both thresholds and the three
/// fallback extensions are not all present.
pub open spec fn missing_shaders(v: Version, e: ExtensionsList) -> bool {
    &&& !v.spec_at_least(Api::Gl, 2, 0)
    &&& !v.spec_at_least(Api::GlEs, 2, 0)
    &&& (!e.gl_arb_shader_objects || !e.gl_arb_vertex_shader || !e.gl_arb_fragment_shader)
}

/// Framebuffer objects are missing.
pub open spec fn missing_framebuffers(v: Version, e: ExtensionsList) -> bool {
    &&& !e.gl_ext_framebuffer_object
    &&& !v.spec_at_least(Api::Gl, 3, 0)
    &&& !v.spec_at_least(Api::GlEs, 2, 0)
}

/// Framebuffer blitting is missing.
pub open spec fn missing_framebuffer_blit(v: Version, e: ExtensionsList) -> bool {
    &&& !e.gl_ext_framebuffer_blit
    &&& !v.spec_at_least(Api::Gl, 3, 0)
    &&& !v.spec_at_least(Api::GlEs, 2, 0)
}

/// Vertex array objects are missing.
pub open spec fn missing_vertex_array_objects(v: Version, e: ExtensionsList) -> bool {
    &&& !e.gl_arb_vertex_array_object
    &&& !e.gl_apple_vertex_array_object
    &&& !e.gl_oes_vertex_array_object
    &&& !v.spec_at_least(Api::Gl, 3, 0)
    &&& !v.spec_at_least(Api::GlEs, 3, 0)
}

/// Uniform blocks are missing, when that optional check is enabled.
pub open spec fn missing_uniform_blocks(v: Version, e: ExtensionsList, c: OptionalChecks) -> bool {
    c.uniform_blocks && !v.spec_at_least(Api::Gl, 3, 1) && !e.gl_arb_uniform_buffer_object
}

/// Synchronization objects are missing, when that optional check is enabled.
pub open spec fn missing_sync(v: Version, e: ExtensionsList, c: OptionalChecks) -> bool {
    c.sync && !v.spec_at_least(Api::Gl, 3, 2) && !v.spec_at_least(Api::GlEs, 3, 0)
        && !e.gl_arb_sync
}

/// Persistent mapping is missing, when that optional check is enabled.
pub open spec fn missing_persistent_mapping(
    v: Version,
    e: ExtensionsList,
    c: OptionalChecks,
) -> bool {
    c.persistent_mapping && !v.spec_at_least(Api::Gl, 4, 4) && !e.gl_arb_buffer_storage
}

/// Program binaries are missing, when that optional check is enabled.
pub open spec fn missing_program_binary(v: Version, e: ExtensionsList, c: OptionalChecks) -> bool {
    c.program_binary && !v.spec_at_least(Api::Gl, 4, 1) && !e.gl_arb_get_program_binary
}

/// Tessellation is missing, when that optional check is enabled.
pub open spec fn missing_tessellation(v: Version, e: ExtensionsList, c: OptionalChecks) -> bool {
    c.tessellation && !v.spec_at_least(Api::Gl, 4, 0) && !e.gl_arb_tessellation_shader
}

/// Instancing is missing, when that optional check is enabled.
pub open spec fn missing_instancing(v: Version, e: ExtensionsList, c: OptionalChecks) -> bool {
    c.instancing && !v.spec_at_least(Api::Gl, 3, 3) && !e.gl_arb_instanced_arrays
}

/// Integral textures are missing, when that optional check is enabled.
pub open spec fn missing_integral_textures(
    v: Version,
    e: ExtensionsList,
    c: OptionalChecks,
) -> bool {
    c.integral_textures && !v.spec_at_least(Api::Gl, 3, 0) && !e.gl_ext_texture_integer
}

/// Depth or depth-stencil textures are missing, when that optional check is
/// enabled.
pub open spec fn missing_depth_textures(v: Version, e: ExtensionsList, c: OptionalChecks) -> bool {
    c.depth_textures && !v.spec_at_least(Api::Gl, 3, 0)
        && (!e.gl_arb_depth_texture || !e.gl_ext_packed_depth_stencil)
}

/// Stencil textures are missing, when that optional check is enabled.
pub open spec fn missing_stencil_textures(v: Version, c: OptionalChecks) -> bool {
    c.stencil_textures && !v.spec_at_least(Api::Gl, 3, 0)
}

/// Multisample textures are missing, when that optional check is enabled.
pub open spec fn missing_texture_multisample(v: Version, c: OptionalChecks) -> bool {
    c.texture_multisample && !v.spec_at_least(Api::Gl, 3, 2)
}

/// Arrays of multisample textures are missing, when that optional check is
/// enabled.
pub open spec fn missing_texture_multisample_array(v: Version, c: OptionalChecks) -> bool {
    c.texture_multisample_array && !v.spec_at_least(Api::Gl, 3, 2)
}

/// The views of a list of diagnostics.
pub open spec fn views_of(msgs: Seq<String>) -> Seq<Seq<char>> {
    msgs.map_values(|s: String| s@)
}

/// What one entry of the check table contributes to the diagnostics: its
/// message when the feature is missing, nothing otherwise.
pub open spec fn gate_entry(missing: bool, message: Seq<char>) -> Seq<Seq<char>> {
    if missing {
        seq![message]
    } else {
        Seq::empty()
    }
}

/// The exact diagnostics of a full table evaluation, in table-declaration
/// order: one message for every failing check, none for a passing one.
pub open spec fn spec_gate_messages(
    v: Version,
    e: ExtensionsList,
    c: OptionalChecks,
) -> Seq<Seq<char>> {
    Seq::<Seq<char>>::empty() + gate_entry(
        missing_buffer_objects(v, e),
        "OpenGL implementation doesn't support buffer objects"@,
    ) + gate_entry(
        missing_shaders(v, e),
        "OpenGL implementation doesn't support vertex/fragment shaders"@,
    ) + gate_entry(
        missing_framebuffers(v, e),
        "OpenGL implementation doesn't support framebuffers"@,
    ) + gate_entry(
        missing_framebuffer_blit(v, e),
        "OpenGL implementation doesn't support blitting framebuffers"@,
    ) + gate_entry(
        missing_vertex_array_objects(v, e),
        "OpenGL implementation doesn't support vertex array objects"@,
    ) + gate_entry(
        missing_uniform_blocks(v, e, c),
        "OpenGL implementation doesn't support uniform blocks"@,
    ) + gate_entry(
        missing_sync(v, e, c),
        "OpenGL implementation doesn't support synchronization objects"@,
    ) + gate_entry(
        missing_persistent_mapping(v, e, c),
        "OpenGL implementation doesn't support persistent mapping"@,
    ) + gate_entry(
        missing_program_binary(v, e, c),
        "OpenGL implementation doesn't support program binary"@,
    ) + gate_entry(
        missing_tessellation(v, e, c),
        "OpenGL implementation doesn't support tessellation"@,
    ) + gate_entry(
        missing_instancing(v, e, c),
        "OpenGL implementation doesn't support instancing"@,
    ) + gate_entry(
        missing_integral_textures(v, e, c),
        "OpenGL implementation doesn't support integral textures"@,
    ) + gate_entry(
        missing_depth_textures(v, e, c),
        "OpenGL implementation doesn't support depth or depth-stencil textures"@,
    ) + gate_entry(
        missing_stencil_textures(v, c),
        "OpenGL implementation doesn't support stencil textures"@,
    ) + gate_entry(
        missing_texture_multisample(v, c),
        "OpenGL implementation doesn't support multisample textures"@,
    ) + gate_entry(
        missing_texture_multisample_array(v, c),
        "OpenGL implementation doesn't support arrays of multisample textures"@,
    )
}

/// Appends `message` to the diagnostics exactly when `missing` holds.
fn append_check(result: &mut Vec<String>, missing: bool, message: &str)
    ensures
        views_of(final(result)@) == views_of(old(result)@) + gate_entry(missing, message@),
{
    if missing {
        result.push(String::from_str(message));
        proof {
            assert(views_of(result@) =~= views_of(old(result)@) + gate_entry(true, message@));
        }
    } else {
        proof {
            assert(views_of(result@) =~= views_of(result@) + gate_entry(false, message@));
        }
    }
}

/// Runs the five always-enforced checks, appending their diagnostics.
#[verifier::rlimit(50)]
fn append_required_checks(
    result: &mut Vec<String>,
    version: &Version,
    extensions: &ExtensionsList,
)
    ensures
        views_of(final(result)@) == views_of(old(result)@) + gate_entry(
            missing_buffer_objects(*version, *extensions),
            "OpenGL implementation doesn't support buffer objects"@,
        ) + gate_entry(
            missing_shaders(*version, *extensions),
            "OpenGL implementation doesn't support vertex/fragment shaders"@,
        ) + gate_entry(
            missing_framebuffers(*version, *extensions),
            "OpenGL implementation doesn't support framebuffers"@,
        ) + gate_entry(
            missing_framebuffer_blit(*version, *extensions),
            "OpenGL implementation doesn't support blitting framebuffers"@,
        ) + gate_entry(
            missing_vertex_array_objects(*version, *extensions),
            "OpenGL implementation doesn't support vertex array objects"@,
        ),
{
    append_check(
        result,
        !version.at_least(Api::Gl, 1, 5) && !version.at_least(Api::GlEs, 2, 0)
            && (!extensions.gl_arb_vertex_buffer_object || !extensions.gl_arb_map_buffer_range),
        "OpenGL implementation doesn't support buffer objects",
    );
    append_check(
        result,
        !version.at_least(Api::Gl, 2, 0) && !version.at_least(Api::GlEs, 2, 0)
            && (!extensions.gl_arb_shader_objects || !extensions.gl_arb_vertex_shader
                || !extensions.gl_arb_fragment_shader),
        "OpenGL implementation doesn't support vertex/fragment shaders",
    );
    append_check(
        result,
        !extensions.gl_ext_framebuffer_object && !version.at_least(Api::Gl, 3, 0)
            && !version.at_least(Api::GlEs, 2, 0),
        "OpenGL implementation doesn't support framebuffers",
    );
    append_check(
        result,
        !extensions.gl_ext_framebuffer_blit && !version.at_least(Api::Gl, 3, 0)
            && !version.at_least(Api::GlEs, 2, 0),
        "OpenGL implementation doesn't support blitting framebuffers",
    );
    append_check(
        result,
        !extensions.gl_arb_vertex_array_object && !extensions.gl_apple_vertex_array_object
            && !extensions.gl_oes_vertex_array_object && !version.at_least(Api::Gl, 3, 0)
            && !version.at_least(Api::GlEs, 3, 0),
        "OpenGL implementation doesn't support vertex array objects",
    );
}

/// Runs the enabled optional checks, appending their diagnostics.
#[verifier::rlimit(50)]
fn append_optional_checks(
    result: &mut Vec<String>,
    version: &Version,
    extensions: &ExtensionsList,
    checks: &OptionalChecks,
)
    ensures
        views_of(final(result)@) == views_of(old(result)@) + gate_entry(
            missing_uniform_blocks(*version, *extensions, *checks),
            "OpenGL implementation doesn't support uniform blocks"@,
        ) + gate_entry(
            missing_sync(*version, *extensions, *checks),
            "OpenGL implementation doesn't support synchronization objects"@,
        ) + gate_entry(
            missing_persistent_mapping(*version, *extensions, *checks),
            "OpenGL implementation doesn't support persistent mapping"@,
        ) + gate_entry(
            missing_program_binary(*version, *extensions, *checks),
            "OpenGL implementation doesn't support program binary"@,
        ) + gate_entry(
            missing_tessellation(*version, *extensions, *checks),
            "OpenGL implementation doesn't support tessellation"@,
        ) + gate_entry(
            missing_instancing(*version, *extensions, *checks),
            "OpenGL implementation doesn't support instancing"@,
        ) + gate_entry(
            missing_integral_textures(*version, *extensions, *checks),
            "OpenGL implementation doesn't support integral textures"@,
        ) + gate_entry(
            missing_depth_textures(*version, *extensions, *checks),
            "OpenGL implementation doesn't support depth or depth-stencil textures"@,
        ) + gate_entry(
            missing_stencil_textures(*version, *checks),
            "OpenGL implementation doesn't support stencil textures"@,
        ) + gate_entry(
            missing_texture_multisample(*version, *checks),
            "OpenGL implementation doesn't support multisample textures"@,
        ) + gate_entry(
            missing_texture_multisample_array(*version, *checks),
            "OpenGL implementation doesn't support arrays of multisample textures"@,
        ),
{
    append_check(
        result,
        checks.uniform_blocks && !version.at_least(Api::Gl, 3, 1)
            && !extensions.gl_arb_uniform_buffer_object,
        "OpenGL implementation doesn't support uniform blocks",
    );
    append_check(
        result,
        checks.sync && !version.at_least(Api::Gl, 3, 2) && !version.at_least(Api::GlEs, 3, 0)
            && !extensions.gl_arb_sync,
        "OpenGL implementation doesn't support synchronization objects",
    );
    append_check(
        result,
        checks.persistent_mapping && !version.at_least(Api::Gl, 4, 4)
            && !extensions.gl_arb_buffer_storage,
        "OpenGL implementation doesn't support persistent mapping",
    );
    append_check(
        result,
        checks.program_binary && !version.at_least(Api::Gl, 4, 1)
            && !extensions.gl_arb_get_program_binary,
        "OpenGL implementation doesn't support program binary",
    );
    append_check(
        result,
        checks.tessellation && !version.at_least(Api::Gl, 4, 0)
            && !extensions.gl_arb_tessellation_shader,
        "OpenGL implementation doesn't support tessellation",
    );
    append_check(
        result,
        checks.instancing && !version.at_least(Api::Gl, 3, 3)
            && !extensions.gl_arb_instanced_arrays,
        "OpenGL implementation doesn't support instancing",
    );
    append_check(
        result,
        checks.integral_textures && !version.at_least(Api::Gl, 3, 0)
            && !extensions.gl_ext_texture_integer,
        "OpenGL implementation doesn't support integral textures",
    );
    append_check(
        result,
        checks.depth_textures && !version.at_least(Api::Gl, 3, 0)
            && (!extensions.gl_arb_depth_texture || !extensions.gl_ext_packed_depth_stencil),
        "OpenGL implementation doesn't support depth or depth-stencil textures",
    );
    append_check(
        result,
        checks.stencil_textures && !version.at_least(Api::Gl, 3, 0),
        "OpenGL implementation doesn't support stencil textures",
    );
    append_check(
        result,
        checks.texture_multisample && !version.at_least(Api::Gl, 3, 2),
        "OpenGL implementation doesn't support multisample textures",
    );
    append_check(
        result,
        checks.texture_multisample_array && !version.at_least(Api::Gl, 3, 2),
        "OpenGL implementation doesn't support arrays of multisample textures",
    );
}

/// Evaluates the whole check table against the reported version and
/// extensions.
///
/// Succeeds exactly when no check fails; otherwise returns every failing
/// check's diagnostic, in table-declaration order.
#[verifier::rlimit(50)]
pub fn check_gl_compatibility(
    version: &Version,
    extensions: &ExtensionsList,
    checks: &OptionalChecks,
) -> (r: Result<(), Vec<String>>)
    ensures
        ({
            let expected = spec_gate_messages(*version, *extensions, *checks);
            match r {
                Ok(()) => expected.len() == 0,
                Err(msgs) => msgs@.len() > 0 && views_of(msgs@) == expected,
            }
        }),
{
    let mut result: Vec<String> = Vec::new();
    proof {
        assert(views_of(result@) =~= Seq::<Seq<char>>::empty());
    }

    append_required_checks(&mut result, version, extensions);
    append_optional_checks(&mut result, version, extensions, checks);
    proof {
        assert(views_of(result@) == spec_gate_messages(*version, *extensions, *checks));
    }

    if result.len() == 0 {
        Ok(())
    } else {
        Err(result)
    }
}

/// What joining diagnostics with a newline separator yields.
pub open spec fn spec_join_lines(lines: Seq<Seq<char>>) -> Seq<char>
    decreases lines.len(),
{
    if lines.len() == 0 {
        Seq::empty()
    } else if lines.len() == 1 {
        lines[0]
    } else {
        lines[0] + seq!['\n'] + spec_join_lines(lines.drop_first())
    }
}

/// Appending one more line extends the join by a separator and that line.
pub proof fn lemma_join_lines_push(lines: Seq<Seq<char>>, line: Seq<char>)
    requires
        lines.len() >= 1,
    ensures
        spec_join_lines(lines.push(line)) == spec_join_lines(lines) + seq!['\n'] + line,
    decreases lines.len(),
{
    assert(lines.push(line)[0] == lines[0]);
    if lines.len() == 1 {
        assert(lines.push(line).drop_first() =~= seq![line]);
        assert(spec_join_lines(seq![line]) == line);
        assert(spec_join_lines(lines.push(line)) == lines[0] + seq!['\n'] + line);
        assert(spec_join_lines(lines) == lines[0]);
    } else {
        assert(lines.push(line).drop_first() =~= lines.drop_first().push(line));
        lemma_join_lines_push(lines.drop_first(), line);
        assert(spec_join_lines(lines.push(line)) == lines[0] + seq!['\n'] + (spec_join_lines(
            lines.drop_first(),
        ) + seq!['\n'] + line));
        assert(lines[0] + seq!['\n'] + (spec_join_lines(lines.drop_first()) + seq!['\n'] + line)
            =~= (lines[0] + seq!['\n'] + spec_join_lines(lines.drop_first())) + seq!['\n'] + line);
    }
}

/// Joins diagnostics into one report, newline-separated.
pub fn join_diagnostics(msgs: &Vec<String>) -> (r: String)
    ensures
        r@ == spec_join_lines(views_of(msgs@)),
{
    let ghost all = views_of(msgs@);
    let mut out = String::from_str("");
    proof {
        reveal_strlit("");
        assert(out@ =~= spec_join_lines(all.subrange(0, 0)));
    }
    let mut i: usize = 0;
    while i < msgs.len()
        invariant
            i <= msgs.len(),
            all == views_of(msgs@),
            all.len() == msgs@.len(),
            out@ == spec_join_lines(all.subrange(0, i as int)),
        decreases msgs.len() - i,
    {
        if i > 0 {
            out.append("\n");
            proof {
                reveal_strlit("\n");
                assert("\n"@ =~= seq!['\n']);
            }
        }
        out.append(msgs[i].as_str());
        proof {
            let pre = all.subrange(0, i as int);
            let post = all.subrange(0, i + 1 as int);
            assert(post =~= pre.push(all[i as int]));
            assert(all[i as int] == msgs@[i as int]@);
            if i > 0 {
                lemma_join_lines_push(pre, all[i as int]);
            } else {
                assert(post.len() == 1);
                assert(spec_join_lines(post) == all[0]);
            }
        }
        i = i + 1;
    }
    proof {
        assert(all.subrange(0, msgs@.len() as int) =~= all);
    }
    out
}

} // verus!
