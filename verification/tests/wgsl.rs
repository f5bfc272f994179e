use hyperthree_native::wgsl::{
    cast_literals, matching_parenthesis, normalize_abstract_integer_casts, normalize_integer_cast,
    normalize_texture_load_call, normalize_texture_load_levels, rewrite_integer_casts,
    sanitize_wgsl_structure, strip_diagnostic_directives,
};

/// Float parsing as the host does it: the integer value of a finite float
/// literal without a fractional part.
fn integral_value(literal: &str) -> Option<i64> {
    let value: f64 = literal.parse().ok()?;
    if value.is_finite() && value.fract() == 0.0 {
        Some(value as i64)
    } else {
        None
    }
}

fn sanitize_wgsl(source: &str) -> String {
    hyperthree_native::wgsl::sanitize_wgsl(source, &integral_value)
}

#[test]
fn removes_unsupported_wgsl_diagnostic_directives() {
    let source = "diagnostic(off, derivative_uniformity);\n@compute @workgroup_size(1) fn main() {}\n  diagnostic(on, foo);";

    assert_eq!(
        sanitize_wgsl(source),
        "@compute @workgroup_size(1) fn main() {}"
    );
}

#[test]
fn normalizes_three_texture_array_load_level() {
    let source = "nodeVar = textureLoad( texture, coord, layer, u32( 2u ) );";

    assert_eq!(
        sanitize_wgsl(source),
        "nodeVar = textureLoad( texture, coord, layer, i32(2));"
    );
}

#[test]
fn normalizes_abstract_integer_literals_for_naga() {
    let source = "let level = u32( 0.0 ); let layer = i32( 1.0 );";

    assert_eq!(sanitize_wgsl(source), "let level = 0u; let layer = 1i;");
}

#[test]
fn normalizes_external_texture_sampling_for_native_wgpu() {
    let source = "@group(0) @binding(0) var video: texture_external; fn sample() { let color = textureSampleBaseClampToEdge(video, sampler, vec2f(0.5)); }";

    assert_eq!(
        sanitize_wgsl(source),
        "@group(0) @binding(0) var video: texture_2d<f32>; fn sample() { let color = textureSample(video, sampler, vec2f(0.5)); }"
    );
}

#[test]
fn matching_parenthesis_skips_nested_pairs() {
    assert_eq!(matching_parenthesis("f(a(b), c)", 1), Some(9));
    assert_eq!(matching_parenthesis("f(a(b)", 1), None);
    assert_eq!(matching_parenthesis("(x)", 5), None);
}

#[test]
fn matching_parenthesis_is_the_first_balanced_byte() {
    assert_eq!(matching_parenthesis("f(a(b)c) x", 1), Some(7));
    assert_eq!(matching_parenthesis("(a", 0), None);
}

#[test]
fn matching_parenthesis_counts_utf8_bytes() {
    assert_eq!(matching_parenthesis("\u{e9}(a)", 2), Some(4));
    assert_eq!(matching_parenthesis("(\u{e9}\u{e9})", 0), Some(5));
}

#[test]
fn texture_load_call_keeps_calls_without_unsigned_level() {
    assert_eq!(
        normalize_texture_load_call("textureLoad(t, c, 0)"),
        "textureLoad(t, c, 0)"
    );
    assert_eq!(
        normalize_texture_load_call("textureLoad(t, c, u32(1u))"),
        "textureLoad(t, c, i32(1))"
    );
    assert_eq!(normalize_texture_load_call("textureLoad(t)"), "textureLoad(t)");
}

#[test]
fn texture_load_levels_are_rewritten_in_every_call() {
    assert_eq!(
        normalize_texture_load_levels("a(textureLoad(t, c, u32(3u))); textureLoad(t, c, u32( 4 ))"),
        "a(textureLoad(t, c, i32(3))); textureLoad(t, c, i32(4))"
    );
    assert_eq!(
        normalize_texture_load_levels("textureLoad(t, c, u32(2u)"),
        "textureLoad(t, c, u32(2u)"
    );
}

#[test]
fn integer_casts_keep_fractional_and_non_float_arguments() {
    let source = "u32(1.5) + u32(2) + u32(3e0)";
    assert_eq!(cast_literals(source, "u32("), vec!["1.5".to_string(), "3e0".to_string()]);
    assert_eq!(
        normalize_integer_cast(source, "u32(", "u", &integral_value),
        "u32(1.5) + u32(2) + 3u"
    );
    assert_eq!(
        rewrite_integer_casts(source, "u32(", "u", &[None, Some(7)]),
        "u32(1.5) + u32(2) + 7u"
    );
}

#[test]
fn abstract_integer_casts_cover_both_signs() {
    assert_eq!(
        normalize_abstract_integer_casts("i32(-2.0) u32(4.0) i32(x)", &integral_value),
        "-2i 4u i32(x)"
    );
}

#[test]
fn diagnostic_directives_are_dropped_line_by_line() {
    assert_eq!(
        strip_diagnostic_directives("a\r\n diagnostic(off, x);\nb\n"),
        "a\nb"
    );
    assert_eq!(strip_diagnostic_directives(""), "");
}

#[test]
fn structure_pass_maps_external_textures() {
    assert_eq!(
        sanitize_wgsl_structure("var t: texture_external;"),
        "var t: texture_2d<f32>;"
    );
}
