use gpu_core::paths::{bytes_eq, file_name, parent_dir, path_join};
use gpu_core::shader::{
    compile_options, entry_point, register_resolved_header, resolve_header, DependencyMap,
    HeaderKind, WatchRegistry, TARGET_API_VERSION_1_3, TARGET_BINARY_VERSION_1_6,
};

fn b(s: &str) -> Vec<u8> {
    s.as_bytes().to_vec()
}

#[test]
fn parent_and_file_name_split_on_last_separator() {
    assert_eq!(parent_dir(&b("shaders/sub/f.frag")), b("shaders/sub"));
    assert_eq!(parent_dir(&b("f.frag")), b(""));
    assert_eq!(parent_dir(&b("/abs/x.glsl")), b("/abs"));
    assert_eq!(file_name(&b("shaders/sub/f.frag")), b("f.frag"));
    assert_eq!(file_name(&b("f.frag")), b("f.frag"));
}

#[test]
fn join_inserts_exactly_one_separator() {
    assert_eq!(path_join(&b("shaders"), &b("common.glsl")), b("shaders/common.glsl"));
    assert_eq!(path_join(&b("shaders/"), &b("common.glsl")), b("shaders/common.glsl"));
    assert_eq!(path_join(&b(""), &b("common.glsl")), b("common.glsl"));
    assert_eq!(path_join(&b("shaders"), &b("/abs.glsl")), b("/abs.glsl"));
}

#[test]
fn bytes_eq_compares_contents() {
    assert!(bytes_eq(&b("a/b"), &b("a/b")));
    assert!(!bytes_eq(&b("a/b"), &b("a/c")));
    assert!(!bytes_eq(&b("a"), &b("ab")));
}

#[test]
fn dependents_are_recorded_once_in_order() {
    let mut deps = DependencyMap::new();
    deps.register_dependent(&b("common.glsl"), &b("shaders/f.frag"));
    deps.register_dependent(&b("common.glsl"), &b("shaders/g.frag"));
    deps.register_dependent(&b("common.glsl"), &b("shaders/f.frag"));
    assert_eq!(
        deps.dependents_of(&b("common.glsl")),
        vec![b("shaders/f.frag"), b("shaders/g.frag")]
    );
    assert_eq!(deps.dependents_of(&b("other.glsl")), Vec::<Vec<u8>>::new());
    assert_eq!(deps.anchor_of(&b("common.glsl")), Some(b("shaders/f.frag")));
    assert_eq!(deps.anchor_of(&b("other.glsl")), None);
}

#[test]
fn propagation_copies_the_source_roots() {
    let mut deps = DependencyMap::new();
    // Root shaders f.frag and g.frag both pulled in helpers.glsl.
    deps.register_dependent(&b("helpers.glsl"), &b("shaders/f.frag"));
    deps.register_dependent(&b("helpers.glsl"), &b("shaders/g.frag"));
    // helpers.glsl in turn pulls in math.glsl, which g.frag already
    // depended on directly.
    deps.register_dependent(&b("math.glsl"), &b("shaders/g.frag"));
    deps.propagate(&b("math.glsl"), &b("helpers.glsl"));
    assert_eq!(
        deps.dependents_of(&b("math.glsl")),
        vec![b("shaders/g.frag"), b("shaders/f.frag")]
    );
    // The source entry itself is untouched.
    assert_eq!(
        deps.dependents_of(&b("helpers.glsl")),
        vec![b("shaders/f.frag"), b("shaders/g.frag")]
    );
}

#[test]
fn transitive_dependency_reaches_the_root() {
    // Root R pulls in header A; header A pulls in header B. After both
    // resolutions, R is recorded as a dependent of B.
    let mut deps = DependencyMap::new();
    let mut watches = WatchRegistry::new();
    deps.register_dependent(&b("r.frag"), &b("shaders/r.frag"));
    // r.frag names a.glsl: resolve and book it.
    let path_a = resolve_header(
        &deps,
        &b("shaders"),
        &b("a.glsl"),
        HeaderKind::Standard,
        &b("r.frag"),
    );
    register_resolved_header(&mut deps, &mut watches, &b("a.glsl"), &b("r.frag"), &path_a);
    // a.glsl names b.glsl: resolve and book it.
    let path_b = resolve_header(
        &deps,
        &b("shaders"),
        &b("b.glsl"),
        HeaderKind::Standard,
        &b("a.glsl"),
    );
    register_resolved_header(&mut deps, &mut watches, &b("b.glsl"), &b("a.glsl"), &path_b);
    assert!(deps.dependents_of(&b("b.glsl")).contains(&b("shaders/r.frag")));
}

#[test]
fn standard_header_resolves_under_shader_root() {
    let mut deps = DependencyMap::new();
    let mut watches = WatchRegistry::new();
    deps.register_dependent(&b("f.frag"), &b("shaders/f.frag"));
    let resolved = resolve_header(
        &deps,
        &b("shaders"),
        &b("common.glsl"),
        HeaderKind::Standard,
        &b("f.frag"),
    );
    assert_eq!(resolved, b("shaders/common.glsl"));
    let fresh = register_resolved_header(
        &mut deps,
        &mut watches,
        &b("common.glsl"),
        &b("f.frag"),
        &resolved,
    );
    assert!(fresh);
    assert!(watches.is_watched(&b("shaders/common.glsl")));
    assert!(deps.dependents_of(&b("common.glsl")).contains(&b("shaders/f.frag")));
}

#[test]
fn relative_header_resolves_against_the_source_directory() {
    let mut deps = DependencyMap::new();
    deps.register_dependent(&b("f.frag"), &b("shaders/sub/f.frag"));
    let resolved = resolve_header(
        &deps,
        &b("root-of-standards"),
        &b("../util.glsl"),
        HeaderKind::Relative,
        &b("f.frag"),
    );
    // Resolved against the parent directory of f.frag's own path, not
    // against the shader root.
    assert_eq!(resolved, b("shaders/sub/../util.glsl"));
}

#[test]
fn watches_are_registered_once() {
    let mut watches = WatchRegistry::new();
    assert!(!watches.is_watched(&b("shaders/common.glsl")));
    assert!(watches.register_watch(&b("shaders/common.glsl")));
    assert!(!watches.register_watch(&b("shaders/common.glsl")));
    assert!(watches.is_watched(&b("shaders/common.glsl")));
    assert!(watches.register_watch(&b("shaders/util.glsl")));
}

#[test]
fn compile_settings_are_fixed_per_flavor() {
    let release = compile_options(false);
    assert_eq!(release.target_api_version, TARGET_API_VERSION_1_3);
    assert_eq!(release.target_api_version, (1 << 22) | (3 << 12));
    assert_eq!(release.target_binary_version, TARGET_BINARY_VERSION_1_6);
    assert_eq!(release.target_binary_version, 0x0001_0600);
    assert!(release.generate_debug_info);
    assert!(release.optimize);
    let debug = compile_options(true);
    assert!(debug.generate_debug_info);
    assert!(!debug.optimize);
    // Equal flavors see identical settings, so recompiling an unchanged
    // source runs under the same options both times.
    assert_eq!(compile_options(false), release);
    assert_eq!(entry_point(), "main");
}
