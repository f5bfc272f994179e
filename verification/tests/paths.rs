use hyperthree_native::paths::{
    is_module_source, validate_relative_path, validate_sandbox_path, PathRejection,
};

#[test]
fn asset_paths_must_be_relative_without_parent_components() {
    assert_eq!(validate_relative_path("public/scene.gltf").unwrap(), "public/scene.gltf");
    assert_eq!(validate_relative_path("./a/b..c").unwrap(), "./a/b..c");
    assert_eq!(validate_relative_path(""), Err(PathRejection::Empty));
    assert_eq!(validate_relative_path("/etc"), Err(PathRejection::Absolute));
    assert_eq!(validate_relative_path("../outside.bin"), Err(PathRejection::Traversal));
    assert_eq!(validate_relative_path("a/../b"), Err(PathRejection::Traversal));
}

#[test]
fn sandbox_paths_take_plain_names_only() {
    assert_eq!(validate_sandbox_path("saves/slot.bin").unwrap(), "saves/slot.bin");
    assert_eq!(validate_sandbox_path("./slot.bin"), Err(PathRejection::Traversal));
    assert_eq!(validate_sandbox_path("saves/.."), Err(PathRejection::Traversal));
    assert_eq!(validate_sandbox_path(""), Err(PathRejection::Empty));
    assert_eq!(validate_sandbox_path("/slot.bin"), Err(PathRejection::Absolute));
}

#[test]
fn module_sources_are_recognised_by_extension_or_statement() {
    assert!(is_module_source("main.mjs", "console.log(1);"));
    assert!(is_module_source("main.js", "const a = 1;\n  import { b } from './b.js';"));
    assert!(is_module_source("main.js", "export{ a };"));
    assert!(!is_module_source("main.js", "const imported = 1;"));
    assert!(!is_module_source(".mjs", "let x;"));
}

#[test]
fn path_rules_follow_std_path_components() {
    assert_eq!(validate_sandbox_path("saves/./slot.bin").unwrap(), "saves/./slot.bin");
    assert_eq!(validate_sandbox_path("/saves"), Err(PathRejection::Absolute));
    assert_eq!(validate_relative_path("a/./b").unwrap(), "a/./b");
    assert!(!is_module_source("dir/.mjs", ""));
    assert!(is_module_source("dir/a.b.mjs", ""));
}
