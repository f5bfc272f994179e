use hyperthree_native::modules::{
    export_target, module_candidates, package_entry, package_entry_path, resolve_existing_module_path,
    split_package, ModuleError, ModuleTarget, ProjectModuleLoader,
};
use std::collections::HashMap;
use serde_json::Value;

fn json(text: &str) -> Value {
    serde_json::from_str(text).unwrap()
}

#[test]
fn package_specifiers_split_into_package_and_subpath() {
    assert_eq!(split_package("demo").unwrap(), ("demo".to_string(), String::new()));
    assert_eq!(
        split_package("demo/lib/x.js").unwrap(),
        ("demo".to_string(), "/lib/x.js".to_string())
    );
    assert_eq!(
        split_package("@scope/pkg/sub").unwrap(),
        ("@scope/pkg".to_string(), "/sub".to_string())
    );
    assert_eq!(split_package("@scope"), Err(ModuleError::InvalidPackageSpecifier));
}

#[test]
fn package_exports_prefer_import_then_default() {
    let package = json(r#"{"exports":{".":{"import":"./source.js","default":"./source.js"}}}"#);
    assert_eq!(package_entry(&package, "."), Some("./source.js".to_string()));
    assert_eq!(export_target(&json(r#"{"default":"./d.js"}"#)), Some("./d.js".to_string()));
    assert_eq!(export_target(&json("3")), None);
    assert_eq!(package_entry_path(Some(&package), "").unwrap(), "./source.js");
    assert_eq!(
        package_entry_path(Some(&json(r#"{"main":"main.js"}"#)), "").unwrap(),
        "main.js"
    );
    assert_eq!(package_entry_path(Some(&json("{}")), "").unwrap(), "index.js");
    assert_eq!(package_entry_path(None, ""), Err(ModuleError::NoPackageJson));
    assert_eq!(package_entry_path(None, "//lib/a.js").unwrap(), "lib/a.js");
}

#[test]
fn imports_resolve_by_kind() {
    let loader = ProjectModuleLoader::new("/game".to_string());
    match loader.module_target(Some("/game/src/main.js"), "./dependency.js").unwrap() {
        ModuleTarget::Path(p) => assert_eq!(p, "/game/src/./dependency.js"),
        other => panic!("unexpected {other:?}"),
    }
    assert_eq!(
        loader.module_target(None, "./x.js").unwrap_err(),
        ModuleError::RelativeWithoutReferrer
    );
    match loader.module_target(None, "demo").unwrap() {
        ModuleTarget::Package { package, subpath } => {
            assert_eq!((package.as_str(), subpath.as_str()), ("demo", ""));
        }
        other => panic!("unexpected {other:?}"),
    }
    assert_eq!(loader.package_root("demo"), "/game/node_modules/demo");
    assert_eq!(loader.ensure_inside("/game/src/a.js"), Ok(()));
    assert_eq!(loader.ensure_inside("/other/a.js"), Err(ModuleError::OutsideRoot));
    assert_eq!(module_candidates("/game/a.mjs"), vec!["/game/a.mjs".to_string()]);
    assert_eq!(
        module_candidates("/game/lib"),
        vec![
            "/game/lib.js".to_string(),
            "/game/lib.mjs".to_string(),
            "/game/lib/index.js".to_string()
        ]
    );
}

#[test]
fn existing_module_is_the_first_candidate_that_is_a_file() {
    let only_mjs = |p: &str| p == "/game/src/util.mjs";
    assert_eq!(resolve_existing_module_path("/game/src/util", &only_mjs).unwrap(), "/game/src/util.mjs");
    let both = |p: &str| p == "/game/src/util.js" || p == "/game/src/util.mjs";
    assert_eq!(resolve_existing_module_path("/game/src/util", &both).unwrap(), "/game/src/util.js");
    let index = |p: &str| p == "/game/src/util/index.js";
    assert_eq!(resolve_existing_module_path("/game/src/util", &index).unwrap(), "/game/src/util/index.js");
    let none = |_: &str| false;
    assert_eq!(resolve_existing_module_path("/game/src/util", &none), Err(ModuleError::NotFound));
    let named = |p: &str| p == "/game/src/util.ts";
    assert_eq!(resolve_existing_module_path("/game/src/util.ts", &named).unwrap(), "/game/src/util.ts");
}

#[test]
fn packages_resolve_through_their_package_json() {
    let loader = ProjectModuleLoader::new("/game".to_string());
    let mut files: HashMap<String, String> = HashMap::new();
    files.insert(
        "/game/node_modules/three/package.json".to_string(),
        r#"{"exports": {".": {"import": "./build/three.module.js"}, "./addons/*": "./examples/jsm/*"}}"#.to_string(),
    );
    files.insert("/game/node_modules/@scope/lib/package.json".to_string(), r#"{"main": "lib.js"}"#.to_string());
    files.insert("/game/node_modules/broken/package.json".to_string(), "not json".to_string());
    let read = |p: &str| files.get(p).cloned();
    assert_eq!(
        loader.resolve_package("three", &read).unwrap(),
        "/game/node_modules/three/./build/three.module.js"
    );
    assert_eq!(loader.resolve_package("@scope/lib", &read).unwrap(), "/game/node_modules/@scope/lib/lib.js");
    assert_eq!(
        loader.resolve_package("@scope/lib/extra/file.js", &read).unwrap(),
        "/game/node_modules/@scope/lib/extra/file.js"
    );
    assert_eq!(loader.resolve_package("missing", &read), Err(ModuleError::NoPackageJson));
    assert_eq!(loader.resolve_package("broken", &read), Err(ModuleError::InvalidPackageJson));
    assert_eq!(loader.resolve_package("broken/inner.js", &read).unwrap(), "/game/node_modules/broken/inner.js");
    assert_eq!(loader.resolve_package("@scope", &read), Err(ModuleError::InvalidPackageSpecifier));
}

#[test]
fn module_paths_are_found_made_canonical_and_kept_inside_the_root() {
    let loader = ProjectModuleLoader::new("/game".to_string());
    let read = |_: &str| -> Option<String> { None };
    let is_file = |p: &str| p == "/game/src/./util.js" || p == "/other/lib.js";
    let canonicalize = |p: &str| Some(p.to_string());
    assert_eq!(
        loader.resolve_path(Some("/game/src/main.js"), "./util", &read, &is_file, &canonicalize).unwrap(),
        "/game/src/./util.js"
    );
    assert_eq!(
        loader.resolve_path(None, "./util", &read, &is_file, &canonicalize),
        Err(ModuleError::RelativeWithoutReferrer)
    );
    assert_eq!(
        loader.resolve_path(Some("/game/src/main.js"), "/other/lib", &read, &is_file, &canonicalize),
        Err(ModuleError::OutsideRoot)
    );
    assert_eq!(
        loader.resolve_path(Some("/game/src/main.js"), "./missing", &read, &is_file, &canonicalize),
        Err(ModuleError::NotFound)
    );
    let lost = |_: &str| -> Option<String> { None };
    assert_eq!(
        loader.resolve_path(Some("/game/src/main.js"), "./util", &read, &is_file, &lost),
        Err(ModuleError::NoCanonicalPath)
    );
    assert_eq!(
        loader.resolve_path(Some("/game/src/main.js"), "lib", &read, &is_file, &canonicalize),
        Err(ModuleError::NoPackageJson)
    );
}

#[test]
fn module_candidates_follow_std_path_extension() {
    assert_eq!(module_candidates("lib/main.js"), vec!["lib/main.js".to_string()]);
    assert_eq!(module_candidates("lib.v2/main").len(), 3);
    assert_eq!(module_candidates("lib/.hidden").len(), 3);
}
