use hyperthree_native::asset::{
    asset_metadata, geometry_indices, inspect_asset, validate_asset_path, AssetError, AssetStore,
};
use hyperthree_native::paths::PathRejection;

const MINIMAL_GLTF: &str = r#"{"asset":{"version":"2.0"},"buffers":[{"byteLength":36}],"bufferViews":[{"buffer":0,"byteLength":36}],"accessors":[{"bufferView":0,"componentType":5126,"count":3,"type":"VEC3","min":[0,0,0],"max":[1,1,0]}],"meshes":[{"primitives":[{"attributes":{"POSITION":0}},{"attributes":{"POSITION":0}}]}]}"#;

#[test]
fn binary_assets_report_their_extension() {
    let inspected = inspect_asset(&[1, 2, 3], "public/test.BIN").unwrap();
    assert_eq!(inspected.format, "bin");
    assert_eq!(inspected.mesh_count, 0);
    assert_eq!(inspect_asset(&[], "public/data").unwrap().format, "binary");
    let metadata = asset_metadata("public\\test.bin", 3, inspected);
    assert_eq!(metadata.relative_path, "public/test.bin");
    assert_eq!(metadata.byte_length, 3);
}

#[test]
fn gltf_assets_report_their_contents() {
    let inspected = inspect_asset(MINIMAL_GLTF.as_bytes(), "public/scene.gltf").unwrap();
    assert_eq!(inspected.format, "gltf");
    assert_eq!(inspected.mesh_count, 1);
    assert_eq!(inspected.primitive_count, 2);
    assert_eq!(inspected.animation_count, 0);
    assert_eq!(
        inspect_asset(b"not gltf", "public/scene.gltf").unwrap_err(),
        AssetError::InvalidGltf
    );
    assert_eq!(inspect_asset(b"glTFxxxx", "x.bin").unwrap_err(), AssetError::InvalidGltf);
}

#[test]
fn glb_header_shorter_than_itself_is_refused() {
    let header: [u8; 12] = [0x67, 0x6c, 0x54, 0x46, 2, 0, 0, 0, 0, 0, 0, 0];
    assert_eq!(inspect_asset(&header, "scene.glb").unwrap_err(), AssetError::InvalidGltf);
    let header: [u8; 12] = [0x67, 0x6c, 0x54, 0x46, 2, 0, 0, 0, 11, 0, 0, 0];
    assert_eq!(inspect_asset(&header, "scene.bin").unwrap_err(), AssetError::InvalidGltf);
}

#[test]
fn asset_paths_and_default_indices() {
    assert_eq!(
        validate_asset_path("../outside.bin"),
        Err(AssetError::InvalidPath(PathRejection::Traversal))
    );
    assert_eq!(validate_asset_path("public/a.bin").unwrap(), "public/a.bin");
    assert_eq!(geometry_indices(3, None).unwrap(), vec![0, 1, 2]);
    assert_eq!(geometry_indices(4, Some(vec![0, 1, 2])).unwrap(), vec![0, 1, 2]);
    assert_eq!(geometry_indices(2, None), Err(AssetError::TooFewPositions));
}

#[test]
fn asset_paths_resolve_inside_the_project() {
    let store = AssetStore::new("/game".to_string());
    let canonicalize = |p: &str| -> Option<String> {
        match p {
            "/game/public/box.glb" => Some("/game/public/box.glb".to_string()),
            "/game/public/escape.glb" => Some("/elsewhere/box.glb".to_string()),
            _ => None,
        }
    };
    assert_eq!(store.resolve_path("public/box.glb", &canonicalize).unwrap(), "/game/public/box.glb");
    assert_eq!(store.resolve_path("public/escape.glb", &canonicalize), Err(AssetError::EscapesRoot));
    assert_eq!(store.resolve_path("public/none.glb", &canonicalize), Err(AssetError::Missing));
    assert_eq!(
        store.resolve_path("/game/public/box.glb", &canonicalize),
        Err(AssetError::InvalidPath(PathRejection::Absolute))
    );
}
