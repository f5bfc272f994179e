use hyperthree_native::bridge::{
    check_geometry_shape, GeometryRegistry, GeometryUploadError, NativeInputState,
    TextureRegistry, TextureUploadError,
};

fn flat_normals(positions: &Vec<[f32; 3]>, _indices: &Vec<u32>) -> Vec<[f32; 3]> {
    vec![[0.0, 0.0, 1.0]; positions.len()]
}

#[test]
fn input_state_tracks_physical_keys() {
    let mut input: NativeInputState<f64> = NativeInputState::default();
    input.set_key("KeyW".to_string(), true);
    assert!(input.is_key_down("KeyW"));
    input.clear();
    assert!(!input.is_key_down("KeyW"));
}

#[test]
fn input_state_tracks_mouse_position_and_buttons() {
    let mut input: NativeInputState<f64> = NativeInputState::default();
    input.set_mouse_position(12.5, 24.0);
    input.set_mouse_button(0, true);
    assert_eq!(input.mouse_position(), [12.5, 24.0]);
    assert!(input.is_mouse_button_down(0));
    input.clear();
    assert!(!input.is_mouse_button_down(0));
}

#[test]
fn geometry_and_texture_registries_validate_native_upload_shapes() {
    let mut geometries: GeometryRegistry<[f32; 3], [f32; 2]> = GeometryRegistry::new();
    geometries
        .register(
            7,
            vec![[0.0, 0.0, 0.0], [1.0, 0.0, 0.0], [0.0, 1.0, 0.0]],
            vec![0, 1, 2],
            Vec::new(),
            vec![[0.0, 0.0], [1.0, 0.0], [0.0, 1.0]],
            flat_normals,
        )
        .unwrap();
    assert_eq!(geometries.get(7).unwrap().uvs.len(), 3);
    let mut textures = TextureRegistry::new();
    assert!(textures.register(9, 1, 1, vec![255, 0, 0, 255]).is_ok());
    assert!(textures.register(10, 1, 1, vec![255, 0, 0]).is_err());
}

#[test]
fn released_keys_and_buttons_are_forgotten() {
    let mut input: NativeInputState<f64> = NativeInputState::new([1.0, 2.0]);
    input.set_key("Space".to_string(), true);
    input.set_key("Space".to_string(), false);
    assert!(!input.is_key_down("Space"));
    input.set_mouse_button(2, true);
    input.set_mouse_button(2, false);
    assert!(!input.is_mouse_button_down(2));
    assert_eq!(input.mouse_position(), [1.0, 2.0]);
}

#[test]
fn texture_registry_reads_back_what_was_registered() {
    let mut textures = TextureRegistry::default();
    assert!(textures.get(3).is_none());
    textures.register(3, 2, 1, vec![1, 2, 3, 4, 5, 6, 7, 8]).unwrap();
    let texture = textures.get(3).unwrap();
    assert_eq!((texture.width, texture.height), (2, 1));
    assert_eq!(texture.rgba8, vec![1, 2, 3, 4, 5, 6, 7, 8]);
    assert!(matches!(
        textures.register(3, 0, 1, Vec::new()),
        Err(TextureUploadError::EmptyDimensions)
    ));
    assert_eq!(textures.get(3).unwrap().width, 2);
    let shared = TextureRegistry::shared();
    assert!(shared.lock().unwrap().get(3).is_none());
}

#[test]
fn geometry_uploads_are_checked_in_order() {
    assert_eq!(
        check_geometry_shape(2, &vec![0, 1, 2], 0, 0),
        Err(GeometryUploadError::TooFewVertices)
    );
    assert_eq!(
        check_geometry_shape(3, &vec![0, 1], 0, 0),
        Err(GeometryUploadError::IncompleteTriangles)
    );
    assert_eq!(
        check_geometry_shape(3, &vec![0, 1, 3], 0, 0),
        Err(GeometryUploadError::IndexOutOfRange)
    );
    assert_eq!(
        check_geometry_shape(3, &vec![0, 1, 2], 0, 2),
        Err(GeometryUploadError::UvCountMismatch)
    );
    assert_eq!(
        check_geometry_shape(3, &vec![0, 1, 2], 2, 3),
        Err(GeometryUploadError::NormalCountMismatch)
    );
    assert_eq!(check_geometry_shape(3, &vec![0, 1, 2], 3, 0), Ok(()));
}

#[test]
fn generated_normals_fill_a_geometry_without_normals() {
    let mut geometries: GeometryRegistry<[f32; 3], [f32; 2]> = GeometryRegistry::new();
    geometries
        .register(
            1,
            vec![[0.0, 0.0, 0.0], [1.0, 0.0, 0.0], [0.0, 1.0, 0.0]],
            vec![0, 1, 2],
            Vec::new(),
            Vec::new(),
            flat_normals,
        )
        .unwrap();
    assert_eq!(geometries.get(1).unwrap().normals, vec![[0.0, 0.0, 1.0]; 3]);
    assert!(geometries
        .register(2, Vec::new(), Vec::new(), Vec::new(), Vec::new(), flat_normals)
        .is_err());
    assert!(geometries.get(2).is_none());
}

#[test]
fn shared_state_starts_empty() {
    let textures = TextureRegistry::shared();
    let mut registry = textures.lock().unwrap();
    assert!(registry.get(1).is_none());
    registry.register(1, 1, 1, vec![1, 2, 3, 4]).unwrap();
    assert_eq!(registry.get(1).unwrap().rgba8, vec![1, 2, 3, 4]);
    let geometries = GeometryRegistry::<[f32; 3], [f32; 2]>::shared();
    assert!(geometries.lock().unwrap().get(7).is_none());
    let input = NativeInputState::<f64>::shared();
    let input = input.lock().unwrap();
    assert!(!input.is_key_down("KeyA"));
    assert_eq!(input.mouse_position(), [0.0, 0.0]);
}
