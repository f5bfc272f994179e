use hyperthree_native::draco::{
    ensure_position, mesh_indices, plan_attributes, point_indices, semantic_name, AttributeInfo,
    AttributeKind, DracoError,
};

fn info(kind: AttributeKind, item_size: usize) -> AttributeInfo {
    AttributeInfo { kind, item_size, numeric: true }
}

#[test]
fn texture_coordinates_and_colors_are_numbered() {
    let (mut t, mut c) = (0, 0);
    assert_eq!(semantic_name(AttributeKind::TextureCoordinate, &mut t, &mut c), Some("uv"));
    assert_eq!(semantic_name(AttributeKind::TextureCoordinate, &mut t, &mut c), Some("uv1"));
    assert_eq!(semantic_name(AttributeKind::TextureCoordinate, &mut t, &mut c), None);
    assert_eq!(semantic_name(AttributeKind::Color, &mut t, &mut c), Some("color"));
    assert_eq!(semantic_name(AttributeKind::Joint, &mut t, &mut c), Some("skinIndex"));
    assert_eq!(semantic_name(AttributeKind::Material, &mut t, &mut c), None);
    assert_eq!((t, c), (2, 1));
}

#[test]
fn attribute_plans_skip_unnamed_attributes_and_check_widths() {
    let plan = plan_attributes(&vec![
        info(AttributeKind::Position, 3),
        info(AttributeKind::Custom, 9),
        info(AttributeKind::Normal, 3),
    ])
    .unwrap();
    let names: Vec<(usize, String, usize)> =
        plan.iter().map(|p| (p.source, p.name.clone(), p.item_size)).collect();
    assert_eq!(
        names,
        vec![(0, "position".to_string(), 3), (2, "normal".to_string(), 3)]
    );
    assert!(ensure_position(&plan).is_ok());
    assert_eq!(
        plan_attributes(&vec![info(AttributeKind::Normal, 5)]).unwrap_err(),
        DracoError::UnsupportedWidth(5)
    );
    let mut bad = info(AttributeKind::Position, 3);
    bad.numeric = false;
    assert_eq!(plan_attributes(&vec![bad]).unwrap_err(), DracoError::InvalidComponentType);
    let no_position = plan_attributes(&vec![info(AttributeKind::Normal, 3)]).unwrap();
    assert_eq!(ensure_position(&no_position), Err(DracoError::NoPosition));
}

#[test]
fn index_buffers_of_meshes_and_point_clouds() {
    assert_eq!(mesh_indices(&vec![[0, 1, 2], [2, 1, 3]]).unwrap(), vec![0, 1, 2, 2, 1, 3]);
    assert_eq!(
        mesh_indices(&vec![[0, 1, (u32::MAX as usize) + 1]]),
        Err(DracoError::IndexTooLarge)
    );
    assert_eq!(point_indices(4).unwrap(), vec![0, 1, 2, 3]);
    assert_eq!(point_indices(0).unwrap(), Vec::<u32>::new());
}
