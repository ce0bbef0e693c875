use basalt::model::{build_vertices, AssetError, DrawCall, Mesh, Model, RawMesh};

fn bits(v: &[f32]) -> Vec<u32> {
    v.iter().map(|f| f.to_bits()).collect()
}

fn triangle(name: &str, material_id: Option<usize>) -> RawMesh {
    RawMesh {
        name: name.to_string(),
        positions: bits(&[0.0, 0.0, 0.0, 1.0, 0.0, 0.0, 0.0, 1.0, 0.0]),
        texcoords: bits(&[0.0, 0.0, 1.0, 0.0, 0.0, 1.0]),
        normals: bits(&[0.0, 0.0, 1.0, 0.0, 0.0, 1.0, 0.0, 0.0, 1.0]),
        indices: vec![0, 1, 2],
        material_id,
    }
}

#[test]
fn vertices_interleave_position_texcoord_normal() {
    let v = build_vertices(&vec![1, 2, 3, 4, 5, 6], &vec![10, 11, 12, 13], &vec![20, 21, 22, 23, 24, 25])
        .unwrap();
    assert_eq!(v, vec![1, 2, 3, 10, 11, 20, 21, 22, 4, 5, 6, 12, 13, 23, 24, 25]);
}

#[test]
fn positions_not_multiple_of_three_fail() {
    assert_eq!(build_vertices(&vec![1, 2, 3, 4], &vec![0, 0], &vec![0, 0, 0]), Err(AssetError::ParseError));
}

#[test]
fn missing_texcoords_or_normals_fail() {
    assert_eq!(build_vertices(&vec![1, 2, 3], &vec![], &vec![0, 0, 0]), Err(AssetError::ParseError));
    assert_eq!(build_vertices(&vec![1, 2, 3], &vec![0, 0], &vec![0, 0]), Err(AssetError::ParseError));
}

#[test]
fn empty_geometry_has_no_vertices() {
    assert_eq!(build_vertices(&vec![], &vec![], &vec![]), Ok(vec![]));
}

#[test]
fn mesh_defaults_to_first_material() {
    let m = Mesh::from_raw(triangle("tri", None), 1).unwrap();
    assert_eq!(m.material, 0);
    assert_eq!(m.num_elements, 3);
    assert_eq!(m.vertices.len(), 24);
    assert_eq!(m.vertex_bytes().len(), 96);
    assert_eq!(m.index_bytes().len(), 12);
    assert_eq!(m.name, "tri");
}

#[test]
fn vertex_bytes_hold_the_words() {
    let m = Mesh::from_raw(triangle("tri", None), 1).unwrap();
    let b = m.vertex_bytes();
    let first = u32::from_ne_bytes([b[12], b[13], b[14], b[15]]);
    assert_eq!(first, 0.0f32.to_bits());
    let x = u32::from_ne_bytes([b[32], b[33], b[34], b[35]]);
    assert_eq!(f32::from_bits(x), 1.0);
}

#[test]
fn mesh_with_unknown_material_fails() {
    assert!(matches!(Mesh::from_raw(triangle("tri", Some(2)), 2), Err(AssetError::ParseError)));
    assert!(matches!(Mesh::from_raw(triangle("tri", None), 0), Err(AssetError::ParseError)));
}

#[test]
fn model_has_one_mesh_per_submesh() {
    let raws = vec![triangle("a", Some(1)), triangle("b", None), triangle("c", Some(0))];
    let model = Model::from_parts(raws, vec!["stone", "grass"]).unwrap();
    assert_eq!(model.meshes.len(), 3);
    let names: Vec<&str> = model.meshes.iter().map(|m| m.name.as_str()).collect();
    assert_eq!(names, vec!["a", "b", "c"]);
    for m in &model.meshes {
        assert!(m.material < model.materials.len());
    }
    assert_eq!(model.meshes[0].material, 1);
}

#[test]
fn malformed_submesh_fails_the_whole_model() {
    let mut bad = triangle("bad", None);
    bad.positions.pop();
    let raws = vec![triangle("a", None), bad];
    assert!(matches!(Model::from_parts(raws, vec![()]), Err(AssetError::ParseError)));
}

#[test]
fn one_mesh_nineteen_instances_gives_one_draw() {
    let model = Model::from_parts(vec![triangle("hex", None)], vec!["basalt"]).unwrap();
    let calls = model.plan_draws(19);
    assert_eq!(calls, vec![DrawCall { mesh: 0, material: 0, index_count: 3, instance_count: 19 }]);
}

#[test]
fn draws_follow_mesh_order() {
    let raws = vec![triangle("a", Some(1)), triangle("b", Some(0))];
    let model = Model::from_parts(raws, vec![0u8, 1u8]).unwrap();
    let calls = model.plan_draws(1);
    assert_eq!(calls.len(), 2);
    assert_eq!((calls[0].mesh, calls[0].material), (0, 1));
    assert_eq!((calls[1].mesh, calls[1].material), (1, 0));
}

#[test]
fn empty_model_has_no_draws() {
    let model: Model<()> = Model::from_parts(vec![], vec![]).unwrap();
    assert!(model.plan_draws(5).is_empty());
}
