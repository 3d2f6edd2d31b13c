use opengl_render::mesh::{
    build_vertices, build_vertices_flat, build_vertices_parallel, classify_property,
    flatten_faces, flatten_faces_parallel, property_update, vertex_at, MeshError,
};
use opengl_render::model::{MaterialProperty, PropertyUpdate};
use opengl_render::vertex::Vertex;

fn parts(v: &Vertex<f32>) -> ([f32; 3], [f32; 3], [f32; 2]) {
    (v.position, v.normal, v.tex_coords)
}

#[test]
fn vertices_take_position_normal_and_two_texture_coordinates() {
    let positions = vec![[1.0f32, 2.0, 3.0], [4.0, 5.0, 6.0]];
    let normals = vec![[0.0f32, 1.0, 0.0], [1.0, 0.0, 0.0], [9.0, 9.0, 9.0]];
    let tex = Some(vec![[0.25f32, 0.5, 7.0], [0.75, 1.0, 7.0]]);
    let expect = vec![
        ([1.0, 2.0, 3.0], [0.0, 1.0, 0.0], [0.25, 0.5]),
        ([4.0, 5.0, 6.0], [1.0, 0.0, 0.0], [0.75, 1.0]),
    ];
    let serial = build_vertices(&positions, &normals, &tex, 0.0).ok().unwrap();
    assert_eq!(serial.iter().map(parts).collect::<Vec<_>>(), expect);
    let parallel = build_vertices_parallel(&positions, &normals, &tex, 0.0).ok().unwrap();
    assert_eq!(parallel.iter().map(parts).collect::<Vec<_>>(), expect);
    assert_eq!(parts(&vertex_at(&positions, &normals, &tex, 0.0, 1)), expect[1]);
}

#[test]
fn vertices_without_texture_coordinates_get_zeros() {
    let positions = vec![[1.0f32, 2.0, 3.0]];
    let normals = vec![[0.0f32, 0.0, 1.0]];
    let v = build_vertices(&positions, &normals, &None, 0.0).ok().unwrap();
    assert_eq!(parts(&v[0]), ([1.0, 2.0, 3.0], [0.0, 0.0, 1.0], [0.0, 0.0]));
    let v = build_vertices_parallel(&positions, &normals, &None, 0.0).ok().unwrap();
    assert_eq!(parts(&v[0]), ([1.0, 2.0, 3.0], [0.0, 0.0, 1.0], [0.0, 0.0]));
    let none: Vec<[f32; 3]> = Vec::new();
    assert!(build_vertices(&none, &none, &None, 0.0).ok().unwrap().is_empty());
}

#[test]
fn parallel_vertices_keep_the_order_of_the_mesh() {
    let positions: Vec<[u32; 3]> = (0..5000).map(|i| [i, i + 1, i + 2]).collect();
    let normals: Vec<[u32; 3]> = (0..5000).map(|i| [2 * i, 0, 1]).collect();
    let tex = Some((0..5000).map(|i| [i, 3 * i, 0]).collect::<Vec<[u32; 3]>>());
    let serial = build_vertices(&positions, &normals, &tex, 0).ok().unwrap();
    let parallel = build_vertices_parallel(&positions, &normals, &tex, 0).ok().unwrap();
    assert_eq!(parallel.len(), 5000);
    for (i, (s, p)) in serial.iter().zip(parallel.iter()).enumerate() {
        let i = i as u32;
        assert_eq!(p.position, [i, i + 1, i + 2]);
        assert_eq!(p.normal, [2 * i, 0, 1]);
        assert_eq!(p.tex_coords, [i, 3 * i]);
        assert_eq!((s.position, s.normal, s.tex_coords), (p.position, p.normal, p.tex_coords));
    }
}

#[test]
fn incomplete_meshes_are_refused() {
    let positions = vec![[1.0f32, 2.0, 3.0], [4.0, 5.0, 6.0]];
    let normals = vec![[0.0f32, 1.0, 0.0]];
    let r = build_vertices(&positions, &normals, &None, 0.0);
    assert!(matches!(r, Err(MeshError::MissingNormals)));
    let r = build_vertices_parallel(&positions, &normals, &Some(Vec::new()), 0.0);
    assert!(matches!(r, Err(MeshError::MissingNormals)));
    let normals = vec![[0.0f32, 1.0, 0.0]; 2];
    let r = build_vertices(&positions, &normals, &Some(vec![[0.0; 3]]), 0.0);
    assert!(matches!(r, Err(MeshError::MissingTexCoords)));
    let r = build_vertices_parallel(&positions, &normals, &Some(vec![[0.0; 3]]), 0.0);
    assert!(matches!(r, Err(MeshError::MissingTexCoords)));
}

#[test]
fn faces_are_laid_out_one_after_the_other() {
    let faces = vec![vec![0, 1, 2], vec![], vec![2, 1, 3], vec![7]];
    assert_eq!(flatten_faces(&faces), vec![0, 1, 2, 2, 1, 3, 7]);
    assert_eq!(flatten_faces_parallel(&faces), vec![0, 1, 2, 2, 1, 3, 7]);
    assert!(flatten_faces(&Vec::new()).is_empty());
    let many: Vec<Vec<u32>> = (0..4000).map(|i| vec![3 * i, 3 * i + 1, 3 * i + 2]).collect();
    let expect: Vec<u32> = (0..12000).collect();
    assert_eq!(flatten_faces(&many), expect);
    assert_eq!(flatten_faces_parallel(&many), expect);
}

#[test]
fn flat_positions_become_vertices_with_normals_where_there_are_any() {
    let default = Vertex { position: [0.0f32, 0.0, 1.0], normal: [0.0, 0.0, -1.0], tex_coords: [0.0, 0.0] };
    let positions = vec![1.0f32, 2.0, 3.0, 4.0, 5.0, 6.0, 7.0, 8.0, 9.0, 10.0];
    let normals = vec![0.0f32, 1.0, 0.0, 1.0, 0.0];
    let v = build_vertices_flat(&positions, &normals, default);
    assert_eq!(v.len(), 3);
    assert_eq!(parts(&v[0]), ([1.0, 2.0, 3.0], [0.0, 1.0, 0.0], [0.0, 0.0]));
    assert_eq!(parts(&v[1]), ([4.0, 5.0, 6.0], [0.0, 0.0, -1.0], [0.0, 0.0]));
    assert_eq!(parts(&v[2]), ([7.0, 8.0, 9.0], [0.0, 0.0, -1.0], [0.0, 0.0]));
    assert!(build_vertices_flat(&vec![1.0f32, 2.0], &normals, default).is_empty());
}

#[test]
fn property_keys_are_told_apart() {
    assert_eq!(classify_property("$clr.base"), MaterialProperty::BaseColor);
    assert_eq!(classify_property("$mat.roughnessFactor"), MaterialProperty::RoughnessFactor);
    assert_eq!(classify_property("$mat.metallicFactor"), MaterialProperty::MetallicFactor);
    assert_eq!(classify_property("$clr.diffuse"), MaterialProperty::DiffuseColor);
    assert_eq!(classify_property("$mat.shininess"), MaterialProperty::Shininess);
    assert_eq!(classify_property("$clr.specular"), MaterialProperty::Other);
    assert_eq!(classify_property("$clr.bas"), MaterialProperty::Other);
    assert_eq!(classify_property("$CLR.BASE"), MaterialProperty::Other);
    assert_eq!(classify_property(""), MaterialProperty::Other);
}

#[test]
fn properties_update_the_material() {
    let rgb = vec![0.5f32, 0.25, 0.125, 1.0];
    assert!(matches!(property_update("$clr.base", &rgb), PropertyUpdate::Albedo([0.5, 0.25, 0.125])));
    assert!(matches!(property_update("$clr.diffuse", &rgb), PropertyUpdate::Albedo([0.5, 0.25, 0.125])));
    assert!(matches!(property_update("$mat.roughnessFactor", &rgb), PropertyUpdate::Roughness(0.5)));
    assert!(matches!(property_update("$mat.metallicFactor", &rgb), PropertyUpdate::Metallic(0.5)));
    assert!(matches!(
        property_update("$mat.shininess", &vec![900.0f32]),
        PropertyUpdate::RoughnessOfShininess(900.0)
    ));
    assert!(matches!(property_update("$mat.opacity", &rgb), PropertyUpdate::Unchanged));
    assert!(matches!(property_update("$clr.base", &vec![1.0f32, 2.0]), PropertyUpdate::Unchanged));
    assert!(matches!(property_update("$mat.shininess", &Vec::<f32>::new()), PropertyUpdate::Unchanged));
}
