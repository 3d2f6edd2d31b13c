use glium::texture::CubeLayer;
use opengl_render::cube_face::{
    all_faces, Axis, CameraBasis, CubeFace, FACE_COUNT, TEXTURE_CUBE_MAP_POSITIVE_X,
};

fn dot(a: Axis, b: Axis) -> i32 {
    a.x as i32 * b.x as i32 + a.y as i32 * b.y as i32 + a.z as i32 * b.z as i32
}

#[test]
fn faces_come_in_the_fixed_order() {
    let faces = all_faces();
    assert_eq!(
        faces,
        vec![
            CubeFace::PositiveX,
            CubeFace::NegativeX,
            CubeFace::PositiveY,
            CubeFace::NegativeY,
            CubeFace::PositiveZ,
            CubeFace::NegativeZ,
        ]
    );
    for (i, face) in faces.iter().enumerate() {
        assert_eq!(face.index(), i);
        assert_eq!(CubeFace::from_index(i), Some(*face));
    }
    assert_eq!(CubeFace::from_index(FACE_COUNT), None);
    assert_eq!(CubeFace::from_index(usize::MAX), None);
}

#[test]
fn file_names_follow_the_face_order() {
    let names: Vec<&str> = all_faces().iter().map(|f| f.file_base_name()).collect();
    assert_eq!(names, vec!["right", "left", "top", "bottom", "front", "back"]);
}

#[test]
fn gl_targets_agree_with_the_gl_bindings() {
    assert_eq!(TEXTURE_CUBE_MAP_POSITIVE_X, gl::TEXTURE_CUBE_MAP_POSITIVE_X);
    assert_eq!(CubeFace::PositiveX.gl_enum(), gl::TEXTURE_CUBE_MAP_POSITIVE_X);
    assert_eq!(CubeFace::NegativeX.gl_enum(), gl::TEXTURE_CUBE_MAP_NEGATIVE_X);
    assert_eq!(CubeFace::PositiveY.gl_enum(), gl::TEXTURE_CUBE_MAP_POSITIVE_Y);
    assert_eq!(CubeFace::NegativeY.gl_enum(), gl::TEXTURE_CUBE_MAP_NEGATIVE_Y);
    assert_eq!(CubeFace::PositiveZ.gl_enum(), gl::TEXTURE_CUBE_MAP_POSITIVE_Z);
    assert_eq!(CubeFace::NegativeZ.gl_enum(), gl::TEXTURE_CUBE_MAP_NEGATIVE_Z);
}

#[test]
fn gl_targets_round_trip() {
    for face in all_faces() {
        assert_eq!(CubeFace::from_gl_enum(face.gl_enum()), Some(face));
    }
    assert_eq!(CubeFace::from_gl_enum(TEXTURE_CUBE_MAP_POSITIVE_X - 1), None);
    assert_eq!(CubeFace::from_gl_enum(TEXTURE_CUBE_MAP_POSITIVE_X + 6), None);
    assert_eq!(CubeFace::from_gl_enum(0), None);
    assert_eq!(CubeFace::from_gl_enum(u32::MAX), None);
}

#[test]
fn face_order_agrees_with_glium_layers() {
    let layers = [
        CubeLayer::PositiveX,
        CubeLayer::NegativeX,
        CubeLayer::PositiveY,
        CubeLayer::NegativeY,
        CubeLayer::PositiveZ,
        CubeLayer::NegativeZ,
    ];
    for (face, layer) in all_faces().iter().zip(layers.iter()) {
        assert_eq!(face.index(), layer.get_layer_index());
    }
}

#[test]
fn layer_basis_is_the_opengl_convention() {
    let expect = [
        ([1, 0, 0], [0, -1, 0]),
        ([-1, 0, 0], [0, -1, 0]),
        ([0, 1, 0], [0, 0, 1]),
        ([0, -1, 0], [0, 0, -1]),
        ([0, 0, 1], [0, -1, 0]),
        ([0, 0, -1], [0, -1, 0]),
    ];
    for (face, (dir, up)) in all_faces().iter().zip(expect.iter()) {
        let basis = face.layer_basis();
        assert_eq!(
            basis,
            CameraBasis {
                view_direction: Axis { x: dir[0], y: dir[1], z: dir[2] },
                up_vector: Axis { x: up[0], y: up[1], z: up[2] },
            }
        );
    }
}

#[test]
fn bake_basis_looks_along_the_face_order() {
    let expect = [
        ([1, 0, 0], [0, 1, 0]),
        ([-1, 0, 0], [0, 1, 0]),
        ([0, 1, 0], [0, 0, -1]),
        ([0, -1, 0], [0, 0, 1]),
        ([0, 0, 1], [0, 1, 0]),
        ([0, 0, -1], [0, 1, 0]),
    ];
    for (face, (dir, up)) in all_faces().iter().zip(expect.iter()) {
        let basis = face.bake_basis();
        assert_eq!(basis.view_direction, Axis { x: dir[0], y: dir[1], z: dir[2] });
        assert_eq!(basis.up_vector, Axis { x: up[0], y: up[1], z: up[2] });
        assert_eq!(basis.view_direction, face.layer_basis().view_direction);
    }
}

#[test]
fn both_bases_cover_all_six_directions_once() {
    let layer: Vec<Axis> = all_faces().iter().map(|f| f.layer_basis().view_direction).collect();
    let bake: Vec<Axis> = all_faces().iter().map(|f| f.bake_basis().view_direction).collect();
    for table in [layer, bake] {
        for i in 0..6 {
            assert_eq!(dot(table[i], table[i]), 1);
            for j in 0..6 {
                if i != j {
                    assert_ne!(table[i], table[j]);
                }
            }
        }
    }
    for face in all_faces() {
        for basis in [face.layer_basis(), face.bake_basis()] {
            assert_eq!(dot(basis.up_vector, basis.up_vector), 1);
            assert_eq!(dot(basis.view_direction, basis.up_vector), 0);
        }
    }
}
