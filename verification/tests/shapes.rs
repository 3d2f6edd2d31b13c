use opengl_render::shapes::{
    get_cube, get_cube_vertices, get_quad, get_quad_indices, get_quad_vertices, get_skybox_cube,
    vertex,
};
use opengl_render::vertex::Vertex;

fn row(p: [f32; 3], n: [f32; 3], t: [f32; 2]) -> ([f32; 3], [f32; 3], [f32; 2]) {
    (p, n, t)
}

fn as_floats(v: &Vertex<i8>) -> ([f32; 3], [f32; 3], [f32; 2]) {
    (
        [v.position[0] as f32, v.position[1] as f32, v.position[2] as f32],
        [v.normal[0] as f32, v.normal[1] as f32, v.normal[2] as f32],
        [v.tex_coords[0] as f32, v.tex_coords[1] as f32],
    )
}

#[test]
fn cube_is_the_classic_table() {
    let expect = vec![
        // back face
        row([-1.0, -1.0, -1.0], [0.0, 0.0, -1.0], [0.0, 0.0]),
        row([1.0, 1.0, -1.0], [0.0, 0.0, -1.0], [1.0, 1.0]),
        row([1.0, -1.0, -1.0], [0.0, 0.0, -1.0], [1.0, 0.0]),
        row([1.0, 1.0, -1.0], [0.0, 0.0, -1.0], [1.0, 1.0]),
        row([-1.0, -1.0, -1.0], [0.0, 0.0, -1.0], [0.0, 0.0]),
        row([-1.0, 1.0, -1.0], [0.0, 0.0, -1.0], [0.0, 1.0]),
        // front face
        row([-1.0, -1.0, 1.0], [0.0, 0.0, 1.0], [0.0, 0.0]),
        row([1.0, -1.0, 1.0], [0.0, 0.0, 1.0], [1.0, 0.0]),
        row([1.0, 1.0, 1.0], [0.0, 0.0, 1.0], [1.0, 1.0]),
        row([1.0, 1.0, 1.0], [0.0, 0.0, 1.0], [1.0, 1.0]),
        row([-1.0, 1.0, 1.0], [0.0, 0.0, 1.0], [0.0, 1.0]),
        row([-1.0, -1.0, 1.0], [0.0, 0.0, 1.0], [0.0, 0.0]),
        // left face
        row([-1.0, 1.0, 1.0], [-1.0, 0.0, 0.0], [1.0, 0.0]),
        row([-1.0, 1.0, -1.0], [-1.0, 0.0, 0.0], [1.0, 1.0]),
        row([-1.0, -1.0, -1.0], [-1.0, 0.0, 0.0], [0.0, 1.0]),
        row([-1.0, -1.0, -1.0], [-1.0, 0.0, 0.0], [0.0, 1.0]),
        row([-1.0, -1.0, 1.0], [-1.0, 0.0, 0.0], [0.0, 0.0]),
        row([-1.0, 1.0, 1.0], [-1.0, 0.0, 0.0], [1.0, 0.0]),
        // right face
        row([1.0, 1.0, 1.0], [1.0, 0.0, 0.0], [1.0, 0.0]),
        row([1.0, -1.0, -1.0], [1.0, 0.0, 0.0], [0.0, 1.0]),
        row([1.0, 1.0, -1.0], [1.0, 0.0, 0.0], [1.0, 1.0]),
        row([1.0, -1.0, -1.0], [1.0, 0.0, 0.0], [0.0, 1.0]),
        row([1.0, 1.0, 1.0], [1.0, 0.0, 0.0], [1.0, 0.0]),
        row([1.0, -1.0, 1.0], [1.0, 0.0, 0.0], [0.0, 0.0]),
        // bottom face
        row([-1.0, -1.0, -1.0], [0.0, -1.0, 0.0], [0.0, 1.0]),
        row([1.0, -1.0, -1.0], [0.0, -1.0, 0.0], [1.0, 1.0]),
        row([1.0, -1.0, 1.0], [0.0, -1.0, 0.0], [1.0, 0.0]),
        row([1.0, -1.0, 1.0], [0.0, -1.0, 0.0], [1.0, 0.0]),
        row([-1.0, -1.0, 1.0], [0.0, -1.0, 0.0], [0.0, 0.0]),
        row([-1.0, -1.0, -1.0], [0.0, -1.0, 0.0], [0.0, 1.0]),
        // top face
        row([-1.0, 1.0, -1.0], [0.0, 1.0, 0.0], [0.0, 1.0]),
        row([1.0, 1.0, 1.0], [0.0, 1.0, 0.0], [1.0, 0.0]),
        row([1.0, 1.0, -1.0], [0.0, 1.0, 0.0], [1.0, 1.0]),
        row([1.0, 1.0, 1.0], [0.0, 1.0, 0.0], [1.0, 0.0]),
        row([-1.0, 1.0, -1.0], [0.0, 1.0, 0.0], [0.0, 1.0]),
        row([-1.0, 1.0, 1.0], [0.0, 1.0, 0.0], [0.0, 0.0]),
    ];
    let cube: Vec<_> = get_cube().iter().map(as_floats).collect();
    assert_eq!(cube, expect);
    let again: Vec<_> = get_cube_vertices().iter().map(as_floats).collect();
    assert_eq!(again, expect);
}

#[test]
fn quad_fills_the_screen() {
    let expect = vec![
        row([-1.0, 1.0, 0.0], [0.0, 0.0, -1.0], [0.0, 0.0]),
        row([1.0, 1.0, 0.0], [0.0, 0.0, -1.0], [1.0, 0.0]),
        row([-1.0, -1.0, 0.0], [0.0, 0.0, -1.0], [0.0, 1.0]),
        row([1.0, -1.0, 0.0], [0.0, 0.0, -1.0], [1.0, 1.0]),
    ];
    let quad: Vec<_> = get_quad().iter().map(as_floats).collect();
    assert_eq!(quad, expect);
    let again: Vec<_> = get_quad_vertices().iter().map(as_floats).collect();
    assert_eq!(again, expect);
    assert_eq!(get_quad_indices(), vec![0, 1, 2, 1, 3, 2]);
}

#[test]
fn default_vertex_faces_the_viewer() {
    let v: Vertex<i8> = Default::default();
    assert_eq!(v.position, [0, 0, 1]);
    assert_eq!(v.normal, [0, 0, -1]);
    assert_eq!(v.tex_coords, [0, 0]);
    let w = vertex(1, -1, 1);
    assert_eq!(w.position, [1, -1, 1]);
    assert_eq!(w.normal, [0, 0, -1]);
    assert_eq!(w.tex_coords, [0, 0]);
}

#[test]
fn skybox_cube_positions() {
    let expect: Vec<[i8; 3]> = vec![
        [-1, 1, -1],
        [-1, -1, -1],
        [1, -1, -1],
        [1, -1, -1],
        [1, 1, -1],
        [-1, 1, -1],
        [-1, -1, 1],
        [-1, -1, -1],
        [-1, 1, -1],
        [-1, 1, -1],
        [-1, 1, 1],
        [-1, -1, 1],
        [1, -1, -1],
        [1, -1, 1],
        [1, 1, 1],
        [1, 1, 1],
        [1, 1, -1],
        [1, -1, -1],
        [-1, -1, 1],
        [-1, 1, 1],
        [1, 1, 1],
        [1, 1, 1],
        [1, -1, 1],
        [-1, -1, 1],
        [-1, 1, -1],
        [1, 1, -1],
        [1, 1, 1],
        [1, 1, 1],
        [-1, 1, 1],
        [-1, 1, -1],
        [-1, -1, -1],
        [-1, -1, 1],
        [1, -1, -1],
        [1, -1, -1],
        [-1, -1, 1],
        [1, -1, 1],
    ];
    let cube = get_skybox_cube();
    assert_eq!(cube.len(), 36);
    for (v, p) in cube.iter().zip(expect.iter()) {
        assert_eq!(&v.position, p);
        assert_eq!(v.normal, [0, 0, -1]);
        assert_eq!(v.tex_coords, [0, 0]);
    }
}
