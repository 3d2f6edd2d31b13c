use opengl_render::cube_face::CubeFace;
use opengl_render::cubemap_loader::CubemapLoader;
use opengl_render::paths::{face_file_name, face_path, join, level_name, level_path};

#[test]
fn join_puts_one_separator_between_the_parts() {
    assert_eq!(join("ibl", "brdf.png"), "ibl/brdf.png");
    assert_eq!(join("ibl/", "brdf.png"), "ibl/brdf.png");
    assert_eq!(join("", "brdf.png"), "brdf.png");
    assert_eq!(join("/", "brdf.png"), "/brdf.png");
    assert_eq!(join("./a/b", ""), "./a/b/");
    assert_eq!(join("célèbre", "ü"), "célèbre/ü");
}

#[test]
fn level_names_are_decimal_numbers() {
    assert_eq!(level_name(0), "0");
    assert_eq!(level_name(4), "4");
    assert_eq!(level_name(9), "9");
    assert_eq!(level_name(10), "10");
    assert_eq!(level_name(407), "407");
    assert_eq!(level_name(u32::MAX), "4294967295");
    assert_eq!(level_path("prefilter", 3), "prefilter/3");
}

#[test]
fn face_files_are_named_after_the_faces() {
    assert_eq!(face_file_name(CubeFace::PositiveX, "png"), "right.png");
    assert_eq!(face_file_name(CubeFace::NegativeZ, "hdr"), "back.hdr");
    assert_eq!(face_file_name(CubeFace::PositiveY, ""), "top.");
    assert_eq!(face_path("sky/cubemap", CubeFace::NegativeY, "png"), "sky/cubemap/bottom.png");
}

#[test]
fn create_paths_lists_the_six_files_in_face_order() {
    assert_eq!(
        CubemapLoader::create_paths("./ibl/Summi_Pool/cubemap/", "png"),
        vec![
            "./ibl/Summi_Pool/cubemap/right.png",
            "./ibl/Summi_Pool/cubemap/left.png",
            "./ibl/Summi_Pool/cubemap/top.png",
            "./ibl/Summi_Pool/cubemap/bottom.png",
            "./ibl/Summi_Pool/cubemap/front.png",
            "./ibl/Summi_Pool/cubemap/back.png",
        ]
    );
    assert_eq!(
        CubemapLoader::create_paths("", "jpg"),
        vec!["right.jpg", "left.jpg", "top.jpg", "bottom.jpg", "front.jpg", "back.jpg"]
    );
}
