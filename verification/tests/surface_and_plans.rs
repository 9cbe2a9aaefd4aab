use atay2d::mesh::quad_mesh;
use atay2d::pipeline::plan_pipeline;
use atay2d::surface::SurfaceConfig;
use atay2d::surface::SurfaceFormat;
use atay2d::surface::PRESENT_MODE_AUTO_VSYNC;
use atay2d::surface::select_surface_format;
use atay2d::target::ensure_msaa_target;
use atay2d::texture::DecodedImage;
use atay2d::texture::build_texture_plan;

fn fmt(code: u32, srgb: bool) -> SurfaceFormat {
    SurfaceFormat { code, srgb }
}

fn config_720x480() -> SurfaceConfig {
    SurfaceConfig {
        format: fmt(3, true),
        width: 720,
        height: 480,
        present_mode: PRESENT_MODE_AUTO_VSYNC,
        alpha_mode: 0,
    }
}

#[test]
fn first_srgb_format_wins() {
    let formats = vec![fmt(0, false), fmt(1, true), fmt(2, true)];
    assert_eq!(select_surface_format(&formats), 1);
}

#[test]
fn without_srgb_the_first_format_is_used() {
    let formats = vec![fmt(5, false), fmt(6, false)];
    assert_eq!(select_surface_format(&formats), 0);
}

#[test]
fn zero_width_resize_is_ignored() {
    let mut config = config_720x480();
    let before = config;
    assert!(!config.resize(0, 300));
    assert_eq!(config, before);
}

#[test]
fn zero_height_resize_is_ignored() {
    let mut config = config_720x480();
    let before = config;
    assert!(!config.resize(300, 0));
    assert_eq!(config, before);
}

#[test]
fn nonzero_resize_changes_only_the_size() {
    let mut config = config_720x480();
    assert!(config.resize(360, 240));
    assert_eq!(config.width, 360);
    assert_eq!(config.height, 240);
    assert_eq!(config.format, fmt(3, true));
    assert_eq!(config.present_mode, PRESENT_MODE_AUTO_VSYNC);
    assert_eq!(config.alpha_mode, 0);
}

#[test]
fn single_sampling_needs_no_msaa_target() {
    assert_eq!(ensure_msaa_target(&config_720x480(), 1), None);
}

#[test]
fn msaa_target_matches_the_surface() {
    let target = ensure_msaa_target(&config_720x480(), 4).expect("target expected");
    assert_eq!(target.width, 720);
    assert_eq!(target.height, 480);
    assert_eq!(target.format, fmt(3, true));
    assert_eq!(target.sample_count, 4);
}

#[test]
fn pipeline_plan_pins_layout_and_samples() {
    let plan = plan_pipeline(&config_720x480(), 4);
    assert_eq!(plan.format, fmt(3, true));
    assert_eq!(plan.sample_count, 4);
    assert_eq!(plan.vertex_stride, 16);
    assert_eq!(plan.position_offset, 0);
    assert_eq!(plan.tex_coord_offset, 8);
    assert!(plan.topology_triangle_list);
    assert!(plan.front_face_ccw);
    assert!(plan.cull_back_faces);
    assert!(plan.blend_replace);
}

#[test]
fn quad_mesh_has_expected_vertices_and_indices() {
    let mesh = quad_mesh();
    assert_eq!(mesh.indices, vec![0u16, 1, 3, 3, 1, 2]);
    assert_eq!(mesh.vertices.len(), 4);
    let coords: Vec<(i32, i32, u32, u32)> =
        mesh.vertices.iter().map(|v| (v.x, v.y, v.u, v.v)).collect();
    assert_eq!(coords, vec![(-1, 1, 0, 0), (-1, -1, 0, 1), (1, -1, 1, 1), (1, 1, 1, 0)]);
    for &i in &mesh.indices {
        assert!((i as usize) < mesh.vertices.len());
    }
}

#[test]
fn texture_plan_rows_are_tightly_packed() {
    let image_data = DecodedImage { width: 5, height: 3, pixels: vec![7u8; 60] };
    let plan = build_texture_plan(image_data);
    assert_eq!(plan.width, 5);
    assert_eq!(plan.height, 3);
    assert_eq!(plan.bytes_per_row, 20);
    assert_eq!(plan.rows_per_image, 3);
    assert_eq!(plan.pixels, vec![7u8; 60]);
    assert_eq!(plan.texture_slot, 0);
    assert_eq!(plan.sampler_slot, 1);
    assert!(plan.linear_filter);
}
