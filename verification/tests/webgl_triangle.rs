use webgl_triangle::webgl::{Attribute, Geometry, Material, Renderer, VertexBinding};
use webgl_triangle::App;

fn demo_material() -> Material {
    let sizes = App::attribute_sizes();
    let locations: Vec<u32> = vec![7, 9];
    Material::new(&sizes, &locations)
}

#[test]
fn canvas_dimensions() {
    assert_eq!(App::canvas_width(), 800);
    assert_eq!(App::canvas_height(), 600);
}

#[test]
fn attribute_sizes_table() {
    let sizes = App::attribute_sizes();
    assert_eq!(sizes.len(), 2);
    assert_eq!(sizes[0].0, "position");
    assert_eq!(sizes[0].1, 2);
    assert_eq!(sizes[1].0, "color");
    assert_eq!(sizes[1].1, 3);
}

#[test]
fn index_data_is_one_triangle() {
    assert_eq!(App::index_data(), vec![0u8, 1u8, 2u8]);
}

#[test]
fn material_records_locations_and_sizes() {
    let m = demo_material();
    let position = m.attribute_for(&String::from("position"));
    assert_eq!(
        position,
        Some(Attribute { location: 7, size: 2 })
    );
    let color = m.attribute_for(&String::from("color"));
    assert_eq!(
        color,
        Some(Attribute { location: 9, size: 3 })
    );
}

#[test]
fn material_misses_unknown_name() {
    let m = demo_material();
    assert_eq!(m.attribute_for(&String::from("normal")), None);
}

#[test]
fn material_with_no_attributes() {
    let sizes: Vec<(String, u8)> = Vec::new();
    let locations: Vec<u32> = Vec::new();
    let m = Material::new(&sizes, &locations);
    assert_eq!(m.attribute_for(&String::from("position")), None);
}

#[test]
fn compile_shader_success() {
    assert_eq!(Material::compile_shader(true, Some(true), None), Ok(()));
    assert_eq!(
        Material::compile_shader(true, Some(true), Some(String::from("warning"))),
        Ok(())
    );
}

#[test]
fn compile_shader_not_created() {
    assert_eq!(
        Material::compile_shader(false, None, None),
        Err(String::from("Unable to create shader object"))
    );
}

#[test]
fn compile_shader_failure_surfaces_log() {
    assert_eq!(
        Material::compile_shader(true, Some(false), Some(String::from("syntax error"))),
        Err(String::from("syntax error"))
    );
}

#[test]
fn compile_shader_failure_without_log() {
    assert_eq!(
        Material::compile_shader(true, Some(false), None),
        Err(String::from("Unknown error creating shader"))
    );
    assert_eq!(
        Material::compile_shader(true, None, None),
        Err(String::from("Unknown error creating shader"))
    );
}

#[test]
fn link_program_success() {
    assert_eq!(Material::link_program(true, Some(true), None), Ok(()));
}

#[test]
fn link_program_not_created() {
    assert_eq!(
        Material::link_program(false, None, None),
        Err(String::from("Unable to create shader object"))
    );
}

#[test]
fn link_program_failure_surfaces_log() {
    assert_eq!(
        Material::link_program(true, Some(false), Some(String::from("link failed"))),
        Err(String::from("link failed"))
    );
}

#[test]
fn link_program_failure_without_log() {
    assert_eq!(
        Material::link_program(true, Some(false), None),
        Err(String::from("Unknown error creating program object"))
    );
}

#[test]
fn create_buffer_outcomes() {
    assert_eq!(Geometry::create_buffer(true), Ok(()));
    assert_eq!(
        Geometry::create_buffer(false),
        Err(String::from("Failed to create buffer"))
    );
}

#[test]
fn geometry_records_index_count() {
    let names = vec![String::from("position"), String::from("color")];
    let g = Geometry::new(names, 3);
    assert_eq!(g.index_length(), 3);
}

#[test]
fn draw_binds_every_known_buffer() {
    let m = demo_material();
    let names = vec![String::from("position"), String::from("color")];
    let g = Geometry::new(names, 3);
    let plan = Renderer::new().draw(&m, &g);
    assert_eq!(
        plan,
        vec![
            VertexBinding { buffer_index: 0, location: 7, size: 2 },
            VertexBinding { buffer_index: 1, location: 9, size: 3 },
        ]
    );
}

#[test]
fn draw_skips_unknown_buffers() {
    let m = demo_material();
    let names = vec![
        String::from("normal"),
        String::from("color"),
        String::from("tangent"),
    ];
    let g = Geometry::new(names, 3);
    let plan = Renderer::new().draw(&m, &g);
    assert_eq!(
        plan,
        vec![VertexBinding { buffer_index: 1, location: 9, size: 3 }]
    );
}

#[test]
fn draw_of_empty_geometry_binds_nothing() {
    let m = demo_material();
    let g = Geometry::new(Vec::new(), 0);
    let plan = Renderer::new().draw(&m, &g);
    assert!(plan.is_empty());
}

#[test]
fn render_plans_the_demo_frame() {
    let m = demo_material();
    let names = vec![String::from("position"), String::from("color")];
    let g = Geometry::new(names, App::index_data().len());
    let app = App::new(Renderer::new(), m, g);
    let plan = app.render();
    assert_eq!(
        plan,
        vec![
            VertexBinding { buffer_index: 0, location: 7, size: 2 },
            VertexBinding { buffer_index: 1, location: 9, size: 3 },
        ]
    );
}
