use webgl_scene::frame::{plan_frame, DrawCall};
use webgl_scene::object::Object;
use webgl_scene::shaders::{ShaderName, ShaderTable};
use webgl_scene::world::World;

fn cube_vertices() -> Vec<f32> {
    vec![
        -0.5, 0.5, 0.5, 0.5, 0.5, 0.5, -0.5, -0.5, 0.5, 0.5, -0.5, 0.5, -0.5, 0.5, -0.5, 0.5, 0.5,
        -0.5, -0.5, -0.5, -0.5, 0.5, -0.5, -0.5,
    ]
}

fn cube_indices() -> Vec<u8> {
    vec![1, 3, 5, 3, 5, 7, 0, 1, 4, 1, 4, 5, 2, 3, 6, 3, 6, 7]
}

#[test]
fn cube_mesh_is_valid() {
    assert!(Object::<f32>::is_valid_mesh(&cube_indices(), cube_vertices().len()));
}

#[test]
fn index_past_last_vertex_is_invalid() {
    assert!(!Object::<f32>::is_valid_mesh(&vec![0, 1, 8], 24));
    assert!(Object::<f32>::is_valid_mesh(&vec![0, 1, 7], 24));
}

#[test]
fn partial_triples_are_invalid() {
    assert!(!Object::<f32>::is_valid_mesh(&vec![0, 1], 24));
    assert!(!Object::<f32>::is_valid_mesh(&vec![0, 1, 2], 23));
    assert!(Object::<f32>::is_valid_mesh(&vec![], 0));
}

#[test]
fn object_keeps_its_parts() {
    let o = Object::new(ShaderName::Orange3d, cube_indices(), cube_vertices());
    assert_eq!(o.get_shader(), ShaderName::Orange3d);
    assert_eq!(o.get_shader_name(), "3d orange");
    assert_eq!(o.get_triangle_indices(), &cube_indices());
    assert_eq!(o.get_vertices(), &cube_vertices());
}

#[test]
fn new_world_clock_is_zero() {
    let w: World<f32> = World::init(Vec::new());
    assert_eq!(w.get_time_elapsed(), 0);
    assert!(w.get_objects().is_empty());
}

#[test]
fn elapsed_time_is_updates_times_delta() {
    let mut w: World<f32> = World::init(Vec::new());
    for _ in 0..60 {
        w.update(16_667);
    }
    assert_eq!(w.get_time_elapsed(), 60 * 16_667);
    let mut z: World<f32> = World::init(Vec::new());
    z.update(0);
    assert_eq!(z.get_time_elapsed(), 0);
}

#[test]
fn update_keeps_objects() {
    let objects = vec![Object::new(ShaderName::Basic, vec![0, 1, 2], vec![0.0f32; 9])];
    let mut w = World::init(objects);
    w.update(5);
    assert_eq!(w.get_objects().len(), 1);
    assert_eq!(w.get_objects()[0].get_shader(), ShaderName::Basic);
}

#[test]
fn object_with_absent_shader_is_not_drawn() {
    let objects = vec![
        Object::new(ShaderName::Basic, vec![0, 1, 2], vec![0.0f32; 9]),
        Object::new(ShaderName::Orange3d, cube_indices(), cube_vertices()),
    ];
    let w = World::init(objects);
    let mut table: ShaderTable<&str> = ShaderTable::new();
    table.insert(ShaderName::Orange3d, "program");
    let draws = plan_frame(&w, &table);
    assert_eq!(draws, vec![DrawCall { object: 1, shader: ShaderName::Orange3d, index_count: 18 }]);
}

#[test]
fn empty_table_draws_nothing() {
    let objects = vec![Object::new(ShaderName::Orange3d, cube_indices(), cube_vertices())];
    let w = World::init(objects);
    let table: ShaderTable<u8> = ShaderTable::new();
    assert!(plan_frame(&w, &table).is_empty());
}

#[test]
fn all_present_draws_every_object_in_order() {
    let objects = vec![
        Object::new(ShaderName::Orange3d, cube_indices(), cube_vertices()),
        Object::new(ShaderName::Basic, vec![0, 1, 2], vec![0.0f32; 9]),
    ];
    let w = World::init(objects);
    let table = ShaderTable::from_build_results(vec![Ok(1u8), Ok(2u8)]);
    let draws = plan_frame(&w, &table);
    assert_eq!(
        draws,
        vec![
            DrawCall { object: 0, shader: ShaderName::Orange3d, index_count: 18 },
            DrawCall { object: 1, shader: ShaderName::Basic, index_count: 3 },
        ]
    );
}
