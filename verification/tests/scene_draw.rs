use particle_scene::error::DrawError;
use particle_scene::particle::Particle;
use particle_scene::scene::{
    acquire_context, position_attribute_name, screen_size_uniform_name, DrawAction, Scene,
};
use particle_scene::vec2d::Vec2D;

fn particle_at(x: f32, y: f32) -> Particle {
    Particle::new(
        Vec2D::new(x.to_bits(), y.to_bits()),
        Vec2D::new(0.0f32.to_bits(), 0.0f32.to_bits()),
        0.0f32.to_bits(),
    )
}

fn run_draw(scene: &mut Scene) -> (Vec<u32>, u32, usize) {
    match scene.begin_draw() {
        DrawAction::CreateBuffer => {}
        _ => panic!("expected a buffer-creation command"),
    }
    let vertices = match scene.buffer_created(true).unwrap() {
        DrawAction::UploadAndLocate { program, vertices } => {
            assert_eq!(program, 42);
            vertices
        }
        _ => panic!("expected an upload command"),
    };
    match scene.attribute_located(3).unwrap() {
        DrawAction::Finish {
            attribute_index,
            components,
            normalized,
            stride,
            offset,
            clear_red,
            clear_green,
            clear_blue,
            clear_alpha,
            first,
            count,
        } => {
            assert_eq!(components, 2);
            assert!(!normalized);
            assert_eq!(stride, 0);
            assert_eq!(offset, 0);
            assert_eq!(clear_red, 0.0f32.to_bits());
            assert_eq!(clear_green, 0.0f32.to_bits());
            assert_eq!(clear_blue, 0.0f32.to_bits());
            assert_eq!(clear_alpha, 1.0f32.to_bits());
            assert_eq!(first, 0);
            (vertices, attribute_index, count)
        }
        _ => panic!("expected a finish command"),
    }
}

#[test]
fn scene_captures_screen_size_uniform_once() {
    let (scene, uniform) = Scene::new(1, 42, 800, 600);
    assert_eq!(uniform.width, 800);
    assert_eq!(uniform.height, 600);
    assert_eq!(scene.width(), 800);
    assert_eq!(scene.height(), 600);
    assert_eq!(scene.get_context(), 1);
    // Nothing re-reads the surface: after further operations the captured
    // size is still the construction-time size.
    let mut scene = scene;
    scene.add_particle(particle_at(1.0, 2.0)).unwrap();
    let _ = run_draw(&mut scene);
    assert_eq!(scene.width(), 800);
    assert_eq!(scene.height(), 600);
}

#[test]
fn draw_uploads_two_floats_per_particle_in_order() {
    let (mut scene, _) = Scene::new(1, 42, 640, 480);
    let positions = [(1.5f32, 2.5f32), (3.0f32, -4.0f32), (0.0f32, 9.25f32)];
    for (x, y) in positions {
        scene.add_particle(particle_at(x, y)).unwrap();
    }
    let (vertices, attribute_index, count) = run_draw(&mut scene);
    assert_eq!(count, 3);
    assert_eq!(attribute_index, 3);
    let expected: Vec<u32> = vec![
        1.5f32.to_bits(),
        2.5f32.to_bits(),
        3.0f32.to_bits(),
        (-4.0f32).to_bits(),
        0.0f32.to_bits(),
        9.25f32.to_bits(),
    ];
    assert_eq!(vertices, expected);
}

#[test]
fn draw_on_empty_store_draws_zero_points() {
    let (mut scene, _) = Scene::new(1, 42, 640, 480);
    let (vertices, _, count) = run_draw(&mut scene);
    assert!(vertices.is_empty());
    assert_eq!(count, 0);
}

#[test]
fn add_during_in_progress_draw_conflicts_and_preserves_contents() {
    let (mut scene, _) = Scene::new(1, 42, 640, 480);
    scene.add_particle(particle_at(1.0, 1.0)).unwrap();
    // Open a draw pass up to the point where it holds the store's read
    // access.
    let _ = scene.begin_draw();
    let upload = scene.buffer_created(true).unwrap();
    match upload {
        DrawAction::UploadAndLocate { ref vertices, .. } => assert_eq!(vertices.len(), 2),
        _ => panic!("expected an upload command"),
    }
    match scene.add_particle(particle_at(9.0, 9.0)) {
        Err(DrawError::BorrowConflict) => {}
        _ => panic!("expected a borrow conflict"),
    }
    // Closing the pass releases the access; the conflicting add left the
    // contents unchanged, and a retry now succeeds.
    let _ = scene.attribute_located(0).unwrap();
    let (vertices, _, count) = run_draw(&mut scene);
    assert_eq!(count, 1);
    assert_eq!(vertices, vec![1.0f32.to_bits(), 1.0f32.to_bits()]);
    scene.add_particle(particle_at(9.0, 9.0)).unwrap();
    let (_, _, count) = run_draw(&mut scene);
    assert_eq!(count, 2);
}

#[test]
fn buffer_creation_failure_aborts_and_recovers() {
    let (mut scene, _) = Scene::new(1, 42, 640, 480);
    let _ = scene.begin_draw();
    match scene.buffer_created(false) {
        Err(DrawError::BufferCreationFailed) => {}
        _ => panic!("expected a buffer-creation failure"),
    }
    // The aborted pass released nothing it held; the next pass succeeds.
    let (_, _, count) = run_draw(&mut scene);
    assert_eq!(count, 0);
}

#[test]
fn missing_attribute_aborts_and_recovers() {
    let (mut scene, _) = Scene::new(1, 42, 640, 480);
    let _ = scene.begin_draw();
    let _ = scene.buffer_created(true).unwrap();
    match scene.attribute_located(-1) {
        Err(DrawError::AttributeUnavailable) => {}
        _ => panic!("expected an attribute failure"),
    }
    // The pass released the read access on the error path: adding works.
    scene.add_particle(particle_at(2.0, 3.0)).unwrap();
    let (_, _, count) = run_draw(&mut scene);
    assert_eq!(count, 1);
}

#[test]
fn acquire_context_accepts_a_handle() {
    assert_eq!(acquire_context(Some(5)).unwrap(), 5);
}

#[test]
fn acquire_context_propagates_unavailability() {
    match acquire_context(None) {
        Err(DrawError::ContextUnavailable) => {}
        _ => panic!("expected an unavailable context"),
    }
}

#[test]
fn spawn_flag_starts_cleared_and_is_writable() {
    let (mut scene, _) = Scene::new(1, 42, 640, 480);
    assert!(!scene.should_spawn_particles());
    scene.set_should_spawn_particles(true);
    assert!(scene.should_spawn_particles());
    // The flag is inert: draws neither read nor change it.
    let _ = run_draw(&mut scene);
    assert!(scene.should_spawn_particles());
}

#[test]
fn shader_interface_names_are_fixed() {
    assert_eq!(screen_size_uniform_name(), "screenSize");
    assert_eq!(position_attribute_name(), "spritePosition");
}
