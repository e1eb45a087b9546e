use wgpu_test::entity::Entity;
use wgpu_test::gfx::transform::Transform;
use wgpu_test::scene::Scene;

fn entity_at(x: f32) -> Entity {
    Entity::new(Transform::new(glam::Vec3::new(x, 0.0, 0.0), glam::Quat::IDENTITY, glam::Vec3::ONE))
}

#[test]
fn entity_keeps_its_transform() {
    let t = Transform::new(glam::Vec3::new(1.0, 2.0, 3.0), glam::Quat::IDENTITY, glam::Vec3::splat(2.0));
    let e = Entity::new(t);
    assert_eq!(e.transform.position, glam::Vec3::new(1.0, 2.0, 3.0));
    assert_eq!(e.transform.rotation, glam::Quat::IDENTITY);
    assert_eq!(e.transform.scale, glam::Vec3::splat(2.0));
}

#[test]
fn empty_scene_has_nothing() {
    let s: Scene<u8, u8> = Scene::empty();
    assert!(s.entities.is_empty());
    assert!(s.models.is_empty());
    assert!(s.lights.is_empty());
}

#[test]
fn handles_are_positions() {
    let mut s: Scene<&str, char> = Scene::empty();
    assert_eq!(s.add_model("skybox"), 0);
    assert_eq!(s.add_model("asphalt"), 1);
    assert_eq!(s.add_light('s'), 0);
    assert_eq!(s.add_entity(entity_at(5.0)), 0);
    assert_eq!(s.add_entity(entity_at(7.0)), 1);
    assert_eq!(s.models[1], "asphalt");
    assert_eq!(s.lights[0], 's');
    assert_eq!(s.entities[1].transform.position.x, 7.0);
    assert_eq!(s.entities.len(), 2);
    assert_eq!(s.models.len(), 2);
    assert_eq!(s.lights.len(), 1);
}

#[test]
fn handle_still_names_item_after_more_adds() {
    let mut s: Scene<u32, u32> = Scene::empty();
    let h = s.add_model(42);
    for i in 0..10 {
        s.add_model(i);
    }
    assert_eq!(s.models[h as usize], 42);
}

#[test]
fn add_models_appends_in_order() {
    let mut s: Scene<u32, u32> = Scene::new(vec![], vec![1, 2], vec![9]);
    s.add_models(vec![3, 4, 5]);
    assert_eq!(s.models, vec![1, 2, 3, 4, 5]);
    assert_eq!(s.lights, vec![9]);
    assert_eq!(s.add_model(6), 5);
}

#[test]
fn add_models_of_nothing_changes_nothing() {
    let mut s: Scene<u32, u32> = Scene::new(vec![], vec![1], vec![]);
    s.add_models(vec![]);
    assert_eq!(s.models, vec![1]);
}

#[test]
fn draw_scenes_hold_their_lists() {
    let a = wgpu_test::gfx::scene::Scene::new(vec![1u8, 2], vec!['a']);
    assert_eq!(a.models, vec![1, 2]);
    assert_eq!(a.lights, vec!['a']);
    let b = wgpu_test::renderer::scene::Scene::new(Vec::<u8>::new(), vec![3u8]);
    assert!(b.models.is_empty());
    assert_eq!(b.lights, vec![3]);
}
