use std::rc::Rc;

use graphics::ImageSize;
use nalgebra::Isometry2;
use nalgebra::Vector2;
use ncollide2d::pipeline::narrow_phase::ContactEvent as EngineContactEvent;
use ncollide2d::shape::Cuboid;
use ncollide2d::shape::ShapeHandle;
use nphysics2d::algebra::Force2;
use nphysics2d::algebra::ForceType;
use nphysics2d::algebra::Velocity2;
use nphysics2d::force_generator::DefaultForceGeneratorSet;
use nphysics2d::joint::DefaultJointConstraintSet;
use nphysics2d::object::Body;
use nphysics2d::object::BodyPartHandle;
use nphysics2d::object::ColliderDesc;
use nphysics2d::object::DefaultBodyHandle;
use nphysics2d::object::DefaultBodySet;
use nphysics2d::object::DefaultColliderHandle;
use nphysics2d::object::DefaultColliderSet;
use nphysics2d::object::RigidBody;
use nphysics2d::object::RigidBodyDesc;
use nphysics2d::world::DefaultGeometricalWorld;
use nphysics2d::world::DefaultMechanicalWorld;
use sprite::Scene;
use sprite::Sprite;
use uuid::Uuid;

use zombies::game::bullet::BulletUserData;
use zombies::game::contact::ContactEvent;
use zombies::game::enemy::baby::BabyIdentifier;
use zombies::game::handle::BodyHandle;
use zombies::game::handle::ColliderHandle;
use zombies::game::identifier::EntityKind;
use zombies::game::input::Button;
use zombies::game::input::ButtonArgs;
use zombies::game::input::ButtonState;
use zombies::game::input::InputAction;
use zombies::game::input::MouseButton;
use zombies::game::input::KEY_D;
use zombies::game::input::KEY_W;
use zombies::game::insertable::Insertable;
use zombies::game::insertable::Inserted;
use zombies::game::insertable::PhysicsInserted;
use zombies::game::player::character::Character;
use zombies::game::player::character::Impulse;
use zombies::game::sync::SyncOrder;
use zombies::game::world::FramePlan;
use zombies::game::world::Teardown;
use zombies::game::world::World;

const STANDOFF: f64 = 35.0;
const SPEED: f64 = 250.0;
const DEGREES_PER_RADIAN: f64 = 57.29578;
const TOLERANCE: f64 = 1e-9;

/// A picture of no size: the scene needs none to keep its sprites.
struct Blank;

impl ImageSize for Blank {
    fn get_size(&self) -> (u32, u32) {
        (0, 0)
    }
}

type Staged = Insertable<Rc<Blank>, RigidBody<f64>, ColliderDesc<f64>>;

/// The game without a window: the simulation with no gravity, the scene,
/// and the registry that says what to do with the two.
struct Stage {
    mechanical_world: DefaultMechanicalWorld<f64>,
    geometrical_world: DefaultGeometricalWorld<f64>,
    bodies: DefaultBodySet<f64>,
    colliders: DefaultColliderSet<f64>,
    joint_constraints: DefaultJointConstraintSet<f64>,
    forces: DefaultForceGeneratorSet<f64>,
    scene: Scene<Blank>,
    world: World,
}

fn body_handle(handle: DefaultBodyHandle) -> BodyHandle {
    let (index, generation) = handle.into_raw_parts();
    BodyHandle::new(index, generation)
}

fn collider_handle(handle: DefaultColliderHandle) -> ColliderHandle {
    let (index, generation) = handle.into_raw_parts();
    ColliderHandle::new(index, generation)
}

fn engine_handle(handle: BodyHandle) -> DefaultBodyHandle {
    DefaultBodyHandle::from_raw_parts(handle.index, handle.generation)
}

fn engine_collider_handle(handle: ColliderHandle) -> DefaultColliderHandle {
    DefaultColliderHandle::from_raw_parts(handle.index, handle.generation)
}

fn sprite_id(id: Uuid) -> u128 {
    u128::from_be_bytes(*id.as_bytes())
}

fn scene_uuid(id: u128) -> Uuid {
    Uuid::from_bytes(&id.to_be_bytes()).unwrap()
}

fn direction(angle: f64) -> (f64, f64) {
    let corrected = angle - std::f64::consts::FRAC_PI_2;
    (corrected.cos(), corrected.sin())
}

fn bullet_body(from: (f64, f64), angle: f64) -> RigidBody<f64> {
    let (x, y) = direction(angle);
    RigidBodyDesc::new()
        .position(Isometry2::translation(from.0 + STANDOFF * x, from.1 + STANDOFF * y))
        .velocity(Velocity2::new(Vector2::new(x * SPEED, y * SPEED), 0.0))
        .max_angular_velocity(0.0)
        .rotation(angle)
        .build()
}

fn bullet_collider() -> ColliderDesc<f64> {
    ColliderDesc::new(ShapeHandle::new(Cuboid::new(Vector2::new(5.0, 5.0)))).density(0.1)
}

fn baby_body(at: (f64, f64)) -> RigidBody<f64> {
    RigidBodyDesc::new().position(Isometry2::translation(at.0, at.1)).build()
}

fn baby_collider() -> ColliderDesc<f64> {
    ColliderDesc::new(ShapeHandle::new(Cuboid::new(Vector2::new(50.0, 25.0)))).density(0.1)
}

impl Stage {
    /// A stage with the player at (100, 100) and nothing else.
    fn new() -> Stage {
        let mut bodies = DefaultBodySet::new();
        let mut colliders = DefaultColliderSet::new();
        let mut scene = Scene::new();
        let player = bodies.insert(
            RigidBodyDesc::new().position(Isometry2::translation(100.0, 100.0)).linear_damping(1.0).build(),
        );
        colliders.insert(
            ColliderDesc::new(ShapeHandle::new(Cuboid::new(Vector2::new(20.0, 20.0))))
                .density(1.0)
                .build(BodyPartHandle(player, 0)),
        );
        let mut sprite = Sprite::from_texture(Rc::new(Blank));
        sprite.set_position(100.0, 100.0);
        let character = Character::new(body_handle(player), sprite_id(scene.add_child(sprite)));
        Stage {
            mechanical_world: DefaultMechanicalWorld::new(Vector2::new(0.0, 0.0)),
            geometrical_world: DefaultGeometricalWorld::new(),
            bodies,
            colliders,
            joint_constraints: DefaultJointConstraintSet::new(),
            forces: DefaultForceGeneratorSet::new(),
            scene,
            world: World::new(character),
        }
    }

    fn step(&mut self) {
        self.mechanical_world.step(
            &mut self.geometrical_world,
            &mut self.bodies,
            &mut self.colliders,
            &mut self.joint_constraints,
            &mut self.forces,
        );
    }

    /// The step's contact events, each collider named by its body.
    fn contact_events(&self) -> Vec<ContactEvent> {
        let mut events = Vec::new();
        for event in self.geometrical_world.contact_events() {
            let (started, first, second) = match event {
                EngineContactEvent::Started(first, second) => (true, *first, *second),
                EngineContactEvent::Stopped(first, second) => (false, *first, *second),
            };
            let first = self.colliders.get(first).map(|collider| body_handle(collider.body()));
            let second = self.colliders.get(second).map(|collider| body_handle(collider.body()));
            if let (Some(first), Some(second)) = (first, second) {
                events.push(if started {
                    ContactEvent::Started(first, second)
                } else {
                    ContactEvent::Stopped(first, second)
                });
            }
        }
        events
    }

    fn position(&self, handle: BodyHandle) -> Option<(f64, f64)> {
        self.bodies.rigid_body(engine_handle(handle)).map(|body| {
            let at = body.position().translation.vector;
            (at[0], at[1])
        })
    }

    fn velocity(&self, handle: BodyHandle) -> Option<(f64, f64)> {
        self.bodies.rigid_body(engine_handle(handle)).map(|body| {
            let linear = body.velocity().linear;
            (linear[0], linear[1])
        })
    }

    /// Where a sprite is and how it is turned, in degrees.
    fn sprite(&self, id: u128) -> Option<(f64, f64, f64)> {
        self.scene.child(scene_uuid(id)).map(|sprite| {
            let (x, y) = sprite.get_position();
            (x, y, sprite.get_rotation())
        })
    }

    /// Puts a staged entity into the scene and the simulation and admits
    /// it to the registry.
    fn insert(&mut self, insertable: Staged) -> Inserted {
        let (texture, physics_insertable) = insertable.get_parts_insertable();
        let id = self.scene.add_child(Sprite::from_texture(texture));
        let (rigid_body, identifier, collider_desc) = physics_insertable.parts();
        let handle = self.bodies.insert(rigid_body);
        let collider = collider_desc
            .map(|desc| collider_handle(self.colliders.insert(desc.build(BodyPartHandle(handle, 0)))));
        self.world
            .insert_insertable(identifier, sprite_id(id), PhysicsInserted::new(body_handle(handle), collider))
            .unwrap()
    }

    fn insert_baby(&mut self, at: (f64, f64)) -> (Inserted, u128) {
        let (baby, uuid) = BabyIdentifier::generate_insertable(Rc::new(Blank), baby_body(at), baby_collider());
        (self.insert(baby), uuid)
    }

    /// Fires a bullet from where the player stands, at the given angle.
    fn fire(&mut self, angle: f64) -> (Inserted, u128) {
        let from = self.position(self.world.character().body_handle).unwrap();
        let (bullet, uuid) =
            BulletUserData::generate_insertable(Rc::new(Blank), bullet_body(from, angle), bullet_collider());
        (self.insert(bullet), uuid)
    }

    fn apply(&mut self, impulse: &Impulse) {
        if let Some(body) = self.bodies.rigid_body_mut(engine_handle(impulse.body_handle)) {
            let force = Force2::linear(Vector2::new(f64::from(impulse.x), f64::from(impulse.y)));
            body.apply_force(0, &force, ForceType::VelocityChange, false);
        }
    }

    fn sync(&mut self, order: &SyncOrder) {
        if let Some(sprite) = self.scene.child_mut(scene_uuid(order.sprite_uuid)) {
            if let Some(body) = self.bodies.rigid_body(engine_handle(order.body_handle)) {
                let at = body.position().translation.vector;
                sprite.set_position(at[0], at[1]);
                if order.rotate {
                    sprite.set_rotation(body.position().rotation.angle() * DEGREES_PER_RADIAN);
                }
            }
        }
    }

    fn sync_all(&mut self, plan: &FramePlan) {
        self.sync(&plan.player_sync);
        for order in plan.bullet_syncs.iter() {
            self.sync(order);
        }
        for order in plan.baby_syncs.iter() {
            self.sync(order);
        }
    }

    fn tear_down(&mut self, teardown: &Teardown) {
        if let Some(collider) = teardown.collider_handle {
            self.colliders.remove(engine_collider_handle(collider));
        }
        self.bodies.remove(engine_handle(teardown.body_handle));
        self.scene.remove_child(scene_uuid(teardown.sprite_uuid));
    }

    /// One frame: a step of the simulation, then the update and all that
    /// its plan asks for.
    fn frame(&mut self) -> FramePlan {
        self.step();
        let plan = self.world.update(&self.contact_events());
        for impulse in plan.impulses.iter() {
            self.apply(impulse);
        }
        self.sync_all(&plan);
        for teardown in plan.teardowns.iter() {
            self.tear_down(teardown);
        }
        plan
    }
}

#[test]
fn fired_bullet_starts_at_standoff_with_full_speed() {
    let mut stage = Stage::new();
    let (_, uuid) = stage.fire(0.0);
    let bullet = stage.world.bullet(uuid).unwrap();
    let (x, y) = stage.position(bullet.inserted.get_body_handle()).unwrap();
    assert!((x - 100.0).abs() < TOLERANCE);
    assert!((y - (100.0 - STANDOFF)).abs() < TOLERANCE);
    let (vx, vy) = stage.velocity(bullet.inserted.get_body_handle()).unwrap();
    assert!(vx.abs() < 1e-6);
    assert!((vy + SPEED).abs() < 1e-6);
}

#[test]
fn bullet_fired_at_a_quarter_turn_flies_right() {
    let mut stage = Stage::new();
    let (bullet, _) = stage.fire(std::f64::consts::FRAC_PI_2);
    let (x, y) = stage.position(bullet.get_body_handle()).unwrap();
    assert!((x - (100.0 + STANDOFF)).abs() < TOLERANCE);
    assert!((y - 100.0).abs() < TOLERANCE);
    let (vx, vy) = stage.velocity(bullet.get_body_handle()).unwrap();
    assert!((vx - SPEED).abs() < 1e-6);
    assert!(vy.abs() < 1e-6);
}

#[test]
fn inserted_baby_rests_where_it_was_spawned() {
    let mut stage = Stage::new();
    let (inserted, uuid) = stage.insert_baby((250.0, 250.0));
    let baby = stage.world.baby(uuid).unwrap();
    assert_eq!(baby.inserted, inserted);
    let (x, y) = stage.position(baby.get_body_handle()).unwrap();
    assert!((x - 250.0).abs() < TOLERANCE);
    assert!((y - 250.0).abs() < TOLERANCE);
    assert_eq!(stage.velocity(baby.get_body_handle()), Some((0.0, 0.0)));
    assert!(stage.sprite(baby.get_sprite_uuid()).is_some());
}

#[test]
fn left_click_fires_one_bullet() {
    let mut stage = Stage::new();
    let click = ButtonArgs { state: ButtonState::Press, button: Button::Mouse(MouseButton::Left) };
    assert_eq!(stage.world.handle_button_event(click), InputAction::Fire);
    let (bullet, uuid) = stage.fire(0.0);
    assert_eq!(stage.world.bullet_count(), 1);
    assert_eq!(stage.world.bullet(uuid).unwrap().inserted, bullet);
}

#[test]
fn bullet_that_hits_a_baby_takes_it_along() {
    let mut stage = Stage::new();
    let (baby, baby_uuid) = stage.insert_baby((100.0, -50.0));
    let (bullet, bullet_uuid) = stage.fire(0.0);
    let mut steps: u32 = 0;
    let plan = loop {
        let plan = stage.frame();
        steps += 1;
        assert_eq!(plan.player_sync, stage.world.character().sync());
        if !plan.teardowns.is_empty() {
            break plan;
        }
        assert!(stage.world.bullet(bullet_uuid).is_some());
        assert!(stage.world.baby(baby_uuid).is_some());
        assert!(stage.position(bullet.get_body_handle()).is_some());
        assert!(stage.sprite(bullet.get_sprite_uuid()).is_some());
        assert!(steps < 200);
    };
    assert!(steps > 10);
    assert_eq!(
        plan.bullet_syncs,
        vec![SyncOrder { sprite_uuid: bullet.get_sprite_uuid(), body_handle: bullet.get_body_handle(), rotate: true }]
    );
    assert_eq!(
        plan.baby_syncs,
        vec![SyncOrder { sprite_uuid: baby.get_sprite_uuid(), body_handle: baby.get_body_handle(), rotate: false }]
    );
    assert_eq!(
        plan.teardowns,
        vec![Teardown::of(bullet), Teardown::of(baby)]
    );
    assert_eq!(stage.world.bullet(bullet_uuid), None);
    assert_eq!(stage.world.baby(baby_uuid), None);
    assert_eq!(stage.world.bullet_count(), 0);
    assert_eq!(stage.world.baby_count(), 0);
    assert_eq!(stage.world.resolve(bullet.get_body_handle()), None);
    assert_eq!(stage.world.resolve(baby.get_body_handle()), None);
    assert_eq!(stage.position(bullet.get_body_handle()), None);
    assert_eq!(stage.position(baby.get_body_handle()), None);
    assert_eq!(stage.sprite(bullet.get_sprite_uuid()), None);
    assert_eq!(stage.sprite(baby.get_sprite_uuid()), None);
    assert!(stage.position(stage.world.character().body_handle).is_some());
    assert!(stage.sprite(stage.world.character().sprite_uuid).is_some());
    let next = stage.frame();
    assert_eq!(next.teardowns, vec![]);
    assert_eq!(next.bullet_syncs, vec![]);
    assert_eq!(next.baby_syncs, vec![]);
}

#[test]
fn bullet_that_misses_flies_on() {
    let mut stage = Stage::new();
    let (_, baby_uuid) = stage.insert_baby((1000.0, 1000.0));
    let (bullet, bullet_uuid) = stage.fire(0.0);
    let steps: u32 = 600;
    for _ in 0..steps {
        let plan = stage.frame();
        assert_eq!(plan.teardowns, vec![]);
        assert_eq!(plan.bullet_syncs.len(), 1);
        assert_eq!(plan.baby_syncs.len(), 1);
    }
    assert!(stage.world.bullet(bullet_uuid).is_some());
    assert!(stage.world.baby(baby_uuid).is_some());
    let (x, y) = stage.position(bullet.get_body_handle()).unwrap();
    let flown = SPEED * stage.mechanical_world.timestep() * f64::from(steps);
    assert!(flown > 2000.0);
    assert!((x - 100.0).abs() < 1e-6);
    assert!((y - (100.0 - STANDOFF - flown)).abs() < 1e-6);
    assert_eq!(stage.sprite(bullet.get_sprite_uuid()), Some((x, y, 0.0)));
}

#[test]
fn player_walking_into_a_baby_removes_nothing() {
    let mut stage = Stage::new();
    let (_, baby_uuid) = stage.insert_baby((100.0, 0.0));
    let player = stage.world.character().body_handle;
    stage
        .bodies
        .rigid_body_mut(engine_handle(player))
        .unwrap()
        .set_velocity(Velocity2::new(Vector2::new(0.0, -SPEED), 0.0));
    let mut touched = false;
    for _ in 0..60 {
        stage.step();
        let events = stage.contact_events();
        touched = touched || events.iter().any(|event| matches!(event, ContactEvent::Started(_, _)));
        assert_eq!(stage.world.update(&events).teardowns, vec![]);
    }
    assert!(touched);
    assert!(stage.world.baby(baby_uuid).is_some());
}

#[test]
fn removal_takes_body_and_sprite_together() {
    let mut stage = Stage::new();
    let (baby, uuid) = stage.insert_baby((250.0, 250.0));
    assert!(stage.position(baby.get_body_handle()).is_some());
    assert!(stage.sprite(baby.get_sprite_uuid()).is_some());
    let teardown = stage.world.remove_entity(uuid, EntityKind::Baby).unwrap();
    assert_eq!(
        teardown,
        Teardown {
            body_handle: baby.get_body_handle(),
            collider_handle: baby.physics_inserted.collider_handle,
            sprite_uuid: baby.get_sprite_uuid(),
        }
    );
    assert!(teardown.collider_handle.is_some());
    stage.tear_down(&teardown);
    assert_eq!(stage.position(baby.get_body_handle()), None);
    assert_eq!(stage.sprite(baby.get_sprite_uuid()), None);
    assert_eq!(stage.world.baby(uuid), None);
    assert_eq!(stage.world.resolve(baby.get_body_handle()), None);
    assert_eq!(stage.world.remove_entity(uuid, EntityKind::Baby), None);
    stage.frame();
    assert_eq!(stage.position(baby.get_body_handle()), None);
}

#[test]
fn sync_brings_sprites_to_where_the_bodies_are() {
    let mut stage = Stage::new();
    let (baby, _) = stage.insert_baby((250.0, 250.0));
    let (bullet, _) = stage.fire(0.5);
    stage.scene.child_mut(scene_uuid(baby.get_sprite_uuid())).unwrap().set_rotation(10.0);
    assert_eq!(stage.sprite(bullet.get_sprite_uuid()), Some((0.0, 0.0, 0.0)));
    for _ in 0..5 {
        stage.frame();
    }
    let (x, y) = stage.position(bullet.get_body_handle()).unwrap();
    let (sx, sy, turned) = stage.sprite(bullet.get_sprite_uuid()).unwrap();
    assert_eq!((sx, sy), (x, y));
    assert!((turned - 0.5 * DEGREES_PER_RADIAN).abs() < 1e-6);
    assert_eq!(stage.sprite(baby.get_sprite_uuid()), Some((250.0, 250.0, 10.0)));
    assert_eq!(stage.sprite(stage.world.character().sprite_uuid), Some((100.0, 100.0, 0.0)));
}

#[test]
fn syncing_twice_without_a_step_changes_nothing() {
    let mut stage = Stage::new();
    let (baby, _) = stage.insert_baby((250.0, 250.0));
    let (bullet, _) = stage.fire(0.5);
    for _ in 0..5 {
        stage.frame();
    }
    stage.step();
    let plan = stage.world.update(&stage.contact_events());
    stage.sync_all(&plan);
    let player = stage.world.character().sprite_uuid;
    let once = (stage.sprite(player), stage.sprite(bullet.get_sprite_uuid()), stage.sprite(baby.get_sprite_uuid()));
    stage.sync_all(&plan);
    let twice = (stage.sprite(player), stage.sprite(bullet.get_sprite_uuid()), stage.sprite(baby.get_sprite_uuid()));
    assert_eq!(once, twice);
    let again = stage.world.update(&vec![]);
    assert_eq!(again.player_sync, plan.player_sync);
    assert_eq!(again.bullet_syncs, plan.bullet_syncs);
    assert_eq!(again.baby_syncs, plan.baby_syncs);
    stage.sync_all(&again);
    let thrice = (stage.sprite(player), stage.sprite(bullet.get_sprite_uuid()), stage.sprite(baby.get_sprite_uuid()));
    assert_eq!(once, thrice);
}

#[test]
fn sync_of_a_body_that_is_gone_changes_nothing() {
    let mut stage = Stage::new();
    let (bullet, _) = stage.fire(0.0);
    stage.frame();
    let before = stage.sprite(bullet.get_sprite_uuid());
    assert!(before.is_some());
    stage.bodies.remove(engine_handle(bullet.get_body_handle()));
    let plan = stage.frame();
    assert_eq!(plan.bullet_syncs.len(), 1);
    assert_eq!(stage.sprite(bullet.get_sprite_uuid()), before);
}

#[test]
fn held_key_pushes_the_player() {
    let mut stage = Stage::new();
    let player = stage.world.character().body_handle;
    stage.world.handle_button_event(ButtonArgs { state: ButtonState::Press, button: Button::Keyboard(KEY_D) });
    stage.world.handle_button_event(ButtonArgs { state: ButtonState::Press, button: Button::Keyboard(KEY_W) });
    let plan = stage.frame();
    assert_eq!(
        plan.impulses,
        vec![Impulse { body_handle: player, x: 0, y: -5 }, Impulse { body_handle: player, x: 5, y: 0 }]
    );
    assert_eq!(stage.velocity(player), Some((5.0, -5.0)));
    stage.world.handle_button_event(ButtonArgs { state: ButtonState::Release, button: Button::Keyboard(KEY_D) });
    stage.world.handle_button_event(ButtonArgs { state: ButtonState::Release, button: Button::Keyboard(KEY_W) });
    stage.frame();
    let (x, y) = stage.position(player).unwrap();
    assert!(x > 100.0);
    assert!(y < 100.0);
    let (sx, sy, _) = stage.sprite(stage.world.character().sprite_uuid).unwrap();
    assert_eq!((sx, sy), (x, y));
}
