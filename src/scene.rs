use vstd::prelude::*;
use crate::body::{
    cube_at, Color, CoolCubeBundle, Cuboid, MeshShape, PositionSync, SurfaceMaterial, Visual,
};
use crate::geometry::{
    placed_at, point_of, projected, projection_fits, spawn_position_for_transform, Quat, Transform, Vec3,
    SPAWN_DISTANCE, UNIT,
};
use crate::light::{light_position, move_light, LightSource};

verus! {

/// The immovable ground: a large plane with a thin box collider.
#[derive(Clone, Copy, Debug, PartialEq, Eq, Structural)]
pub struct StaticCollider {
    pub visual: Visual,
    pub collider: Cuboid,
    pub transform: Transform,
    pub sync: PositionSync,
}

/// The single free-fly viewpoint.
#[derive(Clone, Copy, Debug, PartialEq, Eq, Structural)]
pub struct CameraRig {
    pub transform: Transform,
}

/// The translucent marker that previews where a cube would spawn.
#[derive(Clone, Copy, Debug, PartialEq, Eq, Structural)]
pub struct CursorMarker {
    pub visual: Visual,
    pub transform: Transform,
}

/// Pressed state of the spawn button as last seen, for edge detection.
#[derive(Clone, Copy, Debug, PartialEq, Eq, Structural)]
pub struct ButtonState {
    pub pressed: bool,
}

impl ButtonState {
    /// Records this tick's pressed state and tells whether the button went
    /// from released to pressed.
    pub fn just_pressed(&mut self, down: bool) -> (r: bool)
        ensures
            r == (down && !old(self).pressed),
            final(self).pressed == down,
    {
        let r = down && !self.pressed;
        self.pressed = down;
        r
    }
}

/// Every live entity of the scene: one of each singleton kind, and the
/// dynamic bodies spawned so far (without bound).
pub struct Scene {
    pub ground: StaticCollider,
    pub light: LightSource,
    pub camera: CameraRig,
    pub cursor: CursorMarker,
    pub bodies: Vec<CoolCubeBundle>,
    pub spawn_button: ButtonState,
}

/// A scene as plain values.
pub struct SceneView {
    pub ground: StaticCollider,
    pub light: LightSource,
    pub camera: CameraRig,
    pub cursor: CursorMarker,
    pub bodies: Seq<CoolCubeBundle>,
    pub spawn_button: ButtonState,
}

impl View for Scene {
    type V = SceneView;

    open spec fn view(&self) -> SceneView {
        SceneView {
            ground: self.ground,
            light: self.light,
            camera: self.camera,
            cursor: self.cursor,
            bodies: self.bodies@,
            spawn_button: self.spawn_button,
        }
    }
}

impl SceneView {
    /// The camera's orientation is a valid rotation and every dynamic body
    /// has the shape, look and physics of a cube.
    pub open spec fn wf(self) -> bool {
        &&& self.camera.transform.wf()
        &&& forall|i: int| 0 <= i < self.bodies.len() ==> (#[trigger] self.bodies[i]).has_cube_shape()
    }

    /// Where a cube would spawn, and where the cursor floats, for this camera.
    pub open spec fn spawn_point(self) -> Vec3 {
        point_of(projected(self.camera.transform, SPAWN_DISTANCE as int))
    }

    /// The scene with the camera moved to `t`.
    pub open spec fn with_camera(self, t: Transform) -> SceneView {
        SceneView { camera: CameraRig { transform: t }, ..self }
    }

    /// The scene after one tick in which the spawn button is `down` and
    /// `elapsed` fixed-point seconds have passed since start: a cube spawns
    /// on a press edge, then the cursor and the light move.
    pub open spec fn ticked(self, down: bool, elapsed: nat) -> SceneView {
        let edge = down && !self.spawn_button.pressed;
        SceneView {
            bodies: if edge {
                self.bodies.push(cube_at(self.spawn_point()))
            } else {
                self.bodies
            },
            cursor: CursorMarker {
                transform: Transform { translation: self.spawn_point(), ..self.cursor.transform },
                ..self.cursor
            },
            light: LightSource {
                transform: Transform {
                    translation: point_of(light_position(elapsed)),
                    ..self.light.transform
                },
                ..self.light
            },
            spawn_button: ButtonState { pressed: down },
            ..self
        }
    }
}

/// On a press edge, adds a cube at the point `SPAWN_DISTANCE` in front of
/// the camera; otherwise leaves the bodies as they are.
pub fn spawn_cubes_on_click(
    just_pressed: bool,
    camera: &Transform,
    bodies: &mut Vec<CoolCubeBundle>,
)
    requires
        camera.wf(),
        projection_fits(*camera, SPAWN_DISTANCE as int),
    ensures
        final(bodies)@ == if just_pressed {
            old(bodies)@.push(cube_at(point_of(projected(*camera, SPAWN_DISTANCE as int))))
        } else {
            old(bodies)@
        },
{
    if just_pressed {
        let pos = spawn_position_for_transform(camera, SPAWN_DISTANCE);
        bodies.push(CoolCubeBundle::new(pos));
    }
}

/// Moves the cursor marker's transform to the point `SPAWN_DISTANCE` in
/// front of the camera; its orientation and scale stay as they were.
pub fn move_cursor_thing(camera: &Transform, cursor: &mut Transform)
    requires
        camera.wf(),
        projection_fits(*camera, SPAWN_DISTANCE as int),
    ensures
        final(cursor).translation.at(projected(*camera, SPAWN_DISTANCE as int)),
        *final(cursor) == (Transform {
            translation: point_of(projected(*camera, SPAWN_DISTANCE as int)),
            ..*old(cursor)
        }),
{
    let pos = spawn_position_for_transform(camera, SPAWN_DISTANCE);
    cursor.translation = pos;
}

/// Orientation of the initial camera: standing at (-2, 2.5, 5), looking at
/// the origin with +Y up.
pub open spec fn initial_camera_rotation() -> Quat {
    Quat { w: 958861, x: -211719i64, y: -184660i64, z: -40773i64 }
}

/// The scene at start: the ground, one cube at (0, 10, 0), the light at
/// (4, 8, 4), the camera at (-2, 2.5, 5) looking at the origin, and the
/// cursor marker at the origin.
pub fn setup() -> (r: Scene)
    ensures
        r@.wf(),
        r@.bodies == seq![cube_at(Vec3 { x: 0, y: 10000000, z: 0 })],
        r@.ground == (StaticCollider {
            visual: Visual {
                mesh: MeshShape::Plane { size: 100000000 },
                material: SurfaceMaterial {
                    base_color: Color { r: 300000, g: 500000, b: 300000, a: 1000000 },
                    alpha_blend: false,
                },
            },
            collider: Cuboid { half_x: 100000000, half_y: 1000, half_z: 100000000 },
            transform: placed_at(Vec3 { x: 0, y: 0, z: 0 }),
            sync: PositionSync::Discrete,
        }),
        r@.light == (LightSource {
            intensity: 1500000000,
            shadows_enabled: true,
            transform: placed_at(Vec3 { x: 4000000, y: 8000000, z: 4000000 }),
        }),
        r@.camera.transform == (Transform {
            rotation: initial_camera_rotation(),
            ..placed_at(Vec3 { x: -2000000i64, y: 2500000, z: 5000000 })
        }),
        r@.cursor == (CursorMarker {
            visual: Visual {
                mesh: MeshShape::Icosphere { radius: 200000, subdivisions: 32 },
                material: SurfaceMaterial {
                    base_color: Color { r: 900000, g: 900000, b: 0, a: 500000 },
                    alpha_blend: true,
                },
            },
            transform: placed_at(Vec3 { x: 0, y: 0, z: 0 }),
        }),
        !r@.spawn_button.pressed,
{
    let ground = StaticCollider {
        visual: Visual {
            mesh: MeshShape::Plane { size: 100 * UNIT },
            material: SurfaceMaterial {
                base_color: Color { r: 300000, g: 500000, b: 300000, a: UNIT },
                alpha_blend: false,
            },
        },
        collider: Cuboid { half_x: 100 * UNIT, half_y: 1000, half_z: 100 * UNIT },
        transform: Transform::from_xyz(0, 0, 0),
        sync: PositionSync::Discrete,
    };
    let mut bodies: Vec<CoolCubeBundle> = Vec::new();
    bodies.push(CoolCubeBundle::new(Vec3::new(0, 10 * UNIT, 0)));
    let light = LightSource {
        intensity: 1500 * UNIT,
        shadows_enabled: true,
        transform: Transform::from_xyz(4 * UNIT, 8 * UNIT, 4 * UNIT),
    };
    let mut camera_transform = Transform::from_xyz(-2 * UNIT, 2500000, 5 * UNIT);
    camera_transform.rotation = Quat { w: 958861, x: -211719, y: -184660, z: -40773 };
    let cursor = CursorMarker {
        visual: Visual {
            mesh: MeshShape::Icosphere { radius: 200000, subdivisions: 32 },
            material: SurfaceMaterial {
                base_color: Color { r: 900000, g: 900000, b: 0, a: 500000 },
                alpha_blend: true,
            },
        },
        transform: Transform::from_xyz(0, 0, 0),
    };
    let r = Scene {
        ground,
        light,
        camera: CameraRig { transform: camera_transform },
        cursor,
        bodies,
        spawn_button: ButtonState { pressed: false },
    };
    assert(r@.bodies =~= seq![cube_at(Vec3 { x: 0, y: 10000000, z: 0 })]);
    r
}

impl Scene {
    /// Moves the camera, as the fly-camera controls do between ticks.
    pub fn set_camera(&mut self, transform: Transform)
        requires
            old(self)@.wf(),
            transform.wf(),
        ensures
            final(self)@ == old(self)@.with_camera(transform),
            final(self)@.wf(),
    {
        self.camera.transform = transform;
    }

    /// Runs one tick: spawning on a press edge of the button, then the cursor,
    /// then the light, `elapsed` fixed-point seconds after start.
    pub fn tick(&mut self, down: bool, elapsed: u64)
        requires
            old(self)@.wf(),
            projection_fits(old(self).camera.transform, SPAWN_DISTANCE as int),
        ensures
            final(self)@ == old(self)@.ticked(down, elapsed as nat),
            final(self)@.wf(),
    {
        let edge = self.spawn_button.just_pressed(down);
        let camera = self.camera.transform;
        spawn_cubes_on_click(edge, &camera, &mut self.bodies);
        move_cursor_thing(&camera, &mut self.cursor.transform);
        move_light(elapsed, &mut self.light);
        proof {
            let v = old(self)@;
            let n = final(self)@;
            assert(n.bodies =~= v.ticked(down, elapsed as nat).bodies);
            assert(n.light.transform =~= v.ticked(down, elapsed as nat).light.transform);
        }
    }
}

/// Holding the spawn button down over three ticks, after it was released,
/// spawns exactly one cube, at the point in front of the camera.
pub proof fn lemma_held_button_spawns_once(v: SceneView, t1: nat, t2: nat, t3: nat)
    requires
        !v.spawn_button.pressed,
    ensures
        v.ticked(true, t1).ticked(true, t2).ticked(true, t3).bodies
            == v.bodies.push(cube_at(v.spawn_point())),
{
}

/// Each tick places the cursor in front of the camera as it stands at that
/// tick: after the camera moves from `a` to `b` between two ticks, the cursor
/// is at the projection of `b`.
pub proof fn lemma_cursor_tracks_camera(
    v: SceneView,
    a: Transform,
    b: Transform,
    down1: bool,
    down2: bool,
    t1: nat,
    t2: nat,
)
    requires
        projection_fits(b, SPAWN_DISTANCE as int),
    ensures
        v.with_camera(a).ticked(down1, t1).with_camera(b).ticked(down2, t2).cursor.transform.translation.at(
            projected(b, SPAWN_DISTANCE as int),
        ),
{
}

/// A tick keeps every body a cube, and adds only cubes.
pub proof fn lemma_tick_keeps_cubes(v: SceneView, down: bool, elapsed: nat)
    requires
        v.wf(),
    ensures
        v.ticked(down, elapsed).wf(),
        forall|i: int|
            v.bodies.len() <= i < v.ticked(down, elapsed).bodies.len()
                ==> (#[trigger] v.ticked(down, elapsed).bodies[i]).is_cube(),
{
    let n = v.ticked(down, elapsed);
    assert forall|i: int| 0 <= i < n.bodies.len() implies (#[trigger] n.bodies[i]).has_cube_shape() by {
        if i < v.bodies.len() {
            assert(n.bodies[i] == v.bodies[i]);
        }
    }
}

/// A tick writes only new bodies, the cursor, the light and the button: the
/// bodies already live, the ground and the camera are left as they were.
pub proof fn lemma_tick_leaves_live_bodies(v: SceneView, down: bool, elapsed: nat)
    ensures
        v.ticked(down, elapsed).bodies.subrange(0, v.bodies.len() as int) == v.bodies,
        v.ticked(down, elapsed).ground == v.ground,
        v.ticked(down, elapsed).camera == v.camera,
{
    assert(v.ticked(down, elapsed).bodies.subrange(0, v.bodies.len() as int) =~= v.bodies);
}

} // verus!
