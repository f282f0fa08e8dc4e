use vstd::prelude::*;
use crate::geometry::{Quat, Transform, Vec3, UNIT};

verus! {

/// Edge length of a spawned cube.
pub const CUBE_SIZE: i64 = 1000000;

/// Half extent of a spawned cube's collider on every axis.
pub const CUBE_HALF_EXTENT: i64 = 500000;

/// Bounciness of a spawned cube.
pub const CUBE_RESTITUTION: i64 = 700000;

/// An RGBA colour, each channel in fixed-point units within `[0, UNIT]`.
#[derive(Clone, Copy, Debug, PartialEq, Eq, Structural)]
pub struct Color {
    pub r: i64,
    pub g: i64,
    pub b: i64,
    pub a: i64,
}

/// The mesh that the renderer draws for an entity.
#[derive(Clone, Copy, Debug, PartialEq, Eq, Structural)]
pub enum MeshShape {
    Cube { size: i64 },
    Plane { size: i64 },
    Icosphere { radius: i64, subdivisions: u32 },
}

/// How the renderer shades an entity.
#[derive(Clone, Copy, Debug, PartialEq, Eq, Structural)]
pub struct SurfaceMaterial {
    pub base_color: Color,
    /// Drawn translucent, blended with what lies behind.
    pub alpha_blend: bool,
}

/// What the renderer needs to draw an entity.
#[derive(Clone, Copy, Debug, PartialEq, Eq, Structural)]
pub struct Visual {
    pub mesh: MeshShape,
    pub material: SurfaceMaterial,
}

/// A box-shaped collision volume, given by its half extents.
#[derive(Clone, Copy, Debug, PartialEq, Eq, Structural)]
pub struct Cuboid {
    pub half_x: i64,
    pub half_y: i64,
    pub half_z: i64,
}

/// Surface properties used by the physics integrator on contact.
#[derive(Clone, Copy, Debug, PartialEq, Eq, Structural)]
pub struct ColliderMaterial {
    /// Fraction of energy kept on a bounce, in fixed-point units.
    pub restitution: i64,
}

/// How a physics pose reaches an entity's transform.
#[derive(Clone, Copy, Debug, PartialEq, Eq, Structural)]
pub enum PositionSync {
    /// Copied once per tick.
    Discrete,
    /// Interpolated between ticks.
    Interpolated,
}

/// A simulated cube: drawn, collided, and moved by the physics integrator.
#[derive(Clone, Copy, Debug, PartialEq, Eq, Structural)]
pub struct CoolCubeBundle {
    pub visual: Visual,
    pub collider: Cuboid,
    pub material: ColliderMaterial,
    pub transform: Transform,
    pub sync: PositionSync,
}

pub open spec fn cube_color() -> Color {
    Color { r: 800000, g: 700000, b: 600000, a: UNIT }
}

/// The cube that spawns at `position`.
pub open spec fn cube_at(position: Vec3) -> CoolCubeBundle {
    CoolCubeBundle {
        visual: Visual {
            mesh: MeshShape::Cube { size: CUBE_SIZE },
            material: SurfaceMaterial { base_color: cube_color(), alpha_blend: false },
        },
        collider: Cuboid {
            half_x: CUBE_HALF_EXTENT,
            half_y: CUBE_HALF_EXTENT,
            half_z: CUBE_HALF_EXTENT,
        },
        material: ColliderMaterial { restitution: CUBE_RESTITUTION },
        transform: Transform {
            translation: position,
            rotation: Quat { w: UNIT, x: 0, y: 0, z: 0 },
            scale: Vec3 { x: UNIT, y: UNIT, z: UNIT },
        },
        sync: PositionSync::Discrete,
    }
}

impl CoolCubeBundle {
    /// The shape, look and physics of a cube; its pose belongs to the
    /// physics integrator once it is live.
    pub open spec fn has_cube_shape(self) -> bool {
        &&& self.visual == (Visual {
            mesh: MeshShape::Cube { size: CUBE_SIZE },
            material: SurfaceMaterial { base_color: cube_color(), alpha_blend: false },
        })
        &&& self.collider == (Cuboid {
            half_x: CUBE_HALF_EXTENT,
            half_y: CUBE_HALF_EXTENT,
            half_z: CUBE_HALF_EXTENT,
        })
        &&& self.material == (ColliderMaterial { restitution: CUBE_RESTITUTION })
        &&& self.sync == PositionSync::Discrete
    }

    /// What every spawned cube has in common, wherever it starts.
    pub open spec fn is_cube(self) -> bool {
        &&& self.has_cube_shape()
        &&& self.transform.rotation == (Quat { w: UNIT, x: 0, y: 0, z: 0 })
        &&& self.transform.scale == (Vec3 { x: UNIT, y: UNIT, z: UNIT })
    }

    /// A unit cube starting at `position`, unrotated, with a half-extent 0.5
    /// cuboid collider, restitution 0.7 and discrete position sync.
    pub fn new(position: Vec3) -> (r: CoolCubeBundle)
        ensures
            r == cube_at(position),
            r.is_cube(),
            r.transform.translation == position,
            r.transform.wf(),
    {
        CoolCubeBundle {
            visual: Visual {
                mesh: MeshShape::Cube { size: CUBE_SIZE },
                material: SurfaceMaterial {
                    base_color: Color { r: 800000, g: 700000, b: 600000, a: UNIT },
                    alpha_blend: false,
                },
            },
            collider: Cuboid {
                half_x: CUBE_HALF_EXTENT,
                half_y: CUBE_HALF_EXTENT,
                half_z: CUBE_HALF_EXTENT,
            },
            material: ColliderMaterial { restitution: CUBE_RESTITUTION },
            transform: Transform::from_xyz(position.x, position.y, position.z),
            sync: PositionSync::Discrete,
        }
    }
}

} // verus!
