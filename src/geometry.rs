use vstd::prelude::*;

verus! {

/// Fixed-point steps per whole unit (lengths, seconds, colour channels, coefficients).
pub const UNIT: i64 = 1000000;

/// Distance in front of the camera at which bodies spawn and the cursor floats.
pub const SPAWN_DISTANCE: i64 = 6000000;

/// A point or a vector in a right-handed, Y-up frame, in fixed-point units.
#[derive(Clone, Copy, Debug, PartialEq, Eq, Structural)]
pub struct Vec3 {
    pub x: i64,
    pub y: i64,
    pub z: i64,
}

/// An orientation as a quaternion `(w, x, y, z)` in fixed-point units.
#[derive(Clone, Copy, Debug, PartialEq, Eq, Structural)]
pub struct Quat {
    pub w: i64,
    pub x: i64,
    pub y: i64,
    pub z: i64,
}

/// Position, orientation and scale of an entity.
#[derive(Clone, Copy, Debug, PartialEq, Eq, Structural)]
pub struct Transform {
    pub translation: Vec3,
    pub rotation: Quat,
    pub scale: Vec3,
}

pub open spec fn within_unit(v: i64) -> bool {
    -UNIT <= v <= UNIT
}

fn in_unit_range(v: i64) -> (r: bool)
    ensures
        r == within_unit(v),
{
    -UNIT <= v && v <= UNIT
}

impl Quat {
    /// Tells whether every component lies in `[-1, 1]`.
    pub fn is_valid(&self) -> (r: bool)
        ensures
            r == self.wf(),
    {
        in_unit_range(self.w) && in_unit_range(self.x) && in_unit_range(self.y) && in_unit_range(
            self.z,
        )
    }

    /// Every component of a unit quaternion lies in `[-1, 1]`.
    pub open spec fn wf(self) -> bool {
        within_unit(self.w) && within_unit(self.x) && within_unit(self.y) && within_unit(self.z)
    }

    pub fn identity() -> (r: Quat)
        ensures
            r == (Quat { w: UNIT, x: 0, y: 0, z: 0 }),
            r.wf(),
    {
        Quat { w: UNIT, x: 0, y: 0, z: 0 }
    }
}

impl Vec3 {
    pub fn new(x: i64, y: i64, z: i64) -> (r: Vec3)
        ensures
            r == (Vec3 { x, y, z }),
    {
        Vec3 { x, y, z }
    }

    pub open spec fn at(self, p: (int, int, int)) -> bool {
        self.x == p.0 && self.y == p.1 && self.z == p.2
    }
}

/// The transform at `p` with identity rotation and unit scale.
pub open spec fn placed_at(p: Vec3) -> Transform {
    Transform {
        translation: p,
        rotation: Quat { w: UNIT, x: 0, y: 0, z: 0 },
        scale: Vec3 { x: UNIT, y: UNIT, z: UNIT },
    }
}

impl Transform {
    pub open spec fn wf(self) -> bool {
        self.rotation.wf()
    }

    /// Tells whether the rotation is well formed.
    pub fn is_valid(&self) -> (r: bool)
        ensures
            r == self.wf(),
    {
        self.rotation.is_valid()
    }

    /// A transform at `(x, y, z)` with identity rotation and unit scale.
    pub fn from_xyz(x: i64, y: i64, z: i64) -> (r: Transform)
        ensures
            r == placed_at(Vec3 { x, y, z }),
            r.translation == (Vec3 { x, y, z }),
            r.rotation == (Quat { w: UNIT, x: 0, y: 0, z: 0 }),
            r.scale == (Vec3 { x: UNIT, y: UNIT, z: UNIT }),
            r.wf(),
    {
        Transform {
            translation: Vec3 { x, y, z },
            rotation: Quat::identity(),
            scale: Vec3 { x: UNIT, y: UNIT, z: UNIT },
        }
    }
}

/// The local +Z axis rotated by `q`, in units of `UNIT * UNIT`.
pub open spec fn rotated_z_axis(q: Quat) -> (int, int, int) {
    (
        2 * (q.x * q.z + q.w * q.y),
        2 * (q.y * q.z - q.w * q.x),
        UNIT * UNIT - 2 * (q.x * q.x + q.y * q.y),
    )
}

/// One component of `axis * (-distance)`, brought back to fixed-point units
/// (rounded down).
pub open spec fn scaled_offset(axis: int, distance: int) -> int {
    (-distance * axis) / (UNIT * UNIT)
}

/// The point `distance` in front of `t`: its translation moved along the
/// forward axis, which is the rotated -Z axis.
pub open spec fn projected(t: Transform, distance: int) -> (int, int, int) {
    let a = rotated_z_axis(t.rotation);
    (
        t.translation.x + scaled_offset(a.0, distance),
        t.translation.y + scaled_offset(a.1, distance),
        t.translation.z + scaled_offset(a.2, distance),
    )
}

/// The fixed-point point with coordinates `p`.
pub open spec fn point_of(p: (int, int, int)) -> Vec3 {
    Vec3 { x: p.0 as i64, y: p.1 as i64, z: p.2 as i64 }
}

pub open spec fn fits_i64(v: int) -> bool {
    i64::MIN <= v <= i64::MAX
}

/// The projected point can be held in fixed-point coordinates.
pub open spec fn projection_fits(t: Transform, distance: int) -> bool {
    let p = projected(t, distance);
    fits_i64(p.0) && fits_i64(p.1) && fits_i64(p.2)
}

proof fn lemma_axis_bounds(q: Quat)
    requires
        q.wf(),
    ensures
        -4 * UNIT * UNIT <= rotated_z_axis(q).0 <= 4 * UNIT * UNIT,
        -4 * UNIT * UNIT <= rotated_z_axis(q).1 <= 4 * UNIT * UNIT,
        -3 * UNIT * UNIT <= rotated_z_axis(q).2 <= UNIT * UNIT,
        -UNIT * UNIT <= q.x * q.z <= UNIT * UNIT,
        -UNIT * UNIT <= q.w * q.y <= UNIT * UNIT,
        -UNIT * UNIT <= q.y * q.z <= UNIT * UNIT,
        -UNIT * UNIT <= q.w * q.x <= UNIT * UNIT,
        0 <= q.x * q.x <= UNIT * UNIT,
        0 <= q.y * q.y <= UNIT * UNIT,
{
    let u = UNIT as int;
    assert(-u * u <= q.x * q.z <= u * u) by (nonlinear_arith)
        requires -u <= q.x <= u, -u <= q.z <= u, u == 1000000;
    assert(-u * u <= q.w * q.y <= u * u) by (nonlinear_arith)
        requires -u <= q.w <= u, -u <= q.y <= u, u == 1000000;
    assert(-u * u <= q.y * q.z <= u * u) by (nonlinear_arith)
        requires -u <= q.y <= u, -u <= q.z <= u, u == 1000000;
    assert(-u * u <= q.w * q.x <= u * u) by (nonlinear_arith)
        requires -u <= q.w <= u, -u <= q.x <= u, u == 1000000;
    assert(0 <= q.x * q.x <= u * u) by (nonlinear_arith)
        requires -u <= q.x <= u, u == 1000000;
    assert(0 <= q.y * q.y <= u * u) by (nonlinear_arith)
        requires -u <= q.y <= u, u == 1000000;
}

/// One offset component of the projection, exactly `scaled_offset(axis, distance)`.
fn offset_component(axis: i128, distance: i64) -> (r: i128)
    requires
        -4 * UNIT * UNIT <= axis <= 4 * UNIT * UNIT,
    ensures
        r == scaled_offset(axis as int, distance as int),
        -4 * (i64::MAX as int) - 4 <= r <= 4 * (i64::MAX as int) + 4,
{
    let u2: i128 = (UNIT as i128) * (UNIT as i128);
    let nd: i128 = -(distance as i128);
    let ghost k: int = 4 * UNIT * UNIT;
    assert(-k * (i64::MAX + 1) <= nd * axis <= k * (i64::MAX + 1)) by (nonlinear_arith)
        requires
            -k <= axis <= k,
            -(i64::MAX + 1) <= nd <= i64::MAX + 1,
            k == 4 * 1000000 * 1000000,
    ;
    let prod: i128 = nd * axis;
    let ghost p: int = prod as int;
    let ghost m: int = i64::MAX + 1;
    assert(-4 * m <= p / (UNIT * UNIT) <= 4 * m) by (nonlinear_arith)
        requires
            -k * m <= p <= k * m,
            k == 4 * 1000000 * 1000000,
            UNIT * UNIT == 1000000 * 1000000,
    ;
    match prod.checked_div_euclid(u2) {
        Some(v) => v,
        None => 0,
    }
}

/// The point `distance` in front of `transform` along its forward axis:
/// `translation + rotate(rotation, +Z) * (-distance)`.
pub fn spawn_position_for_transform(transform: &Transform, distance: i64) -> (r: Vec3)
    requires
        transform.wf(),
        projection_fits(*transform, distance as int),
    ensures
        r.at(projected(*transform, distance as int)),
        r == point_of(projected(*transform, distance as int)),
{
    let q = transform.rotation;
    proof {
        lemma_axis_bounds(q);
    }
    let w = q.w as i128;
    let x = q.x as i128;
    let y = q.y as i128;
    let z = q.z as i128;
    let u2: i128 = (UNIT as i128) * (UNIT as i128);
    let ax: i128 = 2 * (x * z + w * y);
    let ay: i128 = 2 * (y * z - w * x);
    let az: i128 = u2 - 2 * (x * x + y * y);
    let ox = offset_component(ax, distance);
    let oy = offset_component(ay, distance);
    let oz = offset_component(az, distance);
    let t = transform.translation;
    Vec3 {
        x: (t.x as i128 + ox) as i64,
        y: (t.y as i128 + oy) as i64,
        z: (t.z as i128 + oz) as i64,
    }
}

/// Tells whether the point `distance` in front of `transform` can be held
/// in fixed-point coordinates.
pub fn projection_in_range(transform: &Transform, distance: i64) -> (r: bool)
    requires
        transform.wf(),
    ensures
        r == projection_fits(*transform, distance as int),
{
    let q = transform.rotation;
    proof {
        lemma_axis_bounds(q);
    }
    let w = q.w as i128;
    let x = q.x as i128;
    let y = q.y as i128;
    let z = q.z as i128;
    let u2: i128 = (UNIT as i128) * (UNIT as i128);
    let px = transform.translation.x as i128 + offset_component(2 * (x * z + w * y), distance);
    let py = transform.translation.y as i128 + offset_component(2 * (y * z - w * x), distance);
    let pz = transform.translation.z as i128 + offset_component(u2 - 2 * (x * x + y * y), distance);
    let lo = i64::MIN as i128;
    let hi = i64::MAX as i128;
    lo <= px && px <= hi && lo <= py && py <= hi && lo <= pz && pz <= hi
}

/// A transform with identity rotation, placed at the origin, projects
/// `distance` straight down the -Z axis.
pub proof fn lemma_identity_projects_down_negative_z(distance: int, scale: Vec3)
    ensures
        projected(
            Transform {
                translation: Vec3 { x: 0, y: 0, z: 0 },
                rotation: Quat { w: UNIT, x: 0, y: 0, z: 0 },
                scale,
            },
            distance,
        ) == (0int, 0int, -distance),
{
    let u2 = UNIT * UNIT;
    assert((-distance * u2) / u2 == -distance) by (nonlinear_arith)
        requires u2 == 1000000 * 1000000;
    assert((-distance * 0) / u2 == 0) by (nonlinear_arith)
        requires u2 == 1000000 * 1000000;
}

} // verus!
