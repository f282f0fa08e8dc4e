use vstd::prelude::*;
use crate::geometry::{point_of, Transform, Vec3, UNIT};

verus! {

/// Length of one sweep of the light, in fixed-point seconds.
pub const LIGHT_PERIOD: u64 = 20000000;

/// A point light.
#[derive(Clone, Copy, Debug, PartialEq, Eq, Structural)]
pub struct LightSource {
    /// Luminous power in fixed-point units.
    pub intensity: i64,
    pub shadows_enabled: bool,
    pub transform: Transform,
}

/// Depth of the light `elapsed` fixed-point seconds after start:
/// `4 + (elapsed mod 20) - 10`, a sawtooth that jumps back every period.
pub open spec fn light_z(elapsed: nat) -> int {
    4 * UNIT + (elapsed % (LIGHT_PERIOD as nat)) - 10 * UNIT
}

/// Where the light stands `elapsed` fixed-point seconds after start.
pub open spec fn light_position(elapsed: nat) -> (int, int, int) {
    (4 * UNIT, 8 * UNIT, light_z(elapsed))
}

/// Puts the light at `(4, 8, 4 + (elapsed mod 20) - 10)`; its rotation and
/// scale stay as they were.
pub fn move_light(elapsed: u64, light: &mut LightSource)
    ensures
        final(light).transform.translation.at(light_position(elapsed as nat)),
        final(light).transform.translation == point_of(light_position(elapsed as nat)),
        final(light).transform.rotation == old(light).transform.rotation,
        final(light).transform.scale == old(light).transform.scale,
        final(light).intensity == old(light).intensity,
        final(light).shadows_enabled == old(light).shadows_enabled,
{
    let phase: u64 = elapsed % LIGHT_PERIOD;
    let factor: i64 = phase as i64 - 10 * UNIT;
    light.transform.translation = Vec3 { x: 4 * UNIT, y: 8 * UNIT, z: 4 * UNIT + factor };
}

/// The light's path repeats every period.
pub proof fn lemma_light_period(elapsed: nat)
    ensures
        light_position(elapsed + LIGHT_PERIOD as nat) == light_position(elapsed),
{
    let p = LIGHT_PERIOD as nat;
    assert((elapsed + p) % p == elapsed % p) by (nonlinear_arith)
        requires p == 20000000;
}

/// Within a period the light sweeps from -6 up towards 14, then jumps back:
/// its depth grows one for one with time and starts each period at -6.
pub proof fn lemma_light_sawtooth(elapsed: nat, k: nat)
    ensures
        -6 * UNIT <= light_z(elapsed) < 14 * UNIT,
        light_z(k * LIGHT_PERIOD as nat) == -6 * UNIT,
        elapsed % (LIGHT_PERIOD as nat) + 1 < LIGHT_PERIOD ==> light_z(elapsed + 1) == light_z(elapsed) + 1,
{
    let p = LIGHT_PERIOD as nat;
    assert((k * p) % p == 0) by (nonlinear_arith)
        requires p == 20000000;
    assert(elapsed % p + 1 < p ==> (elapsed + 1) % p == elapsed % p + 1) by (nonlinear_arith)
        requires p == 20000000;
}

} // verus!
