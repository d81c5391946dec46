use vstd::prelude::*;
use crate::body::Body;
use crate::vector::Vec3;

verus! {

/// A time step of `num / den` seconds.
#[derive(Clone, Copy, Debug, PartialEq, Eq, Structural)]
pub struct TimeStep {
    pub num: u64,
    pub den: u64,
}

/// Denominator of the conventional step of one sixtieth of a second.
pub const FRAMES_PER_SECOND: u64 = 60;

impl TimeStep {
    pub fn new(num: u64, den: u64) -> (r: TimeStep)
        requires
            den > 0,
        ensures
            r == (TimeStep { num, den }),
    {
        TimeStep { num, den }
    }

    pub open spec fn frame_spec() -> TimeStep {
        TimeStep { num: 1, den: 60 }
    }

    /// The conventional step, one sixtieth of a second.
    #[verifier::when_used_as_spec(frame_spec)]
    pub fn frame() -> (r: TimeStep)
        ensures
            r == TimeStep::frame_spec(),
    {
        TimeStep { num: 1, den: FRAMES_PER_SECOND }
    }

    pub open spec fn valid(self) -> bool {
        self.den > 0
    }
}

/// The step that `tick` takes for an optional argument.
pub open spec fn step_or_frame(dt: Option<TimeStep>) -> TimeStep {
    match dt {
        Some(d) => d,
        None => TimeStep::frame_spec(),
    }
}

/// `x * dt`, rounded toward zero.
pub open spec fn scale(x: int, dt: TimeStep) -> int {
    if x >= 0 {
        x * (dt.num as int) / (dt.den as int)
    } else {
        -((-x) * (dt.num as int) / (dt.den as int))
    }
}

pub open spec fn in_i64(x: int) -> bool {
    i64::MIN <= x <= i64::MAX
}

/// Acceleration along one axis: the force `mass * g` divided by the mass.
pub open spec fn acceleration(mass: u64, g: i64) -> int {
    (mass * g) / (mass as int)
}

/// Velocity along one axis after a step.
pub open spec fn next_velocity(m: u64, v: i64, g: i64, dt: TimeStep) -> int {
    v + scale(acceleration(m, g), dt)
}

/// Position along one axis after a step: it moves by the updated velocity.
pub open spec fn next_position(m: u64, p: i64, v: i64, g: i64, dt: TimeStep) -> int {
    p + scale(next_velocity(m, v, g, dt), dt)
}

pub open spec fn axis_fits(m: u64, p: i64, v: i64, g: i64, dt: TimeStep) -> bool {
    in_i64(next_velocity(m, v, g, dt)) && in_i64(next_position(m, p, v, g, dt))
}

/// With a positive mass, the acceleration is gravity itself.
pub proof fn lemma_acceleration_is_gravity(mass: u64, g: i64)
    requires
        mass > 0,
    ensures
        acceleration(mass, g) == g,
{
    vstd::arithmetic::div_mod::lemma_div_multiples_vanish(g as int, mass as int);
}

/// The force on a body of mass `mass` divided by that mass.
fn accelerate(mass: u64, g: i64) -> (r: i64)
    requires
        mass > 0,
    ensures
        r == acceleration(mass, g),
{
    let mag: u128 = if g >= 0 { g as u128 } else { (0i128 - g as i128) as u128 };
    let m: u128 = mass as u128;
    proof {
        assert(m * mag <= 0xffff_ffff_ffff_ffff * 0x8000_0000_0000_0000) by (nonlinear_arith)
            requires
                m <= 0xffff_ffff_ffff_ffff,
                mag <= 0x8000_0000_0000_0000,
        ;
    }
    let force: u128 = m * mag;
    proof {
        vstd::arithmetic::div_mod::lemma_div_multiples_vanish(mag as int, m as int);
        lemma_acceleration_is_gravity(mass, g);
    }
    let q: u128 = force / m;
    if g >= 0 {
        q as i64
    } else {
        (0i128 - q as i128) as i64
    }
}

/// Whether one step of `b` keeps its velocity and position within `i64`.
pub open spec fn step_fits(b: Body, g: Vec3, dt: TimeStep) -> bool {
    &&& axis_fits(b.mass, b.position.x, b.velocity.x, g.x, dt)
    &&& axis_fits(b.mass, b.position.y, b.velocity.y, g.y, dt)
    &&& axis_fits(b.mass, b.position.z, b.velocity.z, g.z, dt)
}

/// One semi-implicit Euler step of `b` under gravity `g`: velocity first,
/// then position from the new velocity, and the force left at zero.
pub open spec fn stepped(b: Body, g: Vec3, dt: TimeStep) -> Body {
    Body {
        id: b.id,
        color: b.color,
        velocity: Vec3 {
            x: next_velocity(b.mass, b.velocity.x, g.x, dt) as i64,
            y: next_velocity(b.mass, b.velocity.y, g.y, dt) as i64,
            z: next_velocity(b.mass, b.velocity.z, g.z, dt) as i64,
        },
        position: Vec3 {
            x: next_position(b.mass, b.position.x, b.velocity.x, g.x, dt) as i64,
            y: next_position(b.mass, b.position.y, b.velocity.y, g.y, dt) as i64,
            z: next_position(b.mass, b.position.z, b.velocity.z, g.z, dt) as i64,
        },
        force: Vec3::zero_spec(),
        mass: b.mass,
    }
}

/// `n` steps of `b`.
pub open spec fn advanced(b: Body, g: Vec3, dt: TimeStep, n: nat) -> Body
    decreases n,
{
    if n == 0 {
        b
    } else {
        stepped(advanced(b, g, dt, (n - 1) as nat), g, dt)
    }
}

/// `x * dt` rounded toward zero, computed exactly.
pub fn scale_by(x: i64, dt: TimeStep) -> (r: i128)
    requires
        dt.valid(),
    ensures
        r == scale(x as int, dt),
        -0x7fff_ffff_ffff_ffff_8000_0000_0000_0000 <= r <= 0x7fff_ffff_ffff_ffff_8000_0000_0000_0000,
{
    let mag: u128 = if x >= 0 { x as u128 } else { (0i128 - x as i128) as u128 };
    let num: u128 = dt.num as u128;
    let den: u128 = dt.den as u128;
    proof {
        assert(mag * num <= 0x7fff_ffff_ffff_ffff_8000_0000_0000_0000u128) by (nonlinear_arith)
            requires
                mag <= 0x8000_0000_0000_0000u128,
                num <= 0xffff_ffff_ffff_ffffu128,
        ;
    }
    let prod: u128 = mag * num;
    let q: u128 = prod / den;
    proof {
        assert(q <= prod) by (nonlinear_arith)
            requires
                q == prod / den,
                den >= 1,
                prod >= 0,
        ;
    }
    if x >= 0 {
        q as i128
    } else {
        0i128 - q as i128
    }
}

/// New velocity and position along one axis, or `None` where either leaves `i64`.
fn step_axis(m: u64, p: i64, v: i64, g: i64, dt: TimeStep) -> (r: Option<(i64, i64)>)
    requires
        m > 0,
        dt.valid(),
    ensures
        r.is_some() == axis_fits(m, p, v, g, dt),
        r matches Some((nv, np)) ==> nv == next_velocity(m, v, g, dt) && np == next_position(m, p, v, g, dt),
{
    let nv: i128 = v as i128 + scale_by(accelerate(m, g), dt);
    if nv < i64::MIN as i128 || nv > i64::MAX as i128 {
        return None;
    }
    let nv: i64 = nv as i64;
    let np: i128 = p as i128 + scale_by(nv, dt);
    if np < i64::MIN as i128 || np > i64::MAX as i128 {
        return None;
    }
    Some((nv, np as i64))
}

/// Whether `step_body` may be called on `b`.
pub fn can_step(b: &Body, g: Vec3, dt: TimeStep) -> (r: bool)
    requires
        b.mass > 0,
        dt.valid(),
    ensures
        r == step_fits(*b, g, dt),
{
    step_axis(b.mass, b.position.x, b.velocity.x, g.x, dt).is_some()
        && step_axis(b.mass, b.position.y, b.velocity.y, g.y, dt).is_some()
        && step_axis(b.mass, b.position.z, b.velocity.z, g.z, dt).is_some()
}

/// Advances `b` by one step under gravity `g`.
pub fn step_body(b: &mut Body, g: Vec3, dt: TimeStep)
    requires
        old(b).mass > 0,
        dt.valid(),
        step_fits(*old(b), g, dt),
    ensures
        *final(b) == stepped(*old(b), g, dt),
{
    let sx = step_axis(b.mass, b.position.x, b.velocity.x, g.x, dt);
    let sy = step_axis(b.mass, b.position.y, b.velocity.y, g.y, dt);
    let sz = step_axis(b.mass, b.position.z, b.velocity.z, g.z, dt);
    match (sx, sy, sz) {
        (Some((vx, px)), Some((vy, py)), Some((vz, pz))) => {
            b.velocity = Vec3 { x: vx, y: vy, z: vz };
            b.position = Vec3 { x: px, y: py, z: pz };
            b.force = Vec3::zero();
        },
        _ => {},
    }
}

} // verus!
