use vstd::prelude::*;
use crate::body::Body;
use crate::physics::{advanced, lemma_acceleration_is_gravity, scale, step_fits, stepped, TimeStep};
use crate::universe::{is_first_id, is_first_same, lookup, position_of, removed, with_id, Universe};
use crate::vector::Vec3;

verus! {

/// A body at rest under the default gravity, after one step of a sixtieth of
/// a second, moves down at 9.81/60 m/s and has moved by that velocity times
/// the step.
pub proof fn free_fall_one_frame(b: Body)
    requires
        b.mass > 0,
        b.velocity == Vec3::zero_spec(),
        step_fits(b, Universe::default_gravity(), TimeStep::frame_spec()),
    ensures
        stepped(b, Universe::default_gravity(), TimeStep::frame_spec()).velocity
            == (Vec3 { x: 0, y: -163_500i64, z: 0 }),
        stepped(b, Universe::default_gravity(), TimeStep::frame_spec()).position
            == (Vec3 { x: b.position.x, y: (b.position.y + scale(-163_500, TimeStep::frame_spec())) as i64, z: b.position.z }),
        scale(-163_500, TimeStep::frame_spec()) == -2725,
{
    lemma_acceleration_is_gravity(b.mass, 0i64);
    lemma_acceleration_is_gravity(b.mass, -9_810_000i64);
    assert(scale(-9_810_000, TimeStep::frame_spec()) == -163_500);
    assert(scale(0, TimeStep::frame_spec()) == 0);
    assert(scale(-163_500, TimeStep::frame_spec()) == -2725);
}

/// Two bodies that start at the same position with the same velocity follow
/// the same trajectory whatever their masses.
pub proof fn trajectory_independent_of_mass(a: Body, b: Body, g: Vec3, dt: TimeStep, n: nat)
    requires
        a.position == b.position,
        a.velocity == b.velocity,
        a.mass > 0,
        b.mass > 0,
    ensures
        advanced(a, g, dt, n).position == advanced(b, g, dt, n).position,
        advanced(a, g, dt, n).velocity == advanced(b, g, dt, n).velocity,
        advanced(a, g, dt, n).mass == a.mass,
        advanced(b, g, dt, n).mass == b.mass,
    decreases n,
{
    if n > 0 {
        trajectory_independent_of_mass(a, b, g, dt, (n - 1) as nat);
        lemma_acceleration_is_gravity(a.mass, g.x);
        lemma_acceleration_is_gravity(a.mass, g.y);
        lemma_acceleration_is_gravity(a.mass, g.z);
        lemma_acceleration_is_gravity(b.mass, g.x);
        lemma_acceleration_is_gravity(b.mass, g.y);
        lemma_acceleration_is_gravity(b.mass, g.z);
    }
}

/// Adding a body under an identifier no body has makes that identifier look
/// up the body's position; removing the stored body then makes it unknown
/// again, and leaves the bodies as they were.
pub proof fn registry_round_trip(s: Seq<Body>, id: String, b: Body)
    requires
        forall|i: int| 0 <= i < s.len() ==> s[i].id@ != id@,
    ensures
        lookup(s.push(with_id(b, id)), id@) == Some(position_of(b.position)),
        removed(s.push(with_id(b, id)), with_id(b, id)) == s,
        lookup(removed(s.push(with_id(b, id)), with_id(b, id)), id@) is None,
{
    let stored = with_id(b, id);
    let t = s.push(stored);
    let n = s.len() as int;
    assert(is_first_id(t, id@, n));
    let k = choose|k: int| is_first_id(t, id@, k);
    crate::universe::lemma_first_id_unique(t, id@, n, k);
    assert(forall|j: int| 0 <= j < n ==> !t[j].same(stored));
    assert(is_first_same(t, stored, n));
    let m = choose|m: int| is_first_same(t, stored, m);
    crate::universe::lemma_first_same_unique(t, stored, n, m);
    assert(t.remove(n) =~= s);
    assert(!exists|i: int| is_first_id(s, id@, i));
}

} // verus!
