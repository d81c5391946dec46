use vstd::prelude::*;
use crate::body::{Body, Color};
use crate::physics::{can_step, step_body, step_fits, step_or_frame, stepped, TimeStep};
use crate::vector::Vec3;

verus! {

/// Fixed-point units in one metre; one metre is one unit of the drawing target.
pub const UNITS_PER_METRE: i64 = 1_000_000;

/// Mass units per unit of disc radius.
pub const MASS_PER_RADIUS: u64 = 10_000;

/// A body's position as three coordinates.
#[derive(Clone, Copy, Debug, PartialEq, Eq, Structural)]
pub struct Position(pub i64, pub i64, pub i64);

/// One call on the drawing target. Coordinates are fixed-point target units
/// with the y axis pointing down.
#[derive(Clone, Debug)]
pub enum DrawCommand {
    /// Clear the rectangle from the origin to `(width, height)`.
    Clear { width: u32, height: u32 },
    /// Fill a disc centred at `(x, y)`.
    Disc { x: i64, y: i128, radius: u64, color: Color },
}

pub open spec fn position_of(v: Vec3) -> Position {
    Position(v.x, v.y, v.z)
}

/// `b` with its identifier set to `id`.
pub open spec fn with_id(b: Body, id: String) -> Body {
    Body { id, color: b.color, velocity: b.velocity, position: b.position, force: b.force, mass: b.mass }
}

/// `i` is the first index of `s` whose body has identifier `id`.
pub open spec fn is_first_id(s: Seq<Body>, id: Seq<char>, i: int) -> bool {
    &&& 0 <= i < s.len()
    &&& s[i].id@ == id
    &&& forall|j: int| 0 <= j < i ==> s[j].id@ != id
}

/// The position of the first body of `s` with identifier `id`.
pub open spec fn lookup(s: Seq<Body>, id: Seq<char>) -> Option<Position> {
    if exists|i: int| is_first_id(s, id, i) {
        Some(position_of(s[choose|i: int| is_first_id(s, id, i)].position))
    } else {
        None
    }
}

/// `i` is the first index of `s` whose body is the same as `b` in every field.
pub open spec fn is_first_same(s: Seq<Body>, b: Body, i: int) -> bool {
    &&& 0 <= i < s.len()
    &&& s[i].same(b)
    &&& forall|j: int| 0 <= j < i ==> !s[j].same(b)
}

/// `s` without its first body that is the same as `b`, if it has one.
pub open spec fn removed(s: Seq<Body>, b: Body) -> Seq<Body> {
    if exists|i: int| is_first_same(s, b, i) {
        s.remove(choose|i: int| is_first_same(s, b, i))
    } else {
        s
    }
}

/// Whether one step of every body of `s` stays within `i64`.
pub open spec fn tick_fits(s: Seq<Body>, g: Vec3, dt: TimeStep) -> bool {
    forall|i: int| 0 <= i < s.len() ==> step_fits(#[trigger] s[i], g, dt)
}

/// `round(mass / MASS_PER_RADIUS)`, halves rounded up.
pub open spec fn radius_of(mass: u64) -> int {
    (mass + MASS_PER_RADIUS / 2) / (MASS_PER_RADIUS as int)
}

/// `c` draws body `b` on a target `height` units tall, the y axis flipped.
pub open spec fn draws(c: DrawCommand, b: Body, height: u32) -> bool {
    match c {
        DrawCommand::Disc { x, y, radius, color } => {
            &&& x == b.position.x
            &&& y == height * UNITS_PER_METRE - b.position.y
            &&& radius == radius_of(b.mass)
            &&& color.same(b.color)
        },
        _ => false,
    }
}

pub proof fn lemma_first_id_unique(s: Seq<Body>, id: Seq<char>, i: int, k: int)
    requires
        is_first_id(s, id, i),
        is_first_id(s, id, k),
    ensures
        i == k,
{
}

pub proof fn lemma_first_same_unique(s: Seq<Body>, b: Body, i: int, k: int)
    requires
        is_first_same(s, b, i),
        is_first_same(s, b, k),
    ensures
        i == k,
{
}

/// The bodies, in insertion order, and a uniform gravity.
#[derive(Debug)]
pub struct Universe {
    bodies: Vec<Body>,
    gravity: Vec3,
}

impl View for Universe {
    type V = Seq<Body>;

    closed spec fn view(&self) -> Seq<Body> {
        self.bodies@
    }
}

impl Universe {
    pub closed spec fn gravity_spec(&self) -> Vec3 {
        self.gravity
    }

    /// Every body has a positive mass.
    pub open spec fn wf(&self) -> bool {
        forall|i: int| 0 <= i < self@.len() ==> #[trigger] self@[i].mass > 0
    }

    /// 9.81 metres per second squared, downward.
    pub open spec fn default_gravity() -> Vec3 {
        Vec3 { x: 0, y: -9_810_000i64, z: 0 }
    }

    pub fn new() -> (r: Universe)
        ensures
            r@ == Seq::<Body>::empty(),
            r.gravity_spec() == Universe::default_gravity(),
            r.wf(),
    {
        Universe { bodies: Vec::new(), gravity: Vec3 { x: 0, y: -9_810_000, z: 0 } }
    }

    pub fn gravity(&self) -> (r: Vec3)
        ensures
            r == self.gravity_spec(),
    {
        self.gravity
    }

    pub fn body_count(&self) -> (r: usize)
        ensures
            r == self@.len(),
    {
        self.bodies.len()
    }

    /// The body at index `i` in insertion order.
    pub fn body(&self, i: usize) -> (r: &Body)
        requires
            i < self@.len(),
        ensures
            *r == self@[i as int],
    {
        &self.bodies[i]
    }

    /// Sets the body's identifier to `id` and appends it, to be drawn over the others.
    pub fn add_body(&mut self, id: String, body: Body)
        requires
            old(self).wf(),
            body.mass > 0,
        ensures
            final(self)@ == old(self)@.push(with_id(body, id)),
            final(self).gravity_spec() == old(self).gravity_spec(),
            final(self).wf(),
    {
        let mut body = body;
        body.id = id;
        self.bodies.push(body);
    }

    /// Removes the first body that equals `body` in every field; does nothing if none does.
    pub fn remove_body(&mut self, body: Body)
        requires
            old(self).wf(),
        ensures
            final(self)@ == removed(old(self)@, body),
            final(self).gravity_spec() == old(self).gravity_spec(),
            final(self).wf(),
    {
        let n = self.bodies.len();
        let mut i: usize = 0;
        while i < n
            invariant
                n == self.bodies@.len(),
                0 <= i <= n,
                self.bodies@ == old(self).bodies@,
                self.gravity == old(self).gravity,
                old(self).wf(),
                forall|j: int| 0 <= j < i ==> !self.bodies@[j].same(body),
            decreases n - i,
        {
            if self.bodies[i] == body {
                proof {
                    assert(is_first_same(self@, body, i as int));
                    let k = choose|k: int| is_first_same(self@, body, k);
                    lemma_first_same_unique(self@, body, i as int, k);
                }
                self.bodies.remove(i);
                return;
            }
            i += 1;
        }
        assert(!exists|k: int| is_first_same(self@, body, k));
    }

    /// The position of the first body with identifier `id`.
    pub fn get_position(&self, id: String) -> (r: Option<Position>)
        ensures
            r == lookup(self@, id@),
    {
        let n = self.bodies.len();
        let mut i: usize = 0;
        while i < n
            invariant
                n == self.bodies@.len(),
                0 <= i <= n,
                forall|j: int| 0 <= j < i ==> self.bodies@[j].id@ != id@,
            decreases n - i,
        {
            if self.bodies[i].id == id {
                proof {
                    assert(is_first_id(self@, id@, i as int));
                    let k = choose|k: int| is_first_id(self@, id@, k);
                    lemma_first_id_unique(self@, id@, i as int, k);
                }
                let p = self.bodies[i].position;
                return Some(Position(p.x, p.y, p.z));
            }
            i += 1;
        }
        assert(!exists|k: int| is_first_id(self@, id@, k));
        None
    }

    /// Whether `tick(dt)` keeps every velocity and position within `i64`.
    pub fn can_tick(&self, dt: Option<TimeStep>) -> (r: bool)
        requires
            self.wf(),
            step_or_frame(dt).valid(),
        ensures
            r == tick_fits(self@, self.gravity_spec(), step_or_frame(dt)),
    {
        let step = match dt { Some(d) => d, None => TimeStep::frame() };
        let n = self.bodies.len();
        let mut i: usize = 0;
        while i < n
            invariant
                n == self.bodies@.len(),
                0 <= i <= n,
                step == step_or_frame(dt),
                step.valid(),
                self.wf(),
                forall|j: int| 0 <= j < i ==> step_fits(#[trigger] self@[j], self.gravity, step),
            decreases n - i,
        {
            if !can_step(&self.bodies[i], self.gravity, step) {
                return false;
            }
            i += 1;
        }
        true
    }

    /// Advances every body by one step of `dt` seconds, one sixtieth if omitted.
    pub fn tick(&mut self, dt: Option<TimeStep>)
        requires
            old(self).wf(),
            step_or_frame(dt).valid(),
            tick_fits(old(self)@, old(self).gravity_spec(), step_or_frame(dt)),
        ensures
            final(self)@.len() == old(self)@.len(),
            forall|i: int| 0 <= i < old(self)@.len() ==> final(self)@[i]
                == stepped(old(self)@[i], old(self).gravity_spec(), step_or_frame(dt)),
            forall|i: int| 0 <= i < final(self)@.len() ==> (#[trigger] final(self)@[i]).force == Vec3::zero_spec(),
            old(self)@.len() == 0 ==> final(self)@ == old(self)@,
            final(self).gravity_spec() == old(self).gravity_spec(),
            final(self).wf(),
    {
        let step = match dt { Some(d) => d, None => TimeStep::frame() };
        let g = self.gravity;
        let n = self.bodies.len();
        let mut i: usize = 0;
        while i < n
            invariant
                n == self.bodies@.len(),
                n == old(self).bodies@.len(),
                0 <= i <= n,
                g == self.gravity,
                g == old(self).gravity,
                step == step_or_frame(dt),
                step.valid(),
                tick_fits(old(self)@, g, step),
                old(self).wf(),
                forall|j: int| 0 <= j < i ==> self.bodies@[j] == stepped(old(self).bodies@[j], g, step),
                forall|j: int| i <= j < n ==> self.bodies@[j] == old(self).bodies@[j],
            decreases n - i,
        {
            assert(step_fits(old(self)@[i as int], g, step));
            assert(old(self)@[i as int].mass > 0);
            step_body(&mut self.bodies[i], g, step);
            i += 1;
        }
        if n == 0 {
            assert(self.bodies@ =~= old(self).bodies@);
        }
    }

    /// What drawing the universe on a target `width` by `height` does: clear
    /// it, then draw each body as a disc, in insertion order.
    pub fn render(&self, width: u32, height: u32) -> (r: Vec<DrawCommand>)
        ensures
            r@.len() == self@.len() + 1,
            r@[0] == (DrawCommand::Clear { width, height }),
            forall|i: int| 0 <= i < self@.len() ==> draws(#[trigger] r@[i + 1], self@[i], height),
    {
        let mut out: Vec<DrawCommand> = Vec::new();
        out.push(DrawCommand::Clear { width, height });
        let top: i128 = height as i128 * UNITS_PER_METRE as i128;
        let n = self.bodies.len();
        let mut i: usize = 0;
        while i < n
            invariant
                n == self.bodies@.len(),
                0 <= i <= n,
                top == height * UNITS_PER_METRE,
                out@.len() == i + 1,
                out@[0] == (DrawCommand::Clear { width, height }),
                forall|j: int| 0 <= j < i ==> draws(#[trigger] out@[j + 1], self@[j], height),
            decreases n - i,
        {
            let b = &self.bodies[i];
            let mass = b.mass;
            let radius: u64 = mass / MASS_PER_RADIUS + if mass % MASS_PER_RADIUS >= MASS_PER_RADIUS / 2 { 1 } else { 0 };
            assert(radius == radius_of(mass));
            out.push(DrawCommand::Disc {
                x: b.position.x,
                y: top - b.position.y as i128,
                radius,
                color: b.color.copy(),
            });
            i += 1;
        }
        out
    }
}

} // verus!
