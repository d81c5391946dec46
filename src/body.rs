use vstd::prelude::*;
use crate::vector::Vec3;

verus! {

/// A display attribute, stored and handed to the drawing target unread.
#[derive(Clone, Debug)]
pub enum Color {
    Rgb(u8, u8, u8),
    Named(String),
}

impl Color {
    /// Two colors are the same when they are the same variant with the same contents.
    pub open spec fn same(self, o: Color) -> bool {
        match (self, o) {
            (Color::Rgb(r1, g1, b1), Color::Rgb(r2, g2, b2)) => r1 == r2 && g1 == g2 && b1 == b2,
            (Color::Named(a), Color::Named(b)) => a@ == b@,
            _ => false,
        }
    }

    pub fn copy(&self) -> (r: Color)
        ensures
            r.same(*self),
    {
        match self {
            Color::Rgb(r, g, b) => Color::Rgb(*r, *g, *b),
            Color::Named(s) => Color::Named(s.clone()),
        }
    }
}

impl PartialEq for Color {
    fn eq(&self, o: &Color) -> (r: bool) {
        match (self, o) {
            (Color::Rgb(r1, g1, b1), Color::Rgb(r2, g2, b2)) => *r1 == *r2 && *g1 == *g2 && *b1 == *b2,
            (Color::Named(a), Color::Named(b)) => *a == *b,
            _ => false,
        }
    }
}

impl vstd::std_specs::cmp::PartialEqSpecImpl for Color {
    open spec fn obeys_eq_spec() -> bool {
        true
    }

    open spec fn eq_spec(&self, o: &Color) -> bool {
        self.same(*o)
    }
}

/// A point mass. `mass` is positive for every body held by a universe.
#[derive(Clone, Debug)]
pub struct Body {
    pub id: String,
    pub color: Color,
    pub velocity: Vec3,
    pub position: Vec3,
    pub force: Vec3,
    pub mass: u64,
}

impl Body {
    /// Field-by-field equality, identifier and color included.
    pub open spec fn same(self, o: Body) -> bool {
        &&& self.id@ == o.id@
        &&& self.color.same(o.color)
        &&& self.velocity == o.velocity
        &&& self.position == o.position
        &&& self.force == o.force
        &&& self.mass == o.mass
    }

    /// A body with an empty identifier; each omitted vector is zero.
    pub fn new(
        mass: u64,
        color: Color,
        position: Option<Vec3>,
        velocity: Option<Vec3>,
        force: Option<Vec3>,
    ) -> (r: Body)
        requires
            mass > 0,
        ensures
            r.id@ == Seq::<char>::empty(),
            r.color == color,
            r.mass == mass,
            r.position == (match position { Some(p) => p, None => Vec3::zero_spec() }),
            r.velocity == (match velocity { Some(v) => v, None => Vec3::zero_spec() }),
            r.force == (match force { Some(f) => f, None => Vec3::zero_spec() }),
    {
        let position = match position { Some(p) => p, None => Vec3::zero() };
        let velocity = match velocity { Some(v) => v, None => Vec3::zero() };
        let force = match force { Some(f) => f, None => Vec3::zero() };
        Body { id: String::new(), color, velocity, position, force, mass }
    }
}

impl PartialEq for Body {
    fn eq(&self, o: &Body) -> (r: bool) {
        self.id == o.id && self.color == o.color && self.velocity == o.velocity
            && self.position == o.position && self.force == o.force && self.mass == o.mass
    }
}

impl vstd::std_specs::cmp::PartialEqSpecImpl for Body {
    open spec fn obeys_eq_spec() -> bool {
        true
    }

    open spec fn eq_spec(&self, o: &Body) -> bool {
        self.same(*o)
    }
}

} // verus!
