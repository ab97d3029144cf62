use vstd::prelude::*;
use crate::player::axis::Axis;

verus! {

/// A seat at the bridge table.
#[derive(Debug, Clone, Copy, PartialEq, Eq, Hash, Structural)]
pub enum Side {
    East,
    South,
    West,
    North,
}

/// The sides in the order of play, starting with north.
pub const SIDES: [Side; 4] = [Side::North, Side::East, Side::South, Side::West];

/// The side sitting at clockwise position `i` (north 0, east 1, south 2, west 3).
pub open spec fn side_at(i: int) -> Side {
    if i == 0 {
        Side::North
    } else if i == 1 {
        Side::East
    } else if i == 2 {
        Side::South
    } else {
        Side::West
    }
}

impl Side {
    /// Clockwise position of the side: north 0, east 1, south 2, west 3.
    pub open spec fn spec_index(self) -> nat {
        match self {
            Side::North => 0,
            Side::East => 1,
            Side::South => 2,
            Side::West => 3,
        }
    }

    pub open spec fn spec_axis(self) -> Axis {
        match self {
            Side::East | Side::West => Axis::EastWest,
            Side::North | Side::South => Axis::NorthSouth,
        }
    }

    /// The side playing after this one (clockwise).
    pub open spec fn spec_next(self) -> Side {
        match self {
            Side::East => Side::South,
            Side::South => Side::West,
            Side::West => Side::North,
            Side::North => Side::East,
        }
    }

    /// The side playing before this one.
    pub open spec fn spec_prev(self) -> Side {
        match self {
            Side::East => Side::North,
            Side::South => Side::East,
            Side::West => Side::South,
            Side::North => Side::West,
        }
    }

    /// The side sitting opposite.
    pub open spec fn spec_partner(self) -> Side {
        match self {
            Side::East => Side::West,
            Side::South => Side::North,
            Side::West => Side::East,
            Side::North => Side::South,
        }
    }

    /// The side `i` places clockwise from this one.
    pub open spec fn spec_next_i(self, i: int) -> Side {
        side_at((self.spec_index() + i) % 4)
    }

    pub fn axis(&self) -> (a: Axis)
        ensures
            a == self.spec_axis(),
    {
        match self {
            Side::East | Side::West => Axis::EastWest,
            Side::North | Side::South => Axis::NorthSouth,
        }
    }

    pub fn next(&self) -> (s: Side)
        ensures
            s == self.spec_next(),
    {
        match self {
            Side::East => Side::South,
            Side::South => Side::West,
            Side::West => Side::North,
            Side::North => Side::East,
        }
    }

    pub fn prev(&self) -> (s: Side)
        ensures
            s == self.spec_prev(),
    {
        match self {
            Side::East => Side::North,
            Side::South => Side::East,
            Side::West => Side::South,
            Side::North => Side::West,
        }
    }

    pub fn partner(&self) -> (s: Side)
        ensures
            s == self.spec_partner(),
    {
        match self {
            Side::East => Side::West,
            Side::South => Side::North,
            Side::West => Side::East,
            Side::North => Side::South,
        }
    }

    /// The side `index` places clockwise from this one (only `index % 4` counts).
    pub fn next_i(&self, index: u8) -> (s: Side)
        ensures
            s == self.spec_next_i(index as int),
    {
        let r = index % 4;
        if r == 0 {
            *self
        } else if r == 1 {
            self.next()
        } else if r == 2 {
            match self {
                Side::North => Side::South,
                Side::East => Side::West,
                Side::South => Side::North,
                Side::West => Side::East,
            }
        } else {
            self.prev()
        }
    }

    /// How many places clockwise `second` sits from `first`.
    pub fn difference(first: Side, second: Side) -> (d: u8)
        ensures
            d == (second.spec_index() - first.spec_index() + 4) % 4,
            d < 4,
    {
        if first == second {
            0
        } else if first.next_i(1) == second {
            1
        } else if first.next_i(2) == second {
            2
        } else {
            3
        }
    }

    pub fn index(&self) -> (i: u8)
        ensures
            i == self.spec_index(),
            i < 4,
    {
        match self {
            Side::North => 0,
            Side::East => 1,
            Side::South => 2,
            Side::West => 3,
        }
    }
}

/// `next` and `prev` undo each other.
pub proof fn law_next_prev(s: Side)
    ensures
        s.spec_next().spec_prev() == s,
        s.spec_prev().spec_next() == s,
{
}

/// The partner is two places away, partnership is symmetric and shares the axis;
/// neighbours sit on the other axis.
pub proof fn law_partner(s: Side)
    ensures
        s.spec_partner() == s.spec_next().spec_next(),
        s.spec_partner().spec_partner() == s,
        s.spec_partner().spec_axis() == s.spec_axis(),
        s.spec_next().spec_axis() != s.spec_axis(),
        s.spec_partner() != s,
{
}

/// `next_i` walks clockwise: 0 stays, 1 is `next`, 2 is the partner, 3 is `prev`,
/// and four steps come back.
pub proof fn law_next_i(s: Side, i: int)
    requires
        i >= 0,
    ensures
        s.spec_next_i(0) == s,
        s.spec_next_i(1) == s.spec_next(),
        s.spec_next_i(2) == s.spec_partner(),
        s.spec_next_i(3) == s.spec_prev(),
        s.spec_next_i(i + 4) == s.spec_next_i(i),
        s.spec_next_i(i).spec_index() == (s.spec_index() + i) % 4,
{
}

/// `difference(a, b)` is the number of clockwise steps from `a` to `b`.
pub proof fn law_difference(a: Side, b: Side)
    ensures
        a.spec_next_i((b.spec_index() - a.spec_index() + 4) % 4) == b,
        ((b.spec_index() - a.spec_index() + 4) % 4 == 0) <==> a == b,
        ((b.spec_index() - a.spec_index() + 4) % 4 + (a.spec_index() - b.spec_index() + 4) % 4)
            % 4 == 0,
{
}

/// Positions identify sides.
pub proof fn law_index(s: Side, t: Side)
    ensures
        side_at(s.spec_index() as int) == s,
        s.spec_index() == t.spec_index() <==> s == t,
{
}

/// `a - b` is how many places clockwise `a` sits from `b`: north minus east is 3.
impl core::ops::Sub for Side {
    type Output = u8;

    fn sub(self, rhs: Side) -> (r: u8) {
        Side::difference(rhs, self)
    }
}

impl vstd::std_specs::ops::SubSpecImpl for Side {
    open spec fn obeys_sub_spec() -> bool {
        true
    }

    open spec fn sub_req(self, rhs: Side) -> bool {
        true
    }

    open spec fn sub_spec(self, rhs: Side) -> u8 {
        ((self.spec_index() - rhs.spec_index() + 4) % 4) as u8
    }
}

} // verus!
