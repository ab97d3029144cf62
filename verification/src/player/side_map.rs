use vstd::prelude::*;
use crate::player::side::Side;
use vstd::std_specs::cmp::PartialEqSpec;

verus! {

/// One value for each side of the table.
#[derive(Debug, Clone, PartialEq, Eq)]
pub struct SideMap<T> {
    pub north: T,
    pub east: T,
    pub south: T,
    pub west: T,
}

impl<T: Copy> Copy for SideMap<T> {

}

impl<T> SideMap<T> {
    /// The value kept for `side`.
    pub open spec fn at(self, side: Side) -> T {
        match side {
            Side::North => self.north,
            Side::East => self.east,
            Side::South => self.south,
            Side::West => self.west,
        }
    }

    pub fn new(north: T, east: T, south: T, west: T) -> (m: Self)
        ensures
            m.north == north,
            m.east == east,
            m.south == south,
            m.west == west,
    {
        Self { north, east, south, west }
    }

    /// The value kept for `side`.
    pub fn get(&self, side: &Side) -> (r: &T)
        ensures
            *r == self.at(*side),
    {
        match side {
            Side::East => &self.east,
            Side::South => &self.south,
            Side::West => &self.west,
            Side::North => &self.north,
        }
    }

    /// The map with the value of `side` replaced by `value`.
    pub open spec fn with(self, side: Side, value: T) -> SideMap<T> {
        match side {
            Side::North => SideMap { north: value, ..self },
            Side::East => SideMap { east: value, ..self },
            Side::South => SideMap { south: value, ..self },
            Side::West => SideMap { west: value, ..self },
        }
    }

    /// The map holding `value` for every side.
    pub open spec fn uniform(value: T) -> SideMap<T> {
        SideMap { north: value, east: value, south: value, west: value }
    }

    /// Replaces the value kept for `side`.
    pub fn set(&mut self, side: &Side, value: T)
        ensures
            *final(self) == old(self).with(*side, value),
            final(self).at(*side) == value,
            forall|s: Side| s != *side ==> final(self).at(s) == old(self).at(s),
    {
        match side {
            Side::East => self.east = value,
            Side::South => self.south = value,
            Side::West => self.west = value,
            Side::North => self.north = value,
        }
    }

    /// Whether `f` holds for all four values (asked in the order north, east, south, west).
    pub fn and<F: Fn(&T) -> bool>(&self, f: F) -> (r: bool)
        requires
            f.requires((&self.north,)),
            f.requires((&self.east,)),
            f.requires((&self.south,)),
            f.requires((&self.west,)),
        ensures
            r ==> f.ensures((&self.north,), true) && f.ensures((&self.east,), true) && f.ensures(
                (&self.south,),
                true,
            ) && f.ensures((&self.west,), true),
            !r ==> f.ensures((&self.north,), false) || f.ensures((&self.east,), false)
                || f.ensures((&self.south,), false) || f.ensures((&self.west,), false),
    {
        f(&self.north) && f(&self.east) && f(&self.south) && f(&self.west)
    }

    /// Whether `f` holds for some of the four values.
    pub fn or<F: Fn(&T) -> bool + Copy>(&self, f: F) -> (r: bool)
        requires
            f.requires((&self.north,)),
            f.requires((&self.east,)),
            f.requires((&self.south,)),
            f.requires((&self.west,)),
        ensures
            r ==> f.ensures((&self.north,), true) || f.ensures((&self.east,), true) || f.ensures(
                (&self.south,),
                true,
            ) || f.ensures((&self.west,), true),
            !r ==> f.ensures((&self.north,), false) && f.ensures((&self.east,), false)
                && f.ensures((&self.south,), false) && f.ensures((&self.west,), false),
    {
        f(&self.north) || f(&self.east) || f(&self.south) || f(&self.west)
    }

    /// Applies `f` to each of the four values.
    pub fn transform<D, F: FnOnce(&T) -> D + Copy>(&self, f: F) -> (r: SideMap<D>)
        requires
            f.requires((&self.north,)),
            f.requires((&self.east,)),
            f.requires((&self.south,)),
            f.requires((&self.west,)),
        ensures
            f.ensures((&self.north,), r.north),
            f.ensures((&self.east,), r.east),
            f.ensures((&self.south,), r.south),
            f.ensures((&self.west,), r.west),
    {
        let north = f(&self.north);
        let south = f(&self.south);
        let east = f(&self.east);
        let west = f(&self.west);
        SideMap { north, south, east, west }
    }

    /// The first side (north, east, south, west) whose value satisfies `f`.
    pub fn find<F: FnOnce(&T) -> bool + Copy>(&self, f: F) -> (r: Option<Side>)
        requires
            f.requires((&self.north,)),
            f.requires((&self.east,)),
            f.requires((&self.south,)),
            f.requires((&self.west,)),
        ensures
            r == Some(Side::North) ==> f.ensures((&self.north,), true),
            r == Some(Side::East) ==> f.ensures((&self.north,), false) && f.ensures(
                (&self.east,),
                true,
            ),
            r == Some(Side::South) ==> f.ensures((&self.north,), false) && f.ensures(
                (&self.east,),
                false,
            ) && f.ensures((&self.south,), true),
            r == Some(Side::West) ==> f.ensures((&self.north,), false) && f.ensures(
                (&self.east,),
                false,
            ) && f.ensures((&self.south,), false) && f.ensures((&self.west,), true),
            r is None ==> f.ensures((&self.north,), false) && f.ensures((&self.east,), false)
                && f.ensures((&self.south,), false) && f.ensures((&self.west,), false),
    {
        if f(&self.north) {
            return Some(Side::North);
        }
        if f(&self.east) {
            return Some(Side::East);
        }
        if f(&self.south) {
            return Some(Side::South);
        }
        if f(&self.west) {
            return Some(Side::West);
        }
        None
    }

    /// The four values, in the order north, east, south, west.
    pub fn destruct(self) -> (r: (T, T, T, T))
        ensures
            r == (self.north, self.east, self.south, self.west),
    {
        (self.north, self.east, self.south, self.west)
    }
}

impl<T: Copy> SideMap<T> {
    /// A map holding `value` for every side.
    pub fn new_symmetric(value: T) -> (m: Self)
        ensures
            m == SideMap::uniform(value),
            forall|s: Side| m.at(s) == value,
    {
        Self { north: value, east: value, south: value, west: value }
    }
}

impl<T: Clone> SideMap<T> {
    /// A clone of the value kept for `side`.
    pub fn clone_element(&self, side: &Side) -> (r: T)
        ensures
            cloned(self.at(*side), r),
    {
        self.get(side).clone()
    }
}

impl<T: Eq> SideMap<T> {
    /// Whether all four values equal the north one.
    pub fn are_all_equal(&self) -> (r: bool)
        ensures
            T::obeys_eq_spec() ==> (r == (self.north.eq_spec(&self.north) && self.east.eq_spec(
                &self.north,
            ) && self.south.eq_spec(&self.north) && self.west.eq_spec(&self.north))),
    {
        self.north == self.north && self.east == self.north && self.south == self.north
            && self.west == self.north
    }
}

impl<T1, T2> SideMap<(T1, T2)> {
    /// Splits a map of pairs into the map of first and the map of second components.
    pub fn split(self) -> (r: (SideMap<T1>, SideMap<T2>))
        ensures
            forall|s: Side| r.0.at(s) == self.at(s).0 && r.1.at(s) == self.at(s).1,
    {
        (
            SideMap { north: self.north.0, east: self.east.0, west: self.west.0, south: self.south.0 },
            SideMap { north: self.north.1, east: self.east.1, west: self.west.1, south: self.south.1 },
        )
    }
}

impl<T: Default> Default for SideMap<T> {
    fn default() -> (m: Self)
        ensures
            forall|s: Side| call_ensures(T::default, (), m.at(s)),
    {
        Self { east: T::default(), south: T::default(), west: T::default(), north: T::default() }
    }
}

} // verus!
