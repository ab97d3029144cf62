use vstd::prelude::*;
use crate::player::axis::Axis;
use crate::score::calculation::ScoreTracker;

verus! {

/// Score table of sport (duplicate) bridge: points and vulnerability of both axes.
#[derive(Debug, Copy, Clone, PartialEq, Eq)]
pub struct ScoreTableSport {
    ns_score: i32,
    ew_score: i32,
    ns_vulnerability: bool,
    ew_vulnerability: bool,
}

impl ScoreTableSport {
    pub closed spec fn score_of(self, axis: Axis) -> int {
        match axis {
            Axis::NorthSouth => self.ns_score as int,
            Axis::EastWest => self.ew_score as int,
        }
    }

    pub closed spec fn vulnerable(self, axis: Axis) -> bool {
        match axis {
            Axis::NorthSouth => self.ns_vulnerability,
            Axis::EastWest => self.ew_vulnerability,
        }
    }

    /// A fresh table: no points, with the given vulnerabilities.
    pub fn new(ns_vulnerability: bool, ew_vulnerability: bool) -> (t: ScoreTableSport)
        ensures
            t.score_of(Axis::NorthSouth) == 0,
            t.score_of(Axis::EastWest) == 0,
            t.vulnerable(Axis::NorthSouth) == ns_vulnerability,
            t.vulnerable(Axis::EastWest) == ew_vulnerability,
    {
        ScoreTableSport { ns_score: 0, ew_score: 0, ns_vulnerability, ew_vulnerability }
    }

    /// Whether `axis` is vulnerable.
    pub fn vulnerability(&self, axis: &Axis) -> (r: bool)
        ensures
            r == self.vulnerable(*axis),
    {
        match axis {
            Axis::NorthSouth => self.ns_vulnerability,
            Axis::EastWest => self.ew_vulnerability,
        }
    }
}

impl Default for ScoreTableSport {
    fn default() -> (t: ScoreTableSport)
        ensures
            t.score_of(Axis::NorthSouth) == 0,
            t.score_of(Axis::EastWest) == 0,
            !t.vulnerable(Axis::NorthSouth),
            !t.vulnerable(Axis::EastWest),
    {
        ScoreTableSport::new(false, false)
    }
}

impl ScoreTracker for ScoreTableSport {
    open spec fn spec_points(&self, axis: Axis) -> int {
        self.score_of(axis)
    }

    fn winner_axis(&self) -> (r: Option<Axis>) {
        if self.ew_score < self.ns_score {
            Some(Axis::NorthSouth)
        } else if self.ew_score == self.ns_score {
            None
        } else {
            Some(Axis::EastWest)
        }
    }

    fn points(&self, axis: &Axis) -> (r: i32) {
        match axis {
            Axis::EastWest => self.ew_score,
            Axis::NorthSouth => self.ns_score,
        }
    }
}

} // verus!
