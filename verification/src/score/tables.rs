use vstd::prelude::*;
use crate::card::Suit;
use crate::play::contract::{Contract, Doubling};
use crate::play::trump::Trump;

verus! {

/// Whether `x` fits in an `i32`.
pub open spec fn in_i32(x: int) -> bool {
    i32::MIN <= x <= i32::MAX
}

/// The smaller of two numbers.
pub open spec fn min_nat(a: nat, b: nat) -> nat {
    if a < b {
        a
    } else {
        b
    }
}

/// Tricks a contract promises: its level plus six.
pub open spec fn promised(c: Contract) -> nat {
    c.spec_bid().spec_number() + 6
}

/// Points for each contracted trick, by trump, and the doubling multipliers.
#[derive(Debug, Clone, Copy, PartialEq, Eq)]
pub struct PointsContractedTrick {
    pub clubs: i32,
    pub diamonds: i32,
    pub hearts: i32,
    pub spades: i32,
    pub nt_first: i32,
    pub nt_next: i32,
    pub doubling_multiplier: i32,
    pub redoubling_multiplier: i32,
}

impl PointsContractedTrick {
    pub open spec fn multiplier(self, d: Doubling) -> int {
        match d {
            Doubling::NoDoubling => 1,
            Doubling::Double => self.doubling_multiplier as int,
            Doubling::ReDouble => self.redoubling_multiplier as int,
        }
    }

    pub open spec fn suit_value(self, s: Suit) -> int {
        match s {
            Suit::Spades => self.spades as int,
            Suit::Hearts => self.hearts as int,
            Suit::Diamonds => self.diamonds as int,
            Suit::Clubs => self.clubs as int,
        }
    }

    /// Points for the tricks taken up to the number promised (all of them count, not only
    /// those above six): in a suit each trick is worth the suit's value, without trump the
    /// first is worth `nt_first` and each further one `nt_next`; all times the multiplier.
    pub open spec fn spec_points(self, c: Contract, taken: nat) -> int {
        let m = self.multiplier(c.spec_doubling());
        let counted = min_nat(promised(c), taken);
        match c.spec_bid().spec_trump() {
            Trump::Colored(s) => counted * m * self.suit_value(s),
            Trump::NoTrump => if taken == 0 {
                0
            } else {
                (self.nt_first + self.nt_next * (counted - 1)) * m
            },
        }
    }

    /// Every intermediate value of the computation fits in an `i32`.
    pub open spec fn computable(self, c: Contract, taken: nat) -> bool {
        let m = self.multiplier(c.spec_doubling());
        let counted = min_nat(promised(c), taken);
        match c.spec_bid().spec_trump() {
            Trump::Colored(s) => in_i32(counted * m) && in_i32(counted * m * self.suit_value(s)),
            Trump::NoTrump => taken == 0 || (in_i32(self.nt_next * (counted - 1)) && in_i32(
                self.nt_first + self.nt_next * (counted - 1),
            ) && in_i32((self.nt_first + self.nt_next * (counted - 1)) * m)),
        }
    }

    /// The standard table: 20 for minors, 30 for majors, 40 then 30 without trump;
    /// doubled twice, redoubled four times.
    pub fn standard() -> (t: PointsContractedTrick)
        ensures
            t == (PointsContractedTrick {
                clubs: 20,
                diamonds: 20,
                hearts: 30,
                spades: 30,
                nt_first: 40,
                nt_next: 30,
                doubling_multiplier: 2,
                redoubling_multiplier: 4,
            }),
    {
        PointsContractedTrick {
            clubs: 20,
            diamonds: 20,
            hearts: 30,
            spades: 30,
            nt_first: 40,
            nt_next: 30,
            doubling_multiplier: 2,
            redoubling_multiplier: 4,
        }
    }

    /// Calculates points for contracted tricks based on number of taken, does not count
    /// overtricks.
    pub fn points(&self, contract: &Contract, taken: u8) -> (r: i32)
        requires
            self.computable(*contract, taken as nat),
        ensures
            r == self.spec_points(*contract, taken as nat),
    {
        let multiplier: i32 = match contract.doubling() {
            Doubling::NoDoubling => 1,
            Doubling::Double => self.doubling_multiplier,
            Doubling::ReDouble => self.redoubling_multiplier,
        };
        let norm = contract.bid().number_normalised();
        let number: u8 = if norm < taken {
            norm
        } else {
            taken
        };
        match contract.bid().trump() {
            Trump::Colored(c) => {
                let value = match c {
                    Suit::Spades => self.spades,
                    Suit::Hearts => self.hearts,
                    Suit::Diamonds => self.diamonds,
                    Suit::Clubs => self.clubs,
                };
                let counted = (number as i32) * multiplier;
                counted * value
            },
            Trump::NoTrump => {
                if taken == 0 {
                    0
                } else {
                    let next = self.nt_next * ((number - 1) as i32);
                    (self.nt_first + next) * multiplier
                }
            },
        }
    }
}

/// Points for each overtrick, by trump when undoubled, by vulnerability when doubled.
#[derive(Debug, Clone, Copy, PartialEq, Eq)]
pub struct PointsOverTrick {
    pub not_doubled_clubs: i32,
    pub not_doubled_diamonds: i32,
    pub not_doubled_hearts: i32,
    pub not_doubled_spades: i32,
    pub not_doubled_nt: i32,
    pub doubled_not_vulnerable: i32,
    pub doubled_vulnerable: i32,
    pub redoubled_not_vulnerable: i32,
    pub redoubled_vulnerable: i32,
}

impl PointsOverTrick {
    /// Points of one overtrick.
    pub open spec fn unit(self, c: Contract, vulnerable: bool) -> int {
        match c.spec_doubling() {
            Doubling::NoDoubling => match c.spec_bid().spec_trump() {
                Trump::Colored(Suit::Clubs) => self.not_doubled_clubs as int,
                Trump::Colored(Suit::Diamonds) => self.not_doubled_diamonds as int,
                Trump::Colored(Suit::Hearts) => self.not_doubled_hearts as int,
                Trump::Colored(Suit::Spades) => self.not_doubled_spades as int,
                Trump::NoTrump => self.not_doubled_nt as int,
            },
            Doubling::Double => if vulnerable {
                self.doubled_vulnerable as int
            } else {
                self.doubled_not_vulnerable as int
            },
            Doubling::ReDouble => if vulnerable {
                self.redoubled_vulnerable as int
            } else {
                self.redoubled_not_vulnerable as int
            },
        }
    }

    /// Number of tricks taken above those promised.
    pub open spec fn overtricks(c: Contract, taken: nat) -> nat {
        if taken >= promised(c) {
            (taken - promised(c)) as nat
        } else {
            0
        }
    }

    pub open spec fn spec_points(self, c: Contract, taken: nat, vulnerable: bool) -> int {
        PointsOverTrick::overtricks(c, taken) * self.unit(c, vulnerable)
    }

    /// The standard table.
    pub fn standard() -> (t: PointsOverTrick)
        ensures
            t == (PointsOverTrick {
                not_doubled_clubs: 20,
                not_doubled_diamonds: 20,
                not_doubled_hearts: 30,
                not_doubled_spades: 30,
                not_doubled_nt: 30,
                doubled_not_vulnerable: 100,
                doubled_vulnerable: 200,
                redoubled_not_vulnerable: 200,
                redoubled_vulnerable: 400,
            }),
    {
        PointsOverTrick {
            not_doubled_clubs: 20,
            not_doubled_diamonds: 20,
            not_doubled_hearts: 30,
            not_doubled_spades: 30,
            not_doubled_nt: 30,
            doubled_not_vulnerable: 100,
            doubled_vulnerable: 200,
            redoubled_not_vulnerable: 200,
            redoubled_vulnerable: 400,
        }
    }

    /// Calculates points for taken overtricks.
    pub fn points(&self, contract: &Contract, taken: u8, vulnerable: bool) -> (r: i32)
        requires
            in_i32(self.spec_points(*contract, taken as nat, vulnerable)),
        ensures
            r == self.spec_points(*contract, taken as nat, vulnerable),
    {
        let norm = contract.bid().number_normalised();
        let number_of_overtricks: u8 = if taken >= norm {
            taken - norm
        } else {
            0
        };
        let unit: i32 = match contract.doubling() {
            Doubling::NoDoubling => match contract.bid().trump() {
                Trump::Colored(Suit::Clubs) => self.not_doubled_clubs,
                Trump::Colored(Suit::Diamonds) => self.not_doubled_diamonds,
                Trump::Colored(Suit::Hearts) => self.not_doubled_hearts,
                Trump::Colored(Suit::Spades) => self.not_doubled_spades,
                Trump::NoTrump => self.not_doubled_nt,
            },
            Doubling::Double => if vulnerable {
                self.doubled_vulnerable
            } else {
                self.doubled_not_vulnerable
            },
            Doubling::ReDouble => if vulnerable {
                self.redoubled_vulnerable
            } else {
                self.redoubled_not_vulnerable
            },
        };
        (number_of_overtricks as i32) * unit
    }
}

/// Slam bonuses by vulnerability.
#[derive(Debug, Clone, Copy, PartialEq, Eq)]
pub struct PointsSlam {
    vulnerable_great_slam: i32,
    vulnerable_small_slam: i32,
    not_vulnerable_great_slam: i32,
    not_vulnerable_small_slam: i32,
}

impl PointsSlam {
    /// Bonus for a contract of level seven (great slam) or six (small slam) that was made,
    /// from the table's fields (vulnerable great, vulnerable small, not vulnerable great, not
    /// vulnerable small); the doubling does not count.
    pub open spec fn spec_points(self, c: Contract, taken: nat, vulnerable: bool) -> int {
        let declared = promised(c);
        let (vg, vs, ng, ns) = self.fields();
        if declared == 13 && taken >= declared {
            if vulnerable {
                vg as int
            } else {
                ng as int
            }
        } else if declared == 12 && taken >= declared {
            if vulnerable {
                vs as int
            } else {
                ns as int
            }
        } else {
            0
        }
    }

    /// The four bonuses: vulnerable great slam, vulnerable small slam, not vulnerable great
    /// slam, not vulnerable small slam.
    pub closed spec fn fields(self) -> (i32, i32, i32, i32) {
        (
            self.vulnerable_great_slam,
            self.vulnerable_small_slam,
            self.not_vulnerable_great_slam,
            self.not_vulnerable_small_slam,
        )
    }

    pub fn new(
        vulnerable_great_slam: i32,
        vulnerable_small_slam: i32,
        not_vulnerable_great_slam: i32,
        not_vulnerable_small_slam: i32,
    ) -> (t: PointsSlam)
        ensures
            t.fields() == (
                vulnerable_great_slam,
                vulnerable_small_slam,
                not_vulnerable_great_slam,
                not_vulnerable_small_slam,
            ),
    {
        PointsSlam {
            vulnerable_great_slam,
            vulnerable_small_slam,
            not_vulnerable_great_slam,
            not_vulnerable_small_slam,
        }
    }

    /// The standard table: 1500 / 750 vulnerable, 1000 / 500 not vulnerable.
    pub fn standard() -> (t: PointsSlam)
        ensures
            t.fields() == (1500i32, 750i32, 1000i32, 500i32),
    {
        PointsSlam::new(1500, 750, 1000, 500)
    }

    /// `taken` is the number of tricks taken in total.
    pub fn points(&self, contract: &Contract, taken: u8, vulnerable: bool) -> (r: i32)
        ensures
            r == self.spec_points(*contract, taken as nat, vulnerable),
    {
        let declared = contract.bid().number_normalised();
        if declared == 13 {
            if taken >= declared {
                if vulnerable {
                    self.vulnerable_great_slam
                } else {
                    self.not_vulnerable_great_slam
                }
            } else {
                0
            }
        } else if declared == 12 {
            if taken >= declared {
                if vulnerable {
                    self.vulnerable_small_slam
                } else {
                    self.not_vulnerable_small_slam
                }
            } else {
                0
            }
        } else {
            0
        }
    }
}

/// The contracted points of an undoubled bid, read from the table's fields: in a suit
/// each trick up to the number promised is worth that suit's value; without trump the
/// first trick is worth `nt_first` and each further one up to the number promised
/// `nt_next`; no trick is worth nothing.
pub proof fn law_contracted_points_undoubled(t: PointsContractedTrick, c: Contract, taken: nat)
    requires
        c.spec_doubling() == Doubling::NoDoubling,
    ensures
        ({
            let n: int = if taken < c.spec_bid().spec_number() + 6 {
                taken as int
            } else {
                c.spec_bid().spec_number() + 6int
            };
            &&& c.spec_bid().spec_trump() == Trump::Colored(Suit::Clubs) ==> t.spec_points(c, taken) == n * t.clubs
            &&& c.spec_bid().spec_trump() == Trump::Colored(Suit::Diamonds) ==> t.spec_points(c, taken) == n * t.diamonds
            &&& c.spec_bid().spec_trump() == Trump::Colored(Suit::Hearts) ==> t.spec_points(c, taken) == n * t.hearts
            &&& c.spec_bid().spec_trump() == Trump::Colored(Suit::Spades) ==> t.spec_points(c, taken) == n * t.spades
            &&& c.spec_bid().spec_trump() == Trump::NoTrump && taken > 0 ==> t.spec_points(c, taken)
                == t.nt_first + (n - 1) * t.nt_next
            &&& taken == 0 ==> t.spec_points(c, taken) == 0
        }),
{
    let n: int = if taken < c.spec_bid().spec_number() + 6 {
        taken as int
    } else {
        c.spec_bid().spec_number() + 6int
    };
    let m = t.multiplier(c.spec_doubling());
    assert(m == 1);
    assert(min_nat(promised(c), taken) == n);
    assert(n * 1 == n);
    assert(forall|v: int| #![trigger n * v] n * 1 * v == n * v) by (nonlinear_arith);
    assert((t.nt_first + t.nt_next * (n - 1)) * 1 == t.nt_first + (n - 1) * t.nt_next)
        by (nonlinear_arith);
    assert(taken == 0 ==> n == 0);
    assert(n * 0 == 0);
    assert(forall|v: int| #![trigger v * 0] v * 0 == 0) by (nonlinear_arith);
}

/// Doubling multiplies the contracted points by the table's doubling multiplier, and
/// redoubling by its redoubling multiplier: a doubled or redoubled contract scores that
/// multiple of what the same bid scores undoubled, for any number of tricks.
pub proof fn law_contracted_points_doubling(
    t: PointsContractedTrick,
    plain: Contract,
    other: Contract,
    taken: nat,
)
    requires
        plain.spec_bid() == other.spec_bid(),
        plain.spec_doubling() == Doubling::NoDoubling,
    ensures
        other.spec_doubling() == Doubling::NoDoubling ==> t.spec_points(other, taken) == t.spec_points(
            plain,
            taken,
        ),
        other.spec_doubling() == Doubling::Double ==> t.spec_points(other, taken)
            == t.doubling_multiplier * t.spec_points(plain, taken),
        other.spec_doubling() == Doubling::ReDouble ==> t.spec_points(other, taken)
            == t.redoubling_multiplier * t.spec_points(plain, taken),
{
    let n = min_nat(promised(plain), taken);
    assert(min_nat(promised(other), taken) == n);
    let d = t.doubling_multiplier as int;
    let rd = t.redoubling_multiplier as int;
    match plain.spec_bid().spec_trump() {
        Trump::Colored(s) => {
            let v = t.suit_value(s);
            assert(n * 1 * v == n * v) by (nonlinear_arith);
            assert(n * d * v == d * (n * v)) by (nonlinear_arith);
            assert(n * rd * v == rd * (n * v)) by (nonlinear_arith);
        },
        Trump::NoTrump => {
            let b = t.nt_first + t.nt_next * (n - 1);
            assert(b * 1 == b);
            assert(b * d == d * b) by (nonlinear_arith);
            assert(b * rd == rd * b) by (nonlinear_arith);
            assert(d * 0 == 0 && rd * 0 == 0) by (nonlinear_arith);
        },
    }
}

/// Each overtrick is worth, in a contract not doubled, the table's value for its trump; in
/// a doubled contract the doubled value and in a redoubled one the redoubled value, each
/// for the vulnerability given. Overtricks are the tricks taken above the level plus six.
pub proof fn law_overtrick_rates(t: PointsOverTrick, c: Contract, taken: nat, vulnerable: bool)
    ensures
        ({
            let n: int = if taken >= c.spec_bid().spec_number() + 6 {
                taken - (c.spec_bid().spec_number() + 6)
            } else {
                0
            };
            let p = t.spec_points(c, taken, vulnerable);
            &&& c.spec_doubling() == Doubling::Double && vulnerable ==> p == n * t.doubled_vulnerable
            &&& c.spec_doubling() == Doubling::Double && !vulnerable ==> p == n * t.doubled_not_vulnerable
            &&& c.spec_doubling() == Doubling::ReDouble && vulnerable ==> p == n * t.redoubled_vulnerable
            &&& c.spec_doubling() == Doubling::ReDouble && !vulnerable ==> p == n * t.redoubled_not_vulnerable
            &&& c.spec_doubling() == Doubling::NoDoubling ==> match c.spec_bid().spec_trump() {
                Trump::Colored(Suit::Clubs) => p == n * t.not_doubled_clubs,
                Trump::Colored(Suit::Diamonds) => p == n * t.not_doubled_diamonds,
                Trump::Colored(Suit::Hearts) => p == n * t.not_doubled_hearts,
                Trump::Colored(Suit::Spades) => p == n * t.not_doubled_spades,
                Trump::NoTrump => p == n * t.not_doubled_nt,
            }
        }),
{
}

/// With the standard table the contracted points grow with the tricks taken, up to the
/// number promised, and stay there.
pub proof fn law_contracted_points_monotone(c: Contract, taken: nat)
    ensures
        PointsContractedTrick::standard_spec().spec_points(c, taken)
            <= PointsContractedTrick::standard_spec().spec_points(c, taken + 1),
        taken >= promised(c) ==> PointsContractedTrick::standard_spec().spec_points(c, taken)
            == PointsContractedTrick::standard_spec().spec_points(c, taken + 1),
{
    let t = PointsContractedTrick::standard_spec();
    let m = t.multiplier(c.spec_doubling());
    assert(m >= 1);
    let a = min_nat(promised(c), taken);
    let b = min_nat(promised(c), taken + 1);
    assert(a <= b);
    match c.spec_bid().spec_trump() {
        Trump::Colored(s) => {
            assert(t.suit_value(s) >= 20);
            assert(a * m <= b * m) by (nonlinear_arith)
                requires
                    a <= b,
                    m >= 1,
            ;
            assert(a * m * t.suit_value(s) <= b * m * t.suit_value(s)) by (nonlinear_arith)
                requires
                    a * m <= b * m,
                    t.suit_value(s) >= 20,
            ;
        },
        Trump::NoTrump => {
            if taken > 0 {
                assert((40 + 30 * (a - 1)) * m <= (40 + 30 * (b - 1)) * m) by (nonlinear_arith)
                    requires
                        1 <= a <= b,
                        m >= 1,
                ;
            }
        },
    }
}

/// No overtrick points are scored unless more tricks than promised are taken.
pub proof fn law_overtricks_only_above_contract(t: PointsOverTrick, c: Contract, taken: nat, vulnerable: bool)
    ensures
        taken <= promised(c) ==> t.spec_points(c, taken, vulnerable) == 0,
{
}

/// A slam bonus needs a contract of level six or seven that was made.
pub proof fn law_slam_needs_made_slam(t: PointsSlam, c: Contract, taken: nat, vulnerable: bool)
    ensures
        t.spec_points(c, taken, vulnerable) != 0 ==> promised(c) >= 12 && taken >= promised(c),
{
}

impl PointsContractedTrick {
    pub open spec fn standard_spec() -> PointsContractedTrick {
        PointsContractedTrick {
            clubs: 20,
            diamonds: 20,
            hearts: 30,
            spades: 30,
            nt_first: 40,
            nt_next: 30,
            doubling_multiplier: 2,
            redoubling_multiplier: 4,
        }
    }
}

} // verus!
