use vstd::prelude::*;
use core::cmp::Ordering;
use vstd::std_specs::cmp::PartialOrdSpecImpl;
use crate::play::trump::{int_order, law_suit_trumps_rank, law_trump_order, then_order, trump_order, Trump};
use crate::player::side::Side;

verus! {

/// Whether a contract was doubled or redoubled.
#[derive(Debug, Clone, Copy, PartialEq, Eq, Hash, Structural)]
pub enum Doubling {
    NoDoubling,
    Double,
    ReDouble,
}

/// Errors of the auction.
#[derive(Debug, Clone, Copy, PartialEq, Eq, Structural)]
pub enum AuctionError {
    DoubleAfterDouble,
    DoubleAfterReDouble,
    ReDoubleAfterReDouble,
    ReDoubleWithoutDouble,
    IllegalBidNumber(u8),
}

/// A bid: a trump and a level from 1 to 7.
#[derive(Debug, Clone, Copy, PartialEq, Eq, Hash, Structural)]
pub struct Bid {
    trump: Trump,
    number: u8,
}

impl Bid {
    #[verifier::type_invariant]
    closed spec fn level_in_range(self) -> bool {
        1 <= self.number <= 7
    }

    pub closed spec fn spec_trump(self) -> Trump {
        self.trump
    }

    pub closed spec fn spec_number(self) -> nat {
        self.number as nat
    }

    /// A bid of `number` (1 ..= 7) in `trump`; other levels are refused.
    pub fn create_bid(trump: Trump, number: u8) -> (r: Result<Bid, AuctionError>)
        ensures
            r is Ok <==> 1 <= number <= 7,
            r matches Ok(b) ==> b.spec_trump() == trump && b.spec_number() == number,
            r matches Err(e) ==> e == AuctionError::IllegalBidNumber(number),
    {
        if 1 <= number && number <= 7 {
            Ok(Bid { trump, number })
        } else {
            Err(AuctionError::IllegalBidNumber(number))
        }
    }

    pub fn trump(&self) -> (t: Trump)
        ensures
            t == self.spec_trump(),
    {
        self.trump
    }

    pub fn number(&self) -> (n: u8)
        ensures
            n == self.spec_number(),
            1 <= n <= 7,
    {
        proof {
            use_type_invariant(self);
        }
        self.number
    }

    /// Number of tricks the bid promises: the level plus six.
    pub fn number_normalised(&self) -> (n: u8)
        ensures
            n == self.spec_number() + 6,
            7 <= n <= 13,
    {
        proof {
            use_type_invariant(self);
        }
        self.number + 6
    }

    /// Compares two bids: level first, then trump.
    pub fn order(&self, other: &Bid) -> (o: Ordering)
        ensures
            o == bid_order(*self, *other),
    {
        if self.number < other.number {
            Ordering::Less
        } else if self.number > other.number {
            Ordering::Greater
        } else {
            self.trump.order(&other.trump)
        }
    }
}

/// How bid `a` compares with bid `b`: by level, then by trump.
pub open spec fn bid_order(a: Bid, b: Bid) -> Ordering {
    then_order(
        int_order(a.spec_number(), b.spec_number()),
        trump_order(a.spec_trump(), b.spec_trump()),
    )
}

impl PartialOrd for Bid {
    fn partial_cmp(&self, other: &Self) -> (r: Option<Ordering>) {
        Some(self.order(other))
    }
}

impl PartialOrdSpecImpl for Bid {
    open spec fn obeys_partial_cmp_spec() -> bool {
        true
    }

    open spec fn partial_cmp_spec(&self, other: &Self) -> Option<Ordering> {
        Some(bid_order(*self, *other))
    }
}

/// The contract: its declarer, final bid and doubling.
#[derive(Debug, Clone, Copy, PartialEq, Eq, Structural)]
pub struct Contract {
    owner: Side,
    bid: Bid,
    doubling: Doubling,
}

/// What doubling a contract answers: the new doubling, or the refusal.
pub open spec fn double_outcome(d: Doubling) -> Result<Doubling, AuctionError> {
    match d {
        Doubling::NoDoubling => Ok(Doubling::Double),
        Doubling::Double => Err(AuctionError::DoubleAfterDouble),
        Doubling::ReDouble => Err(AuctionError::DoubleAfterReDouble),
    }
}

/// What redoubling a contract answers: the new doubling, or the refusal.
pub open spec fn redouble_outcome(d: Doubling) -> Result<Doubling, AuctionError> {
    match d {
        Doubling::Double => Ok(Doubling::ReDouble),
        Doubling::ReDouble => Err(AuctionError::ReDoubleAfterReDouble),
        Doubling::NoDoubling => Err(AuctionError::ReDoubleWithoutDouble),
    }
}

impl Contract {
    pub closed spec fn spec_owner(self) -> Side {
        self.owner
    }

    pub closed spec fn spec_bid(self) -> Bid {
        self.bid
    }

    pub closed spec fn spec_doubling(self) -> Doubling {
        self.doubling
    }

    pub fn new_d(owner: Side, bid: Bid, doubling: Doubling) -> (c: Contract)
        ensures
            c.spec_owner() == owner,
            c.spec_bid() == bid,
            c.spec_doubling() == doubling,
    {
        Contract { bid, doubling, owner }
    }

    pub fn new(player: Side, bid: Bid) -> (c: Contract)
        ensures
            c.spec_owner() == player,
            c.spec_bid() == bid,
            c.spec_doubling() == Doubling::NoDoubling,
    {
        Contract { owner: player, bid, doubling: Doubling::NoDoubling }
    }

    pub fn bid(&self) -> (b: Bid)
        ensures
            b == self.spec_bid(),
    {
        self.bid
    }

    pub fn doubling(&self) -> (d: Doubling)
        ensures
            d == self.spec_doubling(),
    {
        self.doubling
    }

    pub fn owner(&self) -> (s: Side)
        ensures
            s == self.spec_owner(),
    {
        self.owner
    }

    /// The declarer: the owner of the contract.
    pub fn declarer(&self) -> (s: Side)
        ensures
            s == self.spec_owner(),
    {
        self.owner
    }

    /// The dummy: the declarer's partner.
    pub fn dummy(&self) -> (s: Side)
        ensures
            s == self.spec_owner().spec_partner(),
    {
        self.owner.partner()
    }

    /// Doubles an undoubled contract.
    pub fn double(&mut self) -> (r: Result<(), AuctionError>)
        ensures
            final(self).spec_owner() == old(self).spec_owner(),
            final(self).spec_bid() == old(self).spec_bid(),
            match double_outcome(old(self).spec_doubling()) {
                Ok(d) => r is Ok && final(self).spec_doubling() == d,
                Err(e) => r == Err::<(), AuctionError>(e) && *final(self) == *old(self),
            },
    {
        match self.doubling {
            Doubling::NoDoubling => {
                self.doubling = Doubling::Double;
                Ok(())
            },
            Doubling::Double => Err(AuctionError::DoubleAfterDouble),
            Doubling::ReDouble => Err(AuctionError::DoubleAfterReDouble),
        }
    }

    /// Redoubles a doubled contract.
    pub fn redouble(&mut self) -> (r: Result<(), AuctionError>)
        ensures
            final(self).spec_owner() == old(self).spec_owner(),
            final(self).spec_bid() == old(self).spec_bid(),
            match redouble_outcome(old(self).spec_doubling()) {
                Ok(d) => r is Ok && final(self).spec_doubling() == d,
                Err(e) => r == Err::<(), AuctionError>(e) && *final(self) == *old(self),
            },
    {
        match self.doubling {
            Doubling::Double => {
                self.doubling = Doubling::ReDouble;
                Ok(())
            },
            Doubling::ReDouble => Err(AuctionError::ReDoubleAfterReDouble),
            Doubling::NoDoubling => Err(AuctionError::ReDoubleWithoutDouble),
        }
    }
}

/// Doubling climbs one way: a plain contract can be doubled once, then redoubled once,
/// and after that neither call is accepted.
pub proof fn law_doubling_sequence()
    ensures
        double_outcome(Doubling::NoDoubling) == Ok::<Doubling, AuctionError>(Doubling::Double),
        redouble_outcome(Doubling::Double) == Ok::<Doubling, AuctionError>(Doubling::ReDouble),
        double_outcome(Doubling::ReDouble) is Err,
        redouble_outcome(Doubling::ReDouble) is Err,
        redouble_outcome(Doubling::NoDoubling) is Err,
        double_outcome(Doubling::Double) is Err,
{
}

/// Bids are ordered by level first: a higher level beats any trump of a lower one.
pub proof fn law_bid_order(a: Bid, b: Bid)
    ensures
        a.spec_number() > b.spec_number() ==> bid_order(a, b) == Ordering::Greater,
        a.spec_number() == b.spec_number() ==> bid_order(a, b) == trump_order(a.spec_trump(), b.spec_trump()),
        a.spec_number() < b.spec_number() ==> bid_order(a, b) == Ordering::Less,
        a.spec_number() == b.spec_number() ==> match (a.spec_trump(), b.spec_trump()) {
            (Trump::Colored(x), Trump::Colored(y)) => (bid_order(a, b) == Ordering::Greater
                <==> x.spec_age() > y.spec_age()) && (bid_order(a, b) == Ordering::Equal <==> x == y),
            (Trump::NoTrump, Trump::Colored(_)) => bid_order(a, b) == Ordering::Greater,
            (Trump::Colored(_), Trump::NoTrump) => bid_order(a, b) == Ordering::Less,
            (Trump::NoTrump, Trump::NoTrump) => bid_order(a, b) == Ordering::Equal,
        },
{
    if a.spec_number() == b.spec_number() {
        if let (Trump::Colored(x), Trump::Colored(y)) = (a.spec_trump(), b.spec_trump()) {
            law_suit_trumps_rank(x, y);
            law_trump_order(a.spec_trump(), b.spec_trump(), b.spec_trump());
        }
    }
}

} // verus!
