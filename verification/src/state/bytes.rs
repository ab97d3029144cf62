use vstd::prelude::*;
use crate::card::{card_at, Card, DECK_SIZE};
use crate::play::card_trackers::SuitExhaustRegister;
use crate::play::contract::Doubling;
use crate::play::deal::Deal;
use crate::play::trump::Trump;
use crate::player::side::Side;
use crate::state::agent::ContractAgentInfoSetSimple;

verus! {

/// Weight of a card whose place is certain.
pub const SURE: u8 = 120;

/// Weight of a card held by one of two sides.
pub const ONE_IN_TWO: u8 = SURE / 2;

/// Weight of a card held by one of three sides.
pub const ONE_IN_THREE: u8 = SURE / 3;

/// Byte of the declarer's place, counted clockwise from the player.
pub const TRICK_STARTER: usize = DECK_SIZE * 4;

/// Byte of the number of cards in the current trick.
pub const TRICK_COMPLETION: usize = TRICK_STARTER + 1;

/// Two bytes kept for the player's own card in the current trick.
pub const OWN_CARD: usize = TRICK_COMPLETION + 1;

/// Two bytes of the card of the left-hand opponent in the current trick.
pub const LEFT_CARD: usize = OWN_CARD + 2;

/// Two bytes of the partner's card in the current trick.
pub const PARTNER_CARD: usize = LEFT_CARD + 2;

/// Two bytes of the card of the right-hand opponent in the current trick.
pub const RIGHT_CARD: usize = PARTNER_CARD + 2;

/// Three bytes of the contract: trump, number of tricks bid, doubling.
pub const BID_OFFSET: usize = RIGHT_CARD + 2;

/// Byte telling whether the dummy is due to play.
pub const PLAY_AS_DUMMY: usize = BID_OFFSET + 3;

/// Length of the byte encoding of an information set.
pub const SIMPLE_INFO_SET_LENGTH: usize = PLAY_AS_DUMMY + 1;

/// How many places clockwise `to` sits from `from`.
pub open spec fn offset(from: Side, to: Side) -> int {
    (to.spec_index() - from.spec_index() + 4) % 4
}

/// The first side after `side`, clockwise, whose hand `side` does not see when `declarer`
/// plays (every hand is hidden but one's own and the dummy's).
pub open spec fn first_unknown(side: Side, declarer: Side) -> Side {
    if side.spec_next() != declarer.spec_partner() {
        side.spec_next()
    } else {
        side.spec_next().spec_next()
    }
}

/// The next hidden hand after `first_unknown(side, declarer)`, clockwise.
pub open spec fn second_unknown(side: Side, declarer: Side) -> Side {
    let f = first_unknown(side, declarer);
    if f.spec_next() != declarer.spec_partner() && f.spec_next() != side {
        f.spec_next()
    } else {
        f.spec_next().spec_next()
    }
}

/// Whether card `c` was played in deal `d`, in a completed trick or in the current one.
pub open spec fn played(d: Deal, c: Card) -> bool {
    d.used().contains(c) || d.current().has(c)
}

/// The weight, in the row of the side `row` places clockwise from the player, of card `c`:
/// a card of the player's hand is sure in its own row; a played card is nowhere; before
/// the dummy shows its hand, an unseen card is one in three in each other row; afterwards a
/// card of the dummy is sure in the dummy's row, and any other card is sure in the row of
/// one hidden hand when the other hidden hand showed out of its suit, else one in two in
/// both hidden rows.
pub open spec fn cell(st: ContractAgentInfoSetSimple, row: int, c: Card) -> u8 {
    let side = st.spec_side();
    let declarer = st.spec_contract().spec_contract().spec_owner();
    if st.spec_hand().has(c) {
        if row == 0 {
            SURE
        } else {
            0
        }
    } else if played(st.spec_contract(), c) {
        0
    } else {
        match st.spec_dummy_hand() {
            None => if row != 0 {
                ONE_IN_THREE
            } else {
                0
            },
            Some(dh) => {
                let u1 = first_unknown(side, declarer);
                let u2 = second_unknown(side, declarer);
                if dh.has(c) {
                    if row == offset(side, st.dummy()) {
                        SURE
                    } else {
                        0
                    }
                } else if st.spec_contract().exhaust().exhausted(u1, c.suit) {
                    if row == offset(side, u2) {
                        SURE
                    } else {
                        0
                    }
                } else if st.spec_contract().exhaust().exhausted(u2, c.suit) {
                    if row == offset(side, u1) {
                        SURE
                    } else {
                        0
                    }
                } else if row == offset(side, u1) || row == offset(side, u2) {
                    ONE_IN_TWO
                } else {
                    0
                }
            },
        }
    }
}

/// The two bytes of an optional card of the current trick: none is `(0, 0)`, a card is its
/// suit's age and its figure's place (two first), both counted from one.
pub open spec fn card_bytes(c: Option<Card>) -> (u8, u8) {
    match c {
        None => (0u8, 0u8),
        Some(card) => ((card.suit.spec_age() + 1) as u8, (card.figure.spec_rank() - 1) as u8),
    }
}

/// The byte of a trump: a suit is its age counted from one, no trump is zero.
pub open spec fn trump_byte(t: Trump) -> u8 {
    match t {
        Trump::Colored(s) => (s.spec_age() + 1) as u8,
        Trump::NoTrump => 0,
    }
}

/// The byte of a doubling: none 0, double 1, redouble 2.
pub open spec fn doubling_byte(d: Doubling) -> u8 {
    match d {
        Doubling::NoDoubling => 0,
        Doubling::Double => 1,
        Doubling::ReDouble => 2,
    }
}

fn first_unknown_side(side: Side, declarer: Side) -> (r: Side)
    ensures
        r == first_unknown(side, declarer),
{
    if side.next() != declarer.partner() {
        side.next()
    } else {
        side.next().next()
    }
}

fn second_unknown_side(side: Side, declarer: Side) -> (r: Side)
    ensures
        r == second_unknown(side, declarer),
{
    let f = first_unknown_side(side, declarer);
    if f.next() != declarer.partner() && f.next() != side {
        f.next()
    } else {
        f.next().next()
    }
}

fn card_bytes_exec(c: Option<Card>) -> (r: (u8, u8))
    ensures
        r == card_bytes(c),
{
    match c {
        None => (0, 0),
        Some(card) => (card.suit.age() + 1, card.figure.rank() - 1),
    }
}

impl ContractAgentInfoSetSimple {
    fn cell_exec(&self, row: u8, c: Card) -> (v: u8)
        requires
            self.wf(),
        ensures
            v == cell(*self, row as int, c),
    {
        let side = self.side();
        let deal = self.contract();
        let declarer = deal.declarer();
        if self.hand().contains(&c) {
            if row == 0 {
                SURE
            } else {
                0
            }
        } else if deal.used_cards().is_card_used(&c) || deal.current_trick().contains(&c) {
            0
        } else {
            match self.dummy_hand() {
                None => if row != 0 {
                    ONE_IN_THREE
                } else {
                    0
                },
                Some(dh) => {
                    let u1 = first_unknown_side(side, declarer);
                    let u2 = second_unknown_side(side, declarer);
                    let exhaust = deal.suits_exhausted();
                    if dh.contains(&c) {
                        if row == Side::difference(side, deal.dummy()) {
                            SURE
                        } else {
                            0
                        }
                    } else if exhaust.is_exhausted(&u1, &c.suit) {
                        if row == Side::difference(side, u2) {
                            SURE
                        } else {
                            0
                        }
                    } else if exhaust.is_exhausted(&u2, &c.suit) {
                        if row == Side::difference(side, u1) {
                            SURE
                        } else {
                            0
                        }
                    } else if row == Side::difference(side, u1) || row == Side::difference(side, u2) {
                        ONE_IN_TWO
                    } else {
                        0
                    }
                },
            }
        }
    }

    /// The information set as 222 bytes: for each of the four sides, counted clockwise from
    /// the player, 52 weights of where each card of the deck (in deck order) may be; then the
    /// declarer's place, the number of cards in the current trick, two unused bytes, the
    /// cards of the left-hand opponent, the partner and the right-hand opponent in the
    /// current trick, the trump, the number of tricks bid, the doubling, and whether the
    /// dummy is due to play.
    pub fn to_bytes(&self) -> (r: [u8; 222])
        requires
            self.wf(),
        ensures
            forall|row: int, p: int|
                0 <= row < 4 && 0 <= p < 52 ==> r@[52 * row + p] == cell(*self, row, card_at(p)),
            r@[208] == offset(self.spec_side(), self.spec_contract().spec_contract().spec_owner()),
            r@[209] == self.spec_contract().current().count(),
            r@[210] == 0,
            r@[211] == 0,
            (r@[212], r@[213]) == card_bytes(
                self.spec_contract().current().slot(self.spec_side().spec_next()),
            ),
            (r@[214], r@[215]) == card_bytes(
                self.spec_contract().current().slot(self.spec_side().spec_partner()),
            ),
            (r@[216], r@[217]) == card_bytes(
                self.spec_contract().current().slot(self.spec_side().spec_prev()),
            ),
            r@[218] == trump_byte(self.spec_contract().spec_trump()),
            r@[219] == self.spec_contract().spec_contract().spec_bid().spec_number(),
            r@[220] == doubling_byte(self.spec_contract().spec_contract().spec_doubling()),
            r@[221] == (if self.turn() == self.dummy() {
                1u8
            } else {
                0u8
            }),
    {
        let side = self.side();
        let deal = self.contract();
        let contract = deal.contract();
        let trick = deal.current_trick();
        let mut a: [u8; 222] = [0u8; 222];
        a[TRICK_STARTER] = Side::difference(side, deal.declarer());
        a[TRICK_COMPLETION] = trick.count_cards();
        let (s0, f0) = card_bytes_exec(trick.get(side.next()));
        a[LEFT_CARD] = s0;
        a[LEFT_CARD + 1] = f0;
        let (s1, f1) = card_bytes_exec(trick.get(side.partner()));
        a[PARTNER_CARD] = s1;
        a[PARTNER_CARD + 1] = f1;
        let (s2, f2) = card_bytes_exec(trick.get(side.prev()));
        a[RIGHT_CARD] = s2;
        a[RIGHT_CARD + 1] = f2;
        a[BID_OFFSET] = match contract.bid().trump() {
            Trump::Colored(s) => s.age() + 1,
            Trump::NoTrump => 0,
        };
        a[BID_OFFSET + 1] = contract.bid().number();
        a[BID_OFFSET + 2] = match contract.doubling() {
            Doubling::NoDoubling => 0,
            Doubling::Double => 1,
            Doubling::ReDouble => 2,
        };
        a[PLAY_AS_DUMMY] = if deal.current_turn() == deal.dummy() {
            1
        } else {
            0
        };
        let ghost header = a@;
        assert(header[208] == offset(self.spec_side(), self.spec_contract().spec_contract().spec_owner()));
        assert(header[209] == self.spec_contract().current().count());
        assert(header[210] == 0 && header[211] == 0);
        assert((header[212], header[213]) == card_bytes(
            self.spec_contract().current().slot(self.spec_side().spec_next()),
        ));
        assert((header[214], header[215]) == card_bytes(
            self.spec_contract().current().slot(self.spec_side().spec_partner()),
        ));
        assert((header[216], header[217]) == card_bytes(
            self.spec_contract().current().slot(self.spec_side().spec_prev()),
        ));
        assert(header[218] == trump_byte(self.spec_contract().spec_trump()));
        assert(header[219] == self.spec_contract().spec_contract().spec_bid().spec_number());
        assert(header[220] == doubling_byte(self.spec_contract().spec_contract().spec_doubling()));
        assert(header[221] == (if self.turn() == self.dummy() { 1u8 } else { 0u8 }));
        let mut p: u8 = 0;
        while p < 52
            invariant
                p <= 52,
                self.wf(),
                a@.len() == 222,
                forall|i: int| 208 <= i < 222 ==> a@[i] == header[i],
                forall|row: int, q: int|
                    0 <= row < 4 && 0 <= q < p ==> a@[52 * row + q] == cell(*self, row, card_at(q)),
            decreases 52 - p,
        {
            let c = Card::from_position(p);
            let v0 = self.cell_exec(0, c);
            let v1 = self.cell_exec(1, c);
            let v2 = self.cell_exec(2, c);
            let v3 = self.cell_exec(3, c);
            let i: usize = p as usize;
            a[i] = v0;
            a[52 + i] = v1;
            a[104 + i] = v2;
            a[156 + i] = v3;
            p = p + 1;
        }
        a
    }
}

} // verus!
