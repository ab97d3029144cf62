# brydz_core

The play of a contract bridge deal, verified with Verus.

- `src/card.rs`: suits, figures, cards and 52-bit card sets.
- `src/play/`: trumps and the order of cards, tricks, the deal (thirteen tricks under a
  contract), the contract and its doubling, registers of used cards and exhausted suits,
  and the deck (an `arrayvec` vector shuffled with `rand`).
- `src/player/`: sides, axes, per-side maps and a player's situation.
- `src/score/`: the scoring tables (contracted tricks, overtricks, slams) and score keeping.
- `src/state/`: the information sets of the players and the dummy, the environment's state
  with its penalty accounting, the byte encoding of an information set, and the action
  lists (a `smallvec` vector).
- `src/protocol/`: the messages between players and the overseer.
- `src/overseer/`: the decisions of the overseer of one deal, from event to reaction.
- `app/`: the overseer over channels, and the serde and `thiserror` forms of some types.
- `tests/`: tests on concrete values.

Scoring a finished deal into the sport table (`update`) is not part of the library: it
needs the undertrick penalty table and the game and contract premium tables, which the
code it would follow names but never defines, so `ScoreTableSport` and `ScoreTracker`
offer the points and the leader only.
