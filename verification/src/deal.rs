//! Setting up a game: every face of the deck gets one card, and the cards
//! are dealt to the players.
//!
//! The faces are taken in order and their cards dealt one to each player in
//! turn, seat by seat, round after round, so that no hand is more than one
//! card ahead of another. What is not dealt stays on the stack: with players
//! at the table that is nothing, and without players it is the whole deck.
//! Either way every card of the deck lies at exactly one place.

use crate::card::{Face, SimpleCard};
use crate::field::SimpleField;
use crate::game::{lemma_held_after_update, lemma_one_card_more, GameState, Table};
use crate::geometry::{Extent, Point};
use crate::layout::{Layout, SimpleFieldKind};
use crate::text::{decimal, decimal_text};
use vstd::arithmetic::div_mod::{
    lemma_div_is_ordered, lemma_fundamental_div_mod, lemma_fundamental_div_mod_converse,
};
use vstd::multiset::Multiset;
use vstd::prelude::*;
use vstd::seq_lib::to_multiset_build;

verus! {

/// The card that is made for face `face`.
pub open spec fn card_of(face: int) -> SimpleCard {
    SimpleCard::spec_open(face as usize)
}

/// The deck of `faces` faces: one card for every face, in face order.
pub open spec fn deck(faces: nat) -> Seq<SimpleCard> {
    Seq::new(faces, |face: int| card_of(face))
}

/// The number of cards that seat `seat` holds once `dealt` cards have gone
/// round `players` seats: a card for every full round, and one more for the
/// seats that the last round reached.
pub open spec fn hand_size(dealt: int, players: int, seat: int) -> int {
    dealt / players + if seat < dealt % players {
        1int
    } else {
        0int
    }
}

impl Table {
    /// Whether `card` lies on the stack.
    pub open spec fn on_stack(self, card: SimpleCard) -> bool {
        exists|t: int| 0 <= t < self.stack.len() && self.stack[t] == card
    }

    /// Whether `card` lies in a hand.
    pub open spec fn in_a_hand(self, card: SimpleCard) -> bool {
        exists|p: int, c: int|
            0 <= p < self.hands.len() && 0 <= c < self.hands[p].len() && self.hands[p][c] == card
    }

    /// Whether `card` lies on the stack or in a hand.
    pub open spec fn holds(self, card: SimpleCard) -> bool {
        self.on_stack(card) || self.in_a_hand(card)
    }

    /// Whether no card lies at two places of the table: not twice on the
    /// stack, not on the stack and in a hand, and not twice in the hands,
    /// be it in one hand or in two.
    pub open spec fn no_card_twice(self) -> bool {
        &&& forall|s: int, t: int|
            0 <= s < self.stack.len() && 0 <= t < self.stack.len() && s != t ==> self.stack[s]
                != self.stack[t]
        &&& forall|t: int, p: int, c: int|
            0 <= t < self.stack.len() && 0 <= p < self.hands.len() && 0 <= c < self.hands[p].len()
                ==> self.stack[t] != self.hands[p][c]
        &&& forall|p: int, c: int, q: int, d: int|
            0 <= p < self.hands.len() && 0 <= c < self.hands[p].len() && 0 <= q < self.hands.len()
                && 0 <= d < self.hands[q].len() && (p != q || c != d) ==> self.hands[p][c]
                != self.hands[q][d]
    }

    /// The table after the deck of `faces` faces has been dealt to
    /// `players` hands. The hand of a seat holds, round by round, the cards
    /// whose turn was that seat's: the faces `seat`, `seat + players`,
    /// `seat + 2 * players` and so on. The stack holds the cards that no
    /// hand was there to take: none if there are players, and the whole
    /// deck if there are none.
    pub open spec fn dealt(faces: nat, players: nat) -> Table {
        Table {
            stack: if players == 0 {
                deck(faces)
            } else {
                Seq::empty()
            },
            hands: Seq::new(
                players,
                |seat: int|
                    Seq::new(
                        hand_size(faces as int, players as int, seat) as nat,
                        |round: int| card_of(round * players + seat),
                    ),
            ),
        }
    }
}

/// The seat that comes after the seat of card `dealt`: the next one in the
/// round, or the first one of a new round.
pub proof fn lemma_next_seat(dealt: int, players: int)
    requires
        dealt >= 0,
        players > 0,
    ensures
        0 <= dealt % players < players,
        dealt / players >= 0,
        dealt == (dealt / players) * players + dealt % players,
        dealt % players + 1 < players ==> (dealt + 1) / players == dealt / players && (dealt + 1)
            % players == dealt % players + 1,
        dealt % players + 1 == players ==> (dealt + 1) / players == dealt / players + 1 && (dealt
            + 1) % players == 0,
{
    lemma_fundamental_div_mod(dealt, players);
    let q = dealt / players;
    let r = dealt % players;
    assert(players * q == q * players) by (nonlinear_arith);
    assert(q >= 0) by (nonlinear_arith)
        requires
            dealt >= 0,
            players > 0,
            dealt == q * players + r,
            0 <= r < players,
    ;
    if r + 1 < players {
        lemma_fundamental_div_mod_converse(dealt + 1, players, q, r + 1);
    } else {
        assert(dealt + 1 == (q + 1) * players + 0) by (nonlinear_arith)
            requires
                dealt == q * players + r,
                r + 1 == players,
        ;
        lemma_fundamental_div_mod_converse(dealt + 1, players, q + 1, 0);
    }
}

/// What one more face adds to the deal: its card goes on top of the stack
/// if there are no players, and else behind the cards of the player whose
/// turn it is; nothing else changes.
pub proof fn lemma_one_more_face(faces: nat, players: nat)
    ensures
        ({
            let before = Table::dealt(faces, players);
            let after = Table::dealt(faces + 1, players);
            let card = card_of(faces as int);
            let turn = (faces as int) % (players as int);
            &&& players == 0 ==> after.stack == before.stack.push(card) && after.hands
                == before.hands
            &&& players > 0 ==> {
                &&& after.stack == before.stack
                &&& 0 <= turn < players
                &&& after.hands == before.hands.update(turn, before.hands[turn].push(card))
            }
        }),
{
    let before = Table::dealt(faces, players);
    let after = Table::dealt(faces + 1, players);
    if players == 0 {
        assert(after.stack =~= before.stack.push(card_of(faces as int)));
        assert(after.hands =~= before.hands);
    } else {
        let seats = players as int;
        let turn = faces as int % seats;
        lemma_next_seat(faces as int, seats);
        let grown = before.hands.update(turn, before.hands[turn].push(card_of(faces as int)));
        assert(after.hands.len() == grown.len());
        assert forall|p: int| 0 <= p < players implies after.hands[p] == grown[p] by {
            assert(after.hands[p] =~= grown[p]);
        }
        assert(after.hands =~= grown);
    }
}

impl GameState {
    /// The layout of the stack of a fresh game: a pile of cards of 100 by
    /// 150.
    pub open spec fn fresh_stack_layout() -> Layout {
        Layout {
            kind: SimpleFieldKind::Stack,
            card_size: Extent { width: 100, height: 150 },
            ..Layout::spec_default()
        }
    }

    /// The layout of a hand of a fresh game: a fan with room for four cards
    /// of 100 by 150 that lifts the hovered card.
    pub open spec fn fresh_hand_layout() -> Layout {
        Layout {
            max_cards: 4,
            selectable: true,
            card_size: Extent { width: 100, height: 150 },
            ..Layout::spec_default()
        }
    }

    /// A fresh game for `players` players from a deck of `faces` faces.
    ///
    /// The players are labelled by their seat numbers, from 0. Every face
    /// gets one card, and the cards are dealt in face order, one to each
    /// player in turn. What is not dealt stays on the stack: nothing if
    /// there are players, the whole deck if there are none.
    pub fn deal(faces: usize, players: usize) -> (game: GameState)
        ensures
            game.table() == Table::dealt(faces as nat, players as nat),
            game.labels() == Seq::new(players as nat, |seat: int| decimal(seat as nat)),
            game.stack_layout() == GameState::fresh_stack_layout(),
            game.hand_layouts() == Seq::new(
                players as nat,
                |seat: int| GameState::fresh_hand_layout(),
            ),
            game.stack_layout().wf(),
            GameState::fresh_hand_layout().wf(),
    {
        let mut seats: Vec<(String, SimpleField<SimpleCard>)> = Vec::new();
        let mut seat: usize = 0;
        while seat < players
            invariant
                seat <= players,
                seats@.len() == seat,
                forall|p: int|
                    0 <= p < seat ==> (#[trigger] seats@[p]).0@ == decimal(p as nat) && seats@[p].1@
                        == Seq::<SimpleCard>::empty() && seats@[p].1.spec_layout()
                        == GameState::fresh_hand_layout(),
            decreases players - seat,
        {
            let hand: SimpleField<SimpleCard> = SimpleField::new().max_cards(4).selectable(
                true,
            ).max_card_size(Extent { width: 100, height: 150 });
            seats.push((decimal_text(seat), hand));
            seat = seat + 1;
        }
        let mut stack: SimpleField<SimpleCard> = SimpleField::new().kind(
            SimpleFieldKind::Stack,
        ).max_card_size(Extent { width: 100, height: 150 });
        let mut face: usize = 0;
        assert(stack@ =~= Table::dealt(0, players as nat).stack);
        assert forall|p: int| 0 <= p < players implies (#[trigger] seats@[p]).1@ == Table::dealt(
            0,
            players as nat,
        ).hands[p] by {
            lemma_next_seat(0, players as int);
            assert(seats@[p].1@ =~= Table::dealt(0, players as nat).hands[p]);
        }
        while face < faces
            invariant
                face <= faces,
                seats@.len() == players,
                stack.spec_layout() == GameState::fresh_stack_layout(),
                forall|p: int|
                    0 <= p < players ==> (#[trigger] seats@[p]).0@ == decimal(p as nat)
                        && seats@[p].1.spec_layout() == GameState::fresh_hand_layout(),
                stack@ == Table::dealt(face as nat, players as nat).stack,
                forall|p: int|
                    0 <= p < players ==> (#[trigger] seats@[p]).1@ == Table::dealt(
                        face as nat,
                        players as nat,
                    ).hands[p],
            decreases faces - face,
        {
            let card = SimpleCard {
                id: face,
                face: Face::Directory(face),
                pos: Point { x: 0, y: 0 },
            };
            proof {
                lemma_one_more_face(face as nat, players as nat);
            }
            if players == 0 {
                stack.push(card);
            } else {
                let turn = face % players;
                seats[turn].1.push(card);
            }
            face = face + 1;
        }
        let ghost table = Table::dealt(faces as nat, players as nat);
        let ghost labels = Seq::new(players as nat, |seat: int| decimal(seat as nat));
        let ghost layouts = Seq::new(players as nat, |seat: int| GameState::fresh_hand_layout());
        let game = GameState::new(stack, seats);
        assert(game.table().hands =~= table.hands);
        assert(game.labels() =~= labels);
        assert(game.hand_layouts() =~= layouts);
        game
    }
}

/// Where the card of a face lies after the deal: on the stack at the place
/// of its face if there are no players, and else in the hand of the seat
/// whose turn it was, behind the cards of the earlier rounds.
pub proof fn lemma_place_of_card(faces: nat, players: nat, face: int)
    requires
        0 <= face < faces,
    ensures
        ({
            let table = Table::dealt(faces, players);
            let seats = players as int;
            &&& seats == 0 ==> face < table.stack.len() && table.stack[face] == card_of(face)
            &&& seats > 0 ==> {
                &&& 0 <= face % seats < seats
                &&& 0 <= face / seats < table.hands[face % seats].len()
                &&& table.hands[face % seats][face / seats] == card_of(face)
            }
        }),
{
    let seats = players as int;
    if seats > 0 {
        lemma_next_seat(face, seats);
        lemma_next_seat(faces as int, seats);
        lemma_div_is_ordered(face, faces as int, seats);
        let seat = face % seats;
        let round = face / seats;
        if round == faces as int / seats {
            assert(seat < faces as int % seats);
        }
        assert(round < hand_size(faces as int, seats, seat));
        assert(round * seats + seat == face);
    }
}

/// The face of a card that lies in a hand after the deal.
pub proof fn lemma_face_in_hand(faces: nat, players: nat, seat: int, round: int)
    requires
        0 <= seat < players,
        0 <= round < hand_size(faces as int, players as int, seat),
    ensures
        0 <= round * players + seat < faces,
        (round * players + seat) / (players as int) == round,
        (round * players + seat) % (players as int) == seat,
{
    lemma_next_seat(faces as int, players as int);
    lemma_fundamental_div_mod_converse(round * players + seat, players as int, round, seat);
    let full = faces as int / players as int;
    assert(round * players + seat < faces) by (nonlinear_arith)
        requires
            0 <= seat < players,
            0 <= round,
            faces == full * players + faces % players,
            0 <= faces % players < players,
            round < full || (round == full && seat < faces % players),
    ;
    assert(0 <= round * players + seat) by (nonlinear_arith)
        requires
            0 <= seat,
            0 <= round,
            0 < players,
    ;
}

/// Hands that are all empty hold no card.
pub proof fn lemma_empty_hands_hold_nothing(hands: Seq<Seq<SimpleCard>>)
    requires
        forall|p: int| 0 <= p < hands.len() ==> (#[trigger] hands[p]).len() == 0,
    ensures
        Table::held(hands) == Multiset::<SimpleCard>::empty(),
    decreases hands.len(),
{
    broadcast use vstd::multiset::group_multiset_axioms;

    if hands.len() > 0 {
        lemma_empty_hands_hold_nothing(hands.drop_last());
        hands.last().to_multiset_ensures();
        assert(hands.last().to_multiset().len() == 0);
        assert(hands.last().to_multiset() =~= Multiset::<SimpleCard>::empty());
        assert(Table::held(hands) =~= Multiset::<SimpleCard>::empty());
    }
}

/// The deal puts the deck on the table once: the cards of the stack and of
/// all hands together are the cards of the deck, each exactly as often as
/// the deck holds it, none left out and none added.
pub proof fn deal_holds_the_deck_once(faces: nat, players: nat)
    ensures
        Table::dealt(faces, players).cards() == deck(faces).to_multiset(),
    decreases faces,
{
    broadcast use vstd::multiset::group_multiset_axioms;

    let table = Table::dealt(faces, players);
    if faces == 0 {
        if players > 0 {
            lemma_next_seat(0, players as int);
        }
        lemma_empty_hands_hold_nothing(table.hands);
        table.stack.to_multiset_ensures();
        deck(0).to_multiset_ensures();
        assert(table.stack.to_multiset() =~= Multiset::<SimpleCard>::empty());
        assert(deck(0).to_multiset() =~= Multiset::<SimpleCard>::empty());
        assert(table.cards() =~= deck(0).to_multiset());
    } else {
        let fewer = (faces - 1) as nat;
        let before = Table::dealt(fewer, players);
        let card = card_of(fewer as int);
        deal_holds_the_deck_once(fewer, players);
        lemma_one_more_face(fewer, players);
        assert(deck(faces) =~= deck(fewer).push(card));
        to_multiset_build(deck(fewer), card);
        if players == 0 {
            to_multiset_build(before.stack, card);
        } else {
            let turn = fewer as int % players as int;
            let hand = before.hands[turn];
            to_multiset_build(hand, card);
            lemma_held_after_update(before.hands, turn, hand.push(card));
            lemma_one_card_more(
                Table::held(table.hands),
                Table::held(before.hands),
                hand.to_multiset(),
                card,
            );
        }
        assert(table.cards() =~= before.cards().insert(card));
    }
}

/// The deal is fair and complete. After the deck of `faces` faces has been
/// dealt to `players` hands, no hand holds two cards more than another;
/// the card of every face lies on the table; the table holds no other
/// card; and no card lies at two places, be it on the stack, in the hands,
/// or on the stack and in a hand. So the stack and the hands together hold
/// each card of the deck exactly once.
pub proof fn deal_is_fair_and_complete(faces: nat, players: nat)
    requires
        faces <= usize::MAX,
    ensures
        Table::dealt(faces, players).hands.len() == players,
        forall|a: int, b: int|
            0 <= a < players && 0 <= b < players ==> #[trigger] Table::dealt(
                faces,
                players,
            ).hands[a].len() <= #[trigger] Table::dealt(faces, players).hands[b].len() + 1,
        forall|card: SimpleCard| #[trigger]
            Table::dealt(faces, players).holds(card) <==> 0 <= card.id < faces && card == card_of(
                card.id as int,
            ),
        Table::dealt(faces, players).no_card_twice(),
        Table::dealt(faces, players).cards() == deck(faces).to_multiset(),
        Table::dealt(faces, players).cards().len() == faces,
{
    let table = Table::dealt(faces, players);
    deal_holds_the_deck_once(faces, players);
    deck(faces).to_multiset_ensures();
    if players > 0 {
        lemma_next_seat(faces as int, players as int);
    }
    assert forall|card: SimpleCard| #[trigger] table.holds(card) implies 0 <= card.id < faces
        && card == card_of(card.id as int) by {
        if table.on_stack(card) {
            let t = choose|t: int| 0 <= t < table.stack.len() && table.stack[t] == card;
            assert(card == card_of(t));
        } else {
            let (p, c) = choose|p: int, c: int|
                0 <= p < table.hands.len() && 0 <= c < table.hands[p].len() && table.hands[p][c]
                    == card;
            lemma_face_in_hand(faces, players, p, c);
            assert(card == card_of(c * players + p));
        }
    }
    assert forall|card: SimpleCard|
        0 <= card.id < faces && card == card_of(card.id as int) implies #[trigger] table.holds(
        card,
    ) by {
        let face = card.id as int;
        lemma_place_of_card(faces, players, face);
        if players == 0 {
            assert(table.stack[face] == card);
        } else {
            let p = face % (players as int);
            let c = face / (players as int);
            assert(0 <= p < table.hands.len() && 0 <= c < table.hands[p].len() && table.hands[p][c]
                == card);
        }
    }
    assert forall|p: int, c: int, q: int, d: int|
        0 <= p < table.hands.len() && 0 <= c < table.hands[p].len() && 0 <= q < table.hands.len()
            && 0 <= d < table.hands[q].len() && (p != q || c != d) implies table.hands[p][c]
        != table.hands[q][d] by {
        lemma_face_in_hand(faces, players, p, c);
        lemma_face_in_hand(faces, players, q, d);
        assert(table.hands[p][c].id == c * players + p);
        assert(table.hands[q][d].id == d * players + q);
    }
    assert forall|s: int, t: int|
        0 <= s < table.stack.len() && 0 <= t < table.stack.len() && s != t implies table.stack[s]
        != table.stack[t] by {
        assert(table.stack[s].id == s);
        assert(table.stack[t].id == t);
    }
}

} // verus!
