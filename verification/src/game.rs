//! The table of a running game: one shared stack and a hand for every
//! player, and the one operation that changes it, the move of a card from
//! one place to another.

use crate::card::SimpleCard;
use crate::field::{FieldError, SimpleField};
use crate::layout::Layout;
use vstd::multiset::Multiset;
use vstd::prelude::*;
use vstd::seq_lib::{to_multiset_build, to_multiset_remove};

verus! {

/// The address of a card, or of a place for one.
#[derive(Clone, Copy, Debug, PartialEq, Eq, Structural)]
pub enum DNDSelector {
    /// Slot `.1` of the hand of player `.0`.
    Player(usize, usize),
    /// The top of the shared stack.
    Stack,
    /// A card that lies free on the table. No field holds it, so moves
    /// leave it alone.
    Index(usize),
}

/// The cards on the table: the stack bottom first, and the hands by player.
pub struct Table {
    pub stack: Seq<SimpleCard>,
    pub hands: Seq<Seq<SimpleCard>>,
}

impl Table {
    /// All cards in `hands`, each as often as it occurs.
    pub open spec fn held(hands: Seq<Seq<SimpleCard>>) -> Multiset<SimpleCard>
        decreases hands.len(),
    {
        if hands.len() == 0 {
            Multiset::empty()
        } else {
            Self::held(hands.drop_last()).add(hands.last().to_multiset())
        }
    }

    /// All cards on the table, each as often as it occurs.
    pub open spec fn cards(self) -> Multiset<SimpleCard> {
        self.stack.to_multiset().add(Self::held(self.hands))
    }

    /// Why no card can be taken from `src`, if none can.
    pub open spec fn source_refusal(self, src: DNDSelector) -> Option<FieldError> {
        match src {
            DNDSelector::Stack => if self.stack.len() == 0 {
                Some(FieldError::EmptyField)
            } else {
                None
            },
            DNDSelector::Player(p, c) => if p >= self.hands.len() {
                Some(FieldError::IndexOutOfRange)
            } else if self.hands[p as int].len() == 0 {
                Some(FieldError::EmptyField)
            } else if c >= self.hands[p as int].len() {
                Some(FieldError::IndexOutOfRange)
            } else {
                None
            },
            DNDSelector::Index(_) => None,
        }
    }

    /// The card at `src`: the top of the stack, or the addressed card of a
    /// hand.
    pub open spec fn card_at(self, src: DNDSelector) -> SimpleCard {
        match src {
            DNDSelector::Player(p, c) => self.hands[p as int][c as int],
            _ => self.stack.last(),
        }
    }

    /// The table once the card at `src` has been taken away.
    pub open spec fn without(self, src: DNDSelector) -> Table {
        match src {
            DNDSelector::Stack => Table { stack: self.stack.drop_last(), hands: self.hands },
            DNDSelector::Player(p, c) => Table {
                stack: self.stack,
                hands: self.hands.update(p as int, self.hands[p as int].remove(c as int)),
            },
            DNDSelector::Index(_) => self,
        }
    }

    /// Why no card can be put at `dst`, if none can.
    pub open spec fn destination_refusal(self, dst: DNDSelector) -> Option<FieldError> {
        match dst {
            DNDSelector::Player(q, d) => if q >= self.hands.len() || d > self.hands[q as int].len() {
                Some(FieldError::IndexOutOfRange)
            } else {
                None
            },
            _ => None,
        }
    }

    /// The table once `card` has been put at `dst`: on top of the stack, or
    /// into the hand before the card that was at that slot.
    pub open spec fn with(self, dst: DNDSelector, card: SimpleCard) -> Table {
        match dst {
            DNDSelector::Stack => Table { stack: self.stack.push(card), hands: self.hands },
            DNDSelector::Player(q, d) => Table {
                stack: self.stack,
                hands: self.hands.update(q as int, self.hands[q as int].insert(d as int, card)),
            },
            DNDSelector::Index(_) => self,
        }
    }

    /// Whether a move from `src` to `dst` leaves the table alone whatever it
    /// holds: a card dropped where it was picked up, or an address of a
    /// free card.
    pub open spec fn is_inert(src: DNDSelector, dst: DNDSelector) -> bool {
        src == dst || src is Index || dst is Index
    }

    /// The outcome of moving the card at `src` to `dst`. The card is taken
    /// out first, so `dst` addresses the table without it. A move that
    /// cannot be completed is refused as a whole.
    pub open spec fn moved(self, src: DNDSelector, dst: DNDSelector) -> Result<Table, FieldError> {
        if Self::is_inert(src, dst) {
            Ok(self)
        } else {
            match self.source_refusal(src) {
                Some(error) => Err(error),
                None => match self.without(src).destination_refusal(dst) {
                    Some(error) => Err(error),
                    None => Ok(self.without(src).with(dst, self.card_at(src))),
                },
            }
        }
    }

    /// The table that a move from `src` to `dst` leaves: the table after
    /// the move, or the table as it was where the move is refused.
    pub open spec fn settled(self, src: DNDSelector, dst: DNDSelector) -> Table {
        match self.moved(src, dst) {
            Ok(after) => after,
            Err(_) => self,
        }
    }

    /// What a move from `src` to `dst` answers: done, or why it is refused.
    pub open spec fn outcome(self, src: DNDSelector, dst: DNDSelector) -> Result<(), FieldError> {
        match self.moved(src, dst) {
            Ok(_) => Ok(()),
            Err(error) => Err(error),
        }
    }
}

/// The running game: the shared stack, and every player's label and hand.
pub struct GameState {
    players: Vec<(String, SimpleField<SimpleCard>)>,
    stack: SimpleField<SimpleCard>,
}

impl GameState {
    /// The cards on the table.
    pub closed spec fn table(&self) -> Table {
        Table {
            stack: self.stack@,
            hands: Seq::new(self.players@.len(), |p: int| self.players@[p].1@),
        }
    }

    /// The players' labels.
    pub closed spec fn labels(&self) -> Seq<Seq<char>> {
        Seq::new(self.players@.len(), |p: int| self.players@[p].0@)
    }

    /// The geometry of the stack.
    pub closed spec fn stack_layout(&self) -> Layout {
        self.stack.spec_layout()
    }

    /// The geometry of every hand.
    pub closed spec fn hand_layouts(&self) -> Seq<Layout> {
        Seq::new(self.players@.len(), |p: int| self.players@[p].1.spec_layout())
    }

    /// The game with the given stack and players.
    pub fn new(stack: SimpleField<SimpleCard>, players: Vec<(String, SimpleField<SimpleCard>)>) -> (game:
        GameState)
        ensures
            game.table().stack == stack@,
            game.table().hands == Seq::new(players@.len(), |p: int| players@[p].1@),
            game.labels() == Seq::new(players@.len(), |p: int| players@[p].0@),
            game.stack_layout() == stack.spec_layout(),
            game.hand_layouts() == Seq::new(players@.len(), |p: int| players@[p].1.spec_layout()),
    {
        GameState { players, stack }
    }

    /// The shared stack.
    pub fn stack(&self) -> (stack: &SimpleField<SimpleCard>)
        ensures
            stack@ == self.table().stack,
            stack.spec_layout() == self.stack_layout(),
    {
        &self.stack
    }

    /// The number of players.
    pub fn player_count(&self) -> (count: usize)
        ensures
            count == self.table().hands.len(),
            count == self.labels().len(),
            count == self.hand_layouts().len(),
    {
        self.players.len()
    }

    /// The label and the hand of player `p`, if there is such a player.
    pub fn player(&self, p: usize) -> (found: Option<&(String, SimpleField<SimpleCard>)>)
        ensures
            match found {
                Some(entry) => p < self.table().hands.len() && entry.0@ == self.labels()[p as int]
                    && entry.1@ == self.table().hands[p as int] && entry.1.spec_layout()
                    == self.hand_layouts()[p as int],
                None => p >= self.table().hands.len(),
            },
    {
        if p < self.players.len() {
            Some(&self.players[p])
        } else {
            None
        }
    }

    /// Moves the card at `src` to `dst`.
    ///
    /// A card dropped where it was picked up stays there, and an address of
    /// a free card is ignored. From the stack the top card is taken, and
    /// onto the stack a card is put on top. The move is one step: where the
    /// source holds no such card or the destination has no such slot, the
    /// move is refused and every card stays where it was. Labels and
    /// layouts never change.
    pub fn move_card(&mut self, src: DNDSelector, dst: DNDSelector) -> (done: Result<
        (),
        FieldError,
    >)
        ensures
            done == old(self).table().outcome(src, dst),
            final(self).table() == old(self).table().settled(src, dst),
            final(self).labels() == old(self).labels(),
            final(self).stack_layout() == old(self).stack_layout(),
            final(self).hand_layouts() == old(self).hand_layouts(),
    {
        if src == dst {
            return Ok(());
        }
        match dst {
            DNDSelector::Index(_) => {
                return Ok(());
            },
            _ => {},
        }
        match src {
            DNDSelector::Index(_) => {
                return Ok(());
            },
            DNDSelector::Stack => {
                if self.stack.is_empty() {
                    return Err(FieldError::EmptyField);
                }
            },
            DNDSelector::Player(p, c) => {
                if p >= self.players.len() {
                    return Err(FieldError::IndexOutOfRange);
                }
                let held = self.players[p].1.len();
                if held == 0 {
                    return Err(FieldError::EmptyField);
                }
                if c >= held {
                    return Err(FieldError::IndexOutOfRange);
                }
            },
        }
        match dst {
            DNDSelector::Player(q, d) => {
                if q >= self.players.len() {
                    return Err(FieldError::IndexOutOfRange);
                }
                let held = self.players[q].1.len();
                let room = match src {
                    DNDSelector::Player(p, _) => if p == q {
                        held - 1
                    } else {
                        held
                    },
                    _ => held,
                };
                if d > room {
                    return Err(FieldError::IndexOutOfRange);
                }
            },
            _ => {},
        }
        let ghost before = self.table();
        let card = match src {
            DNDSelector::Player(p, c) => {
                let taken = self.players[p].1.remove(c);
                taken.unwrap()
            },
            _ => {
                let taken = self.stack.pop();
                taken.unwrap()
            },
        };
        assert(self.table().stack =~= before.without(src).stack);
        assert(self.table().hands =~= before.without(src).hands);
        assert(card == before.card_at(src));
        let ghost between = self.table();
        match dst {
            DNDSelector::Player(q, d) => {
                let _ = self.players[q].1.insert(d, card);
            },
            _ => {
                self.stack.push(card);
            },
        }
        assert(self.table().stack =~= between.with(dst, card).stack);
        assert(self.table().hands =~= between.with(dst, card).hands);
        assert(self.labels() =~= old(self).labels());
        assert(self.hand_layouts() =~= old(self).hand_layouts());
        Ok(())
    }
}

/// A card dropped where it was picked up stays there: a move from any
/// address to that same address leaves every container as it was.
pub proof fn move_to_the_same_place_changes_nothing(table: Table, place: DNDSelector)
    ensures
        table.moved(place, place) == Ok::<Table, FieldError>(table),
{
}

/// The stack gives up its cards last in, first out: once `first` and then
/// `second` have been put on the stack, a move from the stack to a hand
/// takes `second` to the hand and leaves `first` on top of the stack; if the
/// hand has no such slot, the move is refused.
pub proof fn stack_is_last_in_first_out(
    table: Table,
    first: SimpleCard,
    second: SimpleCard,
    dst: DNDSelector,
)
    requires
        dst is Player,
    ensures
        table.with(DNDSelector::Stack, first).with(DNDSelector::Stack, second).moved(
            DNDSelector::Stack,
            dst,
        ) == match table.with(DNDSelector::Stack, first).destination_refusal(dst) {
            Some(error) => Err::<Table, FieldError>(error),
            None => Ok::<Table, FieldError>(
                table.with(DNDSelector::Stack, first).with(dst, second),
            ),
        },
{
    let piled = table.with(DNDSelector::Stack, first).with(DNDSelector::Stack, second);
    assert(piled.stack.drop_last() =~= table.stack.push(first));
}

/// When one hand is exchanged for another, the cards in all hands change by
/// the cards of that hand.
pub proof fn lemma_held_after_update(hands: Seq<Seq<SimpleCard>>, p: int, hand: Seq<SimpleCard>)
    requires
        0 <= p < hands.len(),
    ensures
        Table::held(hands.update(p, hand)).add(hands[p].to_multiset()) == Table::held(hands).add(
            hand.to_multiset(),
        ),
    decreases hands.len(),
{
    broadcast use vstd::multiset::group_multiset_axioms;

    let changed = hands.update(p, hand);
    let rest = hands.drop_last();
    assert(Table::held(hands) == Table::held(rest).add(hands.last().to_multiset()));
    assert(Table::held(changed) == Table::held(changed.drop_last()).add(
        changed.last().to_multiset(),
    ));
    if p == hands.len() - 1 {
        assert(changed.drop_last() =~= rest);
        assert(changed.last() == hand);
    } else {
        assert(changed.drop_last() =~= rest.update(p, hand));
        assert(changed.last() == hands.last());
        assert(rest[p] == hands[p]);
        lemma_held_after_update(rest, p, hand);
        let left = Table::held(rest.update(p, hand));
        assert(left.add(hands[p].to_multiset()).add(hands.last().to_multiset()) =~= left.add(
            hands.last().to_multiset(),
        ).add(hands[p].to_multiset()));
        assert(Table::held(rest).add(hand.to_multiset()).add(hands.last().to_multiset())
            =~= Table::held(rest).add(hands.last().to_multiset()).add(hand.to_multiset()));
    }
    assert(Table::held(changed).add(hands[p].to_multiset()) =~= Table::held(hands).add(
        hand.to_multiset(),
    ));
}

/// If two heaps of cards are as large as each other once a third heap has
/// been added to the first, and the third heap less one card to the second,
/// then the second heap is the first and that card.
proof fn lemma_one_card_less(
    first: Multiset<SimpleCard>,
    second: Multiset<SimpleCard>,
    third: Multiset<SimpleCard>,
    card: SimpleCard,
)
    requires
        third.count(card) > 0,
        first.add(third) == second.add(third.remove(card)),
    ensures
        first.insert(card) == second,
{
    broadcast use vstd::multiset::group_multiset_axioms;

    assert forall|other: SimpleCard| first.insert(card).count(other) == second.count(other) by {
        let single = Multiset::singleton(card);
        assert(first.add(third).count(other) == first.count(other) + third.count(other));
        assert(second.add(third.sub(single)).count(other) == second.count(other) + third.sub(
            single,
        ).count(other));
        assert(single.count(other) == if other == card {
            1nat
        } else {
            0nat
        });
        assert(first.add(single).count(other) == first.count(other) + single.count(other));
    }
    assert(first.insert(card) =~= second);
}

/// If two heaps of cards are as large as each other once a third heap has
/// been added to the first, and the third heap and one card to the second,
/// then the first heap is the second and that card.
pub proof fn lemma_one_card_more(
    first: Multiset<SimpleCard>,
    second: Multiset<SimpleCard>,
    third: Multiset<SimpleCard>,
    card: SimpleCard,
)
    requires
        first.add(third) == second.add(third.insert(card)),
    ensures
        first == second.insert(card),
{
    broadcast use vstd::multiset::group_multiset_axioms;

    assert forall|other: SimpleCard| first.count(other) == second.insert(card).count(other) by {
        let single = Multiset::singleton(card);
        assert(first.add(third).count(other) == first.count(other) + third.count(other));
        assert(second.add(third.add(single)).count(other) == second.count(other) + third.add(
            single,
        ).count(other));
        assert(third.add(single).count(other) == third.count(other) + single.count(other));
        assert(second.add(single).count(other) == second.count(other) + single.count(other));
    }
    assert(first =~= second.insert(card));
}

/// A card put into a sequence is one card more.
pub proof fn lemma_insert_adds_one(cards: Seq<SimpleCard>, at: int, card: SimpleCard)
    requires
        0 <= at <= cards.len(),
    ensures
        cards.insert(at, card).to_multiset() == cards.to_multiset().insert(card),
{
    broadcast use vstd::multiset::group_multiset_axioms;

    let longer = cards.insert(at, card);
    assert(longer.remove(at) =~= cards);
    to_multiset_remove(longer, at);
    assert(longer.to_multiset().count(card) > 0) by {
        longer.to_multiset_ensures();
        assert(longer[at] == card);
        assert(longer.contains(card));
    }
    assert(longer.to_multiset() =~= cards.to_multiset().insert(card));
}

/// No move loses a card, makes one, or doubles one: whether a move is made
/// or refused, the table holds the same cards afterwards, each as often as
/// before.
pub proof fn move_keeps_every_card(table: Table, src: DNDSelector, dst: DNDSelector)
    ensures
        table.settled(src, dst).cards() == table.cards(),
{
    broadcast use vstd::multiset::group_multiset_axioms;

    if !Table::is_inert(src, dst) && table.moved(src, dst) is Ok {
        let card = table.card_at(src);
        let between = table.without(src);
        let after = between.with(dst, card);
        match src {
            DNDSelector::Player(p, c) => {
                let hand = table.hands[p as int];
                to_multiset_remove(hand, c as int);
                hand.to_multiset_ensures();
                assert(hand.contains(hand[c as int]));
                lemma_held_after_update(table.hands, p as int, hand.remove(c as int));
                let was = Table::held(table.hands);
                let is = Table::held(between.hands);
                lemma_one_card_less(is, was, hand.to_multiset(), card);
            },
            _ => {
                assert(table.stack.drop_last() =~= table.stack.remove(table.stack.len() - 1));
                to_multiset_remove(table.stack, table.stack.len() - 1);
                table.stack.to_multiset_ensures();
                assert(table.stack.contains(table.stack.last()));
                assert(between.stack.to_multiset().insert(card) =~= table.stack.to_multiset());
            },
        }
        assert(between.cards().insert(card) =~= table.cards());
        match dst {
            DNDSelector::Player(q, d) => {
                let hand = between.hands[q as int];
                lemma_insert_adds_one(hand, d as int, card);
                lemma_held_after_update(between.hands, q as int, hand.insert(d as int, card));
                let was = Table::held(between.hands);
                let is = Table::held(after.hands);
                lemma_one_card_more(is, was, hand.to_multiset(), card);
            },
            _ => {
                to_multiset_build(between.stack, card);
            },
        }
        assert(after.cards() =~= between.cards().insert(card));
    }
}

} // verus!
