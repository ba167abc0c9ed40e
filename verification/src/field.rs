//! A field: an ordered container of cards with a layout.
//!
//! The order of the cards is the order in which they were put in: index 0 is
//! the bottom of a pile and the leftmost card of a fan, and nothing but
//! `push`, `insert`, `remove` and `pop` ever changes it. A field may hold
//! more cards than its layout nominally shows.

use crate::geometry::{Extent, Point};
use crate::layout::{hover_is_a_slot, Layout, Placement, SimpleFieldKind};
use vstd::prelude::*;

verus! {

/// Why an operation on a field was refused.
#[derive(Clone, Copy, Debug, PartialEq, Eq, Structural)]
pub enum FieldError {
    /// The index names no card, or no place to put one.
    IndexOutOfRange,
    /// A card was to be taken from a field that holds none.
    EmptyField,
}

/// An ordered container of cards together with its layout.
pub struct SimpleField<C> {
    layout: Layout,
    cards: Vec<C>,
}

impl<C> View for SimpleField<C> {
    type V = Seq<C>;

    /// The cards of the field, in field order.
    closed spec fn view(&self) -> Seq<C> {
        self.cards@
    }
}

/// The hover slot as a mathematical integer.
pub open spec fn slot_as_int(slot: Option<usize>) -> Option<int> {
    match slot {
        Some(i) => Some(i as int),
        None => None,
    }
}

impl<C> SimpleField<C> {
    /// The geometry of the field.
    pub closed spec fn spec_layout(&self) -> Layout {
        self.layout
    }

    /// What `remove(idx)` answers on a field that holds `cards`.
    pub open spec fn removal(cards: Seq<C>, idx: int) -> Result<C, FieldError> {
        if cards.len() == 0 {
            Err(FieldError::EmptyField)
        } else if 0 <= idx < cards.len() {
            Ok(cards[idx])
        } else {
            Err(FieldError::IndexOutOfRange)
        }
    }

    /// An empty field with the default layout.
    pub fn new() -> (field: Self)
        ensures
            field@ == Seq::<C>::empty(),
            field.spec_layout() == Layout::spec_default(),
            field.spec_layout().wf(),
    {
        SimpleField { layout: Layout::default(), cards: Vec::new() }
    }

    /// A field with the default layout that holds `cards`, in their order.
    pub fn from_collection(cards: Vec<C>) -> (field: Self)
        ensures
            field@ == cards@,
            field.spec_layout() == Layout::spec_default(),
            field.spec_layout().wf(),
    {
        SimpleField { layout: Layout::default(), cards }
    }

    /// The same field anchored at `pos`.
    pub fn pos(self, pos: Point) -> (field: Self)
        ensures
            field@ == self@,
            field.spec_layout() == (Layout { pos, ..self.spec_layout() }),
    {
        let mut field = self;
        field.layout.pos = pos;
        field
    }

    /// The same field with room for `max_cards` cards.
    pub fn max_cards(self, max_cards: usize) -> (field: Self)
        ensures
            field@ == self@,
            field.spec_layout() == (Layout { max_cards, ..self.spec_layout() }),
    {
        let mut field = self;
        field.layout.max_cards = max_cards;
        field
    }

    /// The same field with the cards arranged as `kind` says.
    pub fn kind(self, kind: SimpleFieldKind) -> (field: Self)
        ensures
            field@ == self@,
            field.spec_layout() == (Layout { kind, ..self.spec_layout() }),
    {
        let mut field = self;
        field.layout.kind = kind;
        field
    }

    /// The same field with another margin.
    pub fn margin(self, margin: i8) -> (field: Self)
        ensures
            field@ == self@,
            field.spec_layout() == (Layout { margin, ..self.spec_layout() }),
    {
        let mut field = self;
        field.layout.margin = margin;
        field
    }

    /// The same field, lifting the hovered card or not.
    pub fn selectable(self, selectable: bool) -> (field: Self)
        ensures
            field@ == self@,
            field.spec_layout() == (Layout { selectable, ..self.spec_layout() }),
    {
        let mut field = self;
        field.layout.selectable = selectable;
        field
    }

    /// The same field with cards of size `card_size`.
    pub fn max_card_size(self, card_size: Extent) -> (field: Self)
        ensures
            field@ == self@,
            field.spec_layout() == (Layout { card_size, ..self.spec_layout() }),
    {
        let mut field = self;
        field.layout.card_size = card_size;
        field
    }

    /// The geometry of the field.
    pub fn layout(&self) -> (layout: Layout)
        ensures
            layout == self.spec_layout(),
    {
        self.layout
    }

    /// Whether the field's layout can be drawn.
    pub fn is_valid(&self) -> (valid: bool)
        ensures
            valid == self.spec_layout().wf(),
    {
        self.layout.is_valid()
    }

    /// The number of cards in the field.
    pub fn len(&self) -> (n: usize)
        ensures
            n == self@.len(),
    {
        self.cards.len()
    }

    /// Whether the field holds no card.
    pub fn is_empty(&self) -> (empty: bool)
        ensures
            empty == (self@.len() == 0),
    {
        self.cards.len() == 0
    }

    /// The card at `idx`, if there is one.
    pub fn get(&self, idx: usize) -> (card: Option<&C>)
        ensures
            idx < self@.len() ==> card == Some(&self@[idx as int]),
            idx >= self@.len() ==> card is None,
    {
        if idx < self.cards.len() {
            Some(&self.cards[idx])
        } else {
            None
        }
    }

    /// Puts `card` last: on top of a pile, at the right end of a fan.
    pub fn push(&mut self, card: C)
        ensures
            final(self)@ == old(self)@.push(card),
            final(self).spec_layout() == old(self).spec_layout(),
    {
        self.cards.push(card);
    }

    /// Puts `card` at `idx`, before the card that was there. An index past
    /// the end is refused, and the field stays as it was.
    pub fn insert(&mut self, idx: usize, card: C) -> (done: Result<(), FieldError>)
        ensures
            final(self).spec_layout() == old(self).spec_layout(),
            idx <= old(self)@.len() ==> done == Ok::<(), FieldError>(()) && final(self)@ == old(
                self,
            )@.insert(
                idx as int,
                card,
            ),
            idx > old(self)@.len() ==> done == Err::<(), FieldError>(FieldError::IndexOutOfRange)
                && final(self)@ == old(self)@,
    {
        if idx > self.cards.len() {
            return Err(FieldError::IndexOutOfRange);
        }
        self.cards.insert(idx, card);
        Ok(())
    }

    /// Takes the card at `idx` out of the field. An empty field and an
    /// index that names no card are refused, and the field stays as it was.
    pub fn remove(&mut self, idx: usize) -> (taken: Result<C, FieldError>)
        ensures
            final(self).spec_layout() == old(self).spec_layout(),
            taken == Self::removal(old(self)@, idx as int),
            taken is Ok ==> final(self)@ == old(self)@.remove(idx as int),
            taken is Err ==> final(self)@ == old(self)@,
    {
        if self.cards.len() == 0 {
            return Err(FieldError::EmptyField);
        }
        if idx >= self.cards.len() {
            return Err(FieldError::IndexOutOfRange);
        }
        Ok(self.cards.remove(idx))
    }

    /// Takes the last card out of the field, or answers `None` if the field
    /// holds none.
    pub fn pop(&mut self) -> (taken: Option<C>)
        ensures
            final(self).spec_layout() == old(self).spec_layout(),
            old(self)@.len() == 0 ==> taken is None && final(self)@ == old(self)@,
            old(self)@.len() > 0 ==> taken == Some(old(self)@.last()) && final(self)@ == old(
                self,
            )@.drop_last(),
    {
        self.cards.pop()
    }

    /// The offset of card `idx` from the field's anchor. An index that names
    /// no card is refused.
    pub fn position_of(&self, idx: usize) -> (at: Result<Point, FieldError>)
        requires
            self.spec_layout().wf(),
        ensures
            idx >= self@.len() ==> at == Err::<Point, FieldError>(FieldError::IndexOutOfRange),
            idx < self@.len() ==> at == Ok::<Point, FieldError>(
                Point {
                    x: self.spec_layout().offset_x(idx as int, self@.len() as int) as i64,
                    y: self.spec_layout().offset_y(idx as int) as i64,
                },
            ),
            at matches Ok(p) ==> p.x == self.spec_layout().offset_x(
                idx as int,
                self@.len() as int,
            ) && p.y == self.spec_layout().offset_y(idx as int),
    {
        if idx >= self.cards.len() {
            return Err(FieldError::IndexOutOfRange);
        }
        Ok(self.layout.offset(idx, self.cards.len()))
    }

    /// The index of the card under `pointer`, if the pointer is over the
    /// field and the field holds a card.
    pub fn hover_index(&self, pointer: Point) -> (slot: Option<usize>)
        requires
            self.spec_layout().wf(),
        ensures
            slot_as_int(slot) == self.spec_layout().spec_hover(self@.len() as int, pointer),
            slot matches Some(i) ==> i < self@.len(),
            slot is Some <==> self@.len() > 0 && self.spec_layout().spec_bounds().spec_contains(
                pointer,
            ),
    {
        let slot = self.layout.hover(self.cards.len(), pointer);
        proof {
            hover_is_a_slot(self.layout, self.cards@.len() as int, pointer);
        }
        slot
    }

    /// The cards in the order in which they are to be drawn while the
    /// pointer is over slot `hover`: the hovered card of a selectable field
    /// last and lifted, all others at rest in field order.
    pub fn render(&self, hover: Option<usize>) -> (plan: Vec<Placement>)
        requires
            self.spec_layout().wf(),
        ensures
            plan@ == self.spec_layout().draw_order(self@.len() as int, slot_as_int(hover)),
    {
        self.layout.arrange(self.cards.len(), hover)
    }
}

impl<C> Default for SimpleField<C> {
    fn default() -> (field: Self)
        ensures
            field@ == Seq::<C>::empty(),
            field.spec_layout() == Layout::spec_default(),
    {
        SimpleField::new()
    }
}

} // verus!
