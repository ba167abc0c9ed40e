//! Where the cards of a field go, and which card lies under the pointer.
//!
//! A layout is pure geometry: it knows how many cards a field nominally
//! holds, how large a card is and how the cards are arranged, but not the
//! cards themselves. Every offset is relative to the field's anchor.

use crate::geometry::{Extent, Point, Rect};
use vstd::prelude::*;

verus! {

/// How a field arranges its cards.
#[derive(Clone, Copy, Debug, PartialEq, Eq, Structural)]
pub enum SimpleFieldKind {
    /// A pile: every card slightly up and to the right of the one below it,
    /// until the pile shows its nominal number of cards.
    Stack,
    /// A fan: the cards side by side, squeezed together once there are more
    /// of them than the field nominally holds.
    Horizontal,
}

/// The geometry of a field.
#[derive(Clone, Copy, Debug, PartialEq, Eq, Structural)]
pub struct Layout {
    /// The arrangement of the cards.
    pub kind: SimpleFieldKind,
    /// The number of cards the field nominally holds.
    pub max_cards: usize,
    /// The size of one card.
    pub card_size: Extent,
    /// The gap between neighbouring cards of a fan, the base height of a
    /// pile, and the height by which a hovered card is lifted.
    pub margin: i8,
    /// The top-left corner of the field on the table.
    pub pos: Point,
    /// Whether the card under the pointer is lifted.
    pub selectable: bool,
}

/// One card as it is to be drawn.
#[derive(Clone, Copy, Debug, PartialEq, Eq, Structural)]
pub struct Placement {
    /// The card's index in the field.
    pub index: usize,
    /// The card's top-left corner, relative to the field's anchor.
    pub offset: Point,
    /// Whether the card is lifted and outlined.
    pub lifted: bool,
}

/// The smaller of two integers.
pub open spec fn min_int(a: int, b: int) -> int {
    if a <= b {
        a
    } else {
        b
    }
}

impl Layout {
    /// The distance between the left edges of two neighbouring cards of an
    /// uncompressed fan.
    pub open spec fn stride(self) -> int {
        self.card_size.width + self.margin
    }

    /// The width reserved for the field: that of `max_cards` cards side by
    /// side for a fan, that of a full pile for a stack.
    pub open spec fn nominal_width(self) -> int {
        match self.kind {
            SimpleFieldKind::Stack => self.card_size.width + self.max_cards,
            SimpleFieldKind::Horizontal => self.max_cards * self.stride() - self.margin,
        }
    }

    /// The height reserved for the field.
    pub open spec fn nominal_height(self) -> int {
        match self.kind {
            SimpleFieldKind::Stack => self.card_size.height + self.max_cards,
            SimpleFieldKind::Horizontal => self.card_size.height as int,
        }
    }

    /// A layout that can be drawn: it holds at least one card, a card has an
    /// area, neighbouring cards of a fan do not run backwards, and the
    /// reserved footprint is an `Extent`.
    pub open spec fn wf(self) -> bool {
        &&& self.max_cards >= 1
        &&& self.card_size.width >= 1
        &&& self.card_size.height >= 1
        &&& self.stride() >= 0
        &&& self.nominal_width() <= u32::MAX
        &&& self.nominal_height() <= u32::MAX
    }

    /// The rectangle reserved for the field on the table.
    pub open spec fn spec_bounds(self) -> Rect {
        Rect {
            min: self.pos,
            size: Extent {
                width: self.nominal_width() as u32,
                height: self.nominal_height() as u32,
            },
        }
    }

    /// The horizontal offset of card `idx` in a field of `len` cards.
    pub open spec fn offset_x(self, idx: int, len: int) -> int {
        match self.kind {
            SimpleFieldKind::Stack => min_int(idx, self.max_cards as int),
            SimpleFieldKind::Horizontal => if len <= self.max_cards {
                self.stride() * idx
            } else {
                (self.nominal_width() - self.card_size.width) * idx / (len - 1)
            },
        }
    }

    /// The vertical offset of card `idx`.
    pub open spec fn offset_y(self, idx: int) -> int {
        match self.kind {
            SimpleFieldKind::Stack => self.margin - min_int(idx, self.max_cards as int),
            SimpleFieldKind::Horizontal => 0,
        }
    }

    /// The card slot that a pointer at `pointer` hovers over in a field of
    /// `len` cards: none outside the field's rectangle or over an empty
    /// field; otherwise the pointer's share of the way from the left to the
    /// right edge, scaled by `len`, rounded down and kept below `len`.
    pub open spec fn spec_hover(self, len: int, pointer: Point) -> Option<int> {
        if len > 0 && self.spec_bounds().spec_contains(pointer) {
            Some(
                min_int(
                    len * (pointer.x - self.spec_bounds().left()) / (self.spec_bounds().right()
                        - self.spec_bounds().left()),
                    len - 1,
                ),
            )
        } else {
            None
        }
    }

    /// The card that is drawn lifted when the pointer hovers over slot
    /// `hover` of a field of `len` cards, if any.
    pub open spec fn lifted(self, len: int, hover: Option<int>) -> Option<int> {
        match hover {
            Some(h) => if self.selectable && 0 <= h < len {
                Some(h)
            } else {
                None
            },
            None => None,
        }
    }

    /// Card `idx` of a field of `len` cards at rest.
    pub open spec fn resting(self, idx: int, len: int) -> Placement {
        Placement {
            index: idx as usize,
            offset: Point { x: self.offset_x(idx, len) as i64, y: self.offset_y(idx) as i64 },
            lifted: false,
        }
    }

    /// Card `idx` of a field of `len` cards, lifted by the margin.
    pub open spec fn raised(self, idx: int, len: int) -> Placement {
        Placement {
            index: idx as usize,
            offset: Point {
                x: self.offset_x(idx, len) as i64,
                y: (self.offset_y(idx) - self.margin) as i64,
            },
            lifted: true,
        }
    }

    /// The cards of a field of `len` cards in the order in which they are
    /// drawn: all cards at rest in field order, but for the lifted card,
    /// which comes last and raised, so that it covers its neighbours.
    pub open spec fn draw_order(self, len: int, hover: Option<int>) -> Seq<Placement> {
        match self.lifted(len, hover) {
            None => Seq::new(len as nat, |k: int| self.resting(k, len)),
            Some(h) => Seq::new(
                (len - 1) as nat,
                |k: int|
                    self.resting(
                        if k < h {
                            k
                        } else {
                            k + 1
                        },
                        len,
                    ),
            ).push(self.raised(h, len)),
        }
    }

    /// The layout of a fresh field: a fan of five cards of 100 by 135 with a
    /// margin of 4, anchored at the origin, nothing lifted.
    pub open spec fn spec_default() -> Layout {
        Layout {
            kind: SimpleFieldKind::Horizontal,
            max_cards: 5,
            card_size: Extent { width: 100, height: 135 },
            margin: 4,
            pos: Point { x: 0, y: 0 },
            selectable: false,
        }
    }

    /// Whether the layout can be drawn.
    pub fn is_valid(&self) -> (valid: bool)
        ensures
            valid == self.wf(),
    {
        let stride: i128 = self.card_size.width as i128 + self.margin as i128;
        if self.max_cards < 1 || self.card_size.width < 1 || self.card_size.height < 1 || stride
            < 0 {
            return false;
        }
        let cap: i128 = self.max_cards as i128;
        match self.kind {
            SimpleFieldKind::Stack => {
                self.card_size.width as i128 + cap <= u32::MAX as i128
                    && self.card_size.height as i128 + cap <= u32::MAX as i128
            },
            SimpleFieldKind::Horizontal => {
                assert(0 <= cap * stride <= 0x1_0000_0000_0000_0000 * 0x1_0000_0080)
                    by (nonlinear_arith)
                    requires
                        0 <= cap < 0x1_0000_0000_0000_0000,
                        0 <= stride < 0x1_0000_0080,
                ;
                cap * stride - self.margin as i128 <= u32::MAX as i128
            },
        }
    }

    /// The extent reserved for the field.
    pub fn footprint(&self) -> (size: Extent)
        requires
            self.wf(),
        ensures
            size == self.spec_bounds().size,
            size.width == self.nominal_width(),
            size.height == self.nominal_height(),
            size.width >= self.card_size.width,
    {
        let stride: i128 = self.card_size.width as i128 + self.margin as i128;
        let cap: i128 = self.max_cards as i128;
        proof {
            lemma_room_for_one_card(*self);
        }
        match self.kind {
            SimpleFieldKind::Stack => Extent {
                width: (self.card_size.width as i128 + cap) as u32,
                height: (self.card_size.height as i128 + cap) as u32,
            },
            SimpleFieldKind::Horizontal => {
                assert(0 <= cap * stride <= 0x1_0000_0000_0000_0000 * 0x1_0000_0080)
                    by (nonlinear_arith)
                    requires
                        0 <= cap < 0x1_0000_0000_0000_0000,
                        0 <= stride < 0x1_0000_0080,
                ;
                Extent {
                    width: (cap * stride - self.margin as i128) as u32,
                    height: self.card_size.height,
                }
            },
        }
    }

    /// The rectangle reserved for the field on the table.
    pub fn bounds(&self) -> (rect: Rect)
        requires
            self.wf(),
        ensures
            rect == self.spec_bounds(),
            rect.size.width == self.nominal_width(),
            rect.size.height == self.nominal_height(),
            rect.size.width >= 1,
    {
        Rect { min: self.pos, size: self.footprint() }
    }

    /// The offset of card `idx` in a field of `len` cards.
    pub fn offset(&self, idx: usize, len: usize) -> (at: Point)
        requires
            self.wf(),
            idx < len,
        ensures
            at.x == self.offset_x(idx as int, len as int),
            at.y == self.offset_y(idx as int),
            0 <= at.x <= self.nominal_width() - self.card_size.width,
    {
        match self.kind {
            SimpleFieldKind::Stack => {
                let depth: usize = if idx <= self.max_cards {
                    idx
                } else {
                    self.max_cards
                };
                Point { x: depth as i64, y: self.margin as i64 - depth as i64 }
            },
            SimpleFieldKind::Horizontal => {
                let size = self.footprint();
                let room: u128 = (size.width - self.card_size.width) as u128;
                let stride: u128 = (self.card_size.width as i128 + self.margin as i128) as u128;
                proof {
                    assert(room == (self.max_cards - 1) * self.stride()) by (nonlinear_arith)
                        requires
                            room == self.max_cards * self.stride() - self.margin
                                - self.card_size.width,
                            self.stride() == self.card_size.width + self.margin,
                    ;
                }
                if len <= self.max_cards {
                    proof {
                        assert(0 <= self.stride() * idx <= (self.max_cards - 1) * self.stride())
                            by (nonlinear_arith)
                            requires
                                0 <= idx <= self.max_cards - 1,
                                self.stride() >= 0,
                        ;
                    }
                    Point { x: (stride * idx as u128) as i64, y: 0 }
                } else {
                    let last: u128 = (len - 1) as u128;
                    proof {
                        assert(0 <= room * idx <= 0x1_0000_0000 * 0x1_0000_0000_0000_0000)
                            by (nonlinear_arith)
                            requires
                                0 <= room < 0x1_0000_0000,
                                0 <= idx < 0x1_0000_0000_0000_0000,
                        ;
                        assert(0 <= (room * idx) / (last as int) <= room) by (nonlinear_arith)
                            requires
                                0 <= idx <= last,
                                last > 0,
                                room >= 0,
                        ;
                    }
                    Point { x: (room * idx as u128 / last) as i64, y: 0 }
                }
            },
        }
    }

    /// The card slot under `pointer` in a field of `len` cards, if any.
    pub fn hover(&self, len: usize, pointer: Point) -> (slot: Option<usize>)
        requires
            self.wf(),
        ensures
            match slot {
                Some(i) => self.spec_hover(len as int, pointer) == Some(i as int),
                None => self.spec_hover(len as int, pointer) is None,
            },
    {
        let rect = self.bounds();
        if len == 0 || !rect.contains(pointer) {
            return None;
        }
        let across: u128 = (pointer.x as i128 - rect.min.x as i128) as u128;
        let width: u128 = rect.size.width as u128;
        proof {
            assert(0 <= len * across <= 0x1_0000_0000_0000_0000 * 0x1_0000_0000)
                by (nonlinear_arith)
                requires
                    0 <= len < 0x1_0000_0000_0000_0000,
                    0 <= across < 0x1_0000_0000,
            ;
            assert(0 <= (len * across) / (width as int) <= len) by (nonlinear_arith)
                requires
                    0 <= across <= width,
                    width > 0,
                    len >= 0,
            ;
        }
        let raw: u128 = len as u128 * across / width;
        if raw >= len as u128 {
            Some(len - 1)
        } else {
            Some(raw as usize)
        }
    }

    /// The cards of a field of `len` cards in the order in which they are to
    /// be drawn while the pointer hovers over slot `hover`.
    pub fn arrange(&self, len: usize, hover: Option<usize>) -> (plan: Vec<Placement>)
        requires
            self.wf(),
        ensures
            plan@ == self.draw_order(
                len as int,
                match hover {
                    Some(h) => Some(h as int),
                    None => None,
                },
            ),
    {
        let ghost hover_int: Option<int> = match hover {
            Some(h) => Some(h as int),
            None => None,
        };
        let chosen: Option<usize> = match hover {
            Some(h) => if self.selectable && h < len {
                Some(h)
            } else {
                None
            },
            None => None,
        };
        let mut plan: Vec<Placement> = Vec::new();
        let mut idx: usize = 0;
        while idx < len
            invariant
                self.wf(),
                idx <= len,
                match chosen {
                    Some(h) => self.lifted(len as int, hover_int) == Some(h as int) && h < len,
                    None => self.lifted(len as int, hover_int) is None,
                },
                plan@.len() == match chosen {
                    Some(h) => if idx <= h {
                        idx as int
                    } else {
                        idx - 1
                    },
                    None => idx as int,
                },
                forall|k: int|
                    0 <= k < plan@.len() ==> plan@[k] == self.resting(
                        match chosen {
                            Some(h) => if k < h {
                                k
                            } else {
                                k + 1
                            },
                            None => k,
                        },
                        len as int,
                    ),
            decreases len - idx,
        {
            let skip = match chosen {
                Some(h) => h == idx,
                None => false,
            };
            if !skip {
                let at = self.offset(idx, len);
                plan.push(Placement { index: idx, offset: at, lifted: false });
            }
            idx = idx + 1;
        }
        match chosen {
            Some(h) => {
                let at = self.offset(h, len);
                plan.push(
                    Placement {
                        index: h,
                        offset: Point { x: at.x, y: at.y - self.margin as i64 },
                        lifted: true,
                    },
                );
            },
            None => {},
        }
        assert(plan@ =~= self.draw_order(len as int, hover_int));
        plan
    }
}

impl Default for Layout {
    fn default() -> (layout: Layout)
        ensures
            layout == Layout::spec_default(),
            layout.wf(),
    {
        Layout {
            kind: SimpleFieldKind::Horizontal,
            max_cards: 5,
            card_size: Extent { width: 100, height: 135 },
            margin: 4,
            pos: Point { x: 0, y: 0 },
            selectable: false,
        }
    }
}

/// A drawable layout reserves at least the width of one card.
pub proof fn lemma_room_for_one_card(layout: Layout)
    requires
        layout.wf(),
    ensures
        layout.nominal_width() >= layout.card_size.width,
        layout.nominal_width() >= 1,
{
    assert(layout.max_cards * layout.stride() >= layout.stride()) by (nonlinear_arith)
        requires
            layout.max_cards >= 1,
            layout.stride() >= 0,
    ;
}

/// A pile has a bounded depth: going up the pile, the vertical offset of a
/// card never grows, and from the nominal number of cards on it stays what
/// it is there.
pub proof fn stack_depth_is_bounded(layout: Layout, i: int, j: int)
    requires
        layout.kind == SimpleFieldKind::Stack,
        0 <= i <= j,
    ensures
        layout.offset_y(j) <= layout.offset_y(i),
        i >= layout.max_cards ==> layout.offset_y(i) == layout.offset_y(layout.max_cards as int),
        i >= layout.max_cards ==> layout.offset_y(j) == layout.offset_y(i),
{
}

/// A fan never outgrows its footprint: once it holds more cards than it
/// nominally does, its last card starts exactly one card width before the
/// right edge of the reserved width, however many cards there are.
pub proof fn fan_keeps_its_footprint(layout: Layout, len: int)
    requires
        layout.kind == SimpleFieldKind::Horizontal,
        layout.max_cards >= 1,
        len > layout.max_cards,
    ensures
        layout.offset_x(len - 1, len) == layout.nominal_width() - layout.card_size.width,
{
    let room = layout.nominal_width() - layout.card_size.width;
    assert(room * (len - 1) / (len - 1) == room) by (nonlinear_arith)
        requires
            len - 1 > 0,
    ;
}

/// The hovered slot is a slot: for a pointer inside the rectangle of a field
/// that holds cards it is the index of one of them, and for a pointer
/// outside the rectangle there is none.
pub proof fn hover_is_a_slot(layout: Layout, len: int, pointer: Point)
    requires
        layout.wf(),
        len >= 0,
    ensures
        layout.spec_hover(len, pointer) matches Some(i) ==> 0 <= i < len,
        !layout.spec_bounds().spec_contains(pointer) ==> layout.spec_hover(len, pointer) is None,
        layout.spec_bounds().spec_contains(pointer) && len > 0 ==> layout.spec_hover(
            len,
            pointer,
        ) is Some,
{
    lemma_room_for_one_card(layout);
    let rect = layout.spec_bounds();
    if len > 0 && rect.spec_contains(pointer) {
        let across = pointer.x - rect.left();
        let width = rect.right() - rect.left();
        assert(len * across / width >= 0) by (nonlinear_arith)
            requires
                len > 0,
                across >= 0,
                width > 0,
        ;
    }
}

} // verus!
