use card_table::field::{FieldError, SimpleField};
use card_table::geometry::{Extent, Point, Rect};
use card_table::layout::{Layout, Placement, SimpleFieldKind};

fn pile(max_cards: usize, margin: i8) -> Layout {
    Layout {
        kind: SimpleFieldKind::Stack,
        max_cards,
        card_size: Extent::new(100, 144),
        margin,
        pos: Point::new(0, 0),
        selectable: false,
    }
}

fn fan(max_cards: usize, margin: i8) -> Layout {
    Layout {
        kind: SimpleFieldKind::Horizontal,
        max_cards,
        card_size: Extent::new(100, 144),
        margin,
        pos: Point::new(0, 0),
        selectable: true,
    }
}

fn letters(n: usize) -> SimpleField<char> {
    let mut field = SimpleField::new();
    for i in 0..n {
        field.push((b'A' + i as u8) as char);
    }
    field
}

#[test]
fn default_layout_is_a_fan_of_five() {
    let layout = Layout::default();
    assert_eq!(layout.kind, SimpleFieldKind::Horizontal);
    assert_eq!(layout.max_cards, 5);
    assert_eq!(layout.card_size, Extent::new(100, 135));
    assert_eq!(layout.margin, 4);
    assert_eq!(layout.pos, Point::new(0, 0));
    assert!(!layout.selectable);
    assert!(layout.is_valid());
    assert_eq!(layout.footprint(), Extent::new(516, 135));
    assert_eq!(layout.bounds(), Rect::new(Point::new(0, 0), Extent::new(516, 135)));
}

#[test]
fn footprints_follow_the_kind() {
    assert_eq!(pile(5, 5).footprint(), Extent::new(105, 149));
    assert_eq!(fan(5, 5).footprint(), Extent::new(520, 144));
    assert_eq!(fan(1, 5).footprint(), Extent::new(100, 144));
    assert_eq!(fan(3, -20).footprint(), Extent::new(260, 144));
}

#[test]
fn layouts_that_cannot_be_drawn_are_told_apart() {
    assert!(!fan(0, 5).is_valid());
    assert!(!pile(0, 5).is_valid());
    assert!(fan(1, -100).is_valid());
    assert!(!fan(1, -101).is_valid());
    let mut flat = fan(5, 5);
    flat.card_size = Extent::new(100, 0);
    assert!(!flat.is_valid());
    let mut thin = fan(5, 5);
    thin.card_size = Extent::new(0, 10);
    assert!(!thin.is_valid());
    assert!(!fan(usize::MAX, 5).is_valid());
    assert!(!pile(usize::MAX, 5).is_valid());
    assert!(pile(u32::MAX as usize - 144, 5).is_valid());
    assert!(!pile(u32::MAX as usize - 143, 5).is_valid());
    let mut overlapped = fan(usize::MAX, -100);
    overlapped.card_size = Extent::new(100, 144);
    assert!(overlapped.is_valid());
    assert_eq!(overlapped.footprint(), Extent::new(100, 144));
}

#[test]
fn stack_offsets_are_capped() {
    let layout = pile(5, 4);
    assert_eq!(layout.offset(0, 10), Point::new(0, 4));
    assert_eq!(layout.offset(1, 10), Point::new(1, 3));
    assert_eq!(layout.offset(3, 10), Point::new(3, 1));
    assert_eq!(layout.offset(5, 10), Point::new(5, -1));
    assert_eq!(layout.offset(6, 10), Point::new(5, -1));
    assert_eq!(layout.offset(9, 10), Point::new(5, -1));
}

#[test]
fn stack_depth_never_grows_and_ends_flat() {
    for capacity in 1..8usize {
        let layout = pile(capacity, 3);
        let len = 20;
        let mut above = layout.offset(0, len).y;
        for i in 1..len {
            let y = layout.offset(i, len).y;
            assert!(y <= above);
            if i >= capacity {
                assert_eq!(y, layout.offset(capacity, len).y);
            }
            above = y;
        }
    }
}

#[test]
fn fan_is_evenly_spaced_up_to_its_capacity() {
    let layout = fan(5, 4);
    assert_eq!(layout.offset(0, 3), Point::new(0, 0));
    assert_eq!(layout.offset(1, 3), Point::new(104, 0));
    assert_eq!(layout.offset(2, 3), Point::new(208, 0));
    assert_eq!(layout.offset(4, 5), Point::new(416, 0));
}

#[test]
fn fan_is_squeezed_beyond_its_capacity() {
    let layout = fan(5, 4);
    let xs: Vec<i64> = (0..7).map(|i| layout.offset(i, 7).x).collect();
    assert_eq!(xs, vec![0, 69, 138, 208, 277, 346, 416]);
    assert_eq!(layout.offset(1, 6).x, 83);
}

#[test]
fn fan_never_outgrows_its_footprint() {
    for capacity in 1..6usize {
        for margin in [-20i8, 0, 4, 127] {
            let layout = fan(capacity, margin);
            let reserved = layout.footprint().width as i64;
            for len in (capacity + 1)..40 {
                assert_eq!(layout.offset(len - 1, len).x, reserved - 100);
                for i in 0..len {
                    let x = layout.offset(i, len).x;
                    assert!(0 <= x && x + 100 <= reserved);
                }
            }
        }
    }
}

#[test]
fn hover_follows_the_pointer() {
    let field = letters(3).pos(Point::new(10, 20));
    assert_eq!(field.hover_index(Point::new(10, 20)), Some(0));
    assert_eq!(field.hover_index(Point::new(181, 50)), Some(0));
    assert_eq!(field.hover_index(Point::new(182, 50)), Some(1));
    assert_eq!(field.hover_index(Point::new(268, 50)), Some(1));
    assert_eq!(field.hover_index(Point::new(354, 50)), Some(2));
    assert_eq!(field.hover_index(Point::new(525, 155)), Some(2));
}

#[test]
fn hover_is_clamped_at_the_right_edge() {
    let field = letters(3).pos(Point::new(10, 20));
    assert_eq!(field.hover_index(Point::new(526, 155)), Some(2));
    let one = letters(1);
    assert_eq!(one.hover_index(Point::new(516, 0)), Some(0));
}

#[test]
fn hover_is_absent_outside_the_field() {
    let field = letters(3).pos(Point::new(10, 20));
    assert_eq!(field.hover_index(Point::new(9, 50)), None);
    assert_eq!(field.hover_index(Point::new(527, 50)), None);
    assert_eq!(field.hover_index(Point::new(100, 19)), None);
    assert_eq!(field.hover_index(Point::new(100, 156)), None);
    assert_eq!(field.hover_index(Point::new(i64::MIN, i64::MAX)), None);
}

#[test]
fn hover_is_absent_over_an_empty_field() {
    let field: SimpleField<char> = SimpleField::new();
    assert_eq!(field.hover_index(Point::new(5, 5)), None);
}

#[test]
fn hover_is_always_a_slot() {
    for len in 1..12usize {
        let field = letters(len).max_cards(4).pos(Point::new(-50, -50));
        let rect = field.layout().bounds();
        for x in -60..(rect.size.width as i64) {
            let slot = field.hover_index(Point::new(x, -40));
            if x < -50 || x > -50 + rect.size.width as i64 {
                assert_eq!(slot, None);
            } else {
                assert!(slot.unwrap() < len);
            }
        }
    }
}

#[test]
fn hover_does_not_follow_the_squeezed_cards() {
    let field = letters(10).max_cards(2);
    assert_eq!(field.layout().footprint(), Extent::new(204, 135));
    assert_eq!(field.position_of(9), Ok(Point::new(104, 0)));
    assert_eq!(field.hover_index(Point::new(104, 10)), Some(5));
}

#[test]
fn position_of_names_a_card() {
    let field = letters(3);
    assert_eq!(field.position_of(0), Ok(Point::new(0, 0)));
    assert_eq!(field.position_of(2), Ok(Point::new(208, 0)));
    assert_eq!(field.position_of(3), Err(FieldError::IndexOutOfRange));
    assert_eq!(field.position_of(usize::MAX), Err(FieldError::IndexOutOfRange));
    let empty: SimpleField<char> = SimpleField::new();
    assert_eq!(empty.position_of(0), Err(FieldError::IndexOutOfRange));
    let stacked = letters(8).kind(SimpleFieldKind::Stack);
    assert_eq!(stacked.position_of(7), Ok(Point::new(5, -1)));
}

#[test]
fn render_draws_in_field_order_without_hover() {
    let field = letters(3).selectable(true);
    assert_eq!(
        field.render(None),
        vec![
            Placement { index: 0, offset: Point::new(0, 0), lifted: false },
            Placement { index: 1, offset: Point::new(104, 0), lifted: false },
            Placement { index: 2, offset: Point::new(208, 0), lifted: false },
        ]
    );
}

#[test]
fn render_draws_the_hovered_card_last_and_lifted() {
    let field = letters(3).selectable(true);
    assert_eq!(
        field.render(Some(1)),
        vec![
            Placement { index: 0, offset: Point::new(0, 0), lifted: false },
            Placement { index: 2, offset: Point::new(208, 0), lifted: false },
            Placement { index: 1, offset: Point::new(104, -4), lifted: true },
        ]
    );
    assert_eq!(
        field.render(Some(2)),
        vec![
            Placement { index: 0, offset: Point::new(0, 0), lifted: false },
            Placement { index: 1, offset: Point::new(104, 0), lifted: false },
            Placement { index: 2, offset: Point::new(208, -4), lifted: true },
        ]
    );
}

#[test]
fn render_never_lifts_in_a_field_that_is_not_selectable() {
    let field = letters(3);
    let plan = field.render(Some(1));
    assert_eq!(plan.len(), 3);
    for (i, placement) in plan.iter().enumerate() {
        assert_eq!(placement.index, i);
        assert!(!placement.lifted);
    }
}

#[test]
fn render_ignores_a_hover_that_names_no_card() {
    let field = letters(2).selectable(true);
    let plan = field.render(Some(2));
    assert_eq!(plan.len(), 2);
    assert!(plan.iter().all(|placement| !placement.lifted));
    let empty: SimpleField<char> = SimpleField::new().selectable(true);
    assert_eq!(empty.render(Some(0)), Vec::new());
    assert_eq!(empty.render(None), Vec::new());
}

#[test]
fn render_of_a_pile_goes_bottom_up() {
    let field = letters(7).kind(SimpleFieldKind::Stack).max_cards(3).margin(2);
    let plan = field.render(None);
    let offsets: Vec<Point> = plan.iter().map(|placement| placement.offset).collect();
    assert_eq!(
        offsets,
        vec![
            Point::new(0, 2),
            Point::new(1, 1),
            Point::new(2, 0),
            Point::new(3, -1),
            Point::new(3, -1),
            Point::new(3, -1),
            Point::new(3, -1),
        ]
    );
}
