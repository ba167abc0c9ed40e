use card_table::deck::{Backside, ConventionalCard, ConventionalCardIter, Rank, RankIter, Suit, SuitIter};
use card_table::geometry::Point;

#[test]
fn suits_and_ranks_are_counted() {
    assert_eq!(Suit::len(), 4);
    assert_eq!(Rank::len(), 13);
}

#[test]
fn suit_walk_hands_out_every_suit_once() {
    let mut walk = Suit::iter();
    assert_eq!(walk.next(), Some(Suit::Heart));
    assert_eq!(walk.next(), Some(Suit::Diamond));
    assert_eq!(walk.next(), Some(Suit::Club));
    assert_eq!(walk.next(), Some(Suit::Spade));
    assert_eq!(walk.next(), None);
    assert_eq!(walk.next(), None);
}

#[test]
fn rank_walk_hands_out_every_rank_once() {
    let mut walk = Rank::iter();
    let mut seen = Vec::new();
    while let Some(rank) = walk.next() {
        seen.push(rank);
    }
    assert_eq!(
        seen,
        vec![
            Rank::Ace,
            Rank::Two,
            Rank::Three,
            Rank::Four,
            Rank::Five,
            Rank::Six,
            Rank::Seven,
            Rank::Eight,
            Rank::Nine,
            Rank::Ten,
            Rank::Jack,
            Rank::Queen,
            Rank::King
        ]
    );
    assert_eq!(walk.next(), None);
}

#[test]
fn default_walks_start_at_the_first_item() {
    let mut suits = SuitIter::default();
    let mut ranks = RankIter::default();
    assert_eq!(suits.next(), Some(Suit::Heart));
    assert_eq!(ranks.next(), Some(Rank::Ace));
    assert_eq!(Suit::default(), Suit::Heart);
    assert_eq!(Rank::default(), Rank::Ace);
}

#[test]
fn suits_and_ranks_come_from_their_places() {
    assert_eq!(Suit::from(0), Suit::Heart);
    assert_eq!(Suit::from(1), Suit::Diamond);
    assert_eq!(Suit::from(2), Suit::Club);
    assert_eq!(Suit::from(3), Suit::Spade);
    assert_eq!(Rank::from(0), Rank::Ace);
    assert_eq!(Rank::from(9), Rank::Ten);
    assert_eq!(Rank::from(10), Rank::Jack);
    assert_eq!(Rank::from(12), Rank::King);
}

#[test]
fn suits_and_ranks_are_ordered_as_in_the_deck() {
    assert!(Suit::Heart < Suit::Diamond);
    assert!(Suit::Club < Suit::Spade);
    assert!(Rank::Ace < Rank::Two);
    assert!(Rank::Queen < Rank::King);
}

#[test]
fn names_are_spelled_out() {
    assert_eq!(Suit::Heart.name(), "Heart");
    assert_eq!(Suit::Spade.name(), "Spade");
    assert_eq!(Suit::Diamond.file_name(), "diamond");
    assert_eq!(Rank::Ace.name(), "Ace");
    assert_eq!(Rank::King.name(), "King");
    assert_eq!(Rank::Ace.number(), "1");
    assert_eq!(Rank::Ten.number(), "10");
    assert_eq!(Rank::King.number(), "13");
}

#[test]
fn deck_walk_goes_suit_by_suit() {
    let mut walk = ConventionalCard::_iter();
    let mut cards = Vec::new();
    while let Some(card) = walk.next() {
        cards.push(card);
    }
    assert_eq!(cards.len(), 52);
    assert_eq!(cards[0].suit, Suit::Heart);
    assert_eq!(cards[0].rank, Rank::Ace);
    assert_eq!(cards[12].suit, Suit::Heart);
    assert_eq!(cards[12].rank, Rank::King);
    assert_eq!(cards[13].suit, Suit::Diamond);
    assert_eq!(cards[13].rank, Rank::Ace);
    assert_eq!(cards[51].suit, Suit::Spade);
    assert_eq!(cards[51].rank, Rank::King);
    for (n, card) in cards.iter().enumerate() {
        assert_eq!(card.suit, Suit::from(n / 13));
        assert_eq!(card.rank, Rank::from(n % 13));
        assert_eq!(card.pos, Point::new(0, 0));
    }
    for a in 0..52 {
        for b in (a + 1)..52 {
            assert_ne!(cards[a], cards[b]);
        }
    }
}

#[test]
fn deck_walk_stays_finished() {
    let mut walk = ConventionalCardIter::default();
    for _ in 0..52 {
        assert!(walk.next().is_some());
    }
    for _ in 0..40 {
        assert_eq!(walk.next(), None);
    }
}

#[test]
fn card_from_draws_is_exact() {
    let card = ConventionalCard::from_draws(11, 2, 640, 7);
    assert_eq!(card.rank, Rank::Queen);
    assert_eq!(card.suit, Suit::Club);
    assert_eq!(card.pos, Point::new(640, 7));
}

#[test]
fn random_cards_lie_in_the_square() {
    for _ in 0..2000 {
        let card = ConventionalCard::new_random();
        assert!(0 <= card.pos.x && card.pos.x < 1000);
        assert!(0 <= card.pos.y && card.pos.y < 1000);
    }
}

#[test]
fn random_cards_are_not_all_alike() {
    let first = ConventionalCard::new_random();
    let mut differs = false;
    for _ in 0..200 {
        if ConventionalCard::new_random() != first {
            differs = true;
        }
    }
    assert!(differs);
}

#[test]
fn image_address_names_rank_and_suit() {
    let card = ConventionalCard { suit: Suit::Spade, rank: Rank::Queen, pos: Point::new(3, 4) };
    assert_eq!(card.img_path(), "http://127.0.0.1:8080/media/img_cards/12_spade.png");
    let ace = ConventionalCard::default();
    assert_eq!(ace.img_path(), "http://127.0.0.1:8080/media/img_cards/1_heart.png");
}

#[test]
fn conventional_card_moves() {
    let mut card = ConventionalCard::default();
    assert_eq!(card.pos(), Point::new(0, 0));
    card.set_pos(Point::new(10, -20));
    assert_eq!(card.pos(), Point::new(10, -20));
    card.translate(Point::new(5, 5));
    assert_eq!(card.pos(), Point::new(15, -15));
    assert_eq!(card.suit, Suit::Heart);
    assert_eq!(card.rank, Rank::Ace);
}

#[test]
fn backside_stays_put() {
    let mut back = Backside::new();
    assert_eq!(back, Backside::default());
    assert_eq!(back.pos(), Point::new(500, 500));
    back.set_pos(Point::new(1, 2));
    back.translate(Point::new(3, 4));
    assert_eq!(back.pos(), Point::new(500, 500));
    assert_eq!(back.img_path(), "https://placehold.co/100x144/png?text=Hello World!");
}
