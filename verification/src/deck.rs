//! The conventional 52-card deck: suits, ranks, cards and the walks over them.

use crate::geometry::Point;
use rand::Rng;
use vstd::prelude::*;
use vstd::string::StringExecFns;

verus! {

/// The four suits, in deck order.
#[derive(Clone, Copy, Debug, PartialEq, Eq, PartialOrd, Ord, Hash, Structural)]
pub enum Suit {
    Heart,
    Diamond,
    Club,
    Spade,
}

/// The thirteen ranks, in deck order, ace low.
#[derive(Clone, Copy, Debug, PartialEq, Eq, PartialOrd, Ord, Hash, Structural)]
pub enum Rank {
    Ace,
    Two,
    Three,
    Four,
    Five,
    Six,
    Seven,
    Eight,
    Nine,
    Ten,
    Jack,
    Queen,
    King,
}

impl Suit {
    /// The place of the suit in deck order, from 0.
    pub open spec fn index(self) -> int {
        match self {
            Suit::Heart => 0,
            Suit::Diamond => 1,
            Suit::Club => 2,
            Suit::Spade => 3,
        }
    }

    /// The suit at place `index` of deck order; anything past the end is the
    /// last suit.
    pub open spec fn at(index: int) -> Suit {
        if index <= 0 {
            Suit::Heart
        } else if index == 1 {
            Suit::Diamond
        } else if index == 2 {
            Suit::Club
        } else {
            Suit::Spade
        }
    }

    /// All suits in deck order.
    pub open spec fn all() -> Seq<Suit> {
        Seq::new(4, |i: int| Suit::at(i))
    }

    /// A walk over all suits, starting at the first.
    pub fn iter() -> (walk: SuitIter)
        ensures
            walk.remaining() == Suit::all(),
    {
        let walk = SuitIter { value: Some(Suit::Heart) };
        assert(walk.remaining() =~= Suit::all());
        walk
    }

    /// The number of suits.
    pub fn len() -> (n: usize)
        ensures
            n == 4,
            n == Suit::all().len(),
    {
        4
    }

    /// The suit at place `index` of deck order.
    pub fn from(index: usize) -> (suit: Suit)
        requires
            index < 4,
        ensures
            suit == Suit::at(index as int),
            suit.index() == index,
    {
        if index == 0 {
            Suit::Heart
        } else if index == 1 {
            Suit::Diamond
        } else if index == 2 {
            Suit::Club
        } else {
            Suit::Spade
        }
    }

    /// The suit's name, capitalised.
    pub open spec fn spec_name(self) -> Seq<char> {
        match self {
            Suit::Heart => "Heart"@,
            Suit::Diamond => "Diamond"@,
            Suit::Club => "Club"@,
            Suit::Spade => "Spade"@,
        }
    }

    /// The suit's name, capitalised.
    pub fn name(&self) -> (text: &'static str)
        ensures
            text@ == self.spec_name(),
    {
        match self {
            Suit::Heart => "Heart",
            Suit::Diamond => "Diamond",
            Suit::Club => "Club",
            Suit::Spade => "Spade",
        }
    }

    /// The suit's name in lower case, as image files spell it.
    pub open spec fn spec_file_name(self) -> Seq<char> {
        match self {
            Suit::Heart => "heart"@,
            Suit::Diamond => "diamond"@,
            Suit::Club => "club"@,
            Suit::Spade => "spade"@,
        }
    }

    /// The suit's name in lower case, as image files spell it.
    pub fn file_name(&self) -> (text: &'static str)
        ensures
            text@ == self.spec_file_name(),
    {
        match self {
            Suit::Heart => "heart",
            Suit::Diamond => "diamond",
            Suit::Club => "club",
            Suit::Spade => "spade",
        }
    }
}

impl Default for Suit {
    fn default() -> (suit: Suit)
        ensures
            suit == Suit::Heart,
    {
        Suit::Heart
    }
}

/// A walk over the suits in deck order.
pub struct SuitIter {
    value: Option<Suit>,
}

impl SuitIter {
    /// The suits still to come, next one first.
    pub closed spec fn remaining(&self) -> Seq<Suit> {
        match self.value {
            Some(suit) => Suit::all().skip(suit.index()),
            None => Seq::empty(),
        }
    }

    /// The value that follows `value` in the walk.
    spec fn successor(value: Option<Suit>) -> Option<Suit> {
        match value {
            Some(suit) => if suit.index() < 3 {
                Some(Suit::at(suit.index() + 1))
            } else {
                None
            },
            None => None,
        }
    }

    /// Hands out the current value and moves on to its successor.
    fn step(&mut self) -> (item: Option<Suit>)
        ensures
            item == old(self).value,
            final(self).value == SuitIter::successor(old(self).value),
    {
        let current = self.value;
        match current {
            None => {},
            Some(Suit::Heart) => {
                self.value = Some(Suit::Diamond);
            },
            Some(Suit::Diamond) => {
                self.value = Some(Suit::Club);
            },
            Some(Suit::Club) => {
                self.value = Some(Suit::Spade);
            },
            Some(Suit::Spade) => {
                self.value = None;
            },
        }
        current
    }

    /// Hands out the next suit, or `None` once all four have been handed out.
    pub fn next(&mut self) -> (item: Option<Suit>)
        ensures
            old(self).remaining().len() == 0 ==> item is None && final(self).remaining().len() == 0,
            old(self).remaining().len() > 0 ==> item == Some(old(self).remaining()[0])
                && final(self).remaining() == old(self).remaining().skip(1),
    {
        let item = self.step();
        proof {
            if item is Some {
                assert(self.remaining() =~= old(self).remaining().skip(1));
            }
        }
        item
    }
}

impl Default for SuitIter {
    fn default() -> (walk: SuitIter)
        ensures
            walk.remaining() == Suit::all(),
    {
        Suit::iter()
    }
}

impl Rank {
    /// The place of the rank in deck order, from 0.
    pub open spec fn index(self) -> int {
        match self {
            Rank::Ace => 0,
            Rank::Two => 1,
            Rank::Three => 2,
            Rank::Four => 3,
            Rank::Five => 4,
            Rank::Six => 5,
            Rank::Seven => 6,
            Rank::Eight => 7,
            Rank::Nine => 8,
            Rank::Ten => 9,
            Rank::Jack => 10,
            Rank::Queen => 11,
            Rank::King => 12,
        }
    }

    /// The rank at place `index` of deck order; anything past the end is the
    /// last rank.
    pub open spec fn at(index: int) -> Rank {
        if index <= 0 {
            Rank::Ace
        } else if index == 1 {
            Rank::Two
        } else if index == 2 {
            Rank::Three
        } else if index == 3 {
            Rank::Four
        } else if index == 4 {
            Rank::Five
        } else if index == 5 {
            Rank::Six
        } else if index == 6 {
            Rank::Seven
        } else if index == 7 {
            Rank::Eight
        } else if index == 8 {
            Rank::Nine
        } else if index == 9 {
            Rank::Ten
        } else if index == 10 {
            Rank::Jack
        } else if index == 11 {
            Rank::Queen
        } else {
            Rank::King
        }
    }

    /// All ranks in deck order.
    pub open spec fn all() -> Seq<Rank> {
        Seq::new(13, |i: int| Rank::at(i))
    }

    /// A walk over all ranks, starting at the ace.
    pub fn iter() -> (walk: RankIter)
        ensures
            walk.remaining() == Rank::all(),
    {
        let walk = RankIter { value: Some(Rank::Ace) };
        assert(walk.remaining() =~= Rank::all());
        walk
    }

    /// The number of ranks.
    pub fn len() -> (n: usize)
        ensures
            n == 13,
            n == Rank::all().len(),
    {
        13
    }

    /// The rank at place `index` of deck order.
    pub fn from(index: usize) -> (rank: Rank)
        requires
            index < 13,
        ensures
            rank == Rank::at(index as int),
            rank.index() == index,
    {
        if index == 0 {
            Rank::Ace
        } else if index == 1 {
            Rank::Two
        } else if index == 2 {
            Rank::Three
        } else if index == 3 {
            Rank::Four
        } else if index == 4 {
            Rank::Five
        } else if index == 5 {
            Rank::Six
        } else if index == 6 {
            Rank::Seven
        } else if index == 7 {
            Rank::Eight
        } else if index == 8 {
            Rank::Nine
        } else if index == 9 {
            Rank::Ten
        } else if index == 10 {
            Rank::Jack
        } else if index == 11 {
            Rank::Queen
        } else {
            Rank::King
        }
    }

    /// The rank's name, capitalised.
    pub open spec fn spec_name(self) -> Seq<char> {
        match self {
            Rank::Ace => "Ace"@,
            Rank::Two => "Two"@,
            Rank::Three => "Three"@,
            Rank::Four => "Four"@,
            Rank::Five => "Five"@,
            Rank::Six => "Six"@,
            Rank::Seven => "Seven"@,
            Rank::Eight => "Eight"@,
            Rank::Nine => "Nine"@,
            Rank::Ten => "Ten"@,
            Rank::Jack => "Jack"@,
            Rank::Queen => "Queen"@,
            Rank::King => "King"@,
        }
    }

    /// The rank's name, capitalised.
    pub fn name(&self) -> (text: &'static str)
        ensures
            text@ == self.spec_name(),
    {
        match self {
            Rank::Ace => "Ace",
            Rank::Two => "Two",
            Rank::Three => "Three",
            Rank::Four => "Four",
            Rank::Five => "Five",
            Rank::Six => "Six",
            Rank::Seven => "Seven",
            Rank::Eight => "Eight",
            Rank::Nine => "Nine",
            Rank::Ten => "Ten",
            Rank::Jack => "Jack",
            Rank::Queen => "Queen",
            Rank::King => "King",
        }
    }

    /// The rank's number, 1 for the ace up to 13 for the king, in decimal.
    pub open spec fn spec_number(self) -> Seq<char> {
        match self {
            Rank::Ace => "1"@,
            Rank::Two => "2"@,
            Rank::Three => "3"@,
            Rank::Four => "4"@,
            Rank::Five => "5"@,
            Rank::Six => "6"@,
            Rank::Seven => "7"@,
            Rank::Eight => "8"@,
            Rank::Nine => "9"@,
            Rank::Ten => "10"@,
            Rank::Jack => "11"@,
            Rank::Queen => "12"@,
            Rank::King => "13"@,
        }
    }

    /// The rank's number, 1 for the ace up to 13 for the king, in decimal.
    pub fn number(&self) -> (text: &'static str)
        ensures
            text@ == self.spec_number(),
    {
        match self {
            Rank::Ace => "1",
            Rank::Two => "2",
            Rank::Three => "3",
            Rank::Four => "4",
            Rank::Five => "5",
            Rank::Six => "6",
            Rank::Seven => "7",
            Rank::Eight => "8",
            Rank::Nine => "9",
            Rank::Ten => "10",
            Rank::Jack => "11",
            Rank::Queen => "12",
            Rank::King => "13",
        }
    }
}

impl Default for Rank {
    fn default() -> (rank: Rank)
        ensures
            rank == Rank::Ace,
    {
        Rank::Ace
    }
}

/// A walk over the ranks in deck order.
pub struct RankIter {
    value: Option<Rank>,
}

impl RankIter {
    /// The ranks still to come, next one first.
    pub closed spec fn remaining(&self) -> Seq<Rank> {
        match self.value {
            Some(rank) => Rank::all().skip(rank.index()),
            None => Seq::empty(),
        }
    }

    /// The value that follows `value` in the walk.
    spec fn successor(value: Option<Rank>) -> Option<Rank> {
        match value {
            Some(rank) => if rank.index() < 12 {
                Some(Rank::at(rank.index() + 1))
            } else {
                None
            },
            None => None,
        }
    }

    /// Hands out the current value and moves on to its successor.
    fn step(&mut self) -> (item: Option<Rank>)
        ensures
            item == old(self).value,
            final(self).value == RankIter::successor(old(self).value),
    {
        let current = self.value;
        match current {
            None => {},
            Some(Rank::Ace) => {
                self.value = Some(Rank::Two);
            },
            Some(Rank::Two) => {
                self.value = Some(Rank::Three);
            },
            Some(Rank::Three) => {
                self.value = Some(Rank::Four);
            },
            Some(Rank::Four) => {
                self.value = Some(Rank::Five);
            },
            Some(Rank::Five) => {
                self.value = Some(Rank::Six);
            },
            Some(Rank::Six) => {
                self.value = Some(Rank::Seven);
            },
            Some(Rank::Seven) => {
                self.value = Some(Rank::Eight);
            },
            Some(Rank::Eight) => {
                self.value = Some(Rank::Nine);
            },
            Some(Rank::Nine) => {
                self.value = Some(Rank::Ten);
            },
            Some(Rank::Ten) => {
                self.value = Some(Rank::Jack);
            },
            Some(Rank::Jack) => {
                self.value = Some(Rank::Queen);
            },
            Some(Rank::Queen) => {
                self.value = Some(Rank::King);
            },
            Some(Rank::King) => {
                self.value = None;
            },
        }
        current
    }

    /// Hands out the next rank, or `None` once all thirteen have been handed
    /// out.
    pub fn next(&mut self) -> (item: Option<Rank>)
        ensures
            old(self).remaining().len() == 0 ==> item is None && final(self).remaining().len() == 0,
            old(self).remaining().len() > 0 ==> item == Some(old(self).remaining()[0])
                && final(self).remaining() == old(self).remaining().skip(1),
    {
        let item = self.step();
        proof {
            if item is Some {
                assert(self.remaining() =~= old(self).remaining().skip(1));
            }
        }
        item
    }
}

impl Default for RankIter {
    fn default() -> (walk: RankIter)
        ensures
            walk.remaining() == Rank::all(),
    {
        Rank::iter()
    }
}

/// One card of the conventional deck, lying face up at `pos`.
#[derive(Clone, Copy, Debug, PartialEq, Eq, Structural)]
pub struct ConventionalCard {
    pub suit: Suit,
    pub rank: Rank,
    pub pos: Point,
}

/// Draws a number below `bound` from the thread-local generator of `rand`
/// (`thread_rng().gen_range(0..bound)`). The contract claims only what
/// `gen_range` documents of every draw from a half-open range: the number lies
/// in the range. `gen_range` panics on an empty range, which `requires` leaves
/// out.
#[verifier::external_body]
fn random_below(bound: usize) -> (drawn: usize)
    requires
        bound > 0,
    ensures
        drawn < bound,
{
    rand::thread_rng().gen_range(0..bound)
}

impl ConventionalCard {
    /// The whole deck: suit by suit, and within a suit rank by rank, every
    /// card at the origin.
    pub open spec fn deck() -> Seq<ConventionalCard> {
        Seq::new(
            52,
            |n: int|
                ConventionalCard {
                    suit: Suit::at(n / 13),
                    rank: Rank::at(n % 13),
                    pos: Point { x: 0, y: 0 },
                },
        )
    }

    /// A walk over the whole deck.
    pub fn _iter() -> (walk: ConventionalCardIter)
        ensures
            walk.remaining() == ConventionalCard::deck(),
    {
        ConventionalCardIter::default()
    }

    /// The card that four draws stand for: the rank and the suit by their
    /// places in deck order, and the two coordinates of its position.
    pub fn from_draws(rank: usize, suit: usize, x: usize, y: usize) -> (card: ConventionalCard)
        requires
            rank < 13,
            suit < 4,
            x <= i64::MAX,
            y <= i64::MAX,
        ensures
            card.rank == Rank::at(rank as int),
            card.suit == Suit::at(suit as int),
            card.pos.x == x,
            card.pos.y == y,
    {
        ConventionalCard {
            suit: Suit::from(suit),
            rank: Rank::from(rank),
            pos: Point { x: x as i64, y: y as i64 },
        }
    }

    /// A card of random rank and suit at a random position of the square
    /// `[0, 1000) x [0, 1000)`.
    pub fn new_random() -> (card: ConventionalCard)
        ensures
            0 <= card.pos.x < 1000,
            0 <= card.pos.y < 1000,
    {
        let rank = random_below(Rank::len());
        let suit = random_below(Suit::len());
        let x = random_below(1000);
        let y = random_below(1000);
        ConventionalCard::from_draws(rank, suit, x, y)
    }

    /// The address of the card's image.
    pub open spec fn spec_img_path(self) -> Seq<char> {
        "http://127.0.0.1:8080/media/img_cards/"@ + self.rank.spec_number() + "_"@
            + self.suit.spec_file_name() + ".png"@
    }

    /// The address of the card's image: the rank's number and the suit's
    /// lower-case name, joined by an underscore, under the media directory.
    pub fn img_path(&self) -> (path: String)
        ensures
            path@ == self.spec_img_path(),
    {
        let mut path = String::from_str("http://127.0.0.1:8080/media/img_cards/");
        path.append(self.rank.number());
        path.append("_");
        path.append(self.suit.file_name());
        path.append(".png");
        path
    }

    /// Where the card lies.
    pub fn pos(&self) -> (p: Point)
        ensures
            p == self.pos,
    {
        self.pos
    }

    /// Puts the card at `pos`.
    pub fn set_pos(&mut self, pos: Point)
        ensures
            *final(self) == (ConventionalCard { pos, ..*old(self) }),
    {
        self.pos = pos;
    }

    /// Moves the card by `amt`.
    pub fn translate(&mut self, amt: Point)
        requires
            old(self).pos.can_translate(amt),
        ensures
            final(self).suit == old(self).suit,
            final(self).rank == old(self).rank,
            final(self).pos.x == old(self).pos.x + amt.x,
            final(self).pos.y == old(self).pos.y + amt.y,
    {
        self.pos = Point { x: self.pos.x + amt.x, y: self.pos.y + amt.y };
    }
}

impl Default for ConventionalCard {
    fn default() -> (card: ConventionalCard)
        ensures
            card == ConventionalCard::deck()[0],
    {
        ConventionalCard { suit: Suit::Heart, rank: Rank::Ace, pos: Point { x: 0, y: 0 } }
    }
}

/// A walk over the whole deck, suit by suit.
pub struct ConventionalCardIter {
    suit: SuitIter,
    rank: RankIter,
}

impl ConventionalCardIter {
    /// The cards still to come, next one first.
    pub closed spec fn remaining(&self) -> Seq<ConventionalCard> {
        match (self.suit.value, self.rank.value) {
            (None, _) => Seq::empty(),
            (Some(suit), Some(rank)) => ConventionalCard::deck().skip(
                13 * suit.index() + rank.index(),
            ),
            (Some(suit), None) => ConventionalCard::deck().skip(13 * (suit.index() + 1)),
        }
    }

    /// Hands out the next card, or `None` once all fifty-two have been handed
    /// out.
    pub fn next(&mut self) -> (item: Option<ConventionalCard>)
        ensures
            old(self).remaining().len() == 0 ==> item is None && final(self).remaining().len() == 0,
            old(self).remaining().len() > 0 ==> item == Some(old(self).remaining()[0])
                && final(self).remaining() == old(self).remaining().skip(1),
    {
        if self.rank.value.is_none() {
            if self.suit.value.is_none() {
                return None;
            } else {
                self.rank = RankIter { value: Some(Rank::Ace) };
                let _ = self.suit.step();
            }
        }
        proof {
            if self.suit.value is Some {
                assert(self.remaining() =~= old(self).remaining());
            }
        }
        let rank = self.rank.step();
        match (rank, self.suit.value) {
            (Some(rank), Some(suit)) => {
                let card = ConventionalCard { rank, suit, pos: Point { x: 0, y: 0 } };
                proof {
                    let n = 13 * suit.index() + rank.index();
                    assert(n / 13 == suit.index() && n % 13 == rank.index());
                    assert(self.remaining() =~= old(self).remaining().skip(1));
                }
                Some(card)
            },
            _ => None,
        }
    }
}

impl Default for ConventionalCardIter {
    fn default() -> (walk: ConventionalCardIter)
        ensures
            walk.remaining() == ConventionalCard::deck(),
    {
        let walk = ConventionalCardIter {
            suit: SuitIter { value: Some(Suit::Heart) },
            rank: RankIter { value: Some(Rank::Ace) },
        };
        assert(walk.remaining() =~= ConventionalCard::deck());
        walk
    }
}

/// The back of a card: it shows nothing and stays where it is.
#[derive(Clone, Copy, Debug, PartialEq, Eq, Structural)]
pub struct Backside {}

impl Backside {
    /// A card back.
    pub fn new() -> (back: Backside)
        ensures
            back == (Backside {  }),
    {
        Backside {  }
    }

    /// The address of the image of a card back.
    pub fn img_path(&self) -> (path: &'static str)
        ensures
            path@ == "https://placehold.co/100x144/png?text=Hello World!"@,
    {
        "https://placehold.co/100x144/png?text=Hello World!"
    }

    /// Where a card back is shown: always at (500, 500).
    pub fn pos(&self) -> (p: Point)
        ensures
            p == (Point { x: 500, y: 500 }),
    {
        Point { x: 500, y: 500 }
    }

    /// A card back cannot be placed: nothing changes.
    pub fn set_pos(&mut self, _pos: Point)
        ensures
            *final(self) == *old(self),
    {
    }

    /// A card back cannot be moved: nothing changes.
    pub fn translate(&mut self, _amt: Point)
        ensures
            *final(self) == *old(self),
    {
    }
}

impl Default for Backside {
    fn default() -> (back: Backside)
        ensures
            back == (Backside {  }),
    {
        Backside::new()
    }
}

} // verus!
