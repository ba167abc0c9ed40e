//! Cards that show a face from a directory of images or from the
//! conventional deck, and the directory itself.

use crate::deck::{ConventionalCard, Rank, Suit};
use crate::geometry::Point;
use vstd::prelude::*;
use vstd::string::StringExecFns;

verus! {

/// What a card shows.
#[derive(Clone, Copy, Debug, PartialEq, Eq, Structural)]
pub enum Face {
    /// A card of the conventional deck.
    Conventional(Suit, Rank),
    /// The image with this index in a directory of images.
    Directory(usize),
}

/// One playable card. While a field holds the card, the field's layout says
/// where it is drawn; `pos` counts only for a card that lies free on the
/// table.
#[derive(Clone, Copy, Debug, PartialEq, Eq, Structural)]
pub struct SimpleCard {
    /// Tells this card from every other card of the same game.
    pub id: usize,
    /// What the card shows.
    pub face: Face,
    /// Where the card lies while no field holds it.
    pub pos: Point,
}

/// A directory of card images: where it is, and the names of its image
/// files in the order in which they stand for faces.
#[derive(Debug)]
pub struct DirectoryCardType {
    path: String,
    img_names: Vec<String>,
}

/// The text of an address, if there is one.
pub open spec fn text_of(address: Option<String>) -> Option<Seq<char>> {
    match address {
        Some(text) => Some(text@),
        None => None,
    }
}

impl DirectoryCardType {
    /// The directory's location.
    pub closed spec fn spec_path(&self) -> Seq<char> {
        self.path@
    }

    /// The names of the image files, by face index.
    pub closed spec fn names(&self) -> Seq<Seq<char>> {
        Seq::new(self.img_names@.len(), |i: int| self.img_names@[i]@)
    }

    /// The directory at `path` with the image files `img_names`.
    pub fn new(path: String, img_names: Vec<String>) -> (directory: Self)
        ensures
            directory.spec_path() == path@,
            directory.names() == Seq::new(img_names@.len(), |i: int| img_names@[i]@),
    {
        DirectoryCardType { path, img_names }
    }

    /// The directory's location.
    pub fn path(&self) -> (path: &String)
        ensures
            path@ == self.spec_path(),
    {
        &self.path
    }

    /// The names of all image files, by face index.
    pub fn all_images(&self) -> (names: &Vec<String>)
        ensures
            names@.len() == self.names().len(),
            forall|i: int| 0 <= i < names@.len() ==> names@[i]@ == self.names()[i],
    {
        &self.img_names
    }

    /// The number of faces the directory offers.
    #[allow(non_snake_case)]
    pub fn T(&self) -> (count: usize)
        ensures
            count == self.names().len(),
    {
        self.img_names.len()
    }

    /// The address of the image of face `index`: the file's name under the
    /// directory under the media root, and none for a face that the
    /// directory does not have.
    pub open spec fn spec_image_path(&self, index: int) -> Option<Seq<char>> {
        if 0 <= index < self.names().len() {
            Some("http://127.0.0.1:8080/media/"@ + self.spec_path() + "/"@ + self.names()[index])
        } else {
            None
        }
    }

    /// The address of the image of face `index`, or `None` if the directory
    /// has no such face.
    pub fn image_path(&self, index: usize) -> (address: Option<String>)
        ensures
            text_of(address) == self.spec_image_path(index as int),
    {
        if index >= self.img_names.len() {
            return None;
        }
        let mut address = String::from_str("http://127.0.0.1:8080/media/");
        address.append(self.path.as_str());
        address.append("/");
        address.append(self.img_names[index].as_str());
        Some(address)
    }
}

impl Clone for DirectoryCardType {
    /// A copy of the directory: the same location and the same names.
    fn clone(&self) -> (copy: Self)
        ensures
            copy.spec_path() == self.spec_path(),
            copy.names() == self.names(),
    {
        let mut img_names: Vec<String> = Vec::new();
        let mut at: usize = 0;
        while at < self.img_names.len()
            invariant
                at <= self.img_names@.len(),
                img_names@.len() == at,
                forall|i: int| 0 <= i < at ==> img_names@[i]@ == self.img_names@[i]@,
            decreases self.img_names@.len() - at,
        {
            img_names.push(self.img_names[at].clone());
            at = at + 1;
        }
        let copy = DirectoryCardType { path: self.path.clone(), img_names };
        assert(copy.names() =~= self.names());
        copy
    }
}

impl SimpleCard {
    /// The card that shows face `card_type` of `images`.
    pub fn new(card_type: usize, images: &DirectoryCardType) -> (card: SimpleCard)
        requires
            card_type < images.names().len(),
        ensures
            card == SimpleCard::spec_open(card_type),
    {
        SimpleCard { id: card_type, face: Face::Directory(card_type), pos: Point { x: 0, y: 0 } }
    }

    /// The card with identity and face `index`, at the origin.
    pub open spec fn spec_open(index: usize) -> SimpleCard {
        SimpleCard { id: index, face: Face::Directory(index), pos: Point { x: 0, y: 0 } }
    }

    /// The card with identity `id` that shows what `card` shows, where
    /// `card` lies.
    pub fn conventional(id: usize, card: &ConventionalCard) -> (made: SimpleCard)
        ensures
            made == (SimpleCard {
                id,
                face: Face::Conventional(card.suit, card.rank),
                pos: card.pos,
            }),
    {
        SimpleCard { id, face: Face::Conventional(card.suit, card.rank), pos: card.pos }
    }

    /// The address of the card's image: for a conventional face that of the
    /// conventional deck, for a face of `images` that of the image file, and
    /// none for a face that `images` does not have.
    pub open spec fn spec_img_path(self, images: &DirectoryCardType) -> Option<Seq<char>> {
        match self.face {
            Face::Conventional(suit, rank) => Some(
                (ConventionalCard { suit, rank, pos: self.pos }).spec_img_path(),
            ),
            Face::Directory(index) => images.spec_image_path(index as int),
        }
    }

    /// The address of the card's image, or `None` where `images` has no
    /// image for it, so that the caller can show a placeholder.
    pub fn img_path(&self, images: &DirectoryCardType) -> (address: Option<String>)
        ensures
            text_of(address) == self.spec_img_path(images),
    {
        match self.face {
            Face::Conventional(suit, rank) => {
                let card = ConventionalCard { suit, rank, pos: self.pos };
                Some(card.img_path())
            },
            Face::Directory(index) => images.image_path(index),
        }
    }
}

} // verus!
