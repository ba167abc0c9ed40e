//! Layout, hit-testing and move rules of a tabletop card game.
//!
//! Cards lie in fields: a shared stack and a fanned hand for every player.
//! The library says where each card of a field is drawn and which card the
//! pointer is over, moves a card from one place on the table to another as
//! one step, deals a fresh game, and leads from screen to screen. It draws
//! nothing and waits for nothing: the caller paints what the library lays
//! out and reports what the user did.
//!
//! Every function states what it returns in its contract, and the laws that
//! tie the functions together are proved beside them.

pub mod card;
pub mod deal;
pub mod deck;
pub mod field;
pub mod game;
pub mod geometry;
pub mod layout;
pub mod listing;
pub mod screen;
pub mod text;
