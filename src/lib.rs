//! Rules engine for a campus-themed property-trading board game.
//!
//! - `board`: the fixed table of ownable tiles and building costs.
//! - `cards`: the two event decks and their cyclic draw order; every card
//!   records the deck it returns to.
//! - `state`: the game-state aggregate and its invariant.
//! - `turn`: dice, movement, landing effects, cards, jail and turn order.
//! - `actions`, `economy`: buying, rent, monopolies, buildings, mortgages.
//! - `bankruptcy`: settling a bankrupt or departing player.
//! - `trading`: trade proposals between players.
//! - `session`: game start, kick-vote arithmetic and command routing.
//! - `entropy`: dice, shuffles and fresh ids, the only sources of chance.

pub mod actions;
pub mod bankruptcy;
pub mod board;
pub mod cards;
pub mod economy;
mod entropy;
pub mod error;
pub mod messages;
pub mod room;
pub mod session;
pub mod state;
pub mod trade;
pub mod trading;
pub mod turn;
