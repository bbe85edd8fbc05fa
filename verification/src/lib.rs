//! A turn-based naval-combat engine played with herds on pastures.
//!
//! Two players each place a fleet of herds on a square pasture and then take
//! turns firing at cells of the other pasture. Every shot is acknowledged by
//! the player who received it before play goes on.
//!
//! - [`geometry`]: cells, herds, and where a herd stands.
//! - [`pasture`]: a player's board, with its fleet and the shots received.
//! - [`player`]: a seated player, and the credentials that speak for one.
//! - [`game`]: the two seats, the turn, and the handshake of shot and
//!   acknowledgement.
//! - [`store`]: the games that are kept, each under its name.
//! - [`msg`]: the requests and questions that the engine takes.
//! - [`contract`]: the entry points, each request one transaction.
//! - [`error`]: why a request is refused.
//! - [`laws`]: what holds whatever is asked, and in whatever order.
//!
//! Contracts speak of views: a board is its herds and its shots, a game is
//! its name, its seats and its turn, the store is a map from names to games.

pub mod contract;
pub mod error;
pub mod game;
pub mod geometry;
pub mod laws;
pub mod msg;
pub mod pasture;
pub mod player;
pub mod store;
