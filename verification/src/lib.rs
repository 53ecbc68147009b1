//! Shared wire types of the ROCK runtime: map tiles, player keys, auth
//! tickets and the Farcaster API shapes, with the verified logic that packs,
//! names, parses and renders them.

pub mod auth;
pub mod case;
pub mod components;
pub mod decimal;
pub mod farcaster;
pub mod fid_value;
pub mod player;
pub mod query;
pub mod text;
pub mod webhook;
pub mod world;

pub use auth::TicketClaims;
pub use player::{PlayerId, PlayerKey};
pub use world::{ImpromptuRequest, ObjectId, PlayerData, Position, SystemPacket, TileKind};

