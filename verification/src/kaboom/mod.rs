//! Health, players and network messages of a small shooting game played
//! on a globe.
use vstd::prelude::*;

pub mod death;
pub mod game;
pub mod health;
pub mod message;
pub mod player;
pub mod send_mux;
pub mod shoot;
pub mod weapon;

pub use self::death::{resolve_death, PlayerScore};
pub use self::health::Health;
pub use self::message::Message;
pub use self::player::{NewPlayerMessage, PlayerId, PlayerMessage};
pub use self::weapon::{NewGrenadeMessage, ShootGrenadeMessage, WeaponMessage};
