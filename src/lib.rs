//! Deterministic core of a small arcade shooter: entities on an 80x60 grid,
//! a fixed-step simulation driven by external timestamps, input resolution
//! and scoring. Drawing and hardware input live outside this crate.

pub mod enemy;
pub mod explosion;
pub mod fps_counter;
pub mod game;
pub mod input;
pub mod player;
pub mod projectile;
pub mod rendering;
pub mod score;
pub mod simulation;
pub mod utils;

pub use enemy::{Enemy, EnemyType};
pub use explosion::Explosion;
pub use fps_counter::FpsCounter;
pub use game::Game;
pub use input::{Input, Key, KeyEvent};
pub use player::Player;
pub use projectile::Projectile;
pub use rendering::{CssColor, CssFont, Pso};
pub use score::Score;
pub use utils::{cap, Timer};
