//! A small monster-battle library: a deterministic, verified combat engine,
//! an in-memory battle store with CRUD contracts, and the request flow that
//! validates a battle-creation request, resolves the combat and persists
//! the outcome.

pub mod engine;
pub mod flow;
pub mod model;
pub mod store;

pub use engine::battle;
pub use flow::{create_battle_flow, resolve_battle, validate_request, BattleError, CreateBattleRequest};
pub use model::{Battle, Monster};
pub use store::BattleStore;
