//! Verified core of a chess-endgame login site: the moves of the mini-game
//! and their JSON form, password and session hashes in hex, the account flow
//! decisions, and the SQL statements sent to the database.

pub mod auth;
pub mod decimal;
pub mod levels;
pub mod moves;
pub mod queries;
pub mod session;
pub mod text;

pub use auth::{AccountState, LoginQueryOutcome};
pub use levels::{display_concat_levels_par, next_unsolved_level, LevelInfo};
pub use moves::{solution_lvl1, to_json, FullMove, UCIstr};
pub use session::{decode_session_hash, hash_password_hex, ConnectionInfo};
