//! Record keeping for scored games grouped under calendar dates.
//!
//! The request handlers are step machines: each one asks the store one query at
//! a time and decides, from the reply, the next query or the final response.
//! The host runs the queries; the decisions are verified here. `store` states
//! what a faithful store answers, and `laws` what the handlers then achieve.
pub mod create_game;
pub mod delete_game;
pub mod get_game;
pub mod ids;
pub mod laws;
pub mod list_records;
pub mod protocol;
pub mod schema;
pub mod store;
pub mod update_game;

pub use ids::not_found_message;
pub use schema::{
    health_check, CalDate, CreateGameSchema, DateModel, DateRecord, ErrorResponse,
    FilterOptions, Game, GameInfo, GameModel, GameResponse, HealthResponse, ParamOptions,
    RecordResponse, UpdateGameSchema,
};
