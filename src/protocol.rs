use vstd::prelude::*;

use crate::ids::{not_found_message, not_found_text};
use crate::schema::{
    error_word, fail_word, success_word, CalDate, DateModel, ErrorResponse, GameModel,
    GameResponse, RecordResponse,
};

verus! {

/// One round trip to the store, asked by a handler.
#[derive(Debug)]
pub enum Query {
    /// Dates by descending date, skipping `offset` and keeping at most `limit`.
    ListDates { limit: u64, offset: u64 },
    /// Games of a date by ascending game number.
    GamesOnDate { date_id: u128 },
    GameById { game_id: u128 },
    DateById { date_id: u128 },
    DateByValue { date: CalDate },
    InsertDate { date: CalDate },
    CountGames { date_id: u128 },
    InsertGame { date_id: u128, game_no: i32, score_str: String },
    /// Sets both mutable fields of a game and returns the updated row.
    UpdateGame { game_id: u128, date_id: u128, score_str: String },
    /// Removes a game and returns the removed row, if any.
    DeleteGame { game_id: u128 },
    DeleteDate { date_id: u128 },
}

/// What the store answered to a query.
#[derive(Debug)]
pub enum Reply {
    Dates(Vec<DateModel>),
    Games(Vec<GameModel>),
    Date(DateModel),
    Game(GameModel),
    Count(Option<i64>),
    Deleted(Option<GameModel>),
    Done,
    /// No row matched a query that asked for exactly one.
    NoRow,
    /// Any other failure of the store.
    Failed,
}

/// The response a handler ends with.
#[derive(Debug)]
pub enum Response {
    /// 200 with the listed dates.
    Records(RecordResponse),
    /// 200 with one game.
    Found(GameResponse),
    /// 204 with an empty body.
    NoContent,
    /// 404 with a "fail" envelope.
    NotFound(ErrorResponse),
    /// 400 with a "fail" envelope: the query parameters are not valid.
    BadRequest(ErrorResponse),
    /// 500 with an "error" envelope.
    ServerError(ErrorResponse),
}

/// What a handler does next.
#[derive(Debug)]
pub enum Step {
    Ask(Query),
    Respond(Response),
}

impl Step {
    pub open spec fn asks(self, q: Query) -> bool {
        self == Step::Ask(q)
    }

    /// Asks to insert a game with the given fields.
    pub open spec fn asks_insert(self, date_id: u128, game_no: i32, score: Seq<char>) -> bool {
        match self {
            Step::Ask(Query::InsertGame { date_id: d, game_no: n, score_str: s }) => d == date_id
                && n == game_no && s@ == score,
            _ => false,
        }
    }

    /// Asks to set a game's date and score.
    pub open spec fn asks_update(self, game_id: u128, date_id: u128, score: Seq<char>) -> bool {
        match self {
            Step::Ask(Query::UpdateGame { game_id: g, date_id: d, score_str: s }) => g == game_id
                && d == date_id && s@ == score,
            _ => false,
        }
    }

    /// Responds 500 with the message `msg`.
    pub open spec fn server_error(self, msg: Seq<char>) -> bool {
        match self {
            Step::Respond(Response::ServerError(e)) => e.status@ == error_word() && e.message@
                == msg,
            _ => false,
        }
    }

    /// Responds 404: no game has id `game_id`.
    pub open spec fn game_not_found(self, game_id: u128) -> bool {
        match self {
            Step::Respond(Response::NotFound(e)) => e.status@ == fail_word() && e.message@
                == not_found_text(game_id),
            _ => false,
        }
    }

    /// Responds 200 with the game row `g` joined to the date row `d`.
    pub open spec fn found(self, d: DateModel, g: GameModel) -> bool {
        match self {
            Step::Respond(Response::Found(r)) => r.status@ == success_word() && r.data.joins(d, g),
            _ => false,
        }
    }

    pub open spec fn is_respond(self) -> bool {
        self is Respond
    }
}

pub fn server_error(msg: &str) -> (r: Step)
    ensures
        r.server_error(msg@),
{
    Step::Respond(Response::ServerError(ErrorResponse::error(msg)))
}

pub fn game_not_found(game_id: u128) -> (r: Step)
    ensures
        r.game_not_found(game_id),
{
    Step::Respond(Response::NotFound(ErrorResponse::fail(not_found_message(game_id))))
}

} // verus!
