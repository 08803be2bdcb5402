use vstd::prelude::*;

use crate::protocol::{game_not_found, server_error, Query, Reply, Response, Step};
use crate::schema::{Game, GameResponse};
use crate::schema::GameModel;

verus! {

pub open spec fn game_query_failed() -> Seq<char> {
    "Error occured while querying for game with given game_id"@
}

pub open spec fn date_query_failed() -> Seq<char> {
    "Error occured while querying for date with given date_id"@
}

/// Where a fetch of one game stands.
#[derive(Debug)]
pub enum GetStage {
    FindingGame,
    FindingDate(GameModel),
    Finished,
}

/// Fetches one game and joins it to its date: the game by id, then its date
/// by id. A missing game answers 404.
#[derive(Debug)]
pub struct GetGame {
    pub game_id: u128,
    pub stage: GetStage,
}

impl GetGame {
    pub fn start(game_id: u128) -> (r: (GetGame, Query))
        ensures
            r.0.game_id == game_id,
            r.0.stage is FindingGame,
            r.1 == (Query::GameById { game_id }),
    {
        (GetGame { game_id, stage: GetStage::FindingGame }, Query::GameById { game_id })
    }

    pub open spec fn is_finished(&self) -> bool {
        self.stage is Finished
    }

    /// One transition: from `c`, on the store's `reply`, to `c2`, doing `step`.
    pub open spec fn steps(c: GetGame, reply: Reply, c2: GetGame, step: Step) -> bool {
        &&& c2.game_id == c.game_id
        &&& c2.is_finished() == step.is_respond()
        &&& match (c.stage, reply) {
            (GetStage::FindingGame, Reply::Game(g)) => step.asks(
                Query::DateById { date_id: g.date_id },
            ) && c2.stage == GetStage::FindingDate(g),
            (GetStage::FindingGame, Reply::NoRow) => step.game_not_found(c.game_id),
            (GetStage::FindingGame, _) => step.server_error(game_query_failed()),
            (GetStage::FindingDate(g), Reply::Date(d)) => step.found(d, g),
            (GetStage::FindingDate(_), _) => step.server_error(date_query_failed()),
            (GetStage::Finished, _) => false,
        }
    }

    /// Takes the store's reply to the last query.
    pub fn on_reply(&mut self, reply: Reply) -> (step: Step)
        requires
            !old(self).is_finished(),
        ensures
            Self::steps(*old(self), reply, *final(self), step),
    {
        let mut stage = GetStage::Finished;
        std::mem::swap(&mut stage, &mut self.stage);
        match stage {
            GetStage::FindingGame => match reply {
                Reply::Game(g) => {
                    let date_id = g.date_id;
                    self.stage = GetStage::FindingDate(g);
                    Step::Ask(Query::DateById { date_id })
                },
                Reply::NoRow => game_not_found(self.game_id),
                _ => server_error("Error occured while querying for game with given game_id"),
            },
            GetStage::FindingDate(g) => match reply {
                Reply::Date(d) => Step::Respond(
                    Response::Found(GameResponse::success(Game::join(&d, &g))),
                ),
                _ => server_error("Error occured while querying for date with given date_id"),
            },
            // excluded by the precondition
            GetStage::Finished => Step::Respond(Response::NoContent),
        }
    }
}

} // verus!
