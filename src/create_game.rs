use vstd::prelude::*;

use crate::protocol::{server_error, Query, Reply, Response, Step};
use crate::schema::{CreateGameSchema, DateModel, Game, GameResponse};

verus! {

pub open spec fn add_date_failed() -> Seq<char> {
    "Error occured while attempting to add new date to database"@
}

pub open spec fn count_query_failed() -> Seq<char> {
    "Error occured while querying number of games played"@
}

pub open spec fn count_unusable() -> Seq<char> {
    "Error occured while fetching number of games played"@
}

pub open spec fn add_game_failed() -> Seq<char> {
    "Error occured while adding new game"@
}

/// A count of games after which one more game can still be numbered.
pub open spec fn numbers_next(n: i64) -> bool {
    0 <= n < i32::MAX
}

/// Where a creation stands.
#[derive(Debug, Clone, Copy, PartialEq, Eq, Structural)]
pub enum CreateStage {
    FindingDate,
    AddingDate,
    Counting(DateModel),
    Inserting(DateModel),
    Finished,
}

/// Creates a game: finds its date by value (adding it when absent), counts
/// the games already on it, and inserts the game numbered one past that count.
#[derive(Debug)]
pub struct CreateGame {
    pub body: CreateGameSchema,
    pub stage: CreateStage,
}

impl CreateGame {
    pub fn start(body: CreateGameSchema) -> (r: (CreateGame, Query))
        ensures
            r.0.body == body,
            r.0.stage == CreateStage::FindingDate,
            r.1 == (Query::DateByValue { date: body.date }),
    {
        let date = body.date;
        (CreateGame { body, stage: CreateStage::FindingDate }, Query::DateByValue { date })
    }

    pub open spec fn is_finished(&self) -> bool {
        self.stage is Finished
    }

    /// One transition: from `c`, on the store's `reply`, to `c2`, doing `step`.
    pub open spec fn steps(c: CreateGame, reply: Reply, c2: CreateGame, step: Step) -> bool {
        &&& c2.body == c.body
        &&& c2.is_finished() == step.is_respond()
        &&& match (c.stage, reply) {
            (CreateStage::FindingDate, Reply::Date(d)) => step.asks(
                Query::CountGames { date_id: d.date_id },
            ) && c2.stage == CreateStage::Counting(d),
            (CreateStage::FindingDate, _) => step.asks(
                Query::InsertDate { date: c.body.date },
            ) && c2.stage == CreateStage::AddingDate,
            (CreateStage::AddingDate, Reply::Date(d)) => step.asks(
                Query::CountGames { date_id: d.date_id },
            ) && c2.stage == CreateStage::Counting(d),
            (CreateStage::AddingDate, _) => step.server_error(add_date_failed()),
            (CreateStage::Counting(d), Reply::Count(Some(n))) => if numbers_next(n) {
                step.asks_insert(d.date_id, (n + 1) as i32, c.body.score_str@)
                    && c2.stage == CreateStage::Inserting(d)
            } else {
                step.server_error(count_unusable())
            },
            (CreateStage::Counting(_), Reply::Count(None)) => step.server_error(
                count_unusable(),
            ),
            (CreateStage::Counting(_), _) => step.server_error(count_query_failed()),
            (CreateStage::Inserting(d), Reply::Game(g)) => step.found(d, g),
            (CreateStage::Inserting(_), _) => step.server_error(add_game_failed()),
            (CreateStage::Finished, _) => false,
        }
    }

    /// Takes the store's reply to the last query.
    pub fn on_reply(&mut self, reply: Reply) -> (step: Step)
        requires
            !old(self).is_finished(),
        ensures
            Self::steps(*old(self), reply, *final(self), step),
    {
        let stage = self.stage;
        self.stage = CreateStage::Finished;
        match stage {
            CreateStage::FindingDate => match reply {
                Reply::Date(d) => {
                    self.stage = CreateStage::Counting(d);
                    Step::Ask(Query::CountGames { date_id: d.date_id })
                },
                _ => {
                    self.stage = CreateStage::AddingDate;
                    Step::Ask(Query::InsertDate { date: self.body.date })
                },
            },
            CreateStage::AddingDate => match reply {
                Reply::Date(d) => {
                    self.stage = CreateStage::Counting(d);
                    Step::Ask(Query::CountGames { date_id: d.date_id })
                },
                _ => server_error("Error occured while attempting to add new date to database"),
            },
            CreateStage::Counting(d) => match reply {
                Reply::Count(Some(n)) => {
                    if 0 <= n && n < i32::MAX as i64 {
                        self.stage = CreateStage::Inserting(d);
                        Step::Ask(
                            Query::InsertGame {
                                date_id: d.date_id,
                                game_no: (n + 1) as i32,
                                score_str: self.body.score_str.clone(),
                            },
                        )
                    } else {
                        server_error("Error occured while fetching number of games played")
                    }
                },
                Reply::Count(None) => server_error(
                    "Error occured while fetching number of games played",
                ),
                _ => server_error("Error occured while querying number of games played"),
            },
            CreateStage::Inserting(d) => match reply {
                Reply::Game(g) => Step::Respond(
                    Response::Found(GameResponse::success(Game::join(&d, &g))),
                ),
                _ => server_error("Error occured while adding new game"),
            },
            // excluded by the precondition
            CreateStage::Finished => Step::Respond(Response::NoContent),
        }
    }
}

} // verus!
