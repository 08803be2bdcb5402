use vstd::prelude::*;

use crate::protocol::{game_not_found, server_error, Query, Reply, Response, Step};
use crate::schema::{DateModel, Game, GameModel, GameResponse, UpdateGameSchema};

verus! {

pub open spec fn find_game_failed() -> Seq<char> {
    "Error occurred while querying for game"@
}

pub open spec fn find_date_failed() -> Seq<char> {
    "Error occurred while querying for date"@
}

pub open spec fn add_target_failed() -> Seq<char> {
    "Error occured while attempting to add new date to database"@
}

pub open spec fn update_failed() -> Seq<char> {
    "Error occured while updating game"@
}

/// The score a game has after the update: the given one, else its own.
pub open spec fn new_score(body: UpdateGameSchema, g: GameModel) -> Seq<char> {
    match body.score_str {
        Some(s) => s@,
        None => g.score_str@,
    }
}

/// Where an update stands.
#[derive(Debug)]
pub enum UpdateStage {
    FindingGame,
    /// The game was found; looking up the date it moves to.
    FindingTarget(GameModel),
    /// The date it moves to is new and is being added.
    AddingTarget(GameModel),
    /// The game stays on its date; fetching that date.
    FindingDate(GameModel),
    /// Writing the game; the date row it ends on is known.
    Updating(DateModel),
    Finished,
}

/// Applies an update to one game. Both fields are applied when present: a new
/// date moves the game to that date (adding the date when no row holds it), a
/// new score replaces the old. The game keeps its number. The answer is the
/// updated game joined to its date. Moving a game does not remove the date it
/// leaves, even when no game is left there.
#[derive(Debug)]
pub struct UpdateGame {
    pub game_id: u128,
    pub body: UpdateGameSchema,
    pub stage: UpdateStage,
}

impl UpdateGame {
    pub fn start(game_id: u128, body: UpdateGameSchema) -> (r: (UpdateGame, Query))
        ensures
            r.0.game_id == game_id,
            r.0.body == body,
            r.0.stage is FindingGame,
            r.1 == (Query::GameById { game_id }),
    {
        (UpdateGame { game_id, body, stage: UpdateStage::FindingGame }, Query::GameById { game_id })
    }

    pub open spec fn is_finished(&self) -> bool {
        self.stage is Finished
    }

    fn write(&mut self, d: DateModel, g: &GameModel) -> (step: Step)
        ensures
            final(self).game_id == old(self).game_id,
            final(self).body == old(self).body,
            final(self).stage == UpdateStage::Updating(d),
            step.asks_update(old(self).game_id, d.date_id, new_score(old(self).body, *g)),
    {
        let score_str = match &self.body.score_str {
            Some(s) => s.clone(),
            None => g.score_str.clone(),
        };
        self.stage = UpdateStage::Updating(d);
        Step::Ask(Query::UpdateGame { game_id: self.game_id, date_id: d.date_id, score_str })
    }

    /// One transition: from `c`, on the store's `reply`, to `c2`, doing `step`.
    pub open spec fn steps(c: UpdateGame, reply: Reply, c2: UpdateGame, step: Step) -> bool {
        &&& c2.game_id == c.game_id
        &&& c2.body == c.body
        &&& c2.is_finished() == step.is_respond()
        &&& match (c.stage, reply) {
            (UpdateStage::FindingGame, Reply::Game(g)) => match c.body.date {
                Some(nd) => step.asks(Query::DateByValue { date: nd }) && c2.stage
                    == UpdateStage::FindingTarget(g),
                None => step.asks(Query::DateById { date_id: g.date_id })
                    && c2.stage == UpdateStage::FindingDate(g),
            },
            (UpdateStage::FindingGame, Reply::NoRow) => step.game_not_found(
                c.game_id,
            ),
            (UpdateStage::FindingGame, _) => step.server_error(find_game_failed()),
            (UpdateStage::FindingTarget(g), Reply::Date(d)) => step.asks_update(
                c.game_id,
                d.date_id,
                new_score(c.body, g),
            ) && c2.stage == UpdateStage::Updating(d),
            (UpdateStage::FindingTarget(g), Reply::NoRow) => match c.body.date {
                Some(nd) => step.asks(Query::InsertDate { date: nd }) && c2.stage
                    == UpdateStage::AddingTarget(g),
                None => step.server_error(find_date_failed()),
            },
            (UpdateStage::FindingTarget(_), _) => step.server_error(find_date_failed()),
            (UpdateStage::AddingTarget(g), Reply::Date(d)) => step.asks_update(
                c.game_id,
                d.date_id,
                new_score(c.body, g),
            ) && c2.stage == UpdateStage::Updating(d),
            (UpdateStage::AddingTarget(_), _) => step.server_error(add_target_failed()),
            (UpdateStage::FindingDate(g), Reply::Date(d)) => step.asks_update(
                c.game_id,
                d.date_id,
                new_score(c.body, g),
            ) && c2.stage == UpdateStage::Updating(d),
            (UpdateStage::FindingDate(_), _) => step.server_error(find_date_failed()),
            (UpdateStage::Updating(d), Reply::Game(g)) => step.found(d, g),
            (UpdateStage::Updating(_), Reply::NoRow) => step.game_not_found(
                c.game_id,
            ),
            (UpdateStage::Updating(_), _) => step.server_error(update_failed()),
            (UpdateStage::Finished, _) => false,
        }
    }

    /// Takes the store's reply to the last query.
    pub fn on_reply(&mut self, reply: Reply) -> (step: Step)
        requires
            !old(self).is_finished(),
        ensures
            Self::steps(*old(self), reply, *final(self), step),
    {
        let mut stage = UpdateStage::Finished;
        std::mem::swap(&mut stage, &mut self.stage);
        match stage {
            UpdateStage::FindingGame => match reply {
                Reply::Game(g) => match self.body.date {
                    Some(nd) => {
                        self.stage = UpdateStage::FindingTarget(g);
                        Step::Ask(Query::DateByValue { date: nd })
                    },
                    None => {
                        let date_id = g.date_id;
                        self.stage = UpdateStage::FindingDate(g);
                        Step::Ask(Query::DateById { date_id })
                    },
                },
                Reply::NoRow => game_not_found(self.game_id),
                _ => server_error("Error occurred while querying for game"),
            },
            UpdateStage::FindingTarget(g) => match reply {
                Reply::Date(d) => self.write(d, &g),
                Reply::NoRow => match self.body.date {
                    Some(nd) => {
                        self.stage = UpdateStage::AddingTarget(g);
                        Step::Ask(Query::InsertDate { date: nd })
                    },
                    None => server_error("Error occurred while querying for date"),
                },
                _ => server_error("Error occurred while querying for date"),
            },
            UpdateStage::AddingTarget(g) => match reply {
                Reply::Date(d) => self.write(d, &g),
                _ => server_error("Error occured while attempting to add new date to database"),
            },
            UpdateStage::FindingDate(g) => match reply {
                Reply::Date(d) => self.write(d, &g),
                _ => server_error("Error occurred while querying for date"),
            },
            UpdateStage::Updating(d) => match reply {
                Reply::Game(g) => Step::Respond(
                    Response::Found(GameResponse::success(Game::join(&d, &g))),
                ),
                Reply::NoRow => game_not_found(self.game_id),
                _ => server_error("Error occured while updating game"),
            },
            // excluded by the precondition
            UpdateStage::Finished => Step::Respond(Response::NoContent),
        }
    }
}

} // verus!
