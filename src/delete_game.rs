use vstd::prelude::*;

use crate::protocol::{game_not_found, server_error, Query, Reply, Response, Step};

verus! {

pub open spec fn delete_failed() -> Seq<char> {
    "Error occured while querying for game deletion"@
}

pub open spec fn count_failed() -> Seq<char> {
    "Unable to get number of games played on date"@
}

pub open spec fn count_missing() -> Seq<char> {
    "Error getting number of games on date"@
}

pub open spec fn drop_date_failed() -> Seq<char> {
    "Error deleting date from database"@
}

/// Where a deletion stands.
#[derive(Debug, Clone, Copy, PartialEq, Eq, Structural)]
pub enum DeleteStage {
    Deleting,
    /// The game is gone; counting what is left on its date.
    Counting(u128),
    /// The date was left empty and is being removed.
    DroppingDate(u128),
    Finished,
}

/// Deletes one game, then its date if no game is left on it.
#[derive(Debug)]
pub struct DeleteGame {
    pub game_id: u128,
    pub stage: DeleteStage,
}

impl DeleteGame {
    pub fn start(game_id: u128) -> (r: (DeleteGame, Query))
        ensures
            r.0.game_id == game_id,
            r.0.stage == DeleteStage::Deleting,
            r.1 == (Query::DeleteGame { game_id }),
    {
        (DeleteGame { game_id, stage: DeleteStage::Deleting }, Query::DeleteGame { game_id })
    }

    pub open spec fn is_finished(&self) -> bool {
        self.stage is Finished
    }

    /// One transition: from `c`, on the store's `reply`, to `c2`, doing `step`.
    pub open spec fn steps(c: DeleteGame, reply: Reply, c2: DeleteGame, step: Step) -> bool {
        &&& c2.game_id == c.game_id
        &&& c2.is_finished() == step.is_respond()
        &&& match (c.stage, reply) {
            (DeleteStage::Deleting, Reply::Deleted(Some(g))) => step.asks(
                Query::CountGames { date_id: g.date_id },
            ) && c2.stage == DeleteStage::Counting(g.date_id),
            (DeleteStage::Deleting, Reply::Deleted(None)) => step.game_not_found(
                c.game_id,
            ),
            (DeleteStage::Deleting, _) => step.server_error(delete_failed()),
            (DeleteStage::Counting(d), Reply::Count(Some(n))) => if n == 0 {
                step.asks(Query::DeleteDate { date_id: d }) && c2.stage
                    == DeleteStage::DroppingDate(d)
            } else {
                step == Step::Respond(Response::NoContent)
            },
            (DeleteStage::Counting(_), Reply::Count(None)) => step.server_error(
                count_missing(),
            ),
            (DeleteStage::Counting(_), _) => step.server_error(count_failed()),
            (DeleteStage::DroppingDate(_), Reply::Done) => step == Step::Respond(
                Response::NoContent,
            ),
            (DeleteStage::DroppingDate(_), _) => step.server_error(drop_date_failed()),
            (DeleteStage::Finished, _) => false,
        }
    }

    /// Takes the store's reply to the last query.
    pub fn on_reply(&mut self, reply: Reply) -> (step: Step)
        requires
            !old(self).is_finished(),
        ensures
            Self::steps(*old(self), reply, *final(self), step),
    {
        let stage = self.stage;
        self.stage = DeleteStage::Finished;
        match stage {
            DeleteStage::Deleting => match reply {
                Reply::Deleted(Some(g)) => {
                    self.stage = DeleteStage::Counting(g.date_id);
                    Step::Ask(Query::CountGames { date_id: g.date_id })
                },
                Reply::Deleted(None) => game_not_found(self.game_id),
                _ => server_error("Error occured while querying for game deletion"),
            },
            DeleteStage::Counting(date_id) => match reply {
                Reply::Count(Some(n)) => {
                    if n == 0 {
                        self.stage = DeleteStage::DroppingDate(date_id);
                        Step::Ask(Query::DeleteDate { date_id })
                    } else {
                        Step::Respond(Response::NoContent)
                    }
                },
                Reply::Count(None) => server_error("Error getting number of games on date"),
                _ => server_error("Unable to get number of games played on date"),
            },
            DeleteStage::DroppingDate(_) => match reply {
                Reply::Done => Step::Respond(Response::NoContent),
                _ => server_error("Error deleting date from database"),
            },
            // excluded by the precondition
            DeleteStage::Finished => Step::Respond(Response::NoContent),
        }
    }
}

} // verus!
