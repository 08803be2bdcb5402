use vstd::prelude::*;

use crate::protocol::{server_error, Query, Reply, Response, Step};
use crate::schema::{
    fail_word, success_word, DateModel, DateRecord, ErrorResponse, FilterOptions, GameModel,
    RecordResponse,
};

verus! {

pub open spec fn dates_failed() -> Seq<char> {
    "Error occured while querying dates"@
}

pub open spec fn games_failed() -> Seq<char> {
    "Error occured while querying games on given date"@
}

pub open spec fn bad_window() -> Seq<char> {
    "page and limit must be positive and small enough for the store"@
}

impl Step {
    /// Responds 200 with one record per date row of `ds`, in order, record
    /// `i` holding the game rows `gss[i]` in their order.
    pub open spec fn lists(self, ds: Seq<DateModel>, gss: Seq<Seq<GameModel>>) -> bool {
        match self {
            Step::Respond(Response::Records(r)) => {
                &&& r.status@ == success_word()
                &&& r.results == ds.len()
                &&& r.dates@.len() == ds.len()
                &&& forall|i: int| 0 <= i < ds.len() ==> #[trigger] r.dates@[i].shows(ds[i], gss[i])
            },
            _ => false,
        }
    }
}

/// Where a listing stands.
#[derive(Debug, Clone, Copy, PartialEq, Eq, Structural)]
pub enum ListStage {
    ListingDates,
    ListingGames,
    Finished,
}

/// Lists one page of dates, newest first, each with its games: the dates in
/// one query, then the games of each date in turn.
pub struct ListRecords {
    pub dates: Vec<DateModel>,
    pub records: Vec<DateRecord>,
    /// The game rows the store gave for each date listed so far.
    pub listed: Ghost<Seq<Seq<GameModel>>>,
    pub stage: ListStage,
}

impl ListRecords {
    pub open spec fn wf(&self) -> bool {
        &&& self.records@.len() == self.listed@.len()
        &&& self.stage == ListStage::ListingDates ==> self.records@.len() == 0
        &&& self.stage == ListStage::ListingGames ==> {
            &&& self.records@.len() < self.dates@.len()
            &&& self.dates@.len() <= i32::MAX
        }
        &&& forall|i: int|
            0 <= i < self.records@.len() ==> #[trigger] self.records@[i].shows(
                self.dates@[i],
                self.listed@[i],
            )
    }

    pub open spec fn is_finished(&self) -> bool {
        self.stage is Finished
    }

    /// The query for the games of the next date.
    pub open spec fn next_games_query(&self) -> Query {
        Query::GamesOnDate { date_id: self.dates@[self.records@.len() as int].date_id }
    }

    pub fn start(opts: &FilterOptions) -> (r: (ListRecords, Step))
        ensures
            r.0.wf(),
            r.0.is_finished() == r.1.is_respond(),
            opts.is_valid() ==> r.1.asks(
                Query::ListDates {
                    limit: opts.spec_limit() as u64,
                    offset: opts.spec_offset() as u64,
                },
            ) && r.0.stage == ListStage::ListingDates,
            !opts.is_valid() ==> match r.1 {
                Step::Respond(Response::BadRequest(e)) => e.status@ == fail_word() && e.message@
                    == bad_window(),
                _ => false,
            },
    {
        let mut session = ListRecords {
            dates: Vec::new(),
            records: Vec::new(),
            listed: Ghost(Seq::empty()),
            stage: ListStage::ListingDates,
        };
        match opts.window() {
            Some((limit, offset)) => (session, Step::Ask(Query::ListDates { limit, offset })),
            None => {
                session.stage = ListStage::Finished;
                let msg = String::from_str(
                    "page and limit must be positive and small enough for the store",
                );
                (session, Step::Respond(Response::BadRequest(ErrorResponse::fail(msg))))
            },
        }
    }

    /// One transition: from `c`, on the store's `reply`, to `c2`, doing `step`.
    pub open spec fn steps(c: ListRecords, reply: Reply, c2: ListRecords, step: Step) -> bool {
        &&& c2.wf()
        &&& c2.is_finished() == step.is_respond()
        &&& !step.is_respond() ==> step.asks(c2.next_games_query())
        &&& match (c.stage, reply) {
            (ListStage::ListingDates, Reply::Dates(v)) => if v@.len() > i32::MAX {
                step.server_error(dates_failed())
            } else if v@.len() == 0 {
                step.lists(v@, Seq::empty())
            } else {
                &&& c2.stage == ListStage::ListingGames
                &&& c2.dates@ == v@
                &&& c2.records@.len() == 0
                &&& step.asks(Query::GamesOnDate { date_id: v@[0].date_id })
            },
            (ListStage::ListingDates, _) => step.server_error(dates_failed()),
            (ListStage::ListingGames, Reply::Games(gs)) => {
                let done = c.records@.len() + 1;
                let listed = c.listed@.push(gs@);
                if done < c.dates@.len() {
                    &&& c2.stage == ListStage::ListingGames
                    &&& c2.dates@ == c.dates@
                    &&& c2.listed@ == listed
                    &&& c2.records@.len() == done
                } else {
                    step.lists(c.dates@, listed)
                }
            },
            (ListStage::ListingGames, _) => step.server_error(games_failed()),
            (ListStage::Finished, _) => false,
        }
    }

    /// Takes the store's reply to the last query.
    pub fn on_reply(&mut self, reply: Reply) -> (step: Step)
        requires
            old(self).wf(),
            !old(self).is_finished(),
        ensures
            Self::steps(*old(self), reply, *final(self), step),
    {
        let stage = self.stage;
        self.stage = ListStage::Finished;
        match stage {
            ListStage::ListingDates => match reply {
                Reply::Dates(v) => {
                    if v.len() > i32::MAX as usize {
                        server_error("Error occured while querying dates")
                    } else if v.len() == 0 {
                        Step::Respond(
                            Response::Records(
                                RecordResponse {
                                    status: String::from_str("success"),
                                    results: 0,
                                    dates: Vec::new(),
                                },
                            ),
                        )
                    } else {
                        let first = v[0].date_id;
                        self.dates = v;
                        self.stage = ListStage::ListingGames;
                        Step::Ask(Query::GamesOnDate { date_id: first })
                    }
                },
                _ => server_error("Error occured while querying dates"),
            },
            ListStage::ListingGames => match reply {
                Reply::Games(gs) => {
                    let k = self.records.len();
                    let record = DateRecord::from_models(&self.dates[k], &gs);
                    self.records.push(record);
                    self.listed = Ghost(self.listed@.push(gs@));
                    if k + 1 < self.dates.len() {
                        self.stage = ListStage::ListingGames;
                        Step::Ask(Query::GamesOnDate { date_id: self.dates[k + 1].date_id })
                    } else {
                        let mut records: Vec<DateRecord> = Vec::new();
                        std::mem::swap(&mut records, &mut self.records);
                        self.listed = Ghost(Seq::empty());
                        Step::Respond(
                            Response::Records(
                                RecordResponse {
                                    status: String::from_str("success"),
                                    results: self.dates.len() as i32,
                                    dates: records,
                                },
                            ),
                        )
                    }
                },
                _ => server_error("Error occured while querying games on given date"),
            },
            // excluded by the precondition
            ListStage::Finished => Step::Respond(Response::NoContent),
        }
    }
}

} // verus!
