use vstd::prelude::*;

use crate::create_game::{CreateGame, CreateStage};
use crate::delete_game::{DeleteGame, DeleteStage};
use crate::get_game::{GetGame, GetStage};
use crate::update_game::{UpdateGame, UpdateStage};
use crate::protocol::{Query, Reply, Response, Step};
use crate::schema::{CalDate, DateModel, Game, GameInfo, GameModel, UpdateGameSchema};
use crate::store::{
    answers, lemma_games_on_insert, lemma_games_on_remove, lemma_no_games_on, lists_dates,
    lists_games, row_of, StoreModel,
};

verus! {

/// What a successful creation did: `d` is the date row of `date` (added when
/// no row held that date) and `g` the new game on it, numbered one past the
/// games that were on that date.
pub open spec fn created(
    s: StoreModel,
    date: CalDate,
    score: Seq<char>,
    s2: StoreModel,
    d: DateModel,
    g: GameModel,
) -> bool {
    &&& d.date == date
    &&& s.holds_date(d) || (!s.has_date_value(date) && !s.dates.contains_key(d.date_id))
    &&& s2.dates == s.dates.insert(d.date_id, date)
    &&& g.date_id == d.date_id
    &&& g.game_no == s.count_on(d.date_id) + 1
    &&& g.score_str@ == score
    &&& !s.games.contains_key(g.game_id)
    &&& s2.games == s.games.insert(g.game_id, row_of(g))
}

/// The date row `d` of `date` is in `s`, which is `s0` with at most that row added.
pub open spec fn date_ready(s0: StoreModel, s: StoreModel, d: DateModel, date: CalDate) -> bool {
    &&& d.date == date
    &&& s0.holds_date(d) || (!s0.has_date_value(date) && !s0.dates.contains_key(d.date_id))
    &&& s.dates == s0.dates.insert(d.date_id, date)
    &&& s.games == s0.games
}

/// A creation that began on `s0`, now at `c` with query `q` pending on `s`.
pub open spec fn create_inv(c: CreateGame, q: Query, s0: StoreModel, s: StoreModel) -> bool {
    match c.stage {
        CreateStage::FindingDate => q == (Query::DateByValue { date: c.body.date }) && s == s0,
        CreateStage::AddingDate => q == (Query::InsertDate { date: c.body.date }) && s == s0
            && !s0.has_date_value(c.body.date),
        CreateStage::Counting(d) => q == (Query::CountGames { date_id: d.date_id }) && date_ready(
            s0,
            s,
            d,
            c.body.date,
        ),
        CreateStage::Inserting(d) => date_ready(s0, s, d, c.body.date) && match q {
            Query::InsertGame { date_id, game_no, score_str } => date_id == d.date_id && game_no
                == s0.count_on(d.date_id) + 1 && score_str@ == c.body.score_str@,
            _ => false,
        },
        CreateStage::Finished => true,
    }
}

/// One step of a creation against a store whose answers succeed keeps the
/// store well formed and the creation on track; the step that answers 200
/// ends a creation as `created` says.
pub proof fn create_step(
    s0: StoreModel,
    s: StoreModel,
    c: CreateGame,
    q: Query,
    reply: Reply,
    s2: StoreModel,
    c2: CreateGame,
    step: Step,
)
    requires
        s0.wf(),
        s.wf(),
        create_inv(c, q, s0, s),
        !c.is_finished(),
        answers(s, q, reply, s2),
        CreateGame::steps(c, reply, c2, step),
    ensures
        s2.wf(),
        step matches Step::Ask(q2) ==> create_inv(c2, q2, s0, s2),
        match (c.stage, reply) {
            (CreateStage::Inserting(d), Reply::Game(g)) => step.found(d, g) && created(
                s0,
                c.body.date,
                c.body.score_str@,
                s2,
                d,
                g,
            ),
            _ => !(step matches Step::Respond(Response::Found(_))),
        },
{
    match (c.stage, reply) {
        (CreateStage::FindingDate, Reply::Date(d)) => {
            assert(s0.dates.insert(d.date_id, d.date) =~= s0.dates);
        },
        (CreateStage::AddingDate, Reply::Date(d)) => {
            assert forall|a: u128, b: u128|
                s2.dates.contains_key(a) && s2.dates.contains_key(b) && s2.dates[a]
                    == s2.dates[b] implies a == b by {
                if a != d.date_id && b != d.date_id {
                    assert(s.dates[a] == s.dates[b]);
                } else if a != d.date_id {
                    assert(s.dates.contains_key(a) && s.dates[a] == c.body.date);
                } else if b != d.date_id {
                    assert(s.dates.contains_key(b) && s.dates[b] == c.body.date);
                }
            }
        },
        (CreateStage::Counting(d), Reply::Count(Some(n))) => {
            assert(s.count_on(d.date_id) == s0.count_on(d.date_id)) by {
                assert(s.games_on(d.date_id) =~= s0.games_on(d.date_id));
            }
        },
        (CreateStage::Inserting(d), Reply::Game(g)) => {
            assert(s.count_on(d.date_id) == s0.count_on(d.date_id)) by {
                assert(s.games_on(d.date_id) =~= s0.games_on(d.date_id));
            }
        },
        _ => {},
    }
}

/// A successful creation keeps the store well formed.
pub proof fn created_keeps_wf(
    s: StoreModel,
    date: CalDate,
    score: Seq<char>,
    s2: StoreModel,
    d: DateModel,
    g: GameModel,
)
    requires
        s.wf(),
        created(s, date, score, s2, d, g),
    ensures
        s2.wf(),
        s2.holds_date(d),
        s2.holds_game(g),
{
    assert forall|a: u128, b: u128|
        s2.dates.contains_key(a) && s2.dates.contains_key(b) && s2.dates[a]
            == s2.dates[b] implies a == b by {
        if a != d.date_id && b != d.date_id {
            assert(s.dates[a] == s.dates[b]);
        } else if a != d.date_id {
            assert(s.dates.contains_key(a) && s.dates[a] == date);
        } else if b != d.date_id {
            assert(s.dates.contains_key(b) && s.dates[b] == date);
        }
    }
}

/// Games created on one date, one creation after the other, are numbered
/// consecutively, on the same date row.
pub proof fn law_consecutive_numbers(
    s0: StoreModel,
    date: CalDate,
    score1: Seq<char>,
    s1: StoreModel,
    d1: DateModel,
    g1: GameModel,
    score2: Seq<char>,
    s2: StoreModel,
    d2: DateModel,
    g2: GameModel,
)
    requires
        s0.wf(),
        created(s0, date, score1, s1, d1, g1),
        created(s1, date, score2, s2, d2, g2),
    ensures
        d2 == d1,
        g2.game_no == g1.game_no + 1,
{
    created_keeps_wf(s0, date, score1, s1, d1, g1);
    assert(s1.dates.contains_key(d1.date_id) && s1.dates[d1.date_id] == date);
    assert(s1.has_date_value(date));
    assert(s1.dates[d2.date_id] == s1.dates[d1.date_id]);
    lemma_games_on_insert(s0, s1, g1.game_id, row_of(g1), d1.date_id);
}

/// A deletion that began on `s0`, now at `c` with query `q` pending on `s`.
pub open spec fn delete_inv(c: DeleteGame, q: Query, s0: StoreModel, s: StoreModel) -> bool {
    match c.stage {
        DeleteStage::Deleting => q == (Query::DeleteGame { game_id: c.game_id }) && s == s0,
        DeleteStage::Counting(d) => {
            &&& q == (Query::CountGames { date_id: d })
            &&& s0.games.contains_key(c.game_id)
            &&& s0.games[c.game_id].date_id == d
            &&& s == (StoreModel { dates: s0.dates, games: s0.games.remove(c.game_id) })
        },
        DeleteStage::DroppingDate(d) => {
            &&& q == (Query::DeleteDate { date_id: d })
            &&& s0.games.contains_key(c.game_id)
            &&& s0.games[c.game_id].date_id == d
            &&& s == (StoreModel { dates: s0.dates, games: s0.games.remove(c.game_id) })
            &&& s.count_on(d) == 0
        },
        DeleteStage::Finished => true,
    }
}

/// What a successful deletion of game `id` did: the game is gone, and its
/// date too exactly when no game is left on it.
pub open spec fn deleted(s0: StoreModel, id: u128, s2: StoreModel) -> bool {
    let d = s0.games[id].date_id;
    &&& s0.games.contains_key(id)
    &&& s2.games == s0.games.remove(id)
    &&& s2.dates == if s2.count_on(d) == 0 {
        s0.dates.remove(d)
    } else {
        s0.dates
    }
}

/// One step of a deletion against a store whose answers succeed keeps the
/// store well formed and the deletion on track; a 204 ends it as `deleted`
/// says, and a 404 leaves the store as it was, which held no such game.
pub proof fn delete_step(
    s0: StoreModel,
    s: StoreModel,
    c: DeleteGame,
    q: Query,
    reply: Reply,
    s2: StoreModel,
    c2: DeleteGame,
    step: Step,
)
    requires
        s0.wf(),
        s.wf(),
        delete_inv(c, q, s0, s),
        !c.is_finished(),
        answers(s, q, reply, s2),
        DeleteGame::steps(c, reply, c2, step),
    ensures
        s2.wf(),
        step matches Step::Ask(q2) ==> delete_inv(c2, q2, s0, s2),
        step == Step::Respond(Response::NoContent) ==> deleted(s0, c.game_id, s2),
        step matches Step::Respond(Response::NotFound(_)) ==> s2 == s0 && !s0.games.contains_key(
            c.game_id,
        ),
{
    match c.stage {
        DeleteStage::DroppingDate(d) => {
            lemma_no_games_on(s, d);
        },
        _ => {},
    }
}

/// Deleting the only game of a date removes that date: no row holds the date
/// value any more.
pub proof fn law_last_game_takes_date(s0: StoreModel, id: u128, s2: StoreModel)
    requires
        s0.wf(),
        deleted(s0, id, s2),
        s0.count_on(s0.games[id].date_id) == 1,
    ensures
        !s2.dates.contains_key(s0.games[id].date_id),
        !s2.has_date_value(s0.dates[s0.games[id].date_id]),
{
    let d = s0.games[id].date_id;
    lemma_games_on_remove(s0, s2, id, d);
    if s2.has_date_value(s0.dates[d]) {
        let other = choose|o: u128| #[trigger] s2.dates.contains_key(o) && s2.dates[o] == s0.dates[d];
        assert(s0.dates[other] == s0.dates[d]);
    }
}

/// Deleting a game while others remain on its date keeps the date and every
/// other game as they were, numbers included.
pub proof fn law_other_games_stay(s0: StoreModel, id: u128, s2: StoreModel)
    requires
        s0.wf(),
        deleted(s0, id, s2),
        s0.count_on(s0.games[id].date_id) > 1,
    ensures
        s2.dates == s0.dates,
        s2.count_on(s0.games[id].date_id) == s0.count_on(s0.games[id].date_id) - 1,
        forall|g: u128| #[trigger]
            s0.games.contains_key(g) && g != id ==> s2.games.contains_key(g) && s2.games[g]
                == s0.games[g],
{
    lemma_games_on_remove(s0, s2, id, s0.games[id].date_id);
}

/// Fetching a game the store does not hold answers 404 with a well-formed
/// envelope.
pub proof fn law_missing_game_fetch(
    s: StoreModel,
    id: u128,
    reply: Reply,
    s2: StoreModel,
    c2: GetGame,
    step: Step,
)
    requires
        !s.games.contains_key(id),
        answers(s, Query::GameById { game_id: id }, reply, s2),
        GetGame::steps((GetGame { game_id: id, stage: GetStage::FindingGame }), reply, c2, step),
    ensures
        match step {
            Step::Respond(Response::NotFound(e)) => e.well_formed(),
            _ => false,
        },
{
    reveal_strlit("Game with ID: ");
}

/// Deleting a game the store does not hold answers 404 with a well-formed
/// envelope, and changes nothing.
pub proof fn law_missing_game_delete(
    s: StoreModel,
    id: u128,
    reply: Reply,
    s2: StoreModel,
    c2: DeleteGame,
    step: Step,
)
    requires
        !s.games.contains_key(id),
        answers(s, Query::DeleteGame { game_id: id }, reply, s2),
        DeleteGame::steps(
            (DeleteGame { game_id: id, stage: DeleteStage::Deleting }),
            reply,
            c2,
            step,
        ),
    ensures
        s2 == s,
        match step {
            Step::Respond(Response::NotFound(e)) => e.well_formed(),
            _ => false,
        },
{
    reveal_strlit("Game with ID: ");
}

/// Fetching a created game by its id gives back, field for field, the game
/// the creation answered with.
pub proof fn law_fetch_after_create(
    s0: StoreModel,
    date: CalDate,
    score: Seq<char>,
    s1: StoreModel,
    d: DateModel,
    g: GameModel,
    fetched: GameModel,
    d2: DateModel,
    made: Game,
    got: Game,
)
    requires
        s0.wf(),
        created(s0, date, score, s1, d, g),
        answers(s1, Query::GameById { game_id: g.game_id }, Reply::Game(fetched), s1),
        answers(s1, Query::DateById { date_id: fetched.date_id }, Reply::Date(d2), s1),
        made.joins(d, g),
        got.joins(d2, fetched),
    ensures
        made.same_as(got),
{
    created_keeps_wf(s0, date, score, s1, d, g);
    assert(row_of(fetched) == row_of(g));
}

/// `info` shows a stored game of the date with id `date_id`.
pub open spec fn shows_stored(s: StoreModel, info: GameInfo, date_id: u128) -> bool {
    &&& s.games.contains_key(info.game_id)
    &&& s.games[info.game_id].date_id == date_id
    &&& s.games[info.game_id].game_no == info.game_no
    &&& s.games[info.game_id].score == info.score_str@
}

/// A listing of the first page with room for every date answers one record
/// per stored date, no date twice, each record holding every game of its date
/// once, by ascending game number.
pub proof fn law_full_listing(
    s: StoreModel,
    limit: u64,
    ds: Seq<DateModel>,
    gss: Seq<Seq<GameModel>>,
    step: Step,
)
    requires
        s.wf(),
        limit >= s.dates.dom().len(),
        lists_dates(s, limit, 0, ds),
        forall|i: int| 0 <= i < ds.len() ==> lists_games(s, (#[trigger] ds[i]).date_id, gss[i]),
        step.lists(ds, gss),
    ensures
        match step {
            Step::Respond(Response::Records(r)) => {
                &&& r.results == s.dates.dom().len()
                &&& r.dates@.len() == s.dates.dom().len()
                &&& forall|i: int|
                    0 <= i < r.dates@.len() ==> s.holds_date(
                        (DateModel { date_id: #[trigger] r.dates@[i].date_id, date: r.dates@[i].date }),
                    )
                &&& forall|i: int, j: int|
                    0 <= i < j < r.dates@.len() ==> #[trigger] r.dates@[i].date
                        != #[trigger] r.dates@[j].date
                &&& forall|i: int|
                    0 <= i < r.dates@.len() ==> (#[trigger] r.dates@[i]).games@.len()
                        == s.count_on(r.dates@[i].date_id)
                &&& forall|i: int, k: int|
                    0 <= i < r.dates@.len() && 0 <= k < r.dates@[i].games@.len() ==> shows_stored(
                        s,
                        #[trigger] r.dates@[i].games@[k],
                        r.dates@[i].date_id,
                    )
                &&& forall|i: int, k: int, l: int|
                    0 <= i < r.dates@.len() && 0 <= k < l < r.dates@[i].games@.len()
                        ==> #[trigger] r.dates@[i].games@[k].game_no
                        <= #[trigger] r.dates@[i].games@[l].game_no
                &&& forall|i: int, k: int, l: int|
                    0 <= i < r.dates@.len() && 0 <= k < l < r.dates@[i].games@.len()
                        ==> #[trigger] r.dates@[i].games@[k].game_id
                        != #[trigger] r.dates@[i].games@[l].game_id
            },
            _ => false,
        },
{
    match step {
        Step::Respond(Response::Records(r)) => {
            assert forall|i: int, j: int|
                0 <= i < j < r.dates@.len() implies #[trigger] r.dates@[i].date
                != #[trigger] r.dates@[j].date by {
                assert(r.dates@[i].shows(ds[i], gss[i]));
                assert(r.dates@[j].shows(ds[j], gss[j]));
                assert(s.rank(ds[i].date) == i);
                assert(s.rank(ds[j].date) == j);
            }
            assert forall|i: int, k: int|
                0 <= i < r.dates@.len() && 0 <= k < r.dates@[i].games@.len() implies shows_stored(
                s,
                #[trigger] r.dates@[i].games@[k],
                r.dates@[i].date_id,
            ) by {
                assert(r.dates@[i].shows(ds[i], gss[i]));
                assert(lists_games(s, ds[i].date_id, gss[i]));
                assert(r.dates@[i].games@[k].shows(gss[i][k]));
                assert(s.holds_game(gss[i][k]));
            }
            assert forall|i: int, k: int, l: int|
                0 <= i < r.dates@.len() && 0 <= k < l < r.dates@[i].games@.len()
                    implies #[trigger] r.dates@[i].games@[k].game_no
                <= #[trigger] r.dates@[i].games@[l].game_no
                && r.dates@[i].games@[k].game_id != r.dates@[i].games@[l].game_id by {
                assert(r.dates@[i].shows(ds[i], gss[i]));
                assert(lists_games(s, ds[i].date_id, gss[i]));
                assert(r.dates@[i].games@[k].shows(gss[i][k]));
                assert(r.dates@[i].games@[l].shows(gss[i][l]));
            }
            assert forall|i: int|
                0 <= i < r.dates@.len() implies (#[trigger] r.dates@[i]).games@.len()
                == s.count_on(r.dates@[i].date_id) && s.holds_date(
                (DateModel { date_id: r.dates@[i].date_id, date: r.dates@[i].date }),
            ) by {
                assert(r.dates@[i].shows(ds[i], gss[i]));
                assert(lists_games(s, ds[i].date_id, gss[i]));
            }
        },
        _ => {},
    }
}

/// The score a stored game has after an update: the given one, else its own.
pub open spec fn score_after(body: UpdateGameSchema, row: crate::store::GameRow) -> Seq<char> {
    match body.score_str {
        Some(s) => s@,
        None => row.score,
    }
}

/// The date row `d` an update moves game `id` to: the row of the given date,
/// else the game's own date row.
pub open spec fn update_target(s0: StoreModel, id: u128, body: UpdateGameSchema, d: DateModel) -> bool {
    match body.date {
        Some(nd) => d.date == nd && (s0.holds_date(d) || (!s0.has_date_value(nd)
            && !s0.dates.contains_key(d.date_id))),
        None => d.date_id == s0.games[id].date_id && s0.holds_date(d),
    }
}

/// What a successful update of game `id` did: the game now lies on the date
/// row `d` (added when the given date had no row) with the new score and its
/// old number, and `g` is that updated row.
pub open spec fn updated(
    s0: StoreModel,
    id: u128,
    body: UpdateGameSchema,
    s2: StoreModel,
    d: DateModel,
    g: GameModel,
) -> bool {
    &&& s0.games.contains_key(id)
    &&& update_target(s0, id, body, d)
    &&& g.game_id == id
    &&& g.date_id == d.date_id
    &&& g.game_no == s0.games[id].game_no
    &&& g.score_str@ == score_after(body, s0.games[id])
    &&& s2.dates == s0.dates.insert(d.date_id, d.date)
    &&& s2.games == s0.games.insert(id, row_of(g))
}

/// An update that began on `s0`, now at `c` with query `q` pending on `s`.
pub open spec fn update_inv(c: UpdateGame, q: Query, s0: StoreModel, s: StoreModel) -> bool {
    match c.stage {
        UpdateStage::FindingGame => q == (Query::GameById { game_id: c.game_id }) && s == s0,
        UpdateStage::FindingTarget(g) => {
            &&& c.body.date matches Some(nd) && q == (Query::DateByValue { date: nd })
            &&& s == s0
            &&& s0.holds_game(g)
            &&& g.game_id == c.game_id
        },
        UpdateStage::AddingTarget(g) => {
            &&& c.body.date matches Some(nd) && q == (Query::InsertDate { date: nd })
                && !s0.has_date_value(nd)
            &&& s == s0
            &&& s0.holds_game(g)
            &&& g.game_id == c.game_id
        },
        UpdateStage::FindingDate(g) => {
            &&& c.body.date is None
            &&& q == (Query::DateById { date_id: g.date_id })
            &&& s == s0
            &&& s0.holds_game(g)
            &&& g.game_id == c.game_id
        },
        UpdateStage::Updating(d) => {
            &&& s0.games.contains_key(c.game_id)
            &&& update_target(s0, c.game_id, c.body, d)
            &&& s.dates == s0.dates.insert(d.date_id, d.date)
            &&& s.games == s0.games
            &&& match q {
                Query::UpdateGame { game_id, date_id, score_str } => game_id == c.game_id
                    && date_id == d.date_id && score_str@ == score_after(
                    c.body,
                    s0.games[c.game_id],
                ),
                _ => false,
            }
        },
        UpdateStage::Finished => true,
    }
}

/// One step of an update against a store whose answers succeed keeps the
/// store well formed and the update on track; the step that answers 200 ends
/// it as `updated` says, and a 404 comes only for a game the store lacked.
pub proof fn update_step(
    s0: StoreModel,
    s: StoreModel,
    c: UpdateGame,
    q: Query,
    reply: Reply,
    s2: StoreModel,
    c2: UpdateGame,
    step: Step,
)
    requires
        s0.wf(),
        s.wf(),
        update_inv(c, q, s0, s),
        !c.is_finished(),
        answers(s, q, reply, s2),
        UpdateGame::steps(c, reply, c2, step),
    ensures
        s2.wf(),
        step matches Step::Ask(q2) ==> update_inv(c2, q2, s0, s2),
        match (c.stage, reply) {
            (UpdateStage::Updating(d), Reply::Game(g)) => step.found(d, g) && updated(
                s0,
                c.game_id,
                c.body,
                s2,
                d,
                g,
            ),
            _ => !(step matches Step::Respond(Response::Found(_))),
        },
        step matches Step::Respond(Response::NotFound(_)) ==> !s0.games.contains_key(c.game_id),
{
    match (c.stage, reply) {
        (UpdateStage::FindingTarget(g), Reply::Date(d)) => {
            assert(s0.dates.insert(d.date_id, d.date) =~= s0.dates);
        },
        (UpdateStage::FindingDate(g), Reply::Date(d)) => {
            assert(s0.dates.insert(d.date_id, d.date) =~= s0.dates);
        },
        (UpdateStage::AddingTarget(g), Reply::Date(d)) => {
            assert forall|a: u128, b: u128|
                s2.dates.contains_key(a) && s2.dates.contains_key(b) && s2.dates[a]
                    == s2.dates[b] implies a == b by {
                if a != d.date_id && b != d.date_id {
                    assert(s.dates[a] == s.dates[b]);
                } else if a != d.date_id {
                    assert(s.dates.contains_key(a) && s.dates[a] == d.date);
                } else if b != d.date_id {
                    assert(s.dates.contains_key(b) && s.dates[b] == d.date);
                }
            }
        },
        _ => {},
    }
}

} // verus!
