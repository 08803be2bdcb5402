use vstd::prelude::*;

use crate::protocol::{Query, Reply};
use crate::schema::{CalDate, DateModel, GameModel};

verus! {

/// A game row as the store holds it.
pub ghost struct GameRow {
    pub date_id: u128,
    pub game_no: i32,
    pub score: Seq<char>,
}

/// What the store holds: date rows and game rows, each by id.
pub ghost struct StoreModel {
    pub dates: Map<u128, CalDate>,
    pub games: Map<u128, GameRow>,
}

pub open spec fn row_of(g: GameModel) -> GameRow {
    GameRow { date_id: g.date_id, game_no: g.game_no, score: g.score_str@ }
}

impl StoreModel {
    /// Finitely many rows, every game on a stored date, no date value twice.
    pub open spec fn wf(self) -> bool {
        &&& self.dates.dom().finite()
        &&& self.games.dom().finite()
        &&& forall|g: u128| #[trigger]
            self.games.contains_key(g) ==> self.dates.contains_key(self.games[g].date_id)
        &&& forall|a: u128, b: u128|
            #![trigger self.dates[a], self.dates[b]]
            self.dates.contains_key(a) && self.dates.contains_key(b) && self.dates[a]
                == self.dates[b] ==> a == b
    }

    /// Ids of the games on the date with id `d`.
    pub open spec fn games_on(self, d: u128) -> Set<u128> {
        self.games.dom().filter(|g: u128| self.games[g].date_id == d)
    }

    pub open spec fn count_on(self, d: u128) -> nat {
        self.games_on(d).len()
    }

    pub open spec fn holds_date(self, d: DateModel) -> bool {
        self.dates.contains_key(d.date_id) && self.dates[d.date_id] == d.date
    }

    pub open spec fn holds_game(self, g: GameModel) -> bool {
        self.games.contains_key(g.game_id) && self.games[g.game_id] == row_of(g)
    }

    pub open spec fn has_date_value(self, date: CalDate) -> bool {
        exists|id: u128| #[trigger] self.dates.contains_key(id) && self.dates[id] == date
    }

    /// Number of date rows strictly after `date`: its place in a listing
    /// newest first.
    pub open spec fn rank(self, date: CalDate) -> nat {
        self.dates.dom().filter(|id: u128| self.dates[id].is_after(date)).len()
    }
}

/// `v` is the page of date rows, newest first, that skips `offset` rows and
/// keeps at most `limit`.
pub open spec fn lists_dates(s: StoreModel, limit: u64, offset: u64, v: Seq<DateModel>) -> bool {
    let total = s.dates.dom().len() as int;
    let rest = if total > offset { total - offset } else { 0 };
    &&& v.len() == if rest < limit { rest } else { limit as int }
    &&& forall|i: int|
        0 <= i < v.len() ==> s.holds_date(#[trigger] v[i]) && s.rank(v[i].date) == offset + i
}

/// `v` holds each game row of the date with id `d` once, by ascending game
/// number.
pub open spec fn lists_games(s: StoreModel, d: u128, v: Seq<GameModel>) -> bool {
    &&& v.len() == s.count_on(d)
    &&& forall|i: int| 0 <= i < v.len() ==> s.holds_game(#[trigger] v[i]) && v[i].date_id == d
    &&& forall|i: int, j: int|
        0 <= i < j < v.len() ==> #[trigger] v[i].game_id != #[trigger] v[j].game_id
            && v[i].game_no <= v[j].game_no
}

/// `reply` is a successful answer to `q` of a store that holds `s`, and `s2`
/// is what the store holds afterwards.
pub open spec fn answers(s: StoreModel, q: Query, reply: Reply, s2: StoreModel) -> bool {
    match q {
        Query::ListDates { limit, offset } => s2 == s && match reply {
            Reply::Dates(v) => lists_dates(s, limit, offset, v@),
            _ => false,
        },
        Query::GamesOnDate { date_id } => s2 == s && match reply {
            Reply::Games(v) => lists_games(s, date_id, v@),
            _ => false,
        },
        Query::GameById { game_id } => s2 == s && match reply {
            Reply::Game(g) => g.game_id == game_id && s.holds_game(g),
            Reply::NoRow => !s.games.contains_key(game_id),
            _ => false,
        },
        Query::DateById { date_id } => s2 == s && match reply {
            Reply::Date(d) => d.date_id == date_id && s.holds_date(d),
            Reply::NoRow => !s.dates.contains_key(date_id),
            _ => false,
        },
        Query::DateByValue { date } => s2 == s && match reply {
            Reply::Date(d) => d.date == date && s.holds_date(d),
            Reply::NoRow => !s.has_date_value(date),
            _ => false,
        },
        Query::InsertDate { date } => match reply {
            Reply::Date(d) => {
                &&& d.date == date
                &&& !s.has_date_value(date)
                &&& !s.dates.contains_key(d.date_id)
                &&& s2 == StoreModel { dates: s.dates.insert(d.date_id, date), games: s.games }
            },
            _ => false,
        },
        Query::CountGames { date_id } => s2 == s && match reply {
            Reply::Count(Some(n)) => n == s.count_on(date_id),
            _ => false,
        },
        Query::InsertGame { date_id, game_no, score_str } => match reply {
            Reply::Game(g) => {
                &&& g.date_id == date_id
                &&& g.game_no == game_no
                &&& g.score_str@ == score_str@
                &&& s.dates.contains_key(date_id)
                &&& !s.games.contains_key(g.game_id)
                &&& s2 == StoreModel { dates: s.dates, games: s.games.insert(g.game_id, row_of(g)) }
            },
            _ => false,
        },
        Query::UpdateGame { game_id, date_id, score_str } => match reply {
            Reply::Game(g) => {
                &&& s.games.contains_key(game_id)
                &&& s.dates.contains_key(date_id)
                &&& g.game_id == game_id
                &&& g.date_id == date_id
                &&& g.game_no == s.games[game_id].game_no
                &&& g.score_str@ == score_str@
                &&& s2 == StoreModel { dates: s.dates, games: s.games.insert(game_id, row_of(g)) }
            },
            Reply::NoRow => !s.games.contains_key(game_id) && s2 == s,
            _ => false,
        },
        Query::DeleteGame { game_id } => match reply {
            Reply::Deleted(Some(g)) => {
                &&& g.game_id == game_id
                &&& s.holds_game(g)
                &&& s2 == StoreModel { dates: s.dates, games: s.games.remove(game_id) }
            },
            Reply::Deleted(None) => !s.games.contains_key(game_id) && s2 == s,
            _ => false,
        },
        Query::DeleteDate { date_id } => {
            &&& reply is Done
            &&& s.count_on(date_id) == 0
            &&& s2 == StoreModel { dates: s.dates.remove(date_id), games: s.games }
        },
    }
}

/// Inserting a game that is not yet stored adds it to its date's games.
pub proof fn lemma_games_on_insert(s: StoreModel, s2: StoreModel, id: u128, row: GameRow, d: u128)
    requires
        s.games.dom().finite(),
        !s.games.contains_key(id),
        s2.games == s.games.insert(id, row),
    ensures
        row.date_id == d ==> s2.count_on(d) == s.count_on(d) + 1,
        row.date_id != d ==> s2.count_on(d) == s.count_on(d),
{
    if row.date_id == d {
        assert(s2.games_on(d) =~= s.games_on(d).insert(id));
    } else {
        assert(s2.games_on(d) =~= s.games_on(d));
    }
}

/// Removing a stored game takes it out of its date's games.
pub proof fn lemma_games_on_remove(s: StoreModel, s2: StoreModel, id: u128, d: u128)
    requires
        s.games.dom().finite(),
        s.games.contains_key(id),
        s2.games == s.games.remove(id),
    ensures
        s.games[id].date_id == d ==> s2.count_on(d) == s.count_on(d) - 1,
        s.games[id].date_id != d ==> s2.count_on(d) == s.count_on(d),
{
    if s.games[id].date_id == d {
        assert(s2.games_on(d) =~= s.games_on(d).remove(id));
    } else {
        assert(s2.games_on(d) =~= s.games_on(d));
    }
}

/// A date with no games has no game pointing at it.
pub proof fn lemma_no_games_on(s: StoreModel, d: u128)
    requires
        s.games.dom().finite(),
        s.count_on(d) == 0,
    ensures
        forall|g: u128| #[trigger] s.games.contains_key(g) ==> s.games[g].date_id != d,
{
    assert forall|g: u128| #[trigger] s.games.contains_key(g) implies s.games[g].date_id != d by {
        if s.games[g].date_id == d {
            assert(s.games_on(d).contains(g));
        }
    }
}

} // verus!
