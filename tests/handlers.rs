use game_records::create_game::CreateGame;
use game_records::delete_game::DeleteGame;
use game_records::get_game::GetGame;
use game_records::list_records::ListRecords;
use game_records::protocol::{Query, Reply, Response, Step};
use game_records::update_game::UpdateGame;
use game_records::{
    health_check, not_found_message, CalDate, CreateGameSchema, DateModel, FilterOptions,
    GameModel, UpdateGameSchema,
};

/// A store held in memory, answering queries as the database does.
struct MemStore {
    dates: Vec<DateModel>,
    games: Vec<GameModel>,
    next_id: u128,
    fail_on: Option<&'static str>,
}

fn kind(q: &Query) -> &'static str {
    match q {
        Query::ListDates { .. } => "list_dates",
        Query::GamesOnDate { .. } => "games_on_date",
        Query::GameById { .. } => "game_by_id",
        Query::DateById { .. } => "date_by_id",
        Query::DateByValue { .. } => "date_by_value",
        Query::InsertDate { .. } => "insert_date",
        Query::CountGames { .. } => "count_games",
        Query::InsertGame { .. } => "insert_game",
        Query::UpdateGame { .. } => "update_game",
        Query::DeleteGame { .. } => "delete_game",
        Query::DeleteDate { .. } => "delete_date",
    }
}

fn date_key(d: &CalDate) -> (i32, u32, u32) {
    (d.year, d.month, d.day)
}

impl MemStore {
    fn new() -> MemStore {
        MemStore { dates: Vec::new(), games: Vec::new(), next_id: 100, fail_on: None }
    }

    fn fresh(&mut self) -> u128 {
        self.next_id += 1;
        self.next_id
    }

    fn answer(&mut self, q: Query) -> Reply {
        if self.fail_on == Some(kind(&q)) {
            return Reply::Failed;
        }
        match q {
            Query::ListDates { limit, offset } => {
                let mut v = self.dates.clone();
                v.sort_by(|a, b| date_key(&b.date).cmp(&date_key(&a.date)));
                Reply::Dates(v.into_iter().skip(offset as usize).take(limit as usize).collect())
            }
            Query::GamesOnDate { date_id } => {
                let mut v: Vec<GameModel> =
                    self.games.iter().filter(|g| g.date_id == date_id).cloned().collect();
                v.sort_by_key(|g| g.game_no);
                Reply::Games(v)
            }
            Query::GameById { game_id } => match self.games.iter().find(|g| g.game_id == game_id) {
                Some(g) => Reply::Game(g.clone()),
                None => Reply::NoRow,
            },
            Query::DateById { date_id } => match self.dates.iter().find(|d| d.date_id == date_id) {
                Some(d) => Reply::Date(*d),
                None => Reply::NoRow,
            },
            Query::DateByValue { date } => match self.dates.iter().find(|d| d.date == date) {
                Some(d) => Reply::Date(*d),
                None => Reply::NoRow,
            },
            Query::InsertDate { date } => {
                if self.dates.iter().any(|d| d.date == date) {
                    return Reply::Failed;
                }
                let d = DateModel { date_id: self.fresh(), date };
                self.dates.push(d);
                Reply::Date(d)
            }
            Query::CountGames { date_id } => Reply::Count(Some(
                self.games.iter().filter(|g| g.date_id == date_id).count() as i64,
            )),
            Query::InsertGame { date_id, game_no, score_str } => {
                let g = GameModel { date_id, game_id: self.fresh(), game_no, score_str };
                self.games.push(g.clone());
                Reply::Game(g)
            }
            Query::UpdateGame { game_id, date_id, score_str } => {
                match self.games.iter_mut().find(|g| g.game_id == game_id) {
                    Some(g) => {
                        g.date_id = date_id;
                        g.score_str = score_str;
                        Reply::Game(g.clone())
                    }
                    None => Reply::NoRow,
                }
            }
            Query::DeleteGame { game_id } => {
                match self.games.iter().position(|g| g.game_id == game_id) {
                    Some(i) => Reply::Deleted(Some(self.games.remove(i))),
                    None => Reply::Deleted(None),
                }
            }
            Query::DeleteDate { date_id } => {
                self.dates.retain(|d| d.date_id != date_id);
                Reply::Done
            }
        }
    }

    fn create(&mut self, date: CalDate, score: &str) -> Response {
        let (mut c, q) = CreateGame::start(CreateGameSchema { date, score_str: score.to_string() });
        let mut reply = self.answer(q);
        loop {
            match c.on_reply(reply) {
                Step::Ask(q) => reply = self.answer(q),
                Step::Respond(r) => return r,
            }
        }
    }

    fn get(&mut self, id: u128) -> Response {
        let (mut c, q) = GetGame::start(id);
        let mut reply = self.answer(q);
        loop {
            match c.on_reply(reply) {
                Step::Ask(q) => reply = self.answer(q),
                Step::Respond(r) => return r,
            }
        }
    }

    fn update(&mut self, id: u128, body: UpdateGameSchema) -> Response {
        let (mut c, q) = UpdateGame::start(id, body);
        let mut reply = self.answer(q);
        loop {
            match c.on_reply(reply) {
                Step::Ask(q) => reply = self.answer(q),
                Step::Respond(r) => return r,
            }
        }
    }

    fn delete(&mut self, id: u128) -> Response {
        let (mut c, q) = DeleteGame::start(id);
        let mut reply = self.answer(q);
        loop {
            match c.on_reply(reply) {
                Step::Ask(q) => reply = self.answer(q),
                Step::Respond(r) => return r,
            }
        }
    }

    fn list(&mut self, page: Option<usize>, limit: Option<usize>) -> Response {
        let (mut c, first) = ListRecords::start(&FilterOptions { page, limit });
        let mut step = first;
        loop {
            match step {
                Step::Ask(q) => {
                    let reply = self.answer(q);
                    step = c.on_reply(reply);
                }
                Step::Respond(r) => return r,
            }
        }
    }
}

fn day(year: i32, month: u32, day: u32) -> CalDate {
    CalDate { year, month, day }
}

fn found(r: Response) -> game_records::Game {
    match r {
        Response::Found(g) => {
            assert_eq!(g.status, "success");
            g.data
        }
        other => panic!("expected a game, got {:?}", other),
    }
}

fn records(r: Response) -> game_records::RecordResponse {
    match r {
        Response::Records(r) => {
            assert_eq!(r.status, "success");
            r
        }
        other => panic!("expected records, got {:?}", other),
    }
}

fn server_error_message(r: Response) -> String {
    match r {
        Response::ServerError(e) => {
            assert_eq!(e.status, "error");
            e.message
        }
        other => panic!("expected a server error, got {:?}", other),
    }
}

#[test]
fn scenario_create_list_delete() {
    let mut s = MemStore::new();
    let d = day(2024, 1, 1);
    let first = found(s.create(d, "3-2"));
    assert_eq!(first.game_info.game_no, 1);
    assert_eq!(first.date, d);
    let second = found(s.create(d, "1-0"));
    assert_eq!(second.game_info.game_no, 2);
    assert_eq!(second.date_id, first.date_id);

    let page = records(s.list(None, Some(1)));
    assert_eq!(page.results, 1);
    assert_eq!(page.dates.len(), 1);
    assert_eq!(page.dates[0].date, d);
    let nos: Vec<i32> = page.dates[0].games.iter().map(|g| g.game_no).collect();
    assert_eq!(nos, vec![1, 2]);

    assert!(matches!(s.delete(first.game_info.game_id), Response::NoContent));
    let page = records(s.list(None, None));
    assert_eq!(page.dates.len(), 1);
    assert_eq!(page.dates[0].games.len(), 1);
    assert_eq!(page.dates[0].games[0].game_no, 2);
    assert_eq!(page.dates[0].games[0].score_str, "1-0");

    assert!(matches!(s.delete(second.game_info.game_id), Response::NoContent));
    let page = records(s.list(None, None));
    assert_eq!(page.results, 0);
    assert!(page.dates.is_empty());
}

#[test]
fn numbers_rise_by_one_per_create() {
    let mut s = MemStore::new();
    let d = day(2023, 5, 17);
    for n in 1..=5 {
        let g = found(s.create(d, "0-0"));
        assert_eq!(g.game_info.game_no, n);
    }
    let other = found(s.create(day(2023, 5, 18), "2-2"));
    assert_eq!(other.game_info.game_no, 1);
}

#[test]
fn listing_groups_games_by_date_newest_first() {
    let mut s = MemStore::new();
    s.create(day(2024, 3, 1), "a");
    s.create(day(2024, 1, 9), "b");
    s.create(day(2024, 3, 1), "c");
    s.create(day(2023, 12, 31), "d");
    s.create(day(2024, 1, 9), "e");
    let page = records(s.list(None, None));
    assert_eq!(page.results, 3);
    let dates: Vec<CalDate> = page.dates.iter().map(|r| r.date).collect();
    assert_eq!(dates, vec![day(2024, 3, 1), day(2024, 1, 9), day(2023, 12, 31)]);
    let scores: Vec<Vec<String>> = page
        .dates
        .iter()
        .map(|r| r.games.iter().map(|g| g.score_str.clone()).collect())
        .collect();
    assert_eq!(scores, vec![vec!["a", "c"], vec!["b", "e"], vec!["d"]]);
    for r in &page.dates {
        let nos: Vec<i32> = r.games.iter().map(|g| g.game_no).collect();
        let want: Vec<i32> = (1..=r.games.len() as i32).collect();
        assert_eq!(nos, want);
    }
}

#[test]
fn listing_pages_by_limit_and_page() {
    let mut s = MemStore::new();
    for m in 1..=5u32 {
        s.create(day(2022, m, 1), "x");
    }
    let page = records(s.list(Some(2), Some(2)));
    assert_eq!(page.results, 2);
    let dates: Vec<CalDate> = page.dates.iter().map(|r| r.date).collect();
    assert_eq!(dates, vec![day(2022, 3, 1), day(2022, 2, 1)]);
    let last = records(s.list(Some(3), Some(2)));
    assert_eq!(last.results, 1);
    assert_eq!(last.dates[0].date, day(2022, 1, 1));
    let past = records(s.list(Some(4), Some(2)));
    assert_eq!(past.results, 0);
}

#[test]
fn listing_rejects_zero_page_or_limit() {
    let mut s = MemStore::new();
    for (page, limit) in [(Some(0), None), (None, Some(0))] {
        match s.list(page, limit) {
            Response::BadRequest(e) => {
                assert_eq!(e.status, "fail");
                assert_eq!(e.message, "page and limit must be positive and small enough for the store");
            }
            other => panic!("expected a bad request, got {:?}", other),
        }
    }
}

#[test]
fn window_defaults_and_offsets() {
    assert_eq!(FilterOptions { page: None, limit: None }.window(), Some((12, 0)));
    assert_eq!(FilterOptions { page: Some(3), limit: Some(5) }.window(), Some((5, 10)));
    assert_eq!(FilterOptions { page: Some(2), limit: None }.window(), Some((12, 12)));
    assert_eq!(FilterOptions { page: Some(0), limit: Some(5) }.window(), None);
    assert_eq!(FilterOptions { page: Some(1), limit: Some(0) }.window(), None);
    assert_eq!(FilterOptions { page: Some(usize::MAX), limit: Some(usize::MAX) }.window(), None);
}

#[test]
fn deleting_one_of_several_keeps_gaps() {
    let mut s = MemStore::new();
    let d = day(2021, 7, 4);
    let g1 = found(s.create(d, "1"));
    let g2 = found(s.create(d, "2"));
    let g3 = found(s.create(d, "3"));
    assert!(matches!(s.delete(g2.game_info.game_id), Response::NoContent));
    let page = records(s.list(None, None));
    assert_eq!(page.dates.len(), 1);
    let nos: Vec<i32> = page.dates[0].games.iter().map(|g| g.game_no).collect();
    assert_eq!(nos, vec![1, 3]);
    assert_eq!(found(s.get(g1.game_info.game_id)).game_info.game_no, 1);
    assert_eq!(found(s.get(g3.game_info.game_id)).game_info.game_no, 3);
    let next = found(s.create(d, "4"));
    assert_eq!(next.game_info.game_no, 3);
}

#[test]
fn deleting_last_game_drops_date() {
    let mut s = MemStore::new();
    let keep = found(s.create(day(2020, 2, 29), "k"));
    let only = found(s.create(day(2020, 3, 1), "o"));
    assert!(matches!(s.delete(only.game_info.game_id), Response::NoContent));
    assert_eq!(s.dates.len(), 1);
    let page = records(s.list(None, None));
    assert_eq!(page.results, 1);
    assert_eq!(page.dates[0].date_id, keep.date_id);
}

#[test]
fn missing_game_answers_not_found() {
    let mut s = MemStore::new();
    let id: u128 = 0xa1a2a3a4b1b2c1c2d1d2d3d4d5d6d7d8;
    let want = "Game with ID: a1a2a3a4-b1b2-c1c2-d1d2-d3d4d5d6d7d8 not found";
    for r in [s.get(id), s.delete(id), s.update(id, UpdateGameSchema { date: None, score_str: None })] {
        match r {
            Response::NotFound(e) => {
                assert_eq!(e.status, "fail");
                assert_eq!(e.message, want);
            }
            other => panic!("expected not found, got {:?}", other),
        }
    }
}

#[test]
fn not_found_message_spells_the_id() {
    assert_eq!(
        not_found_message(0x0123456789abcdef0123456789abcdef),
        "Game with ID: 01234567-89ab-cdef-0123-456789abcdef not found"
    );
    assert_eq!(not_found_message(0), "Game with ID: 00000000-0000-0000-0000-000000000000 not found");
}

#[test]
fn fetch_returns_what_create_returned() {
    let mut s = MemStore::new();
    let made = found(s.create(day(2019, 11, 30), "21-19"));
    let got = found(s.get(made.game_info.game_id));
    assert_eq!(got.date_id, made.date_id);
    assert_eq!(got.date, made.date);
    assert_eq!(got.game_info.game_id, made.game_info.game_id);
    assert_eq!(got.game_info.game_no, made.game_info.game_no);
    assert_eq!(got.game_info.score_str, made.game_info.score_str);
}

#[test]
fn update_applies_score_and_date() {
    let mut s = MemStore::new();
    let g = found(s.create(day(2024, 6, 1), "1-1"));
    let id = g.game_info.game_id;
    let u = found(s.update(id, UpdateGameSchema { date: None, score_str: Some("2-1".to_string()) }));
    assert_eq!(u.game_info.score_str, "2-1");
    assert_eq!(u.date_id, g.date_id);
    assert_eq!(u.game_info.game_no, 1);
    let moved = found(s.update(id, UpdateGameSchema { date: Some(day(2024, 6, 2)), score_str: None }));
    assert_eq!(moved.date, day(2024, 6, 2));
    assert_ne!(moved.date_id, g.date_id);
    assert_eq!(moved.game_info.score_str, "2-1");
    assert_eq!(moved.game_info.game_no, 1);
    let got = found(s.get(id));
    assert_eq!(got.date, day(2024, 6, 2));
    let other = found(s.create(day(2024, 6, 3), "0-0"));
    let back = found(s.update(id, UpdateGameSchema { date: Some(day(2024, 6, 3)), score_str: None }));
    assert_eq!(back.date_id, other.date_id);
}

#[test]
fn health_check_is_fixed() {
    let h = health_check();
    assert_eq!(h.status, "success");
    assert_eq!(h.message, "Built API with Rust, PostgreSQL, and Actix Web");
}

#[test]
fn store_failures_give_error_envelopes() {
    let cases: [(&str, &str); 4] = [
        ("insert_date", "Error occured while attempting to add new date to database"),
        ("count_games", "Error occured while querying number of games played"),
        ("insert_game", "Error occured while adding new game"),
        ("date_by_value", ""),
    ];
    for (step, msg) in cases {
        let mut s = MemStore::new();
        s.fail_on = Some(step);
        let r = s.create(day(2024, 1, 1), "x");
        if msg.is_empty() {
            // a failed lookup falls back to adding the date
            assert_eq!(found(r).game_info.game_no, 1);
        } else {
            assert_eq!(server_error_message(r), msg);
        }
    }
    let mut s = MemStore::new();
    let g = found(s.create(day(2024, 1, 1), "x"));
    s.fail_on = Some("list_dates");
    assert_eq!(server_error_message(s.list(None, None)), "Error occured while querying dates");
    s.fail_on = Some("games_on_date");
    assert_eq!(server_error_message(s.list(None, None)), "Error occured while querying games on given date");
    s.fail_on = Some("game_by_id");
    assert_eq!(server_error_message(s.get(g.game_info.game_id)), "Error occured while querying for game with given game_id");
    s.fail_on = Some("date_by_id");
    assert_eq!(server_error_message(s.get(g.game_info.game_id)), "Error occured while querying for date with given date_id");
    s.fail_on = Some("update_game");
    assert_eq!(
        server_error_message(s.update(g.game_info.game_id, UpdateGameSchema { date: None, score_str: None })),
        "Error occured while updating game"
    );
    s.fail_on = Some("count_games");
    assert_eq!(server_error_message(s.delete(g.game_info.game_id)), "Unable to get number of games played on date");
    s.fail_on = None;
    let g2 = found(s.create(day(2024, 1, 2), "y"));
    s.fail_on = Some("delete_date");
    assert_eq!(server_error_message(s.delete(g2.game_info.game_id)), "Error deleting date from database");
    s.fail_on = Some("delete_game");
    assert_eq!(server_error_message(s.delete(1)), "Error occured while querying for game deletion");
}

#[test]
fn unusable_counts_are_errors() {
    let (mut c, _) = CreateGame::start(CreateGameSchema { date: day(2024, 1, 1), score_str: "x".to_string() });
    let d = DateModel { date_id: 7, date: day(2024, 1, 1) };
    assert!(matches!(c.on_reply(Reply::Date(d)), Step::Ask(Query::CountGames { date_id: 7 })));
    assert_eq!(server_error_message(match c.on_reply(Reply::Count(None)) {
        Step::Respond(r) => r,
        other => panic!("expected a response, got {:?}", other),
    }), "Error occured while fetching number of games played");
    let (mut c, _) = CreateGame::start(CreateGameSchema { date: day(2024, 1, 1), score_str: "x".to_string() });
    c.on_reply(Reply::Date(d));
    assert!(matches!(c.on_reply(Reply::Count(Some(i32::MAX as i64))), Step::Respond(Response::ServerError(_))));
    let (mut c, _) = DeleteGame::start(5);
    let g = GameModel { date_id: 7, game_id: 5, game_no: 1, score_str: "x".to_string() };
    c.on_reply(Reply::Deleted(Some(g)));
    assert_eq!(server_error_message(match c.on_reply(Reply::Count(None)) {
        Step::Respond(r) => r,
        other => panic!("expected a response, got {:?}", other),
    }), "Error getting number of games on date");
}
