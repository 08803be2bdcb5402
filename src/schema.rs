use vstd::prelude::*;

verus! {

/// A calendar date (year, month, day), with no time component.
#[derive(Clone, Copy, Debug, PartialEq, Eq, Structural)]
pub struct CalDate {
    pub year: i32,
    pub month: u32,
    pub day: u32,
}

impl CalDate {
    /// Whether `self` lies strictly after `other` in the calendar.
    pub open spec fn is_after(self, other: CalDate) -> bool {
        self.year > other.year || (self.year == other.year && (self.month > other.month || (
        self.month == other.month && self.day > other.day)))
    }
}

/// A stored date row.
#[derive(Clone, Copy, Debug, PartialEq, Eq, Structural)]
pub struct DateModel {
    pub date_id: u128,
    pub date: CalDate,
}

/// A stored game row.
#[derive(Clone, Debug)]
pub struct GameModel {
    pub date_id: u128,
    pub game_id: u128,
    pub game_no: i32,
    pub score_str: String,
}

/// Query parameters of the listing: 1-based page and page size.
#[derive(Clone, Copy, Debug)]
pub struct FilterOptions {
    pub page: Option<usize>,
    pub limit: Option<usize>,
}

/// Page size used when the listing names none.
pub const DEFAULT_LIMIT: usize = 12;

/// Largest value a store parameter may take.
pub const PARAM_MAX: u64 = 0x7fff_ffff_ffff_ffff;

impl FilterOptions {
    pub open spec fn spec_limit(self) -> int {
        match self.limit {
            Some(l) => l as int,
            None => DEFAULT_LIMIT as int,
        }
    }

    pub open spec fn spec_page(self) -> int {
        match self.page {
            Some(p) => p as int,
            None => 1,
        }
    }

    pub open spec fn spec_offset(self) -> int {
        (self.spec_page() - 1) * self.spec_limit()
    }

    /// Page and page size are positive, and both limit and offset fit a store
    /// parameter.
    pub open spec fn is_valid(self) -> bool {
        &&& self.spec_page() >= 1
        &&& self.spec_limit() >= 1
        &&& self.spec_limit() <= PARAM_MAX
        &&& self.spec_offset() <= PARAM_MAX
    }

    /// The `(limit, offset)` window of the listing: `limit` defaults to 12,
    /// `page` to 1, and `offset = (page - 1) * limit`. `None` when the
    /// options are not valid.
    pub fn window(&self) -> (r: Option<(u64, u64)>)
        ensures
            r.is_some() == self.is_valid(),
            r matches Some((l, o)) ==> l == self.spec_limit() && o == self.spec_offset(),
    {
        let limit: u64 = match self.limit {
            Some(l) => l as u64,
            None => DEFAULT_LIMIT as u64,
        };
        let page: u64 = match self.page {
            Some(p) => p as u64,
            None => 1,
        };
        if page == 0 || limit == 0 || limit > PARAM_MAX {
            return None;
        }
        let steps: u64 = page - 1;
        if steps > PARAM_MAX / limit {
            proof {
                assert(steps * limit > PARAM_MAX) by (nonlinear_arith)
                    requires
                        steps > PARAM_MAX as int / limit as int,
                        limit >= 1,
                ;
            }
            return None;
        }
        proof {
            assert(steps * limit <= PARAM_MAX) by (nonlinear_arith)
                requires
                    steps <= PARAM_MAX as int / limit as int,
                    limit >= 1,
            ;
        }
        let offset: u64 = steps * limit;
        Some((limit, offset))
    }
}

/// Path parameter naming a row.
#[derive(Debug)]
pub struct ParamOptions {
    pub id: String,
}

/// Body of a create request.
#[derive(Debug)]
pub struct CreateGameSchema {
    pub date: CalDate,
    pub score_str: String,
}

/// Body of an update request; only present fields are applied.
#[derive(Debug)]
pub struct UpdateGameSchema {
    pub date: Option<CalDate>,
    pub score_str: Option<String>,
}

/// A game as listed under its date.
#[derive(Debug)]
pub struct GameInfo {
    pub game_id: u128,
    pub game_no: i32,
    pub score_str: String,
}

impl GameInfo {
    /// `self` shows the row `g`.
    pub open spec fn shows(self, g: GameModel) -> bool {
        &&& self.game_id == g.game_id
        &&& self.game_no == g.game_no
        &&& self.score_str@ == g.score_str@
    }

    pub fn from_model(g: &GameModel) -> (r: GameInfo)
        ensures
            r.shows(*g),
    {
        GameInfo { game_id: g.game_id, game_no: g.game_no, score_str: g.score_str.clone() }
    }
}

/// A game together with its date.
#[derive(Debug)]
pub struct Game {
    pub date_id: u128,
    pub date: CalDate,
    pub game_info: GameInfo,
}

impl Game {
    /// `self` joins the date row `d` with the game row `g`.
    pub open spec fn joins(self, d: DateModel, g: GameModel) -> bool {
        &&& self.date_id == d.date_id
        &&& self.date == d.date
        &&& self.game_info.shows(g)
    }

    /// Two games agree in every field.
    pub open spec fn same_as(self, other: Game) -> bool {
        &&& self.date_id == other.date_id
        &&& self.date == other.date
        &&& self.game_info.game_id == other.game_info.game_id
        &&& self.game_info.game_no == other.game_info.game_no
        &&& self.game_info.score_str@ == other.game_info.score_str@
    }

    pub fn join(d: &DateModel, g: &GameModel) -> (r: Game)
        ensures
            r.joins(*d, *g),
    {
        Game { date_id: d.date_id, date: d.date, game_info: GameInfo::from_model(g) }
    }
}

/// A date with its games, in ascending game number.
#[derive(Debug)]
pub struct DateRecord {
    pub date_id: u128,
    pub date: CalDate,
    pub games: Vec<GameInfo>,
}

impl DateRecord {
    /// `self` shows the date row `d` with the game rows `gs`, in their order.
    pub open spec fn shows(self, d: DateModel, gs: Seq<GameModel>) -> bool {
        &&& self.date_id == d.date_id
        &&& self.date == d.date
        &&& self.games@.len() == gs.len()
        &&& forall|i: int| 0 <= i < gs.len() ==> #[trigger] self.games@[i].shows(gs[i])
    }

    pub fn from_models(d: &DateModel, gs: &Vec<GameModel>) -> (r: DateRecord)
        ensures
            r.shows(*d, gs@),
    {
        let mut games: Vec<GameInfo> = Vec::new();
        let mut i: usize = 0;
        while i < gs.len()
            invariant
                i <= gs@.len(),
                games@.len() == i,
                forall|k: int| 0 <= k < i ==> #[trigger] games@[k].shows(gs@[k]),
            decreases gs@.len() - i,
        {
            games.push(GameInfo::from_model(&gs[i]));
            i = i + 1;
        }
        DateRecord { date_id: d.date_id, date: d.date, games }
    }
}

/// Status word of a success envelope.
pub open spec fn success_word() -> Seq<char> {
    "success"@
}

/// Status word of an envelope for a condition the client can address.
pub open spec fn fail_word() -> Seq<char> {
    "fail"@
}

/// Status word of an envelope for a server-side failure.
pub open spec fn error_word() -> Seq<char> {
    "error"@
}

/// Success envelope carrying one game.
#[derive(Debug)]
pub struct GameResponse {
    pub status: String,
    pub data: Game,
}

impl GameResponse {
    pub fn success(data: Game) -> (r: GameResponse)
        ensures
            r.status@ == success_word(),
            r.data == data,
    {
        GameResponse { status: String::from_str("success"), data }
    }
}

/// Success envelope carrying the listed dates and their count.
#[derive(Debug)]
pub struct RecordResponse {
    pub status: String,
    pub results: i32,
    pub dates: Vec<DateRecord>,
}

/// Error envelope: a status word and a human-readable message.
#[derive(Debug)]
pub struct ErrorResponse {
    pub status: String,
    pub message: String,
}

impl ErrorResponse {
    /// Envelope for a condition the client can address (such as a missing game).
    pub fn fail(message: String) -> (r: ErrorResponse)
        ensures
            r.status@ == fail_word(),
            r.message@ == message@,
    {
        ErrorResponse { status: String::from_str("fail"), message }
    }

    /// Envelope for a server-side failure.
    pub fn error(message: &str) -> (r: ErrorResponse)
        ensures
            r.status@ == error_word(),
            r.message@ == message@,
    {
        ErrorResponse { status: String::from_str("error"), message: String::from_str(message) }
    }

    /// A well-formed envelope: status is "fail" or "error", and a message is given.
    pub open spec fn well_formed(self) -> bool {
        &&& (self.status@ == fail_word() || self.status@ == error_word())
        &&& self.message@.len() > 0
    }
}

/// Answer of the health check.
#[derive(Debug)]
pub struct HealthResponse {
    pub status: String,
    pub message: String,
}

/// Message of the health check.
pub open spec fn health_text() -> Seq<char> {
    "Built API with Rust, PostgreSQL, and Actix Web"@
}

/// The fixed answer of the health check.
pub fn health_check() -> (r: HealthResponse)
    ensures
        r.status@ == success_word(),
        r.message@ == health_text(),
{
    HealthResponse {
        status: String::from_str("success"),
        message: String::from_str("Built API with Rust, PostgreSQL, and Actix Web"),
    }
}

} // verus!
