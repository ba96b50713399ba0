//! What the HTTP front-end computes: error codes, response bodies and the
//! checks on requests. Serving them is left to the front-end.

use vstd::prelude::*;
use vstd::string::StringExecFns;
use crate::runner::engine::{
    finished_in, lemma_finished_are_few, symbols_in, EngineView, TradingEngine,
};
use crate::text::{decimal_digits, text_views, u64_to_string};

verus! {

/// What the front-end reports to a caller.
#[derive(Debug, PartialEq, Eq)]
pub enum ApiError {
    RunnerNotFound(String),
    InvalidRequest(String),
    EngineError(String),
    StrategyError(String),
    InternalError,
}

impl ApiError {
    /// The machine-readable code of the error.
    pub open spec fn code(self) -> Seq<char> {
        match self {
            ApiError::RunnerNotFound(_) => "RUNNER_NOT_FOUND"@,
            ApiError::InvalidRequest(_) => "INVALID_REQUEST"@,
            ApiError::EngineError(_) => "ENGINE_ERROR"@,
            ApiError::StrategyError(_) => "STRATEGY_ERROR"@,
            ApiError::InternalError => "INTERNAL_ERROR"@,
        }
    }

    /// The HTTP status that goes with the error.
    pub open spec fn status(self) -> u16 {
        match self {
            ApiError::RunnerNotFound(_) => 404,
            ApiError::InvalidRequest(_) => 400,
            ApiError::EngineError(_) => 500,
            ApiError::StrategyError(_) => 400,
            ApiError::InternalError => 500,
        }
    }

    /// The human-readable message of the error.
    pub open spec fn message(self) -> Seq<char> {
        match self {
            ApiError::RunnerNotFound(detail) => "Runner not found: "@ + detail@,
            ApiError::InvalidRequest(detail) => "Invalid request: "@ + detail@,
            ApiError::EngineError(detail) => "Engine error: "@ + detail@,
            ApiError::StrategyError(detail) => "Strategy error: "@ + detail@,
            ApiError::InternalError => "Internal server error"@,
        }
    }

    /// The machine-readable code of the error.
    pub fn error_code(&self) -> (code: &'static str)
        ensures
            code@ == self.code(),
    {
        match self {
            ApiError::RunnerNotFound(_) => "RUNNER_NOT_FOUND",
            ApiError::InvalidRequest(_) => "INVALID_REQUEST",
            ApiError::EngineError(_) => "ENGINE_ERROR",
            ApiError::StrategyError(_) => "STRATEGY_ERROR",
            ApiError::InternalError => "INTERNAL_ERROR",
        }
    }

    /// The HTTP status that goes with the error: 404 for an unknown runner,
    /// 400 for a bad request or strategy, 500 otherwise.
    pub fn status_code(&self) -> (status: u16)
        ensures
            status == self.status(),
    {
        match self {
            ApiError::RunnerNotFound(_) => 404,
            ApiError::InvalidRequest(_) => 400,
            ApiError::EngineError(_) => 500,
            ApiError::StrategyError(_) => 400,
            ApiError::InternalError => 500,
        }
    }

    /// The human-readable message of the error.
    pub fn to_string(&self) -> (text: String)
        ensures
            text@ == self.message(),
    {
        match self {
            ApiError::RunnerNotFound(detail) => String::from_str("Runner not found: ").concat(
                detail.as_str(),
            ),
            ApiError::InvalidRequest(detail) => String::from_str("Invalid request: ").concat(
                detail.as_str(),
            ),
            ApiError::EngineError(detail) => String::from_str("Engine error: ").concat(
                detail.as_str(),
            ),
            ApiError::StrategyError(detail) => String::from_str("Strategy error: ").concat(
                detail.as_str(),
            ),
            ApiError::InternalError => String::from_str("Internal server error"),
        }
    }
}

/// The code and message of a reported error.
#[derive(Debug, PartialEq, Eq)]
pub struct ErrorDetail {
    pub code: String,
    pub message: String,
}

/// The body that reports an error.
#[derive(Debug, PartialEq, Eq)]
pub struct ErrorResponse {
    pub status: String,
    pub error: ErrorDetail,
    /// Seconds since the Unix epoch.
    pub timestamp: i64,
}

impl ErrorResponse {
    /// The body that reports `error` at `timestamp`.
    pub fn of(error: &ApiError, timestamp: i64) -> (body: ErrorResponse)
        ensures
            body.status@ == "error"@,
            body.error.code@ == error.code(),
            body.error.message@ == error.message(),
            body.timestamp == timestamp,
    {
        ErrorResponse {
            status: String::from_str("error"),
            error: ErrorDetail {
                code: String::from_str(error.error_code()),
                message: error.to_string(),
            },
            timestamp,
        }
    }
}

/// Where the front-end listens.
#[derive(Debug, PartialEq, Eq)]
pub struct ServerConfig {
    pub host: String,
    pub port: u16,
    pub enable_cors: bool,
}

impl Default for ServerConfig {
    /// Port 3000 on the local host, with cross-origin requests allowed.
    fn default() -> (config: Self)
        ensures
            config.host@ == "127.0.0.1"@,
            config.port == 3000,
            config.enable_cors,
    {
        ServerConfig { host: String::from_str("127.0.0.1"), port: 3000, enable_cors: true }
    }
}

impl Clone for ServerConfig {
    fn clone(&self) -> (copy: Self)
        ensures
            copy == *self,
    {
        ServerConfig { host: self.host.clone(), port: self.port, enable_cors: self.enable_cors }
    }
}

impl ServerConfig {
    /// Host and port as one address: the host, a colon, the port in decimal.
    pub fn address(&self) -> (address: String)
        ensures
            address@ == self.host@ + ":"@ + decimal_digits(self.port as nat),
    {
        let mut address = self.host.clone();
        address.append(":");
        let port = u64_to_string(self.port as u64);
        address.append(port.as_str());
        address
    }
}

/// The body of the liveness check.
#[derive(Debug, PartialEq, Eq)]
pub struct HealthResponse {
    pub status: String,
    pub timestamp: i64,
    pub version: String,
}

impl HealthResponse {
    /// The body that says the server is up.
    pub fn ok(timestamp: i64, version: String) -> (body: HealthResponse)
        ensures
            body.status@ == "ok"@,
            body.timestamp == timestamp,
            body.version == version,
    {
        HealthResponse { status: String::from_str("ok"), timestamp, version }
    }
}

/// How many runners there are and how many of them are still going.
#[derive(Debug, PartialEq, Eq)]
pub struct EngineHealthResponse {
    pub status: String,
    pub runners_count: usize,
    pub healthy_runners: usize,
    pub timestamp: i64,
}

/// One runner and its symbol.
#[derive(Debug, PartialEq, Eq)]
pub struct RunnerSummary {
    pub runner_id: String,
    pub symbol: String,
}

/// The fleet at a glance.
#[derive(Debug, PartialEq, Eq)]
pub struct EngineSummaryResponse {
    pub status: String,
    pub total_runners: usize,
    pub healthy_runners: usize,
    pub active_symbols: Vec<String>,
    pub runners: Vec<RunnerSummary>,
    pub timestamp: i64,
}

impl EngineHealthResponse {
    /// The health of `engine` at `timestamp`: every registered runner
    /// counts, and those whose task has not ended count as healthy.
    pub fn of(engine: &TradingEngine, timestamp: i64) -> (body: EngineHealthResponse)
        ensures
            body.status@ == "ok"@,
            body.runners_count == engine@.entries.len(),
            body.healthy_runners == engine@.entries.len() - finished_in(engine@.entries).len(),
            body.timestamp == timestamp,
    {
        let total = engine.runner_count();
        let unhealthy = engine.unhealthy_runners();
        proof {
            lemma_finished_are_few(engine@.entries);
            assert(text_views(unhealthy@).len() == unhealthy@.len());
        }
        EngineHealthResponse {
            status: String::from_str("ok"),
            runners_count: total,
            healthy_runners: total - unhealthy.len(),
            timestamp,
        }
    }
}

impl EngineSummaryResponse {
    /// The summary of `engine` at `timestamp`: the counts, the symbols with
    /// at least one runner, and every runner with its symbol in the order in
    /// which the runners were added.
    pub fn of(engine: &TradingEngine, timestamp: i64) -> (body: EngineSummaryResponse)
        ensures
            body.status@ == "ok"@,
            body.total_runners == engine@.entries.len(),
            body.healthy_runners == engine@.entries.len() - finished_in(engine@.entries).len(),
            text_views(body.active_symbols@) == symbols_in(engine@.entries),
            body.runners@.len() == engine@.entries.len(),
            forall|i: int|
                0 <= i < body.runners@.len() ==> (#[trigger] body.runners@[i]).runner_id@
                    == engine@.entries[i].runner_id && body.runners@[i].symbol@
                    == engine@.entries[i].symbol,
            body.timestamp == timestamp,
    {
        let total = engine.runner_count();
        let unhealthy = engine.unhealthy_runners();
        proof {
            lemma_finished_are_few(engine@.entries);
            assert(text_views(unhealthy@).len() == unhealthy@.len());
        }
        EngineSummaryResponse {
            status: String::from_str("ok"),
            total_runners: total,
            healthy_runners: total - unhealthy.len(),
            active_symbols: engine.active_symbols(),
            runners: engine.runner_summaries(),
            timestamp,
        }
    }
}

/// How many bars of history are asked for; all of them when absent.
#[derive(Debug, Clone, Copy, PartialEq, Eq)]
pub struct HistoryQuery {
    pub count: Option<usize>,
}

/// The window size a new runner gets when the request names none.
pub fn default_window_size() -> (size: usize)
    ensures
        size == 200,
{
    200
}

/// A request to add a runner.
#[derive(Debug, PartialEq, Eq)]
pub struct AddRunnerRequest {
    pub runner_id: String,
    pub symbol: String,
    pub strategy_path: String,
    pub window_size: usize,
}

/// What is wrong with a request to add a runner, if anything.
pub enum RequestFault {
    EmptyRunnerId,
    EmptySymbol,
    RunnerExists,
}

impl AddRunnerRequest {
    /// The first thing that is wrong with the request, given the engine it
    /// is for.
    pub open spec fn fault(&self, engine: EngineView) -> Option<RequestFault> {
        if self.runner_id@.len() == 0 {
            Some(RequestFault::EmptyRunnerId)
        } else if self.symbol@.len() == 0 {
            Some(RequestFault::EmptySymbol)
        } else if engine.has_runner(self.runner_id@) {
            Some(RequestFault::RunnerExists)
        } else {
            None
        }
    }

    /// The message that reports `fault` of this request.
    pub open spec fn fault_text(&self, fault: RequestFault) -> Seq<char> {
        match fault {
            RequestFault::EmptyRunnerId => "runner_id cannot be empty"@,
            RequestFault::EmptySymbol => "symbol cannot be empty"@,
            RequestFault::RunnerExists => "Runner '"@ + self.runner_id@ + "' already exists"@,
        }
    }

    /// Checks the request against `engine`: the id and the symbol must not
    /// be empty and the id must be free. What is wrong is reported as an
    /// invalid request.
    pub fn validate(&self, engine: &TradingEngine) -> (checked: Result<(), ApiError>)
        ensures
            checked is Ok <==> self.fault(engine@) is None,
            checked is Err ==> checked->Err_0 is InvalidRequest
                && checked->Err_0->InvalidRequest_0@ == self.fault_text(
                self.fault(engine@).unwrap(),
            ),
    {
        if self.runner_id.as_str().unicode_len() == 0 {
            return Err(ApiError::InvalidRequest(String::from_str("runner_id cannot be empty")));
        }
        if self.symbol.as_str().unicode_len() == 0 {
            return Err(ApiError::InvalidRequest(String::from_str("symbol cannot be empty")));
        }
        if engine.has_runner(self.runner_id.as_str()) {
            let mut message = String::from_str("Runner '");
            message.append(self.runner_id.as_str());
            message.append("' already exists");
            return Err(ApiError::InvalidRequest(message));
        }
        Ok(())
    }
}

/// The body that confirms a new runner.
#[derive(Debug, PartialEq, Eq)]
pub struct AddRunnerResponse {
    pub runner_id: String,
    pub symbol: String,
    pub message: String,
}

impl AddRunnerResponse {
    /// The body that confirms the runner `runner_id` for `symbol`.
    pub fn created(runner_id: String, symbol: String) -> (body: AddRunnerResponse)
        ensures
            body.runner_id == runner_id,
            body.symbol == symbol,
            body.message@ == "Runner created successfully"@,
    {
        AddRunnerResponse {
            runner_id,
            symbol,
            message: String::from_str("Runner created successfully"),
        }
    }
}

/// The body that answers a pause, a resume or a stop.
#[derive(Debug, PartialEq, Eq)]
pub struct ControlResponse {
    pub success: bool,
    pub message: String,
}

/// The message about a runner: "Runner '", its id, and `tail`.
pub open spec fn runner_message(runner_id: Seq<char>, tail: Seq<char>) -> Seq<char> {
    "Runner '"@ + runner_id + tail
}

/// Builds the message about a runner.
fn about_runner(runner_id: &str, tail: &str) -> (message: String)
    ensures
        message@ == runner_message(runner_id@, tail@),
{
    let mut message = String::from_str("Runner '");
    message.append(runner_id);
    message.append(tail);
    message
}

impl ControlResponse {
    /// The answer to a pause that did or did not take effect.
    pub fn paused(runner_id: &str, success: bool) -> (body: ControlResponse)
        ensures
            body.success == success,
            body.message@ == runner_message(
                runner_id@,
                if success {
                    "' paused successfully"@
                } else {
                    "' was not in a running state"@
                },
            ),
    {
        let message = if success {
            about_runner(runner_id, "' paused successfully")
        } else {
            about_runner(runner_id, "' was not in a running state")
        };
        ControlResponse { success, message }
    }

    /// The answer to a resume that did or did not take effect.
    pub fn resumed(runner_id: &str, success: bool) -> (body: ControlResponse)
        ensures
            body.success == success,
            body.message@ == runner_message(
                runner_id@,
                if success {
                    "' resumed successfully"@
                } else {
                    "' was not in a paused state"@
                },
            ),
    {
        let message = if success {
            about_runner(runner_id, "' resumed successfully")
        } else {
            about_runner(runner_id, "' was not in a paused state")
        };
        ControlResponse { success, message }
    }

    /// The answer to a stop.
    pub fn stopped(runner_id: &str, success: bool) -> (body: ControlResponse)
        ensures
            body.success == success,
            body.message@ == runner_message(runner_id@, "' stopped successfully"@),
    {
        ControlResponse { success, message: about_runner(runner_id, "' stopped successfully") }
    }
}

/// One strategy script on offer.
#[derive(Debug, PartialEq, Eq)]
pub struct StrategyInfo {
    pub name: String,
    pub path: String,
    pub category: String,
}

/// The strategy scripts on offer.
#[derive(Debug, PartialEq, Eq)]
pub struct StrategyListResponse {
    pub strategies: Vec<StrategyInfo>,
}

/// One tradable symbol.
#[derive(Debug, PartialEq, Eq)]
pub struct SymbolInfo {
    pub symbol: String,
    pub name: String,
    pub category: String,
}

/// The tradable symbols on offer.
#[derive(Debug, PartialEq, Eq)]
pub struct SymbolListResponse {
    pub symbols: Vec<SymbolInfo>,
}

/// The extension of the file that a path names, as
/// `std::path::Path::extension` gives it.
pub uninterp spec fn path_extension(path: Seq<char>) -> Option<Seq<char>>;

/// The stem of the file that a path names, as `std::path::Path::file_stem`
/// gives it.
pub uninterp spec fn path_file_stem(path: Seq<char>) -> Option<Seq<char>>;

/// The extension of the file that `path` names, from
/// `std::path::Path::extension`. The contract only gives the result its
/// name: it is a function of the path's text alone.
#[verifier::external_body]
fn extension_of(path: &str) -> (extension: Option<String>)
    ensures
        match extension {
            Some(text) => path_extension(path@) == Some(text@),
            None => path_extension(path@) is None,
        },
{
    match std::path::Path::new(path).extension() {
        Some(extension) => match extension.to_str() {
            Some(text) => Some(text.to_string()),
            None => None,
        },
        None => None,
    }
}

/// The stem of the file that `path` names, from
/// `std::path::Path::file_stem`. The contract only gives the result its
/// name: it is a function of the path's text alone.
#[verifier::external_body]
fn file_stem_of(path: &str) -> (stem: Option<String>)
    ensures
        match stem {
            Some(text) => path_file_stem(path@) == Some(text@),
            None => path_file_stem(path@) is None,
        },
{
    match std::path::Path::new(path).file_stem() {
        Some(stem) => match stem.to_str() {
            Some(text) => Some(text.to_string()),
            None => None,
        },
        None => None,
    }
}

/// What a strategy listing says of a file with the given extension and
/// stem: nothing unless the extension is "lua" and there is a stem, and
/// otherwise the stem as the name.
pub open spec fn listed_as(
    path: Seq<char>,
    category: Seq<char>,
    extension: Option<Seq<char>>,
    stem: Option<Seq<char>>,
) -> Option<(Seq<char>, Seq<char>, Seq<char>)> {
    if extension == Some("lua"@) && stem is Some {
        Some((stem.unwrap(), path, category))
    } else {
        None
    }
}

/// Whether `info` is the listing entry `expected`.
pub open spec fn lists(info: Option<StrategyInfo>, expected: Option<(Seq<char>, Seq<char>, Seq<char>)>)
    -> bool {
    match expected {
        Some((name, path, category)) => info is Some && info.unwrap().name@ == name
            && info.unwrap().path@ == path && info.unwrap().category@ == category,
        None => info is None,
    }
}

/// The listing entry for the file at `path`, given the extension and the
/// stem of its name: only scripts with the extension "lua" are listed.
pub fn strategy_file_info(
    path: &str,
    category: &str,
    extension: Option<String>,
    stem: Option<String>,
) -> (info: Option<StrategyInfo>)
    ensures
        lists(
            info,
            listed_as(
                path@,
                category@,
                match extension {
                    Some(text) => Some(text@),
                    None => None,
                },
                match stem {
                    Some(text) => Some(text@),
                    None => None,
                },
            ),
        ),
{
    let lua = String::from_str("lua");
    match extension {
        Some(text) => {
            if text != lua {
                return None;
            }
        },
        None => {
            return None;
        },
    }
    match stem {
        Some(name) => Some(
            StrategyInfo { name, path: path.to_owned(), category: category.to_owned() },
        ),
        None => None,
    }
}

/// The listing entry for the file at `path` in `category`: nothing unless
/// it is a script with the extension "lua".
pub fn process_strategy_file(path: &str, category: &str) -> (info: Option<StrategyInfo>)
    ensures
        lists(info, listed_as(path@, category@, path_extension(path@), path_file_stem(path@))),
{
    let extension = extension_of(path);
    let stem = file_stem_of(path);
    strategy_file_info(path, category, extension, stem)
}

/// The tradable symbols on offer, each with its name and category.
pub open spec fn symbol_table() -> Seq<(Seq<char>, Seq<char>, Seq<char>)> {
    seq![
        ("BTCUSDT"@, "Bitcoin / Tether"@, "Crypto - Major"@),
        ("ETHUSDT"@, "Ethereum / Tether"@, "Crypto - Major"@),
        ("BNBUSDT"@, "Binance Coin / Tether"@, "Crypto - Major"@),
        ("SOLUSDT"@, "Solana / Tether"@, "Crypto - Major"@),
        ("XRPUSDT"@, "Ripple / Tether"@, "Crypto - Major"@),
        ("ADAUSDT"@, "Cardano / Tether"@, "Crypto - Alt"@),
        ("DOGEUSDT"@, "Dogecoin / Tether"@, "Crypto - Alt"@),
        ("AVAXUSDT"@, "Avalanche / Tether"@, "Crypto - Alt"@),
        ("DOTUSDT"@, "Polkadot / Tether"@, "Crypto - Alt"@),
        ("MATICUSDT"@, "Polygon / Tether"@, "Crypto - Alt"@),
        ("AAPL"@, "Apple Inc."@, "Stocks - Tech"@),
        ("MSFT"@, "Microsoft Corp."@, "Stocks - Tech"@),
        ("GOOGL"@, "Alphabet Inc."@, "Stocks - Tech"@),
        ("AMZN"@, "Amazon.com Inc."@, "Stocks - Tech"@),
        ("TSLA"@, "Tesla Inc."@, "Stocks - Tech"@),
        ("EURUSD"@, "Euro / US Dollar"@, "Forex - Major"@),
        ("GBPUSD"@, "British Pound / US Dollar"@, "Forex - Major"@),
        ("USDJPY"@, "US Dollar / Japanese Yen"@, "Forex - Major"@),
    ]
}

/// What a [`SymbolInfo`] says, as texts.
pub open spec fn symbol_texts(info: SymbolInfo) -> (Seq<char>, Seq<char>, Seq<char>) {
    (info.symbol@, info.name@, info.category@)
}

/// One entry of the symbol listing.
fn symbol_info(symbol: &str, name: &str, category: &str) -> (info: SymbolInfo)
    ensures
        symbol_texts(info) == (symbol@, name@, category@),
{
    SymbolInfo {
        symbol: String::from_str(symbol),
        name: String::from_str(name),
        category: String::from_str(category),
    }
}

/// The listing of tradable symbols.
pub fn list_symbols() -> (listing: SymbolListResponse)
    ensures
        listing.symbols@.map_values(|info: SymbolInfo| symbol_texts(info)) == symbol_table(),
{
    let mut symbols: Vec<SymbolInfo> = Vec::new();
    symbols.push(symbol_info("BTCUSDT", "Bitcoin / Tether", "Crypto - Major"));
    symbols.push(symbol_info("ETHUSDT", "Ethereum / Tether", "Crypto - Major"));
    symbols.push(symbol_info("BNBUSDT", "Binance Coin / Tether", "Crypto - Major"));
    symbols.push(symbol_info("SOLUSDT", "Solana / Tether", "Crypto - Major"));
    symbols.push(symbol_info("XRPUSDT", "Ripple / Tether", "Crypto - Major"));
    symbols.push(symbol_info("ADAUSDT", "Cardano / Tether", "Crypto - Alt"));
    symbols.push(symbol_info("DOGEUSDT", "Dogecoin / Tether", "Crypto - Alt"));
    symbols.push(symbol_info("AVAXUSDT", "Avalanche / Tether", "Crypto - Alt"));
    symbols.push(symbol_info("DOTUSDT", "Polkadot / Tether", "Crypto - Alt"));
    symbols.push(symbol_info("MATICUSDT", "Polygon / Tether", "Crypto - Alt"));
    symbols.push(symbol_info("AAPL", "Apple Inc.", "Stocks - Tech"));
    symbols.push(symbol_info("MSFT", "Microsoft Corp.", "Stocks - Tech"));
    symbols.push(symbol_info("GOOGL", "Alphabet Inc.", "Stocks - Tech"));
    symbols.push(symbol_info("AMZN", "Amazon.com Inc.", "Stocks - Tech"));
    symbols.push(symbol_info("TSLA", "Tesla Inc.", "Stocks - Tech"));
    symbols.push(symbol_info("EURUSD", "Euro / US Dollar", "Forex - Major"));
    symbols.push(symbol_info("GBPUSD", "British Pound / US Dollar", "Forex - Major"));
    symbols.push(symbol_info("USDJPY", "US Dollar / Japanese Yen", "Forex - Major"));
    assert(symbols@.map_values(|info: SymbolInfo| symbol_texts(info)) =~= symbol_table());
    SymbolListResponse { symbols }
}

} // verus!
