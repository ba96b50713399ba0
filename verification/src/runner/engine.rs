//! The supervisor's routing table.
//!
//! The [`TradingEngine`] knows which runners exist and which symbol each one
//! listens to. It decides who gets a bar, rejects duplicate and unknown ids,
//! and turns the end of a runner's task into a result. Spawning tasks and
//! carrying bars to them is left to whoever drives it.

use vstd::prelude::*;
use vstd::string::StringExecFns;
use crate::clock::{elapsed_since, monotonic_now, now_millis};
use crate::error::TradingEngineError;
use crate::events::{event_views, RunnerEvent, RunnerEventView};
use crate::market_data::MarketData;
use crate::runner::config::RunnerConfig;
use crate::runner::snapshot::{RunnerReply, RunnerSnapshot, RunnerStatus};
use crate::runner::{RunnerView, SymbolRunner};
use crate::state_machine::MachineView;
use crate::strategy::Strategy;
use crate::text::{decimal_digits, holds_text, text_views, u64_to_string};

verus! {

/// What the supervisor keeps about one runner.
#[derive(Debug)]
pub struct RunnerHandle {
    pub runner_id: String,
    pub symbol: String,
    /// When the runner was added, on the monotonic clock.
    pub started_at: std::time::Instant,
    /// Whether the runner's task is known to have ended.
    pub finished: bool,
}

/// A [`RunnerHandle`] without its start time.
pub struct HandleView {
    pub runner_id: Seq<char>,
    pub symbol: Seq<char>,
    pub finished: bool,
}

impl View for RunnerHandle {
    type V = HandleView;

    open spec fn view(&self) -> HandleView {
        HandleView { runner_id: self.runner_id@, symbol: self.symbol@, finished: self.finished }
    }
}

/// How a runner's task ended.
#[derive(Debug)]
pub enum TaskEnd {
    /// The task returned what the runner's loop returned.
    Returned(Result<(), TradingEngineError>),
    /// The task panicked.
    Panicked,
}

/// How many milliseconds a caller waits for a runner's reply.
pub const REPLY_TIMEOUT_MS: u64 = 100;

/// How an inquiry to a runner ended.
#[derive(Debug)]
pub enum Inquiry {
    /// No runner with that id is registered.
    UnknownRunner,
    /// The command could not be handed to the runner.
    NotSent,
    /// The runner let go of the reply channel without answering.
    Dropped,
    /// No reply came within [`REPLY_TIMEOUT_MS`].
    TimedOut,
    /// The runner replied.
    Answered(RunnerReply),
}

impl Inquiry {
    /// The snapshot that an inquiry brought back: none unless the runner
    /// replied with one.
    pub fn snapshot(self) -> (snapshot: Option<RunnerSnapshot>)
        ensures
            snapshot == match self {
                Inquiry::Answered(RunnerReply::Snapshot(taken)) => Some(taken),
                _ => None,
            },
    {
        match self {
            Inquiry::Answered(RunnerReply::Snapshot(taken)) => Some(taken),
            _ => None,
        }
    }

    /// The price history that an inquiry brought back: none unless the
    /// runner replied with one.
    pub fn price_history(self) -> (bars: Option<Vec<MarketData>>)
        ensures
            bars == match self {
                Inquiry::Answered(RunnerReply::PriceHistory(taken)) => Some(taken),
                _ => None,
            },
    {
        match self {
            Inquiry::Answered(RunnerReply::PriceHistory(taken)) => Some(taken),
            _ => None,
        }
    }

    /// Whether the pause, resume or stop that was asked of `runner_id` took
    /// effect. An unknown runner is reported as `RunnerNotFound`, and a
    /// runner that gave no such answer as `ChannelClosed`.
    pub fn done(self, runner_id: &str) -> (done: Result<bool, TradingEngineError>)
        ensures
            match self {
                Inquiry::Answered(RunnerReply::Done(effect)) => done == Ok::<
                    bool,
                    TradingEngineError,
                >(effect),
                Inquiry::UnknownRunner => done is Err && done->Err_0 is RunnerNotFound
                    && done->Err_0->RunnerNotFound_0@ == runner_id@,
                _ => done is Err && done->Err_0 is ChannelClosed
                    && done->Err_0->ChannelClosed_0@ == runner_id@,
            },
    {
        match self {
            Inquiry::Answered(RunnerReply::Done(effect)) => Ok(effect),
            Inquiry::UnknownRunner => Err(TradingEngineError::RunnerNotFound(runner_id.to_owned())),
            _ => Err(TradingEngineError::ChannelClosed(runner_id.to_owned())),
        }
    }
}

/// Where a bar goes: something that carries a bar to one runner's inbox and
/// says whether the inbox took it.
pub trait BarSink {
    /// Hands `data` to the inbox of `runner_id`; false when that inbox is
    /// closed or there is none.
    fn deliver(&self, runner_id: &String, data: MarketData) -> bool;
}

/// Whether `sink`, handed `data` for the inbox of `runner_id`, can answer
/// `taken`: this is what a call of [`BarSink::deliver`] on these values with
/// that answer has shown.
pub open spec fn answers<K: BarSink>(sink: &K, runner_id: String, data: MarketData, taken: bool)
    -> bool {
    call_ensures(K::deliver, (sink, &runner_id, data), taken)
}

/// What reaches the inboxes when every bar of `bars` reaches all its
/// listeners, bar after bar.
pub open spec fn whole_deliveries(engine: EngineView, bars: Seq<MarketData>) -> Seq<
    (Seq<char>, MarketData),
>
    decreases bars.len(),
{
    if bars.len() == 0 {
        Seq::empty()
    } else {
        whole_deliveries(engine, bars.drop_last()) + deliveries_to(
            engine.subscribers(bars.last().symbol@),
            bars.last(),
            engine.subscribers(bars.last().symbol@).len() as int,
        )
    }
}

/// What reaches the inboxes when the first `done` bars of `bars` reach all
/// their listeners and the next one, if there is one, its first `reached`.
pub open spec fn batch_deliveries(engine: EngineView, bars: Seq<MarketData>, done: int, reached: int)
    -> Seq<(Seq<char>, MarketData)> {
    if 0 <= done < bars.len() {
        whole_deliveries(engine, bars.subrange(0, done)) + deliveries_to(
            engine.subscribers(bars[done].symbol@),
            bars[done],
            reached,
        )
    } else {
        whole_deliveries(engine, bars)
    }
}

/// Whether `fed` is the failure of a bar that reached the first `reached`
/// of its `subscribers`: without subscribers it reached nobody and the
/// symbol is reported; otherwise the sink refused it for the next subscriber
/// and that subscriber is reported.
pub open spec fn fails_at<K: BarSink>(
    sink: &K,
    subscribers: Seq<Seq<char>>,
    data: MarketData,
    reached: int,
    fed: Result<(), TradingEngineError>,
) -> bool {
    if subscribers.len() == 0 {
        reached == 0 && fed == Err::<(), TradingEngineError>(
            TradingEngineError::NoRunnersForSymbol(data.symbol),
        )
    } else {
        0 <= reached < subscribers.len() && fed is Err && fed->Err_0 is ChannelClosed
            && fed->Err_0->ChannelClosed_0@ == subscribers[reached] && answers(
            sink,
            fed->Err_0->ChannelClosed_0,
            data,
            false,
        )
    }
}

/// Whether `taken` and `fed` are a way in which handing `data` to the
/// `listeners` through `sink` can go. The bar is handed to the listeners in
/// their order; `taken` notes those whose inbox took it, each with its copy,
/// and the sink has answered so for each of them. With no listener the
/// symbol is reported. Otherwise the feed succeeds exactly when every
/// listener took the bar, and fails with the first listener for whom the
/// sink refused it, after which nobody is handed anything.
pub open spec fn fed_as<K: BarSink>(
    listeners: Seq<Seq<char>>,
    sink: &K,
    data: MarketData,
    taken: Seq<(String, MarketData)>,
    fed: Result<(), TradingEngineError>,
) -> bool {
    &&& taken.len() <= listeners.len()
    &&& delivery_views(taken) == deliveries_to(listeners, data, taken.len() as int)
    &&& forall|i: int|
        0 <= i < taken.len() ==> answers(sink, (#[trigger] taken[i]).0, taken[i].1, true)
    &&& if listeners.len() > 0 && taken.len() == listeners.len() {
        fed is Ok
    } else {
        fails_at(sink, listeners, data, taken.len() as int, fed)
    }
}

/// Inboxes of which some are closed: a bar is taken for every runner but
/// those listed as closed.
pub struct Outbox {
    /// The ids of the runners whose inbox is closed.
    pub closed: Vec<String>,
}

/// The deliveries as runner ids and bars.
pub open spec fn delivery_views(deliveries: Seq<(String, MarketData)>) -> Seq<
    (Seq<char>, MarketData),
> {
    deliveries.map_values(|d: (String, MarketData)| (d.0@, d.1))
}

impl Outbox {
    /// Inboxes that are all open.
    pub fn new() -> (outbox: Outbox)
        ensures
            outbox.closed@.len() == 0,
    {
        Outbox { closed: Vec::new() }
    }
}

impl BarSink for Outbox {
    fn deliver(&self, runner_id: &String, data: MarketData) -> (taken: bool)
        ensures
            taken == !text_views(self.closed@).contains(runner_id@),
    {
        !holds_text(&self.closed, runner_id)
    }
}

/// The first `count` deliveries of `data` to `subscribers`.
pub open spec fn deliveries_to(subscribers: Seq<Seq<char>>, data: MarketData, count: int) -> Seq<
    (Seq<char>, MarketData),
> {
    Seq::new(count as nat, |i: int| (subscribers[i], data))
}

/// The views of `handles`, in order.
pub open spec fn handle_views(handles: Seq<RunnerHandle>) -> Seq<HandleView> {
    handles.map_values(|h: RunnerHandle| h@)
}

/// The ids of the runners among `entries` that listen to `symbol`, in the
/// order in which they were added.
pub open spec fn subscribers_in(entries: Seq<HandleView>, symbol: Seq<char>) -> Seq<Seq<char>>
    decreases entries.len(),
{
    if entries.len() == 0 {
        Seq::empty()
    } else if entries.last().symbol == symbol {
        subscribers_in(entries.drop_last(), symbol).push(entries.last().runner_id)
    } else {
        subscribers_in(entries.drop_last(), symbol)
    }
}

/// The symbols that the runners among `entries` listen to, each once, in the
/// order in which they first appear.
pub open spec fn symbols_in(entries: Seq<HandleView>) -> Seq<Seq<char>>
    decreases entries.len(),
{
    if entries.len() == 0 {
        Seq::empty()
    } else if symbols_in(entries.drop_last()).contains(entries.last().symbol) {
        symbols_in(entries.drop_last())
    } else {
        symbols_in(entries.drop_last()).push(entries.last().symbol)
    }
}

/// The ids of the runners among `entries` whose task has ended.
pub open spec fn finished_in(entries: Seq<HandleView>) -> Seq<Seq<char>>
    decreases entries.len(),
{
    if entries.len() == 0 {
        Seq::empty()
    } else if entries.last().finished {
        finished_in(entries.drop_last()).push(entries.last().runner_id)
    } else {
        finished_in(entries.drop_last())
    }
}

/// What a [`TradingEngine`] holds.
pub struct EngineView {
    /// The runners, in the order in which they were added.
    pub entries: Seq<HandleView>,
    pub default_config: RunnerConfig,
    pub default_window_size: usize,
}

impl EngineView {
    /// No two runners share an id.
    pub open spec fn ids_distinct(self) -> bool {
        forall|i: int, j: int|
            0 <= i < j < self.entries.len() ==> (#[trigger] self.entries[i]).runner_id != (
            #[trigger] self.entries[j]).runner_id
    }

    /// A runner with the id `runner_id` is registered.
    pub open spec fn has_runner(self, runner_id: Seq<char>) -> bool {
        exists|i: int| 0 <= i < self.entries.len() && (#[trigger] self.entries[i]).runner_id == runner_id
    }

    /// Where the runner with the id `runner_id` stands.
    pub open spec fn index_of(self, runner_id: Seq<char>) -> int {
        choose|i: int| 0 <= i < self.entries.len() && (#[trigger] self.entries[i]).runner_id == runner_id
    }

    /// The ids of the runners that listen to `symbol`.
    pub open spec fn subscribers(self, symbol: Seq<char>) -> Seq<Seq<char>> {
        subscribers_in(self.entries, symbol)
    }

    /// The engine after a runner is added.
    pub open spec fn added(self, runner_id: Seq<char>, symbol: Seq<char>) -> EngineView {
        EngineView {
            entries: self.entries.push(HandleView { runner_id, symbol, finished: false }),
            ..self
        }
    }

    /// The engine after the runner with the id `runner_id` is removed.
    pub open spec fn removed(self, runner_id: Seq<char>) -> EngineView {
        EngineView { entries: self.entries.remove(self.index_of(runner_id)), ..self }
    }

    /// The engine after the runner with the id `runner_id` is marked as
    /// ended.
    pub open spec fn marked_finished(self, runner_id: Seq<char>) -> EngineView {
        EngineView {
            entries: self.entries.update(
                self.index_of(runner_id),
                HandleView { finished: true, ..self.entries[self.index_of(runner_id)] },
            ),
            ..self
        }
    }
}

/// The reason given when a runner's loop ended with `result`.
pub open spec fn stop_reason_text(result: Result<(), TradingEngineError>) -> Seq<char> {
    match result {
        Ok(()) => "Normal shutdown"@,
        Err(error) => "Error: "@ + error.message(),
    }
}

/// Ten times `total / parts`, rounded to the nearest whole with halves
/// rounded up; zero when there are no parts.
pub open spec fn tenths_in(total: nat, parts: nat) -> nat {
    if parts == 0 {
        0
    } else {
        ((20 * total + parts) / (2 * parts)) as nat
    }
}

/// The text of the fleet's summary.
pub open spec fn summary_text(total: nat, unhealthy: nat, symbols: nat) -> Seq<char> {
    "TradingEngine Summary:\n- Total Runners: "@ + decimal_digits(total)
        + "\n- Healthy: "@ + decimal_digits((total - unhealthy) as nat) + "\n- Unhealthy: "@
        + decimal_digits(unhealthy) + "\n- Symbols: "@ + decimal_digits(symbols)
        + "\n- Runners per symbol: "@ + decimal_digits(tenths_in(total, symbols) / 10) + "."@
        + decimal_digits(tenths_in(total, symbols) % 10)
}

/// Computes [`tenths_in`].
fn tenths_of(total: u64, parts: u64) -> (tenths: u128)
    ensures
        tenths == tenths_in(total as nat, parts as nat),
        tenths / 10 <= u64::MAX,
{
    if parts == 0 {
        return 0;
    }
    let tenths = (20 * (total as u128) + (parts as u128)) / (2 * (parts as u128));
    assert(tenths / 10 <= u64::MAX) by (nonlinear_arith)
        requires
            tenths == (20 * (total as u128) + (parts as u128)) / (2 * (parts as u128)),
            parts >= 1,
            total <= u64::MAX,
            parts <= u64::MAX,
    ;
    tenths
}

/// The ended runners are among the registered ones, so they are no more
/// than these.
pub proof fn lemma_finished_are_few(entries: Seq<HandleView>)
    ensures
        finished_in(entries).len() <= entries.len(),
    decreases entries.len(),
{
    if entries.len() > 0 {
        lemma_finished_are_few(entries.drop_last());
    }
}

/// Keeps the subscribers that took the last event, in their order, and
/// drops the others. `accepted` says for each subscriber, by position,
/// whether it took the event; a subscriber without a say is kept.
pub fn prune_subscribers<T>(subscribers: &mut Vec<T>, accepted: &Vec<bool>)
    ensures
        final(subscribers)@ == kept_subscribers(old(subscribers)@, accepted@),
{
    let mut kept: Vec<T> = Vec::new();
    let mut rest: Vec<T> = Vec::new();
    std::mem::swap(&mut rest, subscribers);
    let ghost all = rest@;
    let total = rest.len();
    let mut i: usize = 0;
    assert(all.subrange(0, 0) =~= Seq::<T>::empty());
    while rest.len() > 0
        invariant
            total == all.len(),
            i + rest@.len() == all.len(),
            forall|k: int| 0 <= k < rest@.len() ==> #[trigger] rest@[k] == all[i + k],
            kept@ == kept_subscribers(all.subrange(0, i as int), accepted@),
        decreases rest@.len(),
    {
        let subscriber = rest.remove(0);
        let keep = if i < accepted.len() {
            accepted[i]
        } else {
            true
        };
        proof {
            let longer = all.subrange(0, i + 1);
            assert(longer.drop_last() =~= all.subrange(0, i as int));
            assert(longer.last() == subscriber);
        }
        if keep {
            kept.push(subscriber);
        }
        i = i + 1;
    }
    assert(all.subrange(0, i as int) =~= all);
    *subscribers = kept;
}

/// The subscribers that stay after an event: those that took it and those
/// that `accepted` says nothing about, in their order.
pub open spec fn kept_subscribers<T>(subscribers: Seq<T>, accepted: Seq<bool>) -> Seq<T>
    decreases subscribers.len(),
{
    if subscribers.len() == 0 {
        Seq::empty()
    } else if subscribers.len() - 1 < accepted.len() && !accepted[subscribers.len() - 1] {
        kept_subscribers(subscribers.drop_last(), accepted)
    } else {
        kept_subscribers(subscribers.drop_last(), accepted).push(subscribers.last())
    }
}

/// Where `runner_id` stands among `handles`, if it stands there.
fn find_runner(handles: &Vec<RunnerHandle>, runner_id: &String) -> (found: Option<usize>)
    ensures
        match found {
            Some(i) => i < handles@.len() && handles@[i as int].runner_id@ == runner_id@,
            None => forall|i: int|
                0 <= i < handles@.len() ==> (#[trigger] handles@[i]).runner_id@ != runner_id@,
        },
{
    let mut i: usize = 0;
    while i < handles.len()
        invariant
            i <= handles@.len(),
            forall|k: int| 0 <= k < i ==> (#[trigger] handles@[k]).runner_id@ != runner_id@,
        decreases handles@.len() - i,
    {
        if handles[i].runner_id == *runner_id {
            return Some(i);
        }
        i = i + 1;
    }
    None
}

/// The fleet of runners and the symbols they listen to.
pub struct TradingEngine {
    runners: Vec<RunnerHandle>,
    default_config: RunnerConfig,
    default_window_size: usize,
}

impl View for TradingEngine {
    type V = EngineView;

    closed spec fn view(&self) -> EngineView {
        EngineView {
            entries: handle_views(self.runners@),
            default_config: self.default_config,
            default_window_size: self.default_window_size,
        }
    }
}

impl TradingEngine {
    #[verifier::type_invariant]
    closed spec fn ids_are_unique(&self) -> bool {
        self@.ids_distinct()
    }

    /// An engine without runners, with the default configuration and windows
    /// of 100 bars for the runners it will be given.
    pub fn new() -> (engine: TradingEngine)
        ensures
            engine@.entries == Seq::<HandleView>::empty(),
            engine@.default_window_size == 100,
            engine@.default_config == (RunnerConfig {
                stop_on_error: false,
                log_actions: true,
                log_positions: false,
                collect_metrics: true,
            }),
    {
        TradingEngine::with_defaults(RunnerConfig::default(), 100)
    }

    /// An engine without runners that gives `config` and windows of
    /// `window_size` bars to the runners it will be given.
    pub fn with_defaults(config: RunnerConfig, window_size: usize) -> (engine: TradingEngine)
        ensures
            engine@ == (EngineView {
                entries: Seq::empty(),
                default_config: config,
                default_window_size: window_size,
            }),
    {
        let engine = TradingEngine {
            runners: Vec::new(),
            default_config: config,
            default_window_size: window_size,
        };
        assert(engine@.entries =~= Seq::<HandleView>::empty());
        engine
    }

    /// How many runners are registered.
    pub fn runner_count(&self) -> (count: usize)
        ensures
            count == self@.entries.len(),
            self@.ids_distinct(),
    {
        proof {
            use_type_invariant(self);
        }
        self.runners.len()
    }

    /// Whether a runner with the id `runner_id` is registered.
    pub fn has_runner(&self, runner_id: &str) -> (present: bool)
        ensures
            present == self@.has_runner(runner_id@),
    {
        let id = runner_id.to_owned();
        match find_runner(&self.runners, &id) {
            Some(i) => {
                assert(self@.entries[i as int].runner_id == runner_id@);
                true
            },
            None => {
                assert forall|i: int| 0 <= i < self@.entries.len() implies (
                #[trigger] self@.entries[i]).runner_id != runner_id@ by {
                    assert(self.runners@[i].runner_id@ != runner_id@);
                }
                false
            },
        }
    }

    /// The symbol that the runner with the id `runner_id` listens to.
    pub fn runner_symbol(&self, runner_id: &str) -> (symbol: Option<String>)
        ensures
            symbol is Some == self@.has_runner(runner_id@),
            symbol is Some ==> symbol.unwrap()@ == self@.entries[self@.index_of(
                runner_id@,
            )].symbol,
    {
        proof {
            use_type_invariant(self);
        }
        let id = runner_id.to_owned();
        match find_runner(&self.runners, &id) {
            Some(i) => {
                proof {
                    self.lemma_found(i as int, runner_id@);
                }
                Some(self.runners[i].symbol.clone())
            },
            None => {
                assert forall|i: int| 0 <= i < self@.entries.len() implies (
                #[trigger] self@.entries[i]).runner_id != runner_id@ by {
                    assert(self.runners@[i].runner_id@ != runner_id@);
                }
                None
            },
        }
    }

    /// With distinct ids, the entry at `i` is the one its id is found at.
    proof fn lemma_found(&self, i: int, runner_id: Seq<char>)
        requires
            self@.ids_distinct(),
            0 <= i < self.runners@.len(),
            self.runners@[i].runner_id@ == runner_id,
        ensures
            self@.has_runner(runner_id),
            self@.index_of(runner_id) == i,
    {
        assert(self@.entries[i].runner_id == runner_id);
        let p = self@.index_of(runner_id);
        if p < i {
            assert(self@.entries[p].runner_id != self@.entries[i].runner_id);
        } else if i < p {
            assert(self@.entries[i].runner_id != self@.entries[p].runner_id);
        }
    }

    /// How long the runner with the id `runner_id` has been registered.
    pub fn runner_uptime(&self, runner_id: &str) -> (uptime: Option<std::time::Duration>)
        ensures
            uptime is Some == self@.has_runner(runner_id@),
    {
        let id = runner_id.to_owned();
        match find_runner(&self.runners, &id) {
            Some(i) => {
                assert(self@.entries[i as int].runner_id == runner_id@);
                Some(elapsed_since(&self.runners[i].started_at))
            },
            None => {
                assert forall|i: int| 0 <= i < self@.entries.len() implies (
                #[trigger] self@.entries[i]).runner_id != runner_id@ by {
                    assert(self.runners@[i].runner_id@ != runner_id@);
                }
                None
            },
        }
    }

    /// Whether the task of the runner with the id `runner_id` is still
    /// going, as far as the engine was told.
    pub fn runner_is_healthy(&self, runner_id: &str) -> (healthy: Option<bool>)
        ensures
            healthy is Some == self@.has_runner(runner_id@),
            healthy is Some ==> healthy.unwrap() == !self@.entries[self@.index_of(
                runner_id@,
            )].finished,
    {
        proof {
            use_type_invariant(self);
        }
        let id = runner_id.to_owned();
        match find_runner(&self.runners, &id) {
            Some(i) => {
                proof {
                    self.lemma_found(i as int, runner_id@);
                }
                Some(!self.runners[i].finished)
            },
            None => {
                assert forall|i: int| 0 <= i < self@.entries.len() implies (
                #[trigger] self@.entries[i]).runner_id != runner_id@ by {
                    assert(self.runners@[i].runner_id@ != runner_id@);
                }
                None
            },
        }
    }

    /// Notes that the task of the runner with the id `runner_id` has ended.
    /// Says whether such a runner is registered.
    pub fn mark_finished(&mut self, runner_id: &str) -> (known: bool)
        ensures
            known == old(self)@.has_runner(runner_id@),
            final(self)@ == if known {
                old(self)@.marked_finished(runner_id@)
            } else {
                old(self)@
            },
    {
        proof {
            use_type_invariant(&*self);
        }
        let id = runner_id.to_owned();
        let mut runners: Vec<RunnerHandle> = Vec::new();
        std::mem::swap(&mut runners, &mut self.runners);
        let ghost before = handle_views(runners@);
        assert(before == old(self)@.entries);
        assert(old(self)@.ids_distinct());
        let known = match find_runner(&runners, &id) {
            Some(i) => {
                proof {
                    assert(before[i as int].runner_id == runner_id@);
                    let p = old(self)@.index_of(runner_id@);
                    if p < i {
                        assert(before[p].runner_id != before[i as int].runner_id);
                    } else if i < p {
                        assert(before[i as int].runner_id != before[p].runner_id);
                    }
                }
                let handle = runners.remove(i);
                runners.insert(
                    i,
                    RunnerHandle {
                        runner_id: handle.runner_id,
                        symbol: handle.symbol,
                        started_at: handle.started_at,
                        finished: true,
                    },
                );
                proof {
                    assert(handle_views(runners@) =~= before.update(
                        i as int,
                        HandleView { finished: true, ..before[i as int] },
                    ));
                }
                true
            },
            None => {
                assert forall|i: int| 0 <= i < before.len() implies (#[trigger] before[i]).runner_id
                    != runner_id@ by {
                    assert(runners@[i].runner_id@ != runner_id@);
                }
                false
            },
        };
        proof {
            let after = handle_views(runners@);
            assert forall|a: int, b: int| 0 <= a < b < after.len() implies (
            #[trigger] after[a]).runner_id != (#[trigger] after[b]).runner_id by {
                assert(before[a].runner_id != before[b].runner_id);
            }
        }
        self.runners = runners;
        known
    }

    /// Registers a runner with the engine's default window size and
    /// configuration. See [`TradingEngine::add_runner_with_config`].
    pub fn add_runner<S: Strategy>(
        &mut self,
        runner_id: String,
        symbol: String,
        strategy: S,
        events: &mut Vec<RunnerEvent>,
    ) -> (added: Result<SymbolRunner<S>, TradingEngineError>)
        ensures
            old(self)@.has_runner(runner_id@) <==> added is Err,
            added is Err ==> added->Err_0 == TradingEngineError::RunnerAlreadyExists(runner_id)
                && final(self)@ == old(self)@ && final(events)@ == old(events)@,
            added is Ok ==> final(self)@ == old(self)@.added(runner_id@, symbol@),
            added is Ok ==> added->Ok_0@ == (RunnerView {
                config: old(self)@.default_config,
                ..new_runner_view(runner_id@, symbol@, old(self)@.default_window_size)
            }),
            added is Ok ==> exists|timestamp: i64|
                event_views(final(events)@) == event_views(old(events)@).push(
                    #[trigger] started_event(runner_id@, symbol@, timestamp),
                ),
    {
        let window_size = self.default_window_size;
        let config = self.default_config;
        self.add_runner_with_config(runner_id, symbol, strategy, window_size, config, events)
    }

    /// Registers a runner for `symbol` under `runner_id` and hands it back,
    /// ready to be run. An id that is taken is rejected and nothing changes.
    /// Otherwise the runner's start is announced on `events` before the
    /// runner is handed out, and the runner is recorded as the newest
    /// listener of `symbol`.
    pub fn add_runner_with_config<S: Strategy>(
        &mut self,
        runner_id: String,
        symbol: String,
        strategy: S,
        window_size: usize,
        config: RunnerConfig,
        events: &mut Vec<RunnerEvent>,
    ) -> (added: Result<SymbolRunner<S>, TradingEngineError>)
        ensures
            old(self)@.has_runner(runner_id@) <==> added is Err,
            added is Err ==> added->Err_0 == TradingEngineError::RunnerAlreadyExists(runner_id)
                && final(self)@ == old(self)@ && final(events)@ == old(events)@,
            added is Ok ==> final(self)@ == old(self)@.added(runner_id@, symbol@),
            added is Ok ==> added->Ok_0@ == (RunnerView {
                config,
                ..new_runner_view(runner_id@, symbol@, window_size)
            }),
            added is Ok ==> exists|timestamp: i64|
                event_views(final(events)@) == event_views(old(events)@).push(
                    #[trigger] started_event(runner_id@, symbol@, timestamp),
                ),
    {
        proof {
            use_type_invariant(&*self);
        }
        match find_runner(&self.runners, &runner_id) {
            Some(i) => {
                assert(self@.entries[i as int].runner_id == runner_id@);
                return Err(TradingEngineError::RunnerAlreadyExists(runner_id));
            },
            None => {
                assert forall|i: int| 0 <= i < self@.entries.len() implies (
                #[trigger] self@.entries[i]).runner_id != runner_id@ by {
                    assert(self.runners@[i].runner_id@ != runner_id@);
                }
            },
        }
        let runner = SymbolRunner::new(
            runner_id.clone(),
            symbol.clone(),
            strategy,
            window_size,
        ).with_config(config);
        let timestamp = now_millis();
        let started = RunnerEvent::RunnerStarted {
            runner_id: runner_id.clone(),
            symbol: symbol.clone(),
            timestamp,
        };
        events.push(started);
        proof {
            assert(event_views(events@) =~= event_views(old(events)@).push(
                started_event(runner_id@, symbol@, timestamp),
            ));
        }
        let mut runners: Vec<RunnerHandle> = Vec::new();
        std::mem::swap(&mut runners, &mut self.runners);
        let ghost before = handle_views(runners@);
        assert(before == old(self)@.entries);
        assert(old(self)@.ids_distinct());
        runners.push(
            RunnerHandle { runner_id, symbol, started_at: monotonic_now(), finished: false },
        );
        proof {
            let after = handle_views(runners@);
            assert(after =~= before.push(
                HandleView { runner_id: runner_id@, symbol: symbol@, finished: false },
            ));
            assert forall|a: int, b: int| 0 <= a < b < after.len() implies (
            #[trigger] after[a]).runner_id != (#[trigger] after[b]).runner_id by {
                if b < before.len() {
                    assert(before[a].runner_id != before[b].runner_id);
                } else {
                    assert(before[a].runner_id != runner_id@);
                }
            }
        }
        self.runners = runners;
        Ok(runner)
    }

    /// Takes the runner with the id `runner_id` out of the routing table and
    /// hands its handle back; an unknown id is reported as `RunnerNotFound`.
    /// The other runners keep their order.
    pub fn remove_runner(&mut self, runner_id: &str) -> (removed: Result<
        RunnerHandle,
        TradingEngineError,
    >)
        ensures
            removed is Ok <==> old(self)@.has_runner(runner_id@),
            removed is Ok ==> final(self)@ == old(self)@.removed(runner_id@) && removed->Ok_0@
                == old(self)@.entries[old(self)@.index_of(runner_id@)],
            removed is Err ==> final(self)@ == old(self)@ && removed->Err_0 is RunnerNotFound
                && removed->Err_0->RunnerNotFound_0@ == runner_id@,
    {
        proof {
            use_type_invariant(&*self);
        }
        let id = runner_id.to_owned();
        let mut runners: Vec<RunnerHandle> = Vec::new();
        std::mem::swap(&mut runners, &mut self.runners);
        let ghost before = handle_views(runners@);
        assert(before == old(self)@.entries);
        assert(old(self)@.ids_distinct());
        let removed = match find_runner(&runners, &id) {
            Some(i) => {
                proof {
                    assert(before[i as int].runner_id == runner_id@);
                    let p = old(self)@.index_of(runner_id@);
                    if p < i {
                        assert(before[p].runner_id != before[i as int].runner_id);
                    } else if i < p {
                        assert(before[i as int].runner_id != before[p].runner_id);
                    }
                }
                let handle = runners.remove(i);
                proof {
                    let after = handle_views(runners@);
                    assert(after =~= before.remove(i as int));
                    assert forall|a: int, b: int| 0 <= a < b < after.len() implies (
                    #[trigger] after[a]).runner_id != (#[trigger] after[b]).runner_id by {
                        let a0 = if a < i {
                            a
                        } else {
                            a + 1
                        };
                        let b0 = if b < i {
                            b
                        } else {
                            b + 1
                        };
                        assert(before[a0].runner_id != before[b0].runner_id);
                    }
                }
                Ok(handle)
            },
            None => {
                assert forall|i: int| 0 <= i < before.len() implies (#[trigger] before[i]).runner_id
                    != runner_id@ by {
                    assert(runners@[i].runner_id@ != runner_id@);
                }
                Err(TradingEngineError::RunnerNotFound(id))
            },
        };
        self.runners = runners;
        removed
    }

    /// Turns the way a removed runner's task ended into the result of the
    /// removal: the task's own result when it returned, `TaskPanic` with the
    /// runner's id when it panicked.
    pub fn join_result(runner_id: &str, end: TaskEnd) -> (result: Result<(), TradingEngineError>)
        ensures
            match end {
                TaskEnd::Returned(returned) => result == returned,
                TaskEnd::Panicked => result is Err && result->Err_0 is TaskPanic
                    && result->Err_0->TaskPanic_0@ == runner_id@,
            },
    {
        match end {
            TaskEnd::Returned(returned) => returned,
            TaskEnd::Panicked => Err(TradingEngineError::TaskPanic(runner_id.to_owned())),
        }
    }

    /// The event that announces the end of a runner whose loop returned
    /// `result`.
    pub fn runner_stopped(
        runner_id: String,
        result: &Result<(), TradingEngineError>,
        timestamp: i64,
    ) -> (event: RunnerEvent)
        ensures
            event@ == (RunnerEventView::RunnerStopped {
                runner_id: runner_id@,
                reason: stop_reason_text(*result),
                timestamp,
            }),
    {
        let reason = match result {
            Ok(()) => String::from_str("Normal shutdown"),
            Err(error) => {
                let mut reason = String::from_str("Error: ");
                let message = error.to_string();
                reason.append(message.as_str());
                reason
            },
        };
        RunnerEvent::RunnerStopped { runner_id, reason, timestamp }
    }

    /// The ids of all runners, in the order in which they were added.
    pub fn runner_ids(&self) -> (ids: Vec<String>)
        ensures
            ids@.len() == self@.entries.len(),
            forall|i: int| 0 <= i < ids@.len() ==> (#[trigger] ids@[i])@ == self@.entries[i].runner_id,
    {
        let n = self.runners.len();
        let mut ids: Vec<String> = Vec::new();
        let mut i: usize = 0;
        while i < n
            invariant
                i <= n,
                n == self.runners@.len(),
                ids@.len() == i,
                forall|k: int| 0 <= k < i ==> (#[trigger] ids@[k])@ == self.runners@[k].runner_id@,
            decreases n - i,
        {
            ids.push(self.runners[i].runner_id.clone());
            i = i + 1;
        }
        ids
    }

    /// Every runner with its symbol, in the order in which the runners were
    /// added.
    pub fn runner_summaries(&self) -> (summaries: Vec<crate::api::RunnerSummary>)
        ensures
            summaries@.len() == self@.entries.len(),
            forall|i: int|
                0 <= i < summaries@.len() ==> (#[trigger] summaries@[i]).runner_id@
                    == self@.entries[i].runner_id && summaries@[i].symbol@
                    == self@.entries[i].symbol,
    {
        let n = self.runners.len();
        let mut summaries: Vec<crate::api::RunnerSummary> = Vec::new();
        let mut i: usize = 0;
        while i < n
            invariant
                i <= n,
                n == self.runners@.len(),
                summaries@.len() == i,
                forall|k: int|
                    0 <= k < i ==> (#[trigger] summaries@[k]).runner_id@
                        == self.runners@[k].runner_id@ && summaries@[k].symbol@
                        == self.runners@[k].symbol@,
            decreases n - i,
        {
            summaries.push(
                crate::api::RunnerSummary {
                    runner_id: self.runners[i].runner_id.clone(),
                    symbol: self.runners[i].symbol.clone(),
                },
            );
            i = i + 1;
        }
        summaries
    }

    /// The ids of the runners that listen to `symbol`, in the order in which
    /// they were added.
    pub fn runners_for_symbol(&self, symbol: &str) -> (ids: Vec<String>)
        ensures
            text_views(ids@) == self@.subscribers(symbol@),
    {
        let wanted = symbol.to_owned();
        let n = self.runners.len();
        let mut ids: Vec<String> = Vec::new();
        let mut i: usize = 0;
        let ghost entries = handle_views(self.runners@);
        assert(text_views(ids@) =~= subscribers_in(entries.subrange(0, 0), symbol@));
        while i < n
            invariant
                i <= n,
                n == self.runners@.len(),
                wanted@ == symbol@,
                entries == handle_views(self.runners@),
                text_views(ids@) == subscribers_in(entries.subrange(0, i as int), symbol@),
            decreases n - i,
        {
            let ghost shorter = entries.subrange(0, i as int);
            let ghost longer = entries.subrange(0, i + 1);
            assert(longer.drop_last() =~= shorter);
            assert(longer.last() == self.runners@[i as int]@);
            if self.runners[i].symbol == wanted {
                let ghost held = ids@;
                ids.push(self.runners[i].runner_id.clone());
                assert(text_views(ids@) =~= text_views(held).push(self.runners@[i as int].runner_id@));
            }
            i = i + 1;
        }
        assert(entries.subrange(0, n as int) =~= entries);
        ids
    }

    /// How many runners listen to `symbol`.
    pub fn runner_count_for_symbol(&self, symbol: &str) -> (count: usize)
        ensures
            count == self@.subscribers(symbol@).len(),
    {
        let ids = self.runners_for_symbol(symbol);
        assert(text_views(ids@).len() == ids@.len());
        ids.len()
    }

    /// The symbols that at least one runner listens to, each once, in the
    /// order in which they first appeared.
    pub fn active_symbols(&self) -> (symbols: Vec<String>)
        ensures
            text_views(symbols@) == symbols_in(self@.entries),
    {
        let n = self.runners.len();
        let mut symbols: Vec<String> = Vec::new();
        let mut i: usize = 0;
        let ghost entries = handle_views(self.runners@);
        assert(text_views(symbols@) =~= symbols_in(entries.subrange(0, 0)));
        while i < n
            invariant
                i <= n,
                n == self.runners@.len(),
                entries == handle_views(self.runners@),
                text_views(symbols@) == symbols_in(entries.subrange(0, i as int)),
            decreases n - i,
        {
            let ghost shorter = entries.subrange(0, i as int);
            let ghost longer = entries.subrange(0, i + 1);
            assert(longer.drop_last() =~= shorter);
            assert(longer.last() == self.runners@[i as int]@);
            if !holds_text(&symbols, &self.runners[i].symbol) {
                let ghost held = symbols@;
                symbols.push(self.runners[i].symbol.clone());
                assert(text_views(symbols@) =~= text_views(held).push(self.runners@[i as int].symbol@));
            }
            i = i + 1;
        }
        assert(entries.subrange(0, n as int) =~= entries);
        symbols
    }

    /// For every runner, in the order in which they were added, its id and
    /// whether its task is still going.
    pub fn health_check(&self) -> (health: Vec<(String, bool)>)
        ensures
            health@.len() == self@.entries.len(),
            forall|i: int|
                0 <= i < health@.len() ==> (#[trigger] health@[i]).0@ == self@.entries[i].runner_id
                    && health@[i].1 == !self@.entries[i].finished,
    {
        let n = self.runners.len();
        let mut health: Vec<(String, bool)> = Vec::new();
        let mut i: usize = 0;
        while i < n
            invariant
                i <= n,
                n == self.runners@.len(),
                health@.len() == i,
                forall|k: int|
                    0 <= k < i ==> (#[trigger] health@[k]).0@ == self.runners@[k].runner_id@
                        && health@[k].1 == !self.runners@[k].finished,
            decreases n - i,
        {
            health.push((self.runners[i].runner_id.clone(), !self.runners[i].finished));
            i = i + 1;
        }
        health
    }

    /// The ids of the runners whose task has ended.
    pub fn unhealthy_runners(&self) -> (ids: Vec<String>)
        ensures
            text_views(ids@) == finished_in(self@.entries),
    {
        let n = self.runners.len();
        let mut ids: Vec<String> = Vec::new();
        let mut i: usize = 0;
        let ghost entries = handle_views(self.runners@);
        assert(text_views(ids@) =~= finished_in(entries.subrange(0, 0)));
        while i < n
            invariant
                i <= n,
                n == self.runners@.len(),
                entries == handle_views(self.runners@),
                text_views(ids@) == finished_in(entries.subrange(0, i as int)),
            decreases n - i,
        {
            let ghost shorter = entries.subrange(0, i as int);
            let ghost longer = entries.subrange(0, i + 1);
            assert(longer.drop_last() =~= shorter);
            assert(longer.last() == self.runners@[i as int]@);
            if self.runners[i].finished {
                let ghost held = ids@;
                ids.push(self.runners[i].runner_id.clone());
                assert(text_views(ids@) =~= text_views(held).push(self.runners@[i as int].runner_id@));
            }
            i = i + 1;
        }
        assert(entries.subrange(0, n as int) =~= entries);
        ids
    }

    /// Who gets `data`: one copy of the bar for every runner that listens to
    /// its symbol, in the order in which those runners were added. A symbol
    /// without listeners is reported as `NoRunnersForSymbol`.
    pub fn fan_out(&self, data: &MarketData) -> (deliveries: Result<
        Vec<(String, MarketData)>,
        TradingEngineError,
    >)
        ensures
            deliveries is Err <==> self@.subscribers(data.symbol@).len() == 0,
            deliveries is Err ==> deliveries->Err_0 == TradingEngineError::NoRunnersForSymbol(
                data.symbol,
            ),
            deliveries is Ok ==> deliveries->Ok_0@.len() == self@.subscribers(data.symbol@).len(),
            deliveries is Ok ==> forall|i: int|
                0 <= i < deliveries->Ok_0@.len() ==> (#[trigger] deliveries->Ok_0@[i]).0@
                    == self@.subscribers(data.symbol@)[i] && deliveries->Ok_0@[i].1 == *data,
    {
        let ids = self.runners_for_symbol(data.symbol.as_str());
        assert(text_views(ids@).len() == ids@.len());
        if ids.len() == 0 {
            return Err(TradingEngineError::NoRunnersForSymbol(data.symbol.clone()));
        }
        let n = ids.len();
        let mut deliveries: Vec<(String, MarketData)> = Vec::new();
        let mut i: usize = 0;
        while i < n
            invariant
                i <= n,
                n == ids@.len(),
                deliveries@.len() == i,
                forall|k: int|
                    0 <= k < i ==> (#[trigger] deliveries@[k]).0@ == ids@[k]@ && deliveries@[k].1
                        == *data,
            decreases n - i,
        {
            deliveries.push((ids[i].clone(), data.clone()));
            i = i + 1;
        }
        assert forall|k: int| 0 <= k < deliveries@.len() implies (#[trigger] deliveries@[k]).0@
            == self@.subscribers(data.symbol@)[k] by {
            assert(text_views(ids@)[k] == ids@[k]@);
        }
        Ok(deliveries)
    }

    /// Hands one copy of `data` to every runner that listens to its symbol,
    /// one after the other in the order in which they were added, and stops
    /// at the first for whom the sink refuses it. Every runner whose inbox
    /// took the bar is noted in `taken` with its copy. A symbol without
    /// listeners is reported as `NoRunnersForSymbol` and nothing is handed
    /// out; a refusal is reported as `ChannelClosed` with the id of that
    /// runner. The feed succeeds exactly when every listener took the bar.
    pub fn feed_data<K: BarSink>(
        &self,
        data: MarketData,
        sink: &K,
        taken: &mut Vec<(String, MarketData)>,
    ) -> (fed: Result<(), TradingEngineError>)
        ensures
            old(taken)@.len() <= final(taken)@.len(),
            final(taken)@.subrange(0, old(taken)@.len() as int) == old(taken)@,
            fed_as(
                self@.subscribers(data.symbol@),
                sink,
                data,
                final(taken)@.subrange(old(taken)@.len() as int, final(taken)@.len() as int),
                fed,
            ),
    {
        let ghost start = taken@;
        let ghost subscribers = self@.subscribers(data.symbol@);
        let deliveries = match self.fan_out(&data) {
            Ok(deliveries) => deliveries,
            Err(error) => {
                proof {
                    let none = taken@.subrange(start.len() as int, taken@.len() as int);
                    assert(delivery_views(none) =~= deliveries_to(subscribers, data, 0));
                    assert(taken@.subrange(0, start.len() as int) =~= start);
                }
                return Err(error);
            },
        };
        let mut remaining = deliveries;
        let ghost mut added: Seq<(String, MarketData)> = Seq::empty();
        proof {
            assert(taken@ =~= start + added);
            assert(delivery_views(added) =~= deliveries_to(subscribers, data, 0));
        }
        while remaining.len() > 0
            invariant
                added.len() + remaining@.len() == subscribers.len(),
                subscribers == self@.subscribers(data.symbol@),
                subscribers.len() > 0,
                forall|k: int|
                    0 <= k < remaining@.len() ==> (#[trigger] remaining@[k]).0@
                        == subscribers[added.len() + k] && remaining@[k].1 == data,
                start == old(taken)@,
                taken@ == start + added,
                delivery_views(added) == deliveries_to(subscribers, data, added.len() as int),
                forall|i: int|
                    0 <= i < added.len() ==> answers(sink, (#[trigger] added[i]).0, added[i].1, true),
            decreases remaining@.len(),
        {
            let ghost first = remaining@[0];
            let (runner_id, bar) = remaining.remove(0);
            assert(runner_id@ == subscribers[added.len() as int] && bar == data) by {
                assert(first.0@ == subscribers[added.len() as int + 0] && first.1 == data);
            }
            let copy = bar.clone();
            let accepted = sink.deliver(&runner_id, bar);
            assert(answers(sink, runner_id, bar, accepted));
            if !accepted {
                proof {
                    assert(taken@.subrange(0, start.len() as int) =~= start);
                    assert(taken@.subrange(start.len() as int, taken@.len() as int) =~= added);
                }
                return Err(TradingEngineError::ChannelClosed(runner_id));
            }
            taken.push((runner_id, copy));
            proof {
                let longer = added.push((runner_id, copy));
                assert forall|i: int| 0 <= i < longer.len() implies delivery_views(longer)[i]
                    == deliveries_to(subscribers, data, longer.len() as int)[i] by {
                    if i < added.len() {
                        assert(delivery_views(added)[i] == deliveries_to(
                            subscribers,
                            data,
                            added.len() as int,
                        )[i]);
                    }
                }
                assert(delivery_views(longer) =~= deliveries_to(
                    subscribers,
                    data,
                    longer.len() as int,
                ));
                assert(taken@ =~= start + longer);
                added = longer;
            }
        }
        proof {
            assert(taken@.subrange(0, start.len() as int) =~= start);
            assert(taken@.subrange(start.len() as int, taken@.len() as int) =~= added);
        }
        Ok(())
    }

    /// Feeds the bars of `data_batch` one after the other, each as
    /// [`TradingEngine::feed_data`] does, and stops at the first that fails,
    /// with its error. The bars before it have reached all their listeners,
    /// and the failing one those before the refusal.
    pub fn feed_batch<K: BarSink>(
        &self,
        data_batch: Vec<MarketData>,
        sink: &K,
        taken: &mut Vec<(String, MarketData)>,
    ) -> (fed: Result<(), TradingEngineError>)
        ensures
            old(taken)@.len() <= final(taken)@.len(),
            final(taken)@.subrange(0, old(taken)@.len() as int) == old(taken)@,
            forall|i: int|
                old(taken)@.len() <= i < final(taken)@.len() ==> answers(
                    sink,
                    (#[trigger] final(taken)@[i]).0,
                    final(taken)@[i].1,
                    true,
                ),
            exists|done: int, reached: int|
                {
                    &&& 0 <= done <= data_batch@.len()
                    &&& delivery_views(
                        final(taken)@.subrange(old(taken)@.len() as int, final(taken)@.len() as int),
                    ) == #[trigger] batch_deliveries(self@, data_batch@, done, reached)
                    &&& done == data_batch@.len() <==> fed is Ok
                    &&& done < data_batch@.len() ==> fails_at(
                        sink,
                        self@.subscribers(data_batch@[done].symbol@),
                        data_batch@[done],
                        reached,
                        fed,
                    )
                },
    {
        let mut remaining = data_batch;
        let ghost all = data_batch@;
        let ghost start = taken@;
        let ghost mut done: int = 0;
        let ghost mut added: Seq<(String, MarketData)> = Seq::empty();
        proof {
            assert(all.subrange(0, 0) =~= Seq::<MarketData>::empty());
            assert(taken@ =~= start + added);
            assert(delivery_views(added) =~= whole_deliveries(self@, all.subrange(0, 0)));
        }
        while remaining.len() > 0
            invariant
                0 <= done,
                done + remaining@.len() == all.len(),
                all == data_batch@,
                start == old(taken)@,
                taken@ == start + added,
                forall|k: int| 0 <= k < remaining@.len() ==> #[trigger] remaining@[k] == all[done + k],
                delivery_views(added) == whole_deliveries(self@, all.subrange(0, done)),
                forall|i: int|
                    0 <= i < added.len() ==> answers(sink, (#[trigger] added[i]).0, added[i].1, true),
            decreases remaining@.len(),
        {
            let data = remaining.remove(0);
            let ghost bar = data;
            let ghost before = taken@;
            assert(bar == all[done]);
            let ghost subscribers = self@.subscribers(bar.symbol@);
            let fed = self.feed_data(data, sink, taken);
            proof {
                let shorter = all.subrange(0, done);
                let longer = all.subrange(0, done + 1);
                assert(longer.drop_last() =~= shorter);
                assert(longer.last() == bar);
                let fresh = taken@.subrange(before.len() as int, taken@.len() as int);
                assert(taken@ =~= before + fresh);
                let grown = added + fresh;
                assert(taken@ =~= start + grown);
                assert(delivery_views(grown) =~= delivery_views(added) + delivery_views(fresh));
                assert(taken@.subrange(0, start.len() as int) =~= start);
                assert(taken@.subrange(start.len() as int, taken@.len() as int) =~= grown);
                assert forall|i: int| 0 <= i < grown.len() implies answers(
                    sink,
                    (#[trigger] grown[i]).0,
                    grown[i].1,
                    true,
                ) by {
                    if i >= added.len() {
                        assert(grown[i] == fresh[i - added.len()]);
                    } else {
                        assert(grown[i] == added[i]);
                    }
                }
                assert forall|i: int| start.len() <= i < taken@.len() implies answers(
                    sink,
                    (#[trigger] taken@[i]).0,
                    taken@[i].1,
                    true,
                ) by {
                    assert(taken@[i] == grown[i - start.len()]);
                }
                if fed is Ok {
                    assert(delivery_views(grown) =~= whole_deliveries(self@, longer));
                } else {
                    assert(delivery_views(grown) =~= batch_deliveries(
                        self@,
                        all,
                        done,
                        fresh.len() as int,
                    ));
                    assert(fails_at(sink, subscribers, bar, fresh.len() as int, fed));
                }
                added = grown;
            }
            match fed {
                Ok(()) => {},
                Err(error) => {
                    return Err(error);
                },
            }
            proof {
                done = done + 1;
            }
        }
        proof {
            assert(all.subrange(0, done) =~= all);
            assert(taken@.subrange(0, start.len() as int) =~= start);
            assert(taken@.subrange(start.len() as int, taken@.len() as int) =~= added);
            assert(delivery_views(added) =~= batch_deliveries(self@, all, done, 0));
            assert forall|i: int| start.len() <= i < taken@.len() implies answers(
                sink,
                (#[trigger] taken@[i]).0,
                taken@[i].1,
                true,
            ) by {
                assert(taken@[i] == added[i - start.len()]);
            }
        }
        Ok(())
    }

    /// Whether a shutdown went well as a whole: it did when every runner's
    /// shutdown did, and otherwise it failed with the first error.
    pub fn shutdown_outcome(results: &Vec<(String, Result<(), TradingEngineError>)>) -> (outcome:
        Result<(), TradingEngineError>)
        ensures
            outcome is Ok <==> forall|i: int|
                0 <= i < results@.len() ==> (#[trigger] results@[i]).1 is Ok,
            outcome is Err ==> exists|i: int|
                0 <= i < results@.len() && (#[trigger] results@[i]).1 == outcome && forall|j: int|
                    0 <= j < i ==> (#[trigger] results@[j]).1 is Ok,
    {
        let n = results.len();
        let mut i: usize = 0;
        while i < n
            invariant
                i <= n,
                n == results@.len(),
                forall|j: int| 0 <= j < i ==> (#[trigger] results@[j]).1 is Ok,
            decreases n - i,
        {
            match &results[i].1 {
                Ok(()) => {},
                Err(error) => {
                    return Err(error.clone());
                },
            }
            i = i + 1;
        }
        Ok(())
    }

    /// A short description of the fleet for people: how many runners there
    /// are, how many of them are still going and how many have ended, how
    /// many symbols are listened to, and how many runners there are for each
    /// symbol on average, to one decimal place.
    pub fn summary(&self) -> (text: String)
        ensures
            text@ == summary_text(
                self@.entries.len(),
                finished_in(self@.entries).len(),
                symbols_in(self@.entries).len(),
            ),
    {
        let total = self.runner_count();
        let unhealthy = self.unhealthy_runners();
        let symbols = self.active_symbols();
        proof {
            lemma_finished_are_few(self@.entries);
            assert(text_views(unhealthy@).len() == unhealthy@.len());
            assert(text_views(symbols@).len() == symbols@.len());
        }
        let healthy = total - unhealthy.len();
        let mut text = String::from_str("TradingEngine Summary:\n- Total Runners: ");
        text.append(u64_to_string(total as u64).as_str());
        text.append("\n- Healthy: ");
        text.append(u64_to_string(healthy as u64).as_str());
        text.append("\n- Unhealthy: ");
        text.append(u64_to_string(unhealthy.len() as u64).as_str());
        text.append("\n- Symbols: ");
        text.append(u64_to_string(symbols.len() as u64).as_str());
        text.append("\n- Runners per symbol: ");
        let tenths = tenths_of(total as u64, symbols.len() as u64);
        text.append(u64_to_string((tenths / 10) as u64).as_str());
        text.append(".");
        text.append(u64_to_string((tenths % 10) as u64).as_str());
        text
    }

    /// Pairs the handles of runners that were shut down with the way their
    /// tasks ended and says, runner by runner, how the shutdown went. A
    /// handle without an end, or an end without a handle, is passed over.
    pub fn shutdown_with_results(handles: Vec<RunnerHandle>, ends: Vec<TaskEnd>) -> (results: Vec<
        (String, Result<(), TradingEngineError>),
    >)
        ensures
            results@.len() == if handles@.len() <= ends@.len() {
                handles@.len()
            } else {
                ends@.len()
            },
            forall|i: int|
                0 <= i < results@.len() ==> (#[trigger] results@[i]).0 == handles@[i].runner_id
                    && match ends@[i] {
                    TaskEnd::Returned(returned) => results@[i].1 == returned,
                    TaskEnd::Panicked => results@[i].1 is Err && results@[i].1->Err_0 is TaskPanic
                        && results@[i].1->Err_0->TaskPanic_0@ == handles@[i].runner_id@,
                },
    {
        let mut handles = handles;
        let mut ends = ends;
        let ghost all_handles = handles@;
        let ghost all_ends = ends@;
        let mut results: Vec<(String, Result<(), TradingEngineError>)> = Vec::new();
        while handles.len() > 0 && ends.len() > 0
            invariant
                results@.len() + handles@.len() == all_handles.len(),
                results@.len() + ends@.len() == all_ends.len(),
                forall|k: int|
                    0 <= k < handles@.len() ==> #[trigger] handles@[k] == all_handles[results@.len()
                        + k],
                forall|k: int|
                    0 <= k < ends@.len() ==> #[trigger] ends@[k] == all_ends[results@.len() + k],
                forall|i: int|
                    0 <= i < results@.len() ==> (#[trigger] results@[i]).0
                        == all_handles[i].runner_id && match all_ends[i] {
                        TaskEnd::Returned(returned) => results@[i].1 == returned,
                        TaskEnd::Panicked => results@[i].1 is Err
                            && results@[i].1->Err_0 is TaskPanic
                            && results@[i].1->Err_0->TaskPanic_0@ == all_handles[i].runner_id@,
                    },
            decreases handles@.len(),
        {
            let handle = handles.remove(0);
            let end = ends.remove(0);
            let result = TradingEngine::join_result(handle.runner_id.as_str(), end);
            results.push((handle.runner_id, result));
        }
        results
    }

    /// Takes every runner out of the routing table and hands the handles
    /// back, in the order in which the runners were added. Afterwards no
    /// runner is registered.
    pub fn shutdown(&mut self) -> (handles: Vec<RunnerHandle>)
        ensures
            handle_views(handles@) == old(self)@.entries,
            final(self)@ == (EngineView { entries: Seq::empty(), ..old(self)@ }),
            final(self)@.entries.len() == 0,
    {
        let mut runners: Vec<RunnerHandle> = Vec::new();
        std::mem::swap(&mut runners, &mut self.runners);
        assert(self@.entries =~= Seq::<HandleView>::empty());
        runners
    }
}

impl Default for TradingEngine {
    fn default() -> (engine: Self)
        ensures
            engine@.entries == Seq::<HandleView>::empty(),
            engine@.default_window_size == 100,
    {
        TradingEngine::new()
    }
}

/// What a runner is when it is made for `symbol` under `runner_id` with a
/// window of `window_size` bars: running, idle, empty, with counters at
/// zero and the default configuration.
pub open spec fn new_runner_view(runner_id: Seq<char>, symbol: Seq<char>, window_size: usize)
    -> RunnerView {
    RunnerView {
        runner_id,
        symbol,
        status: RunnerStatus::Running,
        bars: Seq::empty(),
        capacity: window_size as nat,
        machine: MachineView::fresh(symbol),
        config: RunnerConfig {
            stop_on_error: false,
            log_actions: true,
            log_positions: false,
            collect_metrics: true,
        },
        stats: crate::runner::stats::zeroed_stats(),
    }
}

/// The event that announces a runner's start.
pub open spec fn started_event(runner_id: Seq<char>, symbol: Seq<char>, timestamp: i64)
    -> RunnerEventView {
    RunnerEventView::RunnerStarted { runner_id, symbol, timestamp }
}

/// Whoever is among the listeners of `symbol` is a registered runner that
/// listens to `symbol`.
pub proof fn lemma_subscriber_is_listener(
    entries: Seq<HandleView>,
    symbol: Seq<char>,
    runner_id: Seq<char>,
)
    requires
        subscribers_in(entries, symbol).contains(runner_id),
    ensures
        exists|i: int|
            0 <= i < entries.len() && (#[trigger] entries[i]).runner_id == runner_id
                && entries[i].symbol == symbol,
    decreases entries.len(),
{
    if entries.len() > 0 {
        let rest = subscribers_in(entries.drop_last(), symbol);
        if entries.last().symbol == symbol && entries.last().runner_id == runner_id {
            assert(entries[entries.len() - 1].runner_id == runner_id);
        } else {
            if entries.last().symbol == symbol {
                let k = choose|k: int|
                    0 <= k < rest.push(entries.last().runner_id).len() && rest.push(
                        entries.last().runner_id,
                    )[k] == runner_id;
                assert(k < rest.len());
                assert(rest[k] == runner_id);
            }
            lemma_subscriber_is_listener(entries.drop_last(), symbol, runner_id);
            let i = choose|i: int|
                0 <= i < entries.drop_last().len() && (#[trigger] entries.drop_last()[i]).runner_id
                    == runner_id && entries.drop_last()[i].symbol == symbol;
            assert(entries[i].runner_id == runner_id);
        }
    }
}

/// Every registered runner that listens to `symbol` is among the listeners
/// of `symbol`.
pub proof fn lemma_listener_is_subscriber(entries: Seq<HandleView>, symbol: Seq<char>, i: int)
    requires
        0 <= i < entries.len(),
        entries[i].symbol == symbol,
    ensures
        subscribers_in(entries, symbol).contains(entries[i].runner_id),
    decreases entries.len(),
{
    let rest = subscribers_in(entries.drop_last(), symbol);
    if i == entries.len() - 1 {
        assert(rest.push(entries.last().runner_id)[rest.len() as int] == entries[i].runner_id);
    } else {
        lemma_listener_is_subscriber(entries.drop_last(), symbol, i);
        assert(entries.drop_last()[i] == entries[i]);
        let k = choose|k: int| 0 <= k < rest.len() && rest[k] == entries[i].runner_id;
        if entries.last().symbol == symbol {
            assert(rest.push(entries.last().runner_id)[k] == entries[i].runner_id);
        }
    }
}

/// When no two runners share an id, nobody is listed twice among the
/// listeners of a symbol.
pub proof fn lemma_subscribers_listed_once(engine: EngineView, symbol: Seq<char>)
    requires
        engine.ids_distinct(),
    ensures
        engine.subscribers(symbol).no_duplicates(),
    decreases engine.entries.len(),
{
    let entries = engine.entries;
    if entries.len() > 0 {
        let shorter = EngineView { entries: entries.drop_last(), ..engine };
        assert forall|i: int, j: int| 0 <= i < j < shorter.entries.len() implies (
        #[trigger] shorter.entries[i]).runner_id != (#[trigger] shorter.entries[j]).runner_id by {
            assert(entries[i].runner_id != entries[j].runner_id);
        }
        lemma_subscribers_listed_once(shorter, symbol);
        let rest = subscribers_in(entries.drop_last(), symbol);
        if entries.last().symbol == symbol {
            if rest.contains(entries.last().runner_id) {
                lemma_subscriber_is_listener(entries.drop_last(), symbol, entries.last().runner_id);
                let i = choose|i: int|
                    0 <= i < entries.drop_last().len() && (
                    #[trigger] entries.drop_last()[i]).runner_id == entries.last().runner_id
                        && entries.drop_last()[i].symbol == symbol;
                assert(entries[i].runner_id != entries[entries.len() - 1].runner_id);
            }
            let all = rest.push(entries.last().runner_id);
            assert forall|a: int, b: int| 0 <= a < all.len() && 0 <= b < all.len() && a != b implies all[a]
                != all[b] by {
                if a < rest.len() && b < rest.len() {
                } else if a < rest.len() {
                    assert(rest.contains(rest[a]));
                } else {
                    assert(rest.contains(rest[b]));
                }
            }
        }
    }
}

/// After a runner is added for a symbol, it is the newest listener of that
/// symbol and is listed there exactly once; the listeners of every other
/// symbol are as before. So a bar for the symbol goes to the new runner once
/// and to every runner that listened before.
pub proof fn lemma_added_runner_is_routed(
    engine: EngineView,
    runner_id: Seq<char>,
    symbol: Seq<char>,
    other: Seq<char>,
)
    requires
        engine.ids_distinct(),
        !engine.has_runner(runner_id),
    ensures
        engine.added(runner_id, symbol).ids_distinct(),
        engine.added(runner_id, symbol).has_runner(runner_id),
        engine.added(runner_id, symbol).subscribers(symbol) == engine.subscribers(symbol).push(
            runner_id,
        ),
        !engine.subscribers(symbol).contains(runner_id),
        engine.added(runner_id, symbol).subscribers(symbol).no_duplicates(),
        other != symbol ==> engine.added(runner_id, symbol).subscribers(other)
            == engine.subscribers(other),
{
    let added = engine.added(runner_id, symbol);
    assert(added.entries.drop_last() =~= engine.entries);
    assert(added.entries[added.entries.len() - 1].runner_id == runner_id);
    assert forall|i: int, j: int| 0 <= i < j < added.entries.len() implies (
    #[trigger] added.entries[i]).runner_id != (#[trigger] added.entries[j]).runner_id by {
        if j < engine.entries.len() {
            assert(engine.entries[i].runner_id != engine.entries[j].runner_id);
        } else {
            assert(engine.entries[i].runner_id != runner_id);
        }
    }
    if engine.subscribers(symbol).contains(runner_id) {
        lemma_subscriber_is_listener(engine.entries, symbol, runner_id);
    }
    lemma_subscribers_listed_once(added, symbol);
}

/// When a runner is added for a symbol and a bar for that symbol is then
/// fed to open inboxes, the runner's inbox gets exactly one bar, equal to the
/// one that was fed, and so does the inbox of every runner that listened to
/// the symbol before.
pub proof fn lemma_feed_reaches_added_runner(
    engine: EngineView,
    runner_id: Seq<char>,
    symbol: Seq<char>,
    data: MarketData,
)
    requires
        engine.ids_distinct(),
        !engine.has_runner(runner_id),
        data.symbol@ == symbol,
    ensures
        ({
            let before = engine.subscribers(symbol);
            let listeners = engine.added(runner_id, symbol).subscribers(symbol);
            let taken = deliveries_to(listeners, data, listeners.len() as int);
            &&& taken.len() == before.len() + 1
            &&& taken.last() == (runner_id, data)
            &&& forall|i: int| 0 <= i < taken.len() - 1 ==> (#[trigger] taken[i]).0 != runner_id
            &&& forall|i: int| 0 <= i < taken.len() ==> (#[trigger] taken[i]).1 == data
            &&& forall|i: int|
                0 <= i < before.len() ==> (#[trigger] taken[i]) == (before[i], data)
            &&& forall|i: int, j: int|
                0 <= i < j < taken.len() ==> (#[trigger] taken[i]).0 != (#[trigger] taken[j]).0
        }),
{
    lemma_added_runner_is_routed(engine, runner_id, symbol, symbol);
    let before = engine.subscribers(symbol);
    let listeners = engine.added(runner_id, symbol).subscribers(symbol);
    let taken = deliveries_to(listeners, data, listeners.len() as int);
    assert forall|i: int| 0 <= i < taken.len() - 1 implies (#[trigger] taken[i]).0 != runner_id by {
        assert(before.contains(before[i]));
    }
    assert forall|i: int, j: int| 0 <= i < j < taken.len() implies (#[trigger] taken[i]).0 != (
    #[trigger] taken[j]).0 by {
        assert(listeners[i] != listeners[j]);
    }
}

/// When the sink refuses the bar for nobody and somebody listens, the feed
/// succeeds and every listener's inbox took exactly one copy, in the order
/// of the listeners.
pub proof fn lemma_open_inboxes_are_fed<K: BarSink>(
    listeners: Seq<Seq<char>>,
    sink: &K,
    data: MarketData,
    taken: Seq<(String, MarketData)>,
    fed: Result<(), TradingEngineError>,
)
    requires
        fed_as(listeners, sink, data, taken, fed),
        listeners.len() > 0,
        forall|runner_id: String| !#[trigger] answers(sink, runner_id, data, false),
    ensures
        fed is Ok,
        taken.len() == listeners.len(),
        delivery_views(taken) == deliveries_to(listeners, data, listeners.len() as int),
{
}

/// When a feed fails although somebody listens, the runner that is reported
/// is the first listener for whom the sink refused the bar: the listeners
/// before it took their copy, and nobody after it was handed one.
pub proof fn lemma_failure_follows_refusal<K: BarSink>(
    listeners: Seq<Seq<char>>,
    sink: &K,
    data: MarketData,
    taken: Seq<(String, MarketData)>,
    fed: Result<(), TradingEngineError>,
)
    requires
        fed_as(listeners, sink, data, taken, fed),
        listeners.len() > 0,
        fed is Err,
    ensures
        fed->Err_0 is ChannelClosed,
        taken.len() < listeners.len(),
        fed->Err_0->ChannelClosed_0@ == listeners[taken.len() as int],
        answers(sink, fed->Err_0->ChannelClosed_0, data, false),
        forall|i: int|
            0 <= i < taken.len() ==> (#[trigger] taken[i]).0@ == listeners[i] && taken[i].1 == data
                && answers(sink, taken[i].0, taken[i].1, true),
{
    assert forall|i: int| 0 <= i < taken.len() implies (#[trigger] taken[i]).0@ == listeners[i]
        && taken[i].1 == data by {
        assert(delivery_views(taken)[i] == deliveries_to(listeners, data, taken.len() as int)[i]);
    }
}

/// After a runner is removed, it is no longer registered, everyone else
/// still is, and one runner fewer is registered.
pub proof fn lemma_removed_runner_is_gone(engine: EngineView, runner_id: Seq<char>, other: Seq<char>)
    requires
        engine.ids_distinct(),
        engine.has_runner(runner_id),
    ensures
        !engine.removed(runner_id).has_runner(runner_id),
        engine.removed(runner_id).entries.len() == engine.entries.len() - 1,
        engine.removed(runner_id).ids_distinct(),
        other != runner_id ==> engine.removed(runner_id).has_runner(other) == engine.has_runner(
            other,
        ),
{
    let at = engine.index_of(runner_id);
    let after = engine.removed(runner_id);
    assert forall|i: int| 0 <= i < after.entries.len() implies #[trigger] after.entries[i]
        == engine.entries[if i < at {
        i
    } else {
        i + 1
    }] by {}
    assert forall|i: int, j: int| 0 <= i < j < after.entries.len() implies (
    #[trigger] after.entries[i]).runner_id != (#[trigger] after.entries[j]).runner_id by {
        let i0 = if i < at {
            i
        } else {
            i + 1
        };
        let j0 = if j < at {
            j
        } else {
            j + 1
        };
        assert(engine.entries[i0].runner_id != engine.entries[j0].runner_id);
    }
    if after.has_runner(runner_id) {
        let i = choose|i: int|
            0 <= i < after.entries.len() && (#[trigger] after.entries[i]).runner_id == runner_id;
        let i0 = if i < at {
            i
        } else {
            i + 1
        };
        if i0 < at {
            assert(engine.entries[i0].runner_id != engine.entries[at].runner_id);
        } else {
            assert(engine.entries[at].runner_id != engine.entries[i0].runner_id);
        }
    }
    if other != runner_id {
        if engine.has_runner(other) {
            let k = engine.index_of(other);
            let k1 = if k < at {
                k
            } else {
                k - 1
            };
            assert(after.entries[k1].runner_id == other);
        }
        if after.has_runner(other) {
            let k = after.index_of(other);
            let k0 = if k < at {
                k
            } else {
                k + 1
            };
            assert(engine.entries[k0].runner_id == other);
        }
    }
}

} // verus!
