//! Accounting for one open or closed trade.

use vstd::prelude::*;
use crate::clock::now_millis;
use crate::decimal::Decimal;
use crate::state_machine::action::Side;

verus! {

/// Profit or loss of `quantity` held on `side`, entered at `entry` and priced
/// at `price`. All three are counts of hundred-millionths, so the result
/// counts units of 10^-16.
pub open spec fn pnl_at(side: Side, entry: int, price: int, quantity: int) -> int {
    match side {
        Side::Long => (price - entry) * quantity,
        Side::Short => (entry - price) * quantity,
    }
}

/// Whether a stop at `stop` is reached at `price`.
pub open spec fn stop_reached(side: Side, price: int, stop: int) -> bool {
    match side {
        Side::Long => price <= stop,
        Side::Short => price >= stop,
    }
}

/// Whether a target at `target` is reached at `price`.
pub open spec fn target_reached(side: Side, price: int, target: int) -> bool {
    match side {
        Side::Long => price >= target,
        Side::Short => price <= target,
    }
}

/// What a [`Position`] holds.
pub struct PositionView {
    pub entry_price: Decimal,
    pub quantity: Decimal,
    pub side: Side,
    pub entry_timestamp: i64,
    pub current_price: Decimal,
    pub stop_loss: Option<Decimal>,
    pub take_profit: Option<Decimal>,
    /// Exit price and exit time, once closed.
    pub exit: Option<(Decimal, i64)>,
}

impl PositionView {
    /// A closed position has its exit stamped.
    pub open spec fn is_closed(self) -> bool {
        self.exit is Some
    }

    /// The quantity is above zero.
    pub open spec fn has_positive_quantity(self) -> bool {
        self.quantity.units > 0
    }

    /// Profit or loss at the current price; defined only while open.
    pub open spec fn unrealized_pnl(self) -> Option<int> {
        if self.is_closed() {
            None
        } else {
            Some(
                pnl_at(
                    self.side,
                    self.entry_price.units as int,
                    self.current_price.units as int,
                    self.quantity.units as int,
                ),
            )
        }
    }

    /// Profit or loss at the exit price; defined only once closed.
    pub open spec fn realized_pnl(self) -> Option<int> {
        match self.exit {
            Some((price, _)) => Some(
                pnl_at(
                    self.side,
                    self.entry_price.units as int,
                    price.units as int,
                    self.quantity.units as int,
                ),
            ),
            None => None,
        }
    }

    /// The stop is set and reached at the current price.
    pub open spec fn stop_hit(self) -> bool {
        match self.stop_loss {
            Some(stop) => stop_reached(self.side, self.current_price.units as int, stop.units as int),
            None => false,
        }
    }

    /// The target is set and reached at the current price.
    pub open spec fn target_hit(self) -> bool {
        match self.take_profit {
            Some(target) => target_reached(
                self.side,
                self.current_price.units as int,
                target.units as int,
            ),
            None => false,
        }
    }

    /// The record right after entry.
    pub open spec fn opened(
        entry_price: Decimal,
        quantity: Decimal,
        side: Side,
        entry_timestamp: i64,
    ) -> PositionView {
        PositionView {
            entry_price,
            quantity,
            side,
            entry_timestamp,
            current_price: entry_price,
            stop_loss: None,
            take_profit: None,
            exit: None,
        }
    }

    /// The record after a price update: unchanged once closed.
    pub open spec fn with_price(self, price: Decimal) -> PositionView {
        if self.is_closed() {
            self
        } else {
            PositionView { current_price: price, ..self }
        }
    }

    /// The record after setting the stop: unchanged once closed.
    pub open spec fn with_stop(self, stop: Decimal) -> PositionView {
        if self.is_closed() {
            self
        } else {
            PositionView { stop_loss: Some(stop), ..self }
        }
    }

    /// The record after setting the target: unchanged once closed.
    pub open spec fn with_target(self, target: Decimal) -> PositionView {
        if self.is_closed() {
            self
        } else {
            PositionView { take_profit: Some(target), ..self }
        }
    }

    /// The record after closing: unchanged when it was closed already.
    pub open spec fn closed_at(self, price: Decimal, timestamp: i64) -> PositionView {
        if self.is_closed() {
            self
        } else {
            PositionView { exit: Some((price, timestamp)), ..self }
        }
    }

    /// Milliseconds from entry to exit, or to `now` while open; `None` when
    /// the span does not fit.
    pub open spec fn age_at(self, now: i64) -> Option<i64> {
        let end = match self.exit {
            Some((_, timestamp)) => timestamp,
            None => now,
        };
        if i64::MIN <= end - self.entry_timestamp <= i64::MAX {
            Some((end - self.entry_timestamp) as i64)
        } else {
            None
        }
    }
}

/// One trade: entry, current price, protective levels and, once closed, the
/// exit. A closed record never changes again.
#[derive(Debug, Clone, Copy, PartialEq, Eq)]
pub struct Position {
    entry_price: Decimal,
    quantity: Decimal,
    side: Side,
    entry_timestamp: i64,
    current_price: Decimal,
    stop_loss: Option<Decimal>,
    take_profit: Option<Decimal>,
    exit: Option<(Decimal, i64)>,
}

impl View for Position {
    type V = PositionView;

    closed spec fn view(&self) -> PositionView {
        PositionView {
            entry_price: self.entry_price,
            quantity: self.quantity,
            side: self.side,
            entry_timestamp: self.entry_timestamp,
            current_price: self.current_price,
            stop_loss: self.stop_loss,
            take_profit: self.take_profit,
            exit: self.exit,
        }
    }
}

/// The product of a price difference and a quantity fits in 128 bits.
proof fn lemma_pnl_fits(a: i64, b: i64, q: i64)
    ensures
        i128::MIN <= (a - b) * q <= i128::MAX,
{
    let d = a - b;
    assert(-0xffff_ffff_ffff_ffff <= d <= 0xffff_ffff_ffff_ffff);
    assert(-0x8000_0000_0000_0000 <= q <= 0x7fff_ffff_ffff_ffff);
    assert(-0xffff_ffff_ffff_ffff * 0x8000_0000_0000_0000 <= d * q
        <= 0xffff_ffff_ffff_ffff * 0x8000_0000_0000_0000) by (nonlinear_arith)
        requires
            -0xffff_ffff_ffff_ffff <= d <= 0xffff_ffff_ffff_ffff,
            -0x8000_0000_0000_0000 <= q <= 0x7fff_ffff_ffff_ffff,
    ;
}

/// `pnl_at` computed in 128-bit integers.
fn pnl_exec(side: Side, entry: Decimal, price: Decimal, quantity: Decimal) -> (pnl: i128)
    ensures
        pnl == pnl_at(side, entry.units as int, price.units as int, quantity.units as int),
{
    proof {
        lemma_pnl_fits(price.units, entry.units, quantity.units);
        lemma_pnl_fits(entry.units, price.units, quantity.units);
    }
    let e: i128 = entry.units as i128;
    let p: i128 = price.units as i128;
    let q: i128 = quantity.units as i128;
    match side {
        Side::Long => (p - e) * q,
        Side::Short => (e - p) * q,
    }
}

impl Position {
    /// A freshly entered position: open, priced at its entry, with no stop
    /// and no target.
    pub fn new(entry_price: Decimal, quantity: Decimal, side: Side, entry_timestamp: i64) -> (p:
        Position)
        ensures
            p@ == PositionView::opened(entry_price, quantity, side, entry_timestamp),
    {
        Position {
            entry_price,
            quantity,
            side,
            entry_timestamp,
            current_price: entry_price,
            stop_loss: None,
            take_profit: None,
            exit: None,
        }
    }

    /// The price at which the position was entered.
    pub fn entry_price(&self) -> (price: Decimal)
        ensures
            price == self@.entry_price,
    {
        self.entry_price
    }

    /// The size of the position.
    pub fn quantity(&self) -> (quantity: Decimal)
        ensures
            quantity == self@.quantity,
    {
        self.quantity
    }

    /// Long or short.
    pub fn side(&self) -> (side: Side)
        ensures
            side == self@.side,
    {
        self.side
    }

    /// When the position was entered, in milliseconds.
    pub fn entry_timestamp(&self) -> (timestamp: i64)
        ensures
            timestamp == self@.entry_timestamp,
    {
        self.entry_timestamp
    }

    /// The last price seen while open.
    pub fn current_price(&self) -> (price: Decimal)
        ensures
            price == self@.current_price,
    {
        self.current_price
    }

    /// The stop, if one is set.
    pub fn stop_loss(&self) -> (stop: Option<Decimal>)
        ensures
            stop == self@.stop_loss,
    {
        self.stop_loss
    }

    /// The target, if one is set.
    pub fn take_profit(&self) -> (target: Option<Decimal>)
        ensures
            target == self@.take_profit,
    {
        self.take_profit
    }

    /// The exit price, once closed.
    pub fn exit_price(&self) -> (price: Option<Decimal>)
        ensures
            price == match self@.exit {
                Some((p, _)) => Some(p),
                None => None,
            },
    {
        match self.exit {
            Some((p, _)) => Some(p),
            None => None,
        }
    }

    /// The exit time in milliseconds, once closed.
    pub fn exit_timestamp(&self) -> (timestamp: Option<i64>)
        ensures
            timestamp == match self@.exit {
                Some((_, t)) => Some(t),
                None => None,
            },
    {
        match self.exit {
            Some((_, t)) => Some(t),
            None => None,
        }
    }

    /// True once the exit is stamped.
    pub fn is_closed(&self) -> (closed: bool)
        ensures
            closed == self@.is_closed(),
    {
        self.exit.is_some()
    }

    /// Records the latest price. A closed position is left as it is.
    pub fn update_current_price(&mut self, price: Decimal)
        ensures
            final(self)@ == old(self)@.with_price(price),
    {
        if self.exit.is_none() {
            self.current_price = price;
        }
    }

    /// Sets the stop. A closed position is left as it is.
    pub fn set_stop_loss(&mut self, stop: Decimal)
        ensures
            final(self)@ == old(self)@.with_stop(stop),
    {
        if self.exit.is_none() {
            self.stop_loss = Some(stop);
        }
    }

    /// Sets the target. A closed position is left as it is.
    pub fn set_take_profit(&mut self, target: Decimal)
        ensures
            final(self)@ == old(self)@.with_target(target),
    {
        if self.exit.is_none() {
            self.take_profit = Some(target);
        }
    }

    /// Stamps the exit. Closing a closed position changes nothing.
    pub fn close(&mut self, exit_price: Decimal, exit_timestamp: i64)
        ensures
            final(self)@ == old(self)@.closed_at(exit_price, exit_timestamp),
    {
        if self.exit.is_none() {
            self.exit = Some((exit_price, exit_timestamp));
        }
    }

    /// Profit or loss at the current price, in units of 10^-16; `None` once
    /// closed.
    pub fn unrealized_pnl(&self) -> (pnl: Option<i128>)
        ensures
            pnl is Some == self@.unrealized_pnl() is Some,
            pnl is Some ==> pnl->0 == self@.unrealized_pnl()->0,
    {
        if self.exit.is_some() {
            None
        } else {
            Some(pnl_exec(self.side, self.entry_price, self.current_price, self.quantity))
        }
    }

    /// Profit or loss at the exit price, in units of 10^-16; `None` while
    /// open.
    pub fn realized_pnl(&self) -> (pnl: Option<i128>)
        ensures
            pnl is Some == self@.realized_pnl() is Some,
            pnl is Some ==> pnl->0 == self@.realized_pnl()->0,
    {
        match self.exit {
            Some((price, _)) => Some(pnl_exec(self.side, self.entry_price, price, self.quantity)),
            None => None,
        }
    }

    /// Whether the stop is set and reached at the current price.
    pub fn is_stop_loss_hit(&self) -> (hit: bool)
        ensures
            hit == self@.stop_hit(),
    {
        match self.stop_loss {
            Some(stop) => match self.side {
                Side::Long => self.current_price.units <= stop.units,
                Side::Short => self.current_price.units >= stop.units,
            },
            None => false,
        }
    }

    /// Whether the target is set and reached at the current price.
    pub fn is_take_profit_hit(&self) -> (hit: bool)
        ensures
            hit == self@.target_hit(),
    {
        match self.take_profit {
            Some(target) => match self.side {
                Side::Long => self.current_price.units >= target.units,
                Side::Short => self.current_price.units <= target.units,
            },
            None => false,
        }
    }

    /// The age the position has at the clock reading `now`.
    pub fn age_ms_at(&self, now: i64) -> (age: Option<i64>)
        ensures
            age == self@.age_at(now),
    {
        let end = match self.exit {
            Some((_, timestamp)) => timestamp,
            None => now,
        };
        end.checked_sub(self.entry_timestamp)
    }

    /// Milliseconds from entry to exit when closed, and from entry to the
    /// present when open.
    pub fn age_ms(&self) -> (age: Option<i64>)
        ensures
            exists|now: i64| age == #[trigger] self@.age_at(now),
            self@.is_closed() ==> age == self@.age_at(0),
    {
        let now = now_millis();
        self.age_ms_at(now)
    }
}

/// A closed long position has realised exactly `(exit - entry) * quantity`,
/// and a closed short position exactly `(entry - exit) * quantity`.
pub proof fn lemma_realized_pnl_of_closed(p: PositionView)
    requires
        p.is_closed(),
    ensures
        p.realized_pnl() is Some,
        p.unrealized_pnl() is None,
        p.side == Side::Long ==> p.realized_pnl()->0 == (p.exit.unwrap().0.units - p.entry_price.units)
            * p.quantity.units,
        p.side == Side::Short ==> p.realized_pnl()->0 == (p.entry_price.units
            - p.exit.unwrap().0.units) * p.quantity.units,
{
}

/// Whatever is done to a position, it stays the same trade: entry, quantity,
/// side and entry time never change. So a position that was entered with a
/// quantity above zero keeps one.
pub proof fn lemma_updates_keep_the_trade(p: PositionView, price: Decimal, timestamp: i64)
    ensures
        p.with_price(price).has_positive_quantity() == p.has_positive_quantity(),
        p.with_stop(price).has_positive_quantity() == p.has_positive_quantity(),
        p.with_target(price).has_positive_quantity() == p.has_positive_quantity(),
        p.closed_at(price, timestamp).has_positive_quantity() == p.has_positive_quantity(),
        p.with_price(price).entry_price == p.entry_price && p.with_price(price).side == p.side
            && p.with_price(price).entry_timestamp == p.entry_timestamp,
        p.closed_at(price, timestamp).entry_price == p.entry_price && p.closed_at(
            price,
            timestamp,
        ).side == p.side && p.closed_at(price, timestamp).entry_timestamp == p.entry_timestamp,
        p.is_closed() ==> p.with_price(price) == p && p.with_stop(price) == p && p.with_target(
            price,
        ) == p && p.closed_at(price, timestamp) == p,
{
}

/// Closing an open position at `price` realises what was unrealised at that
/// price, and a closed position stays closed whatever is done to it.
pub proof fn lemma_close_realizes(p: PositionView, price: Decimal, timestamp: i64)
    requires
        !p.is_closed(),
    ensures
        p.closed_at(price, timestamp).is_closed(),
        p.closed_at(price, timestamp).realized_pnl() == p.with_price(price).unrealized_pnl(),
        forall|q: Decimal, t: i64| #[trigger]
            p.closed_at(price, timestamp).closed_at(q, t) == p.closed_at(price, timestamp),
        forall|q: Decimal| #[trigger]
            p.closed_at(price, timestamp).with_price(q) == p.closed_at(price, timestamp),
{
}

} // verus!
