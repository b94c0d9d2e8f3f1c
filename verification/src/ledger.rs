//! The book of one strategy: its cash, its one open position and the trades
//! it has closed.
use vstd::prelude::*;
use vstd::arithmetic::div_mod::lemma_div_multiples_vanish_quotient;
use crate::types::{
    percentage_of, realized_pnl, ConfigurationError, Position, ProposedTrade, Side, Trade,
    TradeEvent, CASH_LIMIT, FULL_SCALE, MAX_QUANTITY,
};

verus! {

/// What a ledger is, as a value.
pub struct LedgerState {
    pub symbol: String,
    pub cash: int,
    pub position: Option<Position>,
    pub trades: Seq<Trade>,
}

impl LedgerState {
    /// The cash lies within `CASH_LIMIT` and the open position, if any, is
    /// well formed.
    pub open spec fn wf(self) -> bool {
        &&& -CASH_LIMIT <= self.cash <= CASH_LIMIT
        &&& self.position matches Some(p) ==> p.well_formed()
    }

    /// Cash plus what the open position, if any, is worth at `mark`.
    pub open spec fn equity(self, mark: u64) -> int {
        match self.position {
            None => self.cash,
            Some(p) => self.cash + p.value_at(mark),
        }
    }

    /// Whether `trade` would close the open position: one is open, and the
    /// trade goes the other way.
    pub open spec fn is_exit(self, trade: ProposedTrade) -> bool {
        self.position matches Some(p) && trade.side == p.side.flipped()
    }

    /// Whether `trade` fits the state of the book: with no position open any
    /// trade is an entry, with one open only an exit fits.
    pub open spec fn is_consistent(self, trade: ProposedTrade) -> bool {
        self.position is Some ==> self.is_exit(trade)
    }

    /// The cash after `trade`, were it committed.
    pub open spec fn cash_after(self, trade: ProposedTrade) -> int {
        match self.position {
            None => self.cash - trade.price * trade.quantity,
            Some(p) => self.cash + p.value_at(trade.price),
        }
    }

    /// Whether `commit` can take `trade`: it fits the state of the book, its
    /// price is positive, an entry has a quantity between one and
    /// `MAX_QUANTITY`, and the cash stays within `CASH_LIMIT`.
    pub open spec fn can_commit(self, trade: ProposedTrade) -> bool {
        &&& self.is_consistent(trade)
        &&& trade.price > 0
        &&& self.position is None ==> 0 < trade.quantity <= MAX_QUANTITY
        &&& -CASH_LIMIT <= self.cash_after(trade) <= CASH_LIMIT
    }

    /// The record of closing the open position `p` by `trade`.
    pub open spec fn closing_trade(self, p: Position, trade: ProposedTrade) -> Trade {
        let pnl = realized_pnl(p.side, p.entry_price, trade.price, p.quantity);
        Trade {
            symbol: self.symbol,
            side: p.side,
            entry_price: p.entry_price,
            exit_price: trade.price,
            quantity: p.quantity,
            entry_time: p.entry_time,
            exit_time: trade.timestamp,
            pnl: pnl as i128,
            pnl_percentage: percentage_of(pnl, p.entry_price * p.quantity) as i128,
        }
    }

    /// The position that `trade` opens.
    pub open spec fn opening_position(trade: ProposedTrade) -> Position {
        Position {
            side: trade.side,
            entry_price: trade.price,
            quantity: trade.quantity,
            entry_time: trade.timestamp,
        }
    }

    /// The book after `commit` of `trade`.
    pub open spec fn after_commit(self, trade: ProposedTrade) -> LedgerState {
        match self.position {
            None => LedgerState {
                symbol: self.symbol,
                cash: self.cash_after(trade),
                position: Some(Self::opening_position(trade)),
                trades: self.trades,
            },
            Some(p) => LedgerState {
                symbol: self.symbol,
                cash: self.cash_after(trade),
                position: None,
                trades: self.trades.push(self.closing_trade(p, trade)),
            },
        }
    }

    /// What `commit` of `trade` reports.
    pub open spec fn commit_event(self, trade: ProposedTrade) -> TradeEvent {
        match self.position {
            None => TradeEvent::Buy(Self::opening_position(trade)),
            Some(p) => TradeEvent::Sell(self.closing_trade(p, trade)),
        }
    }
}

/// The product of a price and a quantity that a position may hold stays
/// below 2^125.
pub proof fn lemma_notional_bound(price: u64, quantity: u64)
    requires
        quantity <= MAX_QUANTITY,
    ensures
        0 <= price * quantity < CASH_LIMIT,
{
    assert(0 <= price * quantity <= 0xFFFF_FFFF_FFFF_FFFF * 0x1FFF_FFFF_FFFF_FFFF)
        by (nonlinear_arith)
        requires
            0 <= price <= 0xFFFF_FFFF_FFFF_FFFF,
            0 <= quantity <= 0x1FFF_FFFF_FFFF_FFFF,
    ;
}

/// The value of a well-formed position at any price lies strictly between
/// `-CASH_LIMIT` and `2 * CASH_LIMIT`.
pub proof fn lemma_value_bound(p: Position, mark: u64)
    requires
        p.well_formed(),
    ensures
        -CASH_LIMIT < p.value_at(mark) < 2 * CASH_LIMIT,
        -CASH_LIMIT < realized_pnl(p.side, p.entry_price, mark, p.quantity) < CASH_LIMIT,
        p.side == Side::Long ==> p.value_at(mark) == mark * p.quantity,
        p.side == Side::Short ==> p.value_at(mark) == 2 * (p.entry_price * p.quantity) - mark
            * p.quantity,
{
    lemma_notional_bound(p.entry_price, p.quantity);
    lemma_notional_bound(mark, p.quantity);
    let e = p.entry_price as int;
    let m = mark as int;
    let q = p.quantity as int;
    assert((m - e) * q == m * q - e * q) by (nonlinear_arith);
    assert(-1 * (m - e) * q == e * q - m * q) by (nonlinear_arith);
    assert(1 * (m - e) * q == m * q - e * q) by (nonlinear_arith);
}

/// Cash and open position: the part of the book that is kept within limits.
#[derive(Clone, Copy)]
struct Account {
    cash: i128,
    position: Option<Position>,
}

impl Account {
    #[verifier::type_invariant]
    spec fn inv(self) -> bool {
        &&& -CASH_LIMIT <= self.cash <= CASH_LIMIT
        &&& self.position matches Some(p) ==> p.well_formed()
    }
}

/// The book of one strategy.
pub struct PositionLedger {
    symbol: String,
    account: Account,
    trades: Vec<Trade>,
}

impl View for PositionLedger {
    type V = LedgerState;

    closed spec fn view(&self) -> LedgerState {
        LedgerState {
            symbol: self.symbol,
            cash: self.account.cash as int,
            position: self.account.position,
            trades: self.trades@,
        }
    }
}

impl PositionLedger {
    /// A book with `initial_cash`, no position, no trades and an empty
    /// symbol. Cash beyond `CASH_LIMIT` in magnitude is refused.
    pub fn new(initial_cash: i128) -> (made: Result<PositionLedger, ConfigurationError>)
        ensures
            made is Ok <==> -CASH_LIMIT <= initial_cash <= CASH_LIMIT,
            made matches Err(e) ==> e == ConfigurationError::CapitalOutOfRange,
            made matches Ok(l) ==> {
                &&& l@.cash == initial_cash
                &&& l@.position is None
                &&& l@.trades == Seq::<Trade>::empty()
                &&& l@.symbol@ == Seq::<char>::empty()
                &&& l@.wf()
            },
    {
        if initial_cash < -CASH_LIMIT || initial_cash > CASH_LIMIT {
            Err(ConfigurationError::CapitalOutOfRange)
        } else {
            Ok(
                PositionLedger {
                    symbol: String::new(),
                    account: Account { cash: initial_cash, position: None },
                    trades: Vec::new(),
                },
            )
        }
    }

    /// Names the instrument that the trades closed from now on are recorded
    /// under.
    pub fn set_symbol(&mut self, symbol: &String)
        ensures
            final(self)@ == (LedgerState { symbol: *symbol, ..old(self)@ }),
            final(self)@.wf(),
    {
        proof {
            use_type_invariant(&self.account);
        }
        self.symbol = symbol.clone();
    }

    /// The instrument that trades are recorded under.
    pub fn symbol(&self) -> (symbol: &String)
        ensures
            *symbol == self@.symbol,
    {
        &self.symbol
    }

    /// The cash at hand.
    pub fn cash(&self) -> (cash: i128)
        ensures
            cash == self@.cash,
            self@.wf(),
    {
        proof {
            use_type_invariant(&self.account);
        }
        self.account.cash
    }

    /// The open position, if there is one.
    pub fn open_position(&self) -> (position: Option<Position>)
        ensures
            position == self@.position,
            self@.wf(),
    {
        proof {
            use_type_invariant(&self.account);
        }
        self.account.position
    }

    /// The closed trades, oldest first.
    pub fn trades(&self) -> (trades: &Vec<Trade>)
        ensures
            trades@ == self@.trades,
    {
        &self.trades
    }

    /// What a position is worth at `mark`.
    fn value_of(p: &Position, mark: u64) -> (value: i128)
        requires
            p.well_formed(),
        ensures
            value == p.value_at(mark),
    {
        proof {
            lemma_value_bound(*p, mark);
            lemma_notional_bound(p.entry_price, p.quantity);
            lemma_notional_bound(mark, p.quantity);
        }
        match p.side {
            Side::Long => {
                let worth: i128 = (mark as i128) * (p.quantity as i128);
                worth
            },
            Side::Short => {
                let paid: i128 = (p.entry_price as i128) * (p.quantity as i128);
                let owed: i128 = (mark as i128) * (p.quantity as i128);
                paid + paid - owed
            },
        }
    }

    /// Cash plus what the open position, if any, is worth at `mark_price`.
    pub fn equity(&self, mark_price: u64) -> (equity: i128)
        ensures
            equity == self@.equity(mark_price),
    {
        proof {
            use_type_invariant(&self.account);
        }
        match &self.account.position {
            None => self.account.cash,
            Some(p) => {
                proof {
                    lemma_value_bound(*p, mark_price);
                }
                self.account.cash + Self::value_of(p, mark_price)
            },
        }
    }

    /// Whether `commit` can take `trade`.
    pub fn accepts(&self, trade: &ProposedTrade) -> (ok: bool)
        ensures
            ok == self@.can_commit(*trade),
            self@.wf(),
    {
        proof {
            use_type_invariant(&self.account);
        }
        if trade.price == 0 {
            return false;
        }
        match &self.account.position {
            None => {
                if trade.quantity == 0 || trade.quantity > MAX_QUANTITY {
                    return false;
                }
                proof {
                    lemma_notional_bound(trade.price, trade.quantity);
                }
                let cost: i128 = (trade.price as i128) * (trade.quantity as i128);
                self.account.cash - cost >= -CASH_LIMIT
            },
            Some(p) => {
                if trade.side == p.side {
                    return false;
                }
                proof {
                    lemma_value_bound(*p, trade.price);
                }
                let after: i128 = self.account.cash + Self::value_of(p, trade.price);
                -CASH_LIMIT <= after && after <= CASH_LIMIT
            },
        }
    }

    /// Books `approved`.
    ///
    /// With no position open it opens one: the cash is debited by
    /// `price * quantity`, whichever the side, and the position is reported.
    /// With a position open, `approved` must go the other way: the whole
    /// position is closed at `approved.price`, whatever quantity `approved`
    /// names, the cash is credited by what the position was paid for plus its
    /// profit, and the closed trade is appended to the history and reported.
    pub fn commit(&mut self, approved: &ProposedTrade) -> (event: TradeEvent)
        requires
            old(self)@.can_commit(*approved),
        ensures
            final(self)@ == old(self)@.after_commit(*approved),
            event == old(self)@.commit_event(*approved),
            final(self)@.wf(),
    {
        proof {
            use_type_invariant(&self.account);
        }
        match self.account.position {
            None => {
                proof {
                    lemma_notional_bound(approved.price, approved.quantity);
                }
                let cost: i128 = (approved.price as i128) * (approved.quantity as i128);
                let opened = Position {
                    side: approved.side,
                    entry_price: approved.price,
                    quantity: approved.quantity,
                    entry_time: approved.timestamp,
                };
                self.account = Account { cash: self.account.cash - cost, position: Some(opened) };
                TradeEvent::Buy(opened)
            },
            Some(p) => {
                proof {
                    lemma_value_bound(p, approved.price);
                    lemma_notional_bound(p.entry_price, p.quantity);
                }
                let value: i128 = Self::value_of(&p, approved.price);
                let paid: i128 = (p.entry_price as i128) * (p.quantity as i128);
                let pnl: i128 = value - paid;
                let pnl_percentage = percentage_return(p.side, p.entry_price, approved.price);
                proof {
                    lemma_percentage_ignores_quantity(
                        p.side,
                        p.entry_price,
                        approved.price,
                        p.quantity,
                    );
                }
                let record = Trade {
                    symbol: self.symbol.clone(),
                    side: p.side,
                    entry_price: p.entry_price,
                    exit_price: approved.price,
                    quantity: p.quantity,
                    entry_time: p.entry_time,
                    exit_time: approved.timestamp,
                    pnl,
                    pnl_percentage,
                };
                let report = Trade {
                    symbol: self.symbol.clone(),
                    side: p.side,
                    entry_price: p.entry_price,
                    exit_price: approved.price,
                    quantity: p.quantity,
                    entry_time: p.entry_time,
                    exit_time: approved.timestamp,
                    pnl,
                    pnl_percentage,
                };
                self.account = Account { cash: self.account.cash + value, position: None };
                self.trades.push(record);
                TradeEvent::Sell(report)
            },
        }
    }
}

/// Opening a position creates and destroys no value: the equity at the entry
/// price right after the opening is the equity right before it, the cash.
pub proof fn law_opening_preserves_equity(s: LedgerState, trade: ProposedTrade)
    requires
        s.wf(),
        s.position is None,
        s.can_commit(trade),
    ensures
        s.after_commit(trade).equity(trade.price) == s.equity(trade.price),
        s.equity(trade.price) == s.cash,
        s.after_commit(trade).position == Some(LedgerState::opening_position(trade)),
        s.after_commit(trade).trades == s.trades,
        s.after_commit(trade).wf(),
{
    let p = LedgerState::opening_position(trade);
    lemma_notional_bound(trade.price, trade.quantity);
    assert(p.value_at(trade.price) == trade.price * trade.quantity) by (nonlinear_arith)
        requires
            p.value_at(trade.price) == p.entry_price * p.quantity + p.side.sign() * (trade.price
                - p.entry_price) * p.quantity,
            p.entry_price == trade.price,
            p.quantity == trade.quantity,
    ;
}

/// Closing realizes the profit: `(exit - entry) * quantity` for a long,
/// `(entry - exit) * quantity` for a short. The closed trade is appended to
/// the history, which is otherwise as it was; the cash grows by what the
/// position was paid for plus the profit; no position stays open, so the
/// equity at any price is the cash alone.
pub proof fn law_closing_realizes_pnl(s: LedgerState, trade: ProposedTrade)
    requires
        s.wf(),
        s.position is Some,
        s.can_commit(trade),
    ensures
        ({
            let p = s.position->0;
            let after = s.after_commit(trade);
            let t = s.closing_trade(p, trade);
            &&& after.trades == s.trades.push(t)
            &&& p.side == Side::Long ==> t.pnl == (trade.price - p.entry_price) * p.quantity
            &&& p.side == Side::Short ==> t.pnl == (p.entry_price - trade.price) * p.quantity
            &&& t.pnl_percentage == percentage_of(t.pnl as int, p.entry_price * p.quantity)
            &&& t.pnl_percentage == price_return(p.side, p.entry_price, trade.price)
            &&& after.cash == s.cash + p.entry_price * p.quantity + t.pnl
            &&& after.position is None
            &&& forall|mark: u64| after.equity(mark) == after.cash
            &&& after.wf()
        }),
{
    let p = s.position->0;
    lemma_value_bound(p, trade.price);
    lemma_percentage_ignores_quantity(p.side, p.entry_price, trade.price, p.quantity);
    lemma_price_return_bound(p.side, p.entry_price, trade.price);
    let e = p.entry_price as int;
    let x = trade.price as int;
    let q = p.quantity as int;
    assert(1 * (x - e) * q == (x - e) * q) by (nonlinear_arith);
    assert(-1 * (x - e) * q == (e - x) * q) by (nonlinear_arith);
}

/// A price's move as a part of the entry price stays within 78 bits.
pub proof fn lemma_price_return_bound(side: Side, entry: u64, exit: u64)
    requires
        entry > 0,
    ensures
        -0xFFFF_FFFF_FFFF_FFFF * 10_000 <= price_return(side, entry, exit) <= 0xFFFF_FFFF_FFFF_FFFF
            * 10_000,
{
    let moved = side.sign() * (exit - entry);
    let e = entry as int;
    match side {
        Side::Long => {
        },
        Side::Short => {
        },
    }
    if moved >= 0 {
        assert(0 <= (moved * 10_000) / e <= moved * 10_000) by (nonlinear_arith)
            requires
                moved >= 0,
                e > 0,
        ;
    } else {
        assert(0 <= ((-moved) * 10_000) / e <= (-moved) * 10_000) by (nonlinear_arith)
            requires
                moved < 0,
                e > 0,
        ;
    }
}

/// The gain from `entry` to `exit` as a part of `entry`, in hundredths of a
/// percent, rounded toward zero; for a short, the loss.
pub open spec fn price_return(side: Side, entry: u64, exit: u64) -> int {
    percentage_of(side.sign() * (exit - entry), entry as int)
}

/// Computes `price_return`.
pub fn percentage_return(side: Side, entry: u64, exit: u64) -> (pct: i128)
    requires
        entry > 0,
    ensures
        pct == price_return(side, entry, exit),
{
    let rose = exit >= entry;
    let span: u128 = if rose {
        (exit - entry) as u128
    } else {
        (entry - exit) as u128
    };
    assert(span * 10_000 <= 0xFFFF_FFFF_FFFF_FFFF * 10_000);
    let scaled: u128 = span * (FULL_SCALE as u128);
    let magnitude: u128 = scaled / (entry as u128);
    assert(magnitude <= scaled) by (nonlinear_arith)
        requires
            magnitude == scaled / (entry as u128),
            entry > 0,
    ;
    let gain = match side {
        Side::Long => rose,
        Side::Short => !rose,
    };
    proof {
        let moved = side.sign() * (exit - entry);
        match side {
            Side::Long => {
                assert(moved == exit - entry);
            },
            Side::Short => {
                assert(moved == entry - exit);
            },
        }
        assert(span == 0 ==> magnitude == 0);
    }
    if gain || magnitude == 0 {
        magnitude as i128
    } else {
        -(magnitude as i128)
    }
}

/// A trade's percentage is the same whatever its quantity: the profit as a
/// part of what was paid is the price's move as a part of the entry price.
pub proof fn lemma_percentage_ignores_quantity(side: Side, entry: u64, exit: u64, quantity: u64)
    requires
        entry > 0,
        quantity > 0,
    ensures
        percentage_of(realized_pnl(side, entry, exit, quantity), entry * quantity) == price_return(
            side,
            entry,
            exit,
        ),
{
    let d = side.sign() * (exit - entry);
    let q = quantity as int;
    let e = entry as int;
    let f = FULL_SCALE as int;
    assert(realized_pnl(side, entry, exit, quantity) == d * q) by (nonlinear_arith)
        requires
            realized_pnl(side, entry, exit, quantity) == side.sign() * (exit - entry) * quantity,
            d == side.sign() * (exit - entry),
            q == quantity,
    ;
    assert(e * q > 0) by (nonlinear_arith)
        requires
            e > 0,
            q > 0,
    ;
    if d >= 0 {
        assert(d * q >= 0) by (nonlinear_arith)
            requires
                d >= 0,
                q > 0,
        ;
        assert((d * q) * f == q * (d * f)) by (nonlinear_arith);
        assert(e * q == q * e) by (nonlinear_arith);
        assert(d * f >= 0) by (nonlinear_arith)
            requires
                d >= 0,
                f > 0,
        ;
        lemma_div_multiples_vanish_quotient(q, d * f, e);
    } else {
        assert(d * q < 0) by (nonlinear_arith)
            requires
                d < 0,
                q > 0,
        ;
        assert((-(d * q)) * f == q * ((-d) * f)) by (nonlinear_arith);
        assert(e * q == q * e) by (nonlinear_arith);
        assert((-d) * f >= 0) by (nonlinear_arith)
            requires
                d < 0,
                f > 0,
        ;
        lemma_div_multiples_vanish_quotient(q, (-d) * f, e);
    }
}

} // verus!
