use backtest_engine::hooks::{ContextDemo, PreTradeHookDemo};
use backtest_engine::ledger::PositionLedger;
use backtest_engine::observer::{
    resolve, Either, PipelineStep, SubmitOutcome, TradeDecisionPipeline, TradeObserver, Verdict,
};
use backtest_engine::types::{
    Position, ProposedTrade, RiskLevel, RsiTradeContext, Side, StrategyContext, Trade,
    TradeContext, TradeDecision, TradeEvent, TradeMetadata, MAX_QUANTITY,
};

fn buy(price: u64, quantity: u64) -> ProposedTrade {
    ProposedTrade { side: Side::Long, price, quantity, timestamp: 42 }
}

fn no_context() -> TradeContext {
    TradeContext { strategy_context: None, custom_data: None }
}

/// An observer that answers as it was told to and counts its calls.
struct Scripted {
    answer: TradeDecision,
    asked: usize,
    told: usize,
    seen: Option<ProposedTrade>,
    heard: Vec<(TradeEvent, TradeContext)>,
}

impl Scripted {
    fn new(answer: TradeDecision) -> Self {
        Scripted { answer, asked: 0, told: 0, seen: None, heard: Vec::new() }
    }
}

impl TradeObserver for Scripted {
    fn pre_trade(&mut self, proposed: &ProposedTrade, _context: &TradeContext) -> TradeDecision {
        self.asked += 1;
        self.seen = Some(*proposed);
        self.answer.clone()
    }

    fn post_trade(&mut self, event: &TradeEvent, context: &TradeContext) {
        self.told += 1;
        self.heard.push((event.clone(), *context));
    }
}

#[test]
fn approve_passes_the_proposal_on() {
    assert_eq!(resolve(buy(10, 2), TradeDecision::Approve), PipelineStep::Proceed(buy(10, 2)));
}

#[test]
fn reject_halts_with_the_reason() {
    assert_eq!(
        resolve(buy(10, 2), TradeDecision::Reject("no".to_string())),
        PipelineStep::Halt("no".to_string())
    );
}

#[test]
fn modify_replaces_the_proposal() {
    let other = ProposedTrade { side: Side::Long, price: 11, quantity: 1, timestamp: 50 };
    assert_eq!(resolve(buy(10, 2), TradeDecision::Modify(other)), PipelineStep::Proceed(other));
}

#[test]
fn modify_to_nothing_halts() {
    let invalid = PipelineStep::Halt("Modified trade is not valid".to_string());
    assert_eq!(resolve(buy(10, 2), TradeDecision::Modify(buy(10, 0))), invalid);
    assert_eq!(resolve(buy(10, 2), TradeDecision::Modify(buy(0, 2))), invalid);
    let flipped = ProposedTrade { side: Side::Short, price: 10, quantity: 2, timestamp: 42 };
    assert_eq!(resolve(buy(10, 2), TradeDecision::Modify(flipped)), invalid);
}

#[test]
fn empty_pipeline_commits() {
    let mut pipeline: TradeDecisionPipeline<ContextDemo> = TradeDecisionPipeline::new();
    let mut ledger = PositionLedger::new(1_000).unwrap();
    let outcome = pipeline.submit(&mut ledger, &buy(10, 2), &no_context());
    let opened = Position { side: Side::Long, entry_price: 10, quantity: 2, entry_time: 42 };
    assert_eq!(outcome, SubmitOutcome::Executed(TradeEvent::Buy(opened)));
    assert_eq!(ledger.cash(), 980);
}

#[test]
fn observers_are_kept_in_order() {
    let mut pipeline = TradeDecisionPipeline::new();
    pipeline.add_observer(PreTradeHookDemo::new(1));
    pipeline.add_observer(PreTradeHookDemo::new(2));
    pipeline.add_observer(PreTradeHookDemo::new(3));
    let sizes: Vec<u64> = pipeline.observers().iter().map(|o| o.max_position_size).collect();
    assert_eq!(sizes, vec![1, 2, 3]);
}

#[test]
fn rejection_commits_nothing_and_notifies_nobody() {
    let mut pipeline = TradeDecisionPipeline::new();
    pipeline.add_observer(Scripted::new(TradeDecision::Approve));
    pipeline.add_observer(Scripted::new(TradeDecision::Reject("too risky".to_string())));
    pipeline.add_observer(Scripted::new(TradeDecision::Approve));
    let mut ledger = PositionLedger::new(1_000).unwrap();
    let outcome = pipeline.submit(&mut ledger, &buy(10, 2), &no_context());
    assert_eq!(outcome, SubmitOutcome::Rejected("too risky".to_string()));
    assert_eq!(ledger.cash(), 1_000);
    assert_eq!(ledger.open_position(), None);
    let observers = pipeline.observers();
    assert_eq!((observers[0].asked, observers[0].told), (1, 0));
    assert_eq!((observers[1].asked, observers[1].told), (1, 0));
    assert_eq!((observers[2].asked, observers[2].told), (0, 0));
    assert_eq!(observers[2].seen, None);
}

#[test]
fn approvals_and_modifications_commit_and_notify_everyone() {
    let smaller = ProposedTrade { side: Side::Long, price: 9, quantity: 1, timestamp: 43 };
    let mut pipeline = TradeDecisionPipeline::new();
    pipeline.add_observer(Scripted::new(TradeDecision::Approve));
    pipeline.add_observer(Scripted::new(TradeDecision::Modify(smaller)));
    pipeline.add_observer(Scripted::new(TradeDecision::Approve));
    let mut ledger = PositionLedger::new(1_000).unwrap();
    let outcome = pipeline.submit(&mut ledger, &buy(10, 2), &no_context());
    let opened = Position { side: Side::Long, entry_price: 9, quantity: 1, entry_time: 43 };
    assert_eq!(outcome, SubmitOutcome::Executed(TradeEvent::Buy(opened)));
    assert_eq!(ledger.open_position(), Some(opened));
    assert_eq!(ledger.cash(), 991);
    let observers = pipeline.observers();
    assert_eq!(observers[0].seen, Some(buy(10, 2)));
    assert_eq!(observers[1].seen, Some(buy(10, 2)));
    assert_eq!(observers[2].seen, Some(smaller));
    for observer in observers {
        assert_eq!((observer.asked, observer.told), (1, 1));
    }
}

#[test]
fn screening_alone_commits_nothing() {
    let mut pipeline = TradeDecisionPipeline::new();
    pipeline.add_observer(PreTradeHookDemo::new(200));
    pipeline.add_observer(PreTradeHookDemo::new(100));
    assert_eq!(
        pipeline.screen(&buy(1_000, 300), &no_context()),
        Verdict::Approved(buy(1_000, 100))
    );
    assert_eq!(pipeline.observers()[0].modified_count, 1);
    assert_eq!(pipeline.observers()[1].modified_count, 1);
    assert_eq!(
        pipeline.screen(&buy(5_000_001, 300), &no_context()),
        Verdict::Rejected { by: 0, reason: "Price too high".to_string() }
    );
    assert_eq!(pipeline.observers()[0].rejected_count, 1);
    assert_eq!(pipeline.observers()[1].rejected_count, 0);
    assert_eq!(pipeline.observers()[1].modified_count, 1);
}

#[test]
fn invalid_modification_is_a_rejection() {
    let mut pipeline = TradeDecisionPipeline::new();
    pipeline.add_observer(PreTradeHookDemo::new(0));
    pipeline.add_observer(PreTradeHookDemo::new(5));
    let mut ledger = PositionLedger::new(1_000).unwrap();
    let outcome = pipeline.submit(&mut ledger, &buy(10, 2), &no_context());
    assert_eq!(outcome, SubmitOutcome::Rejected("Modified trade is not valid".to_string()));
    assert_eq!(ledger.open_position(), None);
    assert_eq!(pipeline.observers()[0].modified_count, 1);
    let second = pipeline.observers()[1];
    assert_eq!(second, PreTradeHookDemo::new(5));
}

#[test]
fn trade_beyond_ledger_limits_is_a_rejection() {
    let mut pipeline = TradeDecisionPipeline::new();
    pipeline.add_observer(ContextDemo::new());
    let mut ledger = PositionLedger::new(1_000).unwrap();
    let outcome = pipeline.submit(&mut ledger, &buy(10, MAX_QUANTITY + 1), &no_context());
    assert_eq!(outcome, SubmitOutcome::Rejected("Trade cannot be booked".to_string()));
    assert_eq!(ledger.cash(), 1_000);
    assert_eq!(pipeline.observers()[0], ContextDemo::new());
}

#[test]
fn exit_goes_through_the_pipeline_too() {
    let mut pipeline = TradeDecisionPipeline::new();
    pipeline.add_observer(Scripted::new(TradeDecision::Approve));
    let mut ledger = PositionLedger::new(1_000).unwrap();
    ledger.set_symbol(&"BTCUSDT".to_string());
    pipeline.submit(&mut ledger, &buy(10, 2), &no_context());
    let sell = ProposedTrade { side: Side::Short, price: 15, quantity: 2, timestamp: 44 };
    let custom = TradeMetadata { user_id: 3, session_id: 77, risk_level: RiskLevel::High };
    let rsi = RsiTradeContext { rsi_value: 7100, dynamic_oversold: 3000, dynamic_overbought: 7000 };
    let context = TradeContext {
        strategy_context: Some(StrategyContext::Rsi(rsi)),
        custom_data: Some(custom),
    };
    let outcome = pipeline.submit(&mut ledger, &sell, &context);
    let closed = Trade {
        symbol: "BTCUSDT".to_string(),
        side: Side::Long,
        entry_price: 10,
        exit_price: 15,
        quantity: 2,
        entry_time: 42,
        exit_time: 44,
        pnl: 10,
        pnl_percentage: 5_000,
    };
    assert_eq!(outcome, SubmitOutcome::Executed(TradeEvent::Sell(closed.clone())));
    assert_eq!(ledger.cash(), 1_010);
    let opened = Position { side: Side::Long, entry_price: 10, quantity: 2, entry_time: 42 };
    assert_eq!(
        pipeline.observers()[0].heard,
        vec![(TradeEvent::Buy(opened), no_context()), (TradeEvent::Sell(closed), context)]
    );
}

#[test]
fn notify_tells_every_observer() {
    let mut pipeline = TradeDecisionPipeline::new();
    pipeline.add_observer(ContextDemo::new());
    pipeline.add_observer(ContextDemo { trade_count: 7 });
    let opened = Position { side: Side::Long, entry_price: 10, quantity: 2, entry_time: 42 };
    pipeline.notify(&TradeEvent::Buy(opened), &no_context());
    assert_eq!(pipeline.observers()[0].trade_count, 1);
    assert_eq!(pipeline.observers()[1].trade_count, 8);
}

#[test]
fn one_list_holds_observers_of_two_kinds() {
    let mut pipeline = TradeDecisionPipeline::new();
    pipeline.add_observer(Either::Left(PreTradeHookDemo::new(200)));
    pipeline.add_observer(Either::Right(ContextDemo::new()));
    let mut ledger = PositionLedger::new(1_000_000).unwrap();
    let rejected = pipeline.submit(&mut ledger, &buy(5_000_001, 300), &no_context());
    assert_eq!(rejected, SubmitOutcome::Rejected("Price too high".to_string()));
    assert_eq!(pipeline.observers()[1], Either::Right(ContextDemo::new()));
    let outcome = pipeline.submit(&mut ledger, &buy(1_000, 300), &no_context());
    let opened = Position { side: Side::Long, entry_price: 1_000, quantity: 200, entry_time: 42 };
    assert_eq!(outcome, SubmitOutcome::Executed(TradeEvent::Buy(opened)));
    assert_eq!(
        pipeline.observers()[0],
        Either::Left(PreTradeHookDemo {
            max_position_size: 200,
            rejected_count: 1,
            modified_count: 1,
            approved_count: 0
        })
    );
    assert_eq!(pipeline.observers()[1], Either::Right(ContextDemo { trade_count: 1 }));
}
