//! The hooks that watch every trade, and the pipeline that consults them.
use vstd::prelude::*;
use crate::ledger::{LedgerState, PositionLedger};
use crate::types::{Decision, ProposedTrade, TradeContext, TradeDecision, TradeEvent};

verus! {

/// A hook that is asked about every proposed trade and told of every
/// committed one.
///
/// What a hook answers and what it becomes is a function of what it is and
/// of what it is shown: `decision`, `after_pre_trade` and `after_post_trade`
/// name the three. An observer that is to be reasoned about says what they
/// are; one that leaves them out still runs, and nothing is known of it.
pub trait TradeObserver: Sized {
    /// What `pre_trade` answers.
    open spec fn decision(self, proposed: ProposedTrade, context: TradeContext) -> Decision {
        arbitrary()
    }

    /// The observer after `pre_trade`.
    open spec fn after_pre_trade(self, proposed: ProposedTrade, context: TradeContext) -> Self {
        arbitrary()
    }

    /// The observer after `post_trade`.
    open spec fn after_post_trade(self, event: TradeEvent, context: TradeContext) -> Self {
        arbitrary()
    }

    /// Asked before a trade is committed: approve it, reject it, or put
    /// another in its place.
    fn pre_trade(&mut self, proposed: &ProposedTrade, context: &TradeContext) -> (decision:
        TradeDecision)
        ensures
            decision@ == old(self).decision(*proposed, *context),
            *final(self) == old(self).after_pre_trade(*proposed, *context),
    ;

    /// Told after a trade was committed.
    fn post_trade(&mut self, event: &TradeEvent, context: &TradeContext)
        ensures
            *final(self) == old(self).after_post_trade(*event, *context),
    ;
}

/// An observer of either of two kinds, so that one list can hold both.
#[derive(Clone, Copy, Debug, PartialEq, Eq)]
pub enum Either<A, B> {
    Left(A),
    Right(B),
}

impl<A: TradeObserver, B: TradeObserver> TradeObserver for Either<A, B> {
    open spec fn decision(self, proposed: ProposedTrade, context: TradeContext) -> Decision {
        match self {
            Either::Left(a) => a.decision(proposed, context),
            Either::Right(b) => b.decision(proposed, context),
        }
    }

    open spec fn after_pre_trade(self, proposed: ProposedTrade, context: TradeContext) -> Self {
        match self {
            Either::Left(a) => Either::Left(a.after_pre_trade(proposed, context)),
            Either::Right(b) => Either::Right(b.after_pre_trade(proposed, context)),
        }
    }

    open spec fn after_post_trade(self, event: TradeEvent, context: TradeContext) -> Self {
        match self {
            Either::Left(a) => Either::Left(a.after_post_trade(event, context)),
            Either::Right(b) => Either::Right(b.after_post_trade(event, context)),
        }
    }

    fn pre_trade(&mut self, proposed: &ProposedTrade, context: &TradeContext) -> (decision:
        TradeDecision) {
        match self {
            Either::Left(a) => a.pre_trade(proposed, context),
            Either::Right(b) => b.pre_trade(proposed, context),
        }
    }

    fn post_trade(&mut self, event: &TradeEvent, context: &TradeContext) {
        match self {
            Either::Left(a) => a.post_trade(event, context),
            Either::Right(b) => b.post_trade(event, context),
        }
    }
}

/// Whether `modified` may stand in for `current`: it keeps the side and
/// names a positive price and a positive quantity.
pub open spec fn valid_modification(current: ProposedTrade, modified: ProposedTrade) -> bool {
    &&& modified.side == current.side
    &&& modified.price > 0
    &&& modified.quantity > 0
}

/// The reason for which `decision` halts the pipeline, if it does: an
/// observer's own reason, or that its modification is not valid.
pub open spec fn halting_reason(current: ProposedTrade, decision: Decision) -> Option<
    Seq<char>,
> {
    match decision {
        Decision::Approve => None,
        Decision::Reject(reason) => Some(reason),
        Decision::Modify(modified) => if valid_modification(current, modified) {
            None
        } else {
            Some("Modified trade is not valid"@)
        },
    }
}

/// The proposal that goes on after `decision`, where it does not halt.
pub open spec fn carried_on(current: ProposedTrade, decision: Decision) -> ProposedTrade {
    match decision {
        Decision::Modify(modified) => modified,
        _ => current,
    }
}

/// What one decision does to the proposal at hand.
#[derive(Debug, PartialEq, Eq)]
pub enum PipelineStep {
    /// The pipeline goes on with this proposal.
    Proceed(ProposedTrade),
    /// The pipeline stops, for this reason.
    Halt(String),
}

/// Applies one observer's decision to the proposal it was shown.
///
/// `Approve` passes the proposal on unchanged. `Reject` halts with the
/// observer's reason. `Modify` puts the new proposal in place of the old one,
/// unless it changes the side or names a price or a quantity of zero, which
/// halts like a rejection.
pub fn resolve(current: ProposedTrade, decision: TradeDecision) -> (step: PipelineStep)
    ensures
        match step {
            PipelineStep::Proceed(next) => halting_reason(current, decision@) is None && next
                == carried_on(current, decision@),
            PipelineStep::Halt(reason) => halting_reason(current, decision@) == Some(reason@),
        },
{
    match decision {
        TradeDecision::Approve => PipelineStep::Proceed(current),
        TradeDecision::Reject(reason) => PipelineStep::Halt(reason),
        TradeDecision::Modify(modified) => {
            if modified.side == current.side && modified.price > 0 && modified.quantity > 0 {
                PipelineStep::Proceed(modified)
            } else {
                PipelineStep::Halt("Modified trade is not valid".to_string())
            }
        },
    }
}

/// How the screening of a proposal by the observers ends.
pub enum Screening {
    /// Every observer consulted so far let the proposal pass; this is what
    /// it has become.
    Passed(ProposedTrade),
    /// The observer at `by` halted the pipeline.
    Halted { by: nat, reason: Seq<char> },
}

/// The screening of `proposed` by the first `n` of `observers`, each shown what
/// the ones before it made of the proposal, none consulted after a halt.
pub open spec fn screening_by<O: TradeObserver>(
    observers: Seq<O>,
    proposed: ProposedTrade,
    context: TradeContext,
    n: nat,
) -> Screening
    decreases n,
{
    if n == 0 {
        Screening::Passed(proposed)
    } else {
        match screening_by(observers, proposed, context, (n - 1) as nat) {
            Screening::Halted { by, reason } => Screening::Halted { by, reason },
            Screening::Passed(current) => {
                let decision = observers[n - 1].decision(current, context);
                match halting_reason(current, decision) {
                    Some(reason) => Screening::Halted { by: (n - 1) as nat, reason },
                    None => Screening::Passed(carried_on(current, decision)),
                }
            },
        }
    }
}

/// Observer `i` after the screening: as `pre_trade` left it if the screening
/// reached it, untouched if the pipeline halted before.
pub open spec fn screened<O: TradeObserver>(
    observers: Seq<O>,
    proposed: ProposedTrade,
    context: TradeContext,
    i: int,
) -> O {
    match screening_by(observers, proposed, context, i as nat) {
        Screening::Passed(current) => observers[i].after_pre_trade(current, context),
        Screening::Halted { .. } => observers[i],
    }
}

/// Whether the screening of `proposed` reaches observer `i`, so that its
/// `pre_trade` is called.
pub open spec fn consulted<O: TradeObserver>(
    observers: Seq<O>,
    proposed: ProposedTrade,
    context: TradeContext,
    i: int,
) -> bool {
    0 <= i < observers.len() && screening_by(observers, proposed, context, i as nat) is Passed
}

/// Whether observer `i` is consulted and halts the pipeline: it rejects what
/// it is shown, or puts something in its place that is not valid.
pub open spec fn halts_at<O: TradeObserver>(
    observers: Seq<O>,
    proposed: ProposedTrade,
    context: TradeContext,
    i: int,
) -> bool {
    &&& consulted(observers, proposed, context, i)
    &&& screening_by(observers, proposed, context, i as nat) matches Screening::Passed(current)
    &&& halting_reason(current, observers[i].decision(current, context)) is Some
}

/// Whether a submission ends in a commit: every observer lets the proposal
/// pass, and the ledger can book what it has become.
pub open spec fn commits<O: TradeObserver>(
    observers: Seq<O>,
    ledger: LedgerState,
    proposed: ProposedTrade,
    context: TradeContext,
) -> bool {
    screening_by(observers, proposed, context, observers.len()) matches Screening::Passed(approved)
        && ledger.can_commit(approved)
}

/// How the screening of a proposal ended.
#[derive(Debug, PartialEq, Eq)]
pub enum Verdict {
    /// Every observer let it pass; this is the proposal to commit.
    Approved(ProposedTrade),
    /// The observer at index `by` halted the pipeline.
    Rejected { by: usize, reason: String },
}

/// What became of a submitted trade.
#[derive(Debug, PartialEq, Eq)]
pub enum SubmitOutcome {
    /// The trade was committed to the ledger.
    Executed(TradeEvent),
    /// The trade was dropped: nothing was committed.
    Rejected(String),
}

/// What became of a submitted trade, as a value: a rejection holds its
/// reason as text.
pub enum Outcome {
    Executed(TradeEvent),
    Rejected(Seq<char>),
}

impl View for SubmitOutcome {
    type V = Outcome;

    open spec fn view(&self) -> Outcome {
        match *self {
            SubmitOutcome::Executed(event) => Outcome::Executed(event),
            SubmitOutcome::Rejected(reason) => Outcome::Rejected(reason@),
        }
    }
}

/// What a submission leaves behind: the observers, the ledger, and the
/// outcome handed back.
pub struct Submission<O> {
    pub observers: Seq<O>,
    pub ledger: LedgerState,
    pub outcome: Outcome,
}

/// What `submit` does.
///
/// Every observer that the screening reaches is left as its `pre_trade`
/// left it. Where the screening halts, that is all, and the outcome is the rejection
/// with the halting reason. Where it passes but the ledger cannot book the
/// trade, the outcome is a rejection too. Else the trade is committed, and
/// every observer is then told of the event by `post_trade`.
pub open spec fn submission<O: TradeObserver>(
    observers: Seq<O>,
    ledger: LedgerState,
    proposed: ProposedTrade,
    context: TradeContext,
) -> Submission<O> {
    let looked = Seq::new(observers.len(), |i: int| screened(observers, proposed, context, i));
    match screening_by(observers, proposed, context, observers.len()) {
        Screening::Halted { reason, .. } => Submission {
            observers: looked,
            ledger,
            outcome: Outcome::Rejected(reason),
        },
        Screening::Passed(approved) => if ledger.can_commit(approved) {
            let event = ledger.commit_event(approved);
            Submission {
                observers: Seq::new(
                    observers.len(),
                    |i: int| screened(observers, proposed, context, i).after_post_trade(
                        event,
                        context,
                    ),
                ),
                ledger: ledger.after_commit(approved),
                outcome: Outcome::Executed(event),
            }
        } else {
            Submission {
                observers: looked,
                ledger,
                outcome: Outcome::Rejected("Trade cannot be booked"@),
            }
        },
    }
}

/// The observers of one strategy, in the order in which they were added.
pub struct TradeDecisionPipeline<O: TradeObserver> {
    observers: Vec<O>,
}

impl<O: TradeObserver> View for TradeDecisionPipeline<O> {
    type V = Seq<O>;

    closed spec fn view(&self) -> Seq<O> {
        self.observers@
    }
}

impl<O: TradeObserver> TradeDecisionPipeline<O> {
    /// A pipeline without observers.
    pub fn new() -> (made: Self)
        ensures
            made@ == Seq::<O>::empty(),
    {
        TradeDecisionPipeline { observers: Vec::new() }
    }

    /// Puts `observer` behind the ones already there.
    pub fn add_observer(&mut self, observer: O)
        ensures
            final(self)@ == old(self)@.push(observer),
    {
        self.observers.push(observer);
    }

    /// The observers, first added first.
    pub fn observers(&self) -> (observers: &Vec<O>)
        ensures
            observers@ == self@,
    {
        &self.observers
    }

    /// Shows `proposed` to the observers in turn, each seeing what the ones
    /// before it made of it, and stops at the first that halts.
    pub fn screen(&mut self, proposed: &ProposedTrade, context: &TradeContext) -> (verdict:
        Verdict)
        ensures
            final(self)@.len() == old(self)@.len(),
            forall|i: int|
                0 <= i < old(self)@.len() ==> #[trigger] final(self)@[i] == screened(
                    old(self)@,
                    *proposed,
                    *context,
                    i,
                ),
            match verdict {
                Verdict::Approved(approved) => screening_by(
                    old(self)@,
                    *proposed,
                    *context,
                    old(self)@.len(),
                ) == Screening::Passed(approved),
                Verdict::Rejected { by, reason } => screening_by(
                    old(self)@,
                    *proposed,
                    *context,
                    old(self)@.len(),
                ) == (Screening::Halted { by: by as nat, reason: reason@ }),
            },
    {
        let ghost before = self.observers@;
        let n = self.observers.len();
        let mut current = *proposed;
        let mut i: usize = 0;
        while i < n
            invariant
                before == old(self)@,
                n == self.observers.len(),
                n == before.len(),
                i <= n,
                screening_by(before, *proposed, *context, i as nat) == Screening::Passed(current),
                forall|j: int|
                    0 <= j < i ==> #[trigger] self.observers@[j] == screened(
                        before,
                        *proposed,
                        *context,
                        j,
                    ),
                forall|j: int| i <= j < n ==> #[trigger] self.observers@[j] == before[j],
            decreases n - i,
        {
            let decision = self.observers[i].pre_trade(&current, context);
            match resolve(current, decision) {
                PipelineStep::Halt(reason) => {
                    proof {
                        assert(screening_by(before, *proposed, *context, (i + 1) as nat) == (
                        Screening::Halted { by: i as nat, reason: reason@ }));
                        lemma_halt_is_final(before, *proposed, *context, (i + 1) as nat, n as nat);
                        assert forall|j: int| 0 <= j < n implies #[trigger] self.observers@[j]
                            == screened(before, *proposed, *context, j) by {
                            if j > i {
                                lemma_halt_is_final(
                                    before,
                                    *proposed,
                                    *context,
                                    (i + 1) as nat,
                                    j as nat,
                                );
                            }
                        }
                    }
                    return Verdict::Rejected { by: i, reason };
                },
                PipelineStep::Proceed(next) => {
                    current = next;
                },
            }
            i += 1;
        }
        Verdict::Approved(current)
    }

    /// Puts `proposed` before the observers and, if none halts it, commits
    /// what it has become to `ledger` and tells every observer of the event.
    ///
    /// A halt drops the trade: the ledger stays as it was and no observer is
    /// told anything. The same holds where the observers let through a trade
    /// that the ledger cannot book (a quantity beyond `MAX_QUANTITY`, cash
    /// beyond `CASH_LIMIT`). With a position open, `proposed` must be its
    /// exit.
    pub fn submit(
        &mut self,
        ledger: &mut PositionLedger,
        proposed: &ProposedTrade,
        context: &TradeContext,
    ) -> (outcome: SubmitOutcome)
        requires
            old(ledger)@.is_consistent(*proposed),
        ensures
            final(self)@ == submission(old(self)@, old(ledger)@, *proposed, *context).observers,
            final(ledger)@ == submission(old(self)@, old(ledger)@, *proposed, *context).ledger,
            outcome@ == submission(old(self)@, old(ledger)@, *proposed, *context).outcome,
            outcome is Executed <==> commits(old(self)@, old(ledger)@, *proposed, *context),
            final(self)@.len() == old(self)@.len(),
    {
        let verdict = self.screen(proposed, context);
        proof {
            lemma_screening_keeps_side(old(self)@, *proposed, *context, old(self)@.len());
        }
        match verdict {
            Verdict::Rejected { reason, .. } => SubmitOutcome::Rejected(reason),
            Verdict::Approved(approved) => {
                if ledger.accepts(&approved) {
                    let event = ledger.commit(&approved);
                    self.notify(&event, context);
                    SubmitOutcome::Executed(event)
                } else {
                    SubmitOutcome::Rejected("Trade cannot be booked".to_string())
                }
            },
        }
    }

    /// Tells every observer, in the order in which they were added, of a
    /// committed trade.
    pub fn notify(&mut self, event: &TradeEvent, context: &TradeContext)
        ensures
            final(self)@.len() == old(self)@.len(),
            forall|i: int|
                0 <= i < old(self)@.len() ==> #[trigger] final(self)@[i] == old(
                    self,
                )@[i].after_post_trade(*event, *context),
    {
        let ghost before = self.observers@;
        let n = self.observers.len();
        let mut i: usize = 0;
        while i < n
            invariant
                before == old(self)@,
                n == self.observers.len(),
                n == before.len(),
                i <= n,
                forall|j: int|
                    0 <= j < i ==> #[trigger] self.observers@[j] == before[j].after_post_trade(
                        *event,
                        *context,
                    ),
                forall|j: int| i <= j < n ==> #[trigger] self.observers@[j] == before[j],
            decreases n - i,
        {
            self.observers[i].post_trade(event, context);
            i += 1;
        }
    }
}

/// Once halted, the screening stays halted, by the same observer and for the
/// same reason.
pub proof fn lemma_halt_is_final<O: TradeObserver>(
    observers: Seq<O>,
    proposed: ProposedTrade,
    context: TradeContext,
    i: nat,
    n: nat,
)
    requires
        i <= n,
        screening_by(observers, proposed, context, i) is Halted,
    ensures
        screening_by(observers, proposed, context, n) == screening_by(
            observers,
            proposed,
            context,
            i,
        ),
    decreases n,
{
    if i < n {
        lemma_halt_is_final(observers, proposed, context, i, (n - 1) as nat);
    }
}

/// The screening up to `n` relates to the screening up to any `i <= n`: if it
/// passed, so did the shorter one; if it halted at `by`, the shorter one
/// passed as far as `by` and ended the same way beyond.
pub proof fn lemma_screening_prefix<O: TradeObserver>(
    observers: Seq<O>,
    proposed: ProposedTrade,
    context: TradeContext,
    i: nat,
    n: nat,
)
    requires
        i <= n,
    ensures
        screening_by(observers, proposed, context, n) is Passed ==> screening_by(
            observers,
            proposed,
            context,
            i,
        ) is Passed,
        screening_by(observers, proposed, context, n) matches Screening::Halted { by, .. } ==> {
            &&& by < n
            &&& i <= by ==> screening_by(observers, proposed, context, i) is Passed
            &&& i > by ==> screening_by(observers, proposed, context, i) == screening_by(
                observers,
                proposed,
                context,
                n,
            )
        },
    decreases n,
{
    if n > 0 {
        let k = if i < n {
            i
        } else {
            (n - 1) as nat
        };
        lemma_screening_prefix(observers, proposed, context, k, (n - 1) as nat);
    }
}

/// A screening never changes the side of a proposal.
pub proof fn lemma_screening_keeps_side<O: TradeObserver>(
    observers: Seq<O>,
    proposed: ProposedTrade,
    context: TradeContext,
    n: nat,
)
    ensures
        screening_by(observers, proposed, context, n) matches Screening::Passed(approved)
            ==> approved.side == proposed.side,
    decreases n,
{
    if n > 0 {
        lemma_screening_keeps_side(observers, proposed, context, (n - 1) as nat);
    }
}

/// No trade is committed once an observer has rejected it, and a trade that
/// no observer halts is committed whenever the ledger can book it. Where no
/// trade is committed, the ledger is left as it was.
///
/// An observer halts the pipeline by `Reject`, or by a `Modify` that changes
/// the side or names a price or a quantity of zero.
pub proof fn law_commit_iff_no_halt<O: TradeObserver>(
    observers: Seq<O>,
    ledger: LedgerState,
    proposed: ProposedTrade,
    context: TradeContext,
)
    ensures
        (exists|i: int| halts_at(observers, proposed, context, i)) ==> !commits(
            observers,
            ledger,
            proposed,
            context,
        ),
        (forall|i: int| 0 <= i < observers.len() ==> !halts_at(observers, proposed, context, i))
            ==> screening_by(observers, proposed, context, observers.len()) is Passed,
        (forall|i: int| 0 <= i < observers.len() ==> !halts_at(observers, proposed, context, i))
            && ledger.can_commit(
            screening_by(observers, proposed, context, observers.len())->Passed_0,
        ) ==> commits(observers, ledger, proposed, context),
        !commits(observers, ledger, proposed, context) ==> submission(
            observers,
            ledger,
            proposed,
            context,
        ).ledger == ledger && submission(observers, ledger, proposed, context).outcome is Rejected,
        commits(observers, ledger, proposed, context) ==> submission(
            observers,
            ledger,
            proposed,
            context,
        ).outcome is Executed,
{
    let n = observers.len();
    if exists|i: int| halts_at(observers, proposed, context, i) {
        let i = choose|i: int| halts_at(observers, proposed, context, i);
        lemma_halt_is_final(observers, proposed, context, (i + 1) as nat, n);
    }
    if forall|i: int| 0 <= i < observers.len() ==> !halts_at(observers, proposed, context, i) {
        lemma_no_halt_passes(observers, proposed, context, n);
    }
}

/// Where none of the first `n` observers halts, the screening passes them
/// all.
pub proof fn lemma_no_halt_passes<O: TradeObserver>(
    observers: Seq<O>,
    proposed: ProposedTrade,
    context: TradeContext,
    n: nat,
)
    requires
        n <= observers.len(),
        forall|i: int| 0 <= i < n ==> !halts_at(observers, proposed, context, i),
    ensures
        screening_by(observers, proposed, context, n) is Passed,
    decreases n,
{
    if n > 0 {
        lemma_no_halt_passes(observers, proposed, context, (n - 1) as nat);
        assert(!halts_at(observers, proposed, context, n - 1));
    }
}

/// The pipeline stops at the first observer that halts it: every observer
/// before it was consulted, none behind it is, and those are left exactly as
/// they were.
pub proof fn law_short_circuit<O: TradeObserver>(
    observers: Seq<O>,
    proposed: ProposedTrade,
    context: TradeContext,
    first: int,
)
    requires
        halts_at(observers, proposed, context, first),
    ensures
        screening_by(observers, proposed, context, observers.len()) matches Screening::Halted {
            by,
            ..
        } && by == first,
        forall|j: int| 0 <= j <= first ==> consulted(observers, proposed, context, j),
        forall|j: int| first < j < observers.len() ==> !consulted(observers, proposed, context, j),
        forall|j: int|
            first < j < observers.len() ==> #[trigger] screened(observers, proposed, context, j)
                == observers[j],
{
    let n = observers.len();
    lemma_halt_is_final(observers, proposed, context, (first + 1) as nat, n);
    assert forall|j: int| 0 <= j <= first implies consulted(observers, proposed, context, j) by {
        lemma_screening_prefix(observers, proposed, context, j as nat, first as nat);
    }
    assert forall|j: int| first < j < observers.len() implies !consulted(
        observers,
        proposed,
        context,
        j,
    ) by {
        lemma_halt_is_final(observers, proposed, context, (first + 1) as nat, j as nat);
    }
    assert forall|j: int| first < j < observers.len() implies #[trigger] screened(
        observers,
        proposed,
        context,
        j,
    ) == observers[j] by {
        lemma_halt_is_final(observers, proposed, context, (first + 1) as nat, j as nat);
    }
}

} // verus!
