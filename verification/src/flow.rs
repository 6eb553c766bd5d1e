//! The placement protocol: what to ask of the store next, given what it
//! answered last.
//!
//! The embedding program owns the store. It performs each [`Action`] and
//! hands the store's answer back as an [`Event`]; every decision is taken
//! here.

use vstd::prelude::*;
use crate::checkout::{
    accepted, all_decremented, batch_of, operations_view, results_view, reversal, reversal_of,
    verdict_of, DraftView, LineOutcome, LineResult, LineResultView, OpResult, Operation,
    OperationView, OrderDraft,
};

verus! {

/// Where a placement stands.
#[derive(Clone, Copy, Debug, PartialEq, Eq, Structural)]
pub enum Phase {
    /// The batch is with the store.
    Submitted,
    /// A line failed; the reversal is with the store.
    Reverting,
    /// Nothing is left to do.
    Closed,
}

/// A placement in progress.
#[derive(Debug, PartialEq, Eq)]
pub struct OrderFlow {
    pub draft: OrderDraft,
    pub phase: Phase,
    /// The per-line verdict, kept while the batch is being taken back.
    pub verdict: Vec<LineResult>,
    /// The identity of the order row that the batch made, kept while the
    /// batch is being taken back; zero otherwise.
    pub order_id: i64,
}

pub struct FlowView {
    pub draft: DraftView,
    pub phase: Phase,
    pub verdict: Seq<LineResultView>,
    pub order_id: int,
}

impl View for OrderFlow {
    type V = FlowView;

    open spec fn view(&self) -> FlowView {
        FlowView {
            draft: self.draft@,
            phase: self.phase,
            verdict: results_view(self.verdict@),
            order_id: self.order_id as int,
        }
    }
}

/// What the store answered.
#[derive(Debug, PartialEq, Eq)]
pub enum Event {
    /// The batch ran; one report per operation, in batch order.
    Executed(Vec<OpResult>),
    /// The reversal ran.
    Reverted,
    /// The store failed; nothing of the pending request persists.
    Failed(String),
}

/// How a placement ended.
#[derive(Debug, PartialEq, Eq)]
pub enum Outcome {
    /// The order is recorded and every line was decremented.
    Placed { order_id: i64 },
    /// A line could not be decremented; nothing of the order persists.
    Rejected(Vec<LineResult>),
    /// The store failed on the batch, or its report does not fit the
    /// batch. A store that runs a batch as one transaction has kept
    /// nothing of a failed batch.
    StorageFailure(String),
    /// A line could not be decremented and the store failed to take the
    /// batch back. What the batch did still stands: the order row with
    /// this identity, and the decrement of every line that the verdict
    /// marks as decremented.
    Unreverted { order_id: i64, lines: Vec<LineResult>, cause: String },
}

pub enum OutcomeView {
    Placed { order_id: int },
    Rejected(Seq<LineResultView>),
    StorageFailure(Seq<char>),
    Unreverted { order_id: int, lines: Seq<LineResultView>, cause: Seq<char> },
}

impl View for Outcome {
    type V = OutcomeView;

    open spec fn view(&self) -> OutcomeView {
        match self {
            Outcome::Placed { order_id } => OutcomeView::Placed { order_id: *order_id as int },
            Outcome::Rejected(lines) => OutcomeView::Rejected(results_view(lines@)),
            Outcome::StorageFailure(cause) => OutcomeView::StorageFailure(cause@),
            Outcome::Unreverted { order_id, lines, cause } => OutcomeView::Unreverted {
                order_id: *order_id as int,
                lines: results_view(lines@),
                cause: cause@,
            },
        }
    }
}

/// What the embedding program does next.
#[derive(Debug, PartialEq, Eq)]
pub enum Action {
    /// Run these operations as one atomic batch and report each.
    Submit(Vec<Operation>),
    /// Take the batch back: roll the open transaction back or, where the
    /// store has committed it already, run these operations as one batch.
    Revert(Vec<Operation>),
    /// Answer the caller.
    Finish(Outcome),
    /// The event does not belong to the phase; nothing changes.
    Halt,
}

pub enum ActionView {
    Submit(Seq<OperationView>),
    Revert(Seq<OperationView>),
    Finish(OutcomeView),
    Halt,
}

impl View for Action {
    type V = ActionView;

    open spec fn view(&self) -> ActionView {
        match self {
            Action::Submit(ops) => ActionView::Submit(operations_view(ops@)),
            Action::Revert(ops) => ActionView::Revert(operations_view(ops@)),
            Action::Finish(outcome) => ActionView::Finish(outcome@),
            Action::Halt => ActionView::Halt,
        }
    }
}

/// The failure reported where the store's report does not hold one entry
/// per operation of the batch.
pub const REPORT_MISMATCH: &'static str = "store report does not match the batch";

/// The flow once nothing is left to do.
pub open spec fn closed(flow: FlowView) -> FlowView {
    FlowView { draft: flow.draft, phase: Phase::Closed, verdict: Seq::empty(), order_id: 0 }
}

/// The transition function of the protocol.
///
/// * While the batch is out, a report with every line decremented places
///   the order. A report with a failed line starts the reversal. A report
///   of the wrong length, or a store failure, ends in a storage failure.
/// * While the reversal is out, its completion rejects the order with the
///   per-line verdict. A store failure leaves the batch standing, and the
///   outcome says so: it names the order row and the lines that were
///   decremented.
/// * Any other pairing of phase and event changes nothing.
pub open spec fn next(flow: FlowView, event: Event) -> (FlowView, ActionView) {
    match (flow.phase, event) {
        (Phase::Submitted, Event::Executed(report)) => {
            if report@.len() != 1 + 2 * flow.draft.lines.len() {
                (
                    closed(flow),
                    ActionView::Finish(OutcomeView::StorageFailure(REPORT_MISMATCH@)),
                )
            } else {
                let verdict = verdict_of(flow.draft, report@);
                let order_id = report@[0].last_row_id as int;
                if all_decremented(verdict) {
                    (closed(flow), ActionView::Finish(OutcomeView::Placed { order_id }))
                } else {
                    (
                        FlowView { draft: flow.draft, phase: Phase::Reverting, verdict, order_id },
                        ActionView::Revert(reversal_of(order_id, verdict)),
                    )
                }
            }
        },
        (Phase::Submitted, Event::Failed(cause)) => (
            closed(flow),
            ActionView::Finish(OutcomeView::StorageFailure(cause@)),
        ),
        (Phase::Reverting, Event::Reverted) => (
            closed(flow),
            ActionView::Finish(OutcomeView::Rejected(flow.verdict)),
        ),
        (Phase::Reverting, Event::Failed(cause)) => (
            closed(flow),
            ActionView::Finish(
                OutcomeView::Unreverted {
                    order_id: flow.order_id,
                    lines: flow.verdict,
                    cause: cause@,
                },
            ),
        ),
        _ => (flow, ActionView::Halt),
    }
}

impl OrderFlow {
    /// Opens a placement: the first action submits the draft's batch.
    pub fn start(draft: OrderDraft) -> (r: (OrderFlow, Action))
        ensures
            r.0@ == (FlowView {
                draft: draft@,
                phase: Phase::Submitted,
                verdict: Seq::empty(),
                order_id: 0,
            }),
            r.1@ == ActionView::Submit(batch_of(draft@)),
    {
        let ops = draft.batch();
        let flow = OrderFlow { draft, phase: Phase::Submitted, verdict: Vec::new(), order_id: 0 };
        assert(flow@.verdict =~= Seq::empty());
        (flow, Action::Submit(ops))
    }

    /// Takes one step of the protocol: see [`next`].
    pub fn step(self, event: Event) -> (r: (OrderFlow, Action))
        ensures
            (r.0@, r.1@) == next(self@, event),
    {
        let OrderFlow { draft, phase, verdict, order_id } = self;
        match phase {
            Phase::Submitted => match event {
                Event::Executed(report) => {
                    match draft.verdict(&report) {
                        None => {
                            let flow = OrderFlow {
                                draft,
                                phase: Phase::Closed,
                                verdict: Vec::new(),
                                order_id: 0,
                            };
                            assert(flow@.verdict =~= Seq::empty());
                            (
                                flow,
                                Action::Finish(
                                    Outcome::StorageFailure(String::from_str(REPORT_MISMATCH)),
                                ),
                            )
                        },
                        Some(lines) => {
                            let row = report[0].last_row_id;
                            if accepted(&lines) {
                                let flow = OrderFlow {
                                    draft,
                                    phase: Phase::Closed,
                                    verdict: Vec::new(),
                                    order_id: 0,
                                };
                                assert(flow@.verdict =~= Seq::empty());
                                (flow, Action::Finish(Outcome::Placed { order_id: row }))
                            } else {
                                let ops = reversal(row, &lines);
                                (
                                    OrderFlow {
                                        draft,
                                        phase: Phase::Reverting,
                                        verdict: lines,
                                        order_id: row,
                                    },
                                    Action::Revert(ops),
                                )
                            }
                        },
                    }
                },
                Event::Failed(cause) => {
                    let flow = OrderFlow {
                        draft,
                        phase: Phase::Closed,
                        verdict: Vec::new(),
                        order_id: 0,
                    };
                    assert(flow@.verdict =~= Seq::empty());
                    (flow, Action::Finish(Outcome::StorageFailure(cause)))
                },
                Event::Reverted => (OrderFlow { draft, phase, verdict, order_id }, Action::Halt),
            },
            Phase::Reverting => match event {
                Event::Reverted => {
                    let flow = OrderFlow {
                        draft,
                        phase: Phase::Closed,
                        verdict: Vec::new(),
                        order_id: 0,
                    };
                    assert(flow@.verdict =~= Seq::empty());
                    (flow, Action::Finish(Outcome::Rejected(verdict)))
                },
                Event::Failed(cause) => {
                    let flow = OrderFlow {
                        draft,
                        phase: Phase::Closed,
                        verdict: Vec::new(),
                        order_id: 0,
                    };
                    assert(flow@.verdict =~= Seq::empty());
                    (flow, Action::Finish(Outcome::Unreverted { order_id, lines: verdict, cause }))
                },
                Event::Executed(_) => (
                    OrderFlow { draft, phase, verdict, order_id },
                    Action::Halt,
                ),
            },
            Phase::Closed => (OrderFlow { draft, phase, verdict, order_id }, Action::Halt),
        }
    }
}

/// A line whose decrement changed no row never lets the order stand:
/// the protocol asks for the batch to be taken back and, once that is
/// done, rejects the order with the per-line verdict. Where the store
/// fails to take the batch back, the outcome names what still stands.
pub proof fn law_failed_line_rejects(flow: FlowView, report: Vec<OpResult>, failing: int)
    requires
        flow.phase == Phase::Submitted,
        report@.len() == 1 + 2 * flow.draft.lines.len(),
        0 <= failing < flow.draft.lines.len(),
        report@[1 + failing].changes == 0,
    ensures
        next(flow, Event::Executed(report)).1 == ActionView::Revert(
            reversal_of(report@[0].last_row_id as int, verdict_of(flow.draft, report@)),
        ),
        next(next(flow, Event::Executed(report)).0, Event::Reverted).1 == ActionView::Finish(
            OutcomeView::Rejected(verdict_of(flow.draft, report@)),
        ),
        forall|cause: String|
            (#[trigger] next(next(flow, Event::Executed(report)).0, Event::Failed(cause))).1
                == ActionView::Finish(
                OutcomeView::Unreverted {
                    order_id: report@[0].last_row_id as int,
                    lines: verdict_of(flow.draft, report@),
                    cause: cause@,
                },
            ),
{
    let verdict = verdict_of(flow.draft, report@);
    assert(verdict[failing].outcome != LineOutcome::Decremented);
}

} // verus!
