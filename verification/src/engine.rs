//! The engine's decisions. Work arrives on three isolated lanes (risk
//! exits, strategy orders, background reconciliation), each served by its
//! own task; a supervisor stops every lane once one finishes. The tasks,
//! queues and I/O run outside the library; this module decides what each
//! lane does with what it receives, what an event asks of the exchange and
//! the store, when the engine shuts down, and how submission latency is
//! judged.
use vstd::prelude::*;
use crate::domain::{EngineEvent, OrderIntent, OrderUpdate};
use crate::ids::Timestamp;

verus! {

/// The engine's three lanes.
#[derive(Debug, Clone, Copy, PartialEq, Eq, Structural)]
pub enum Lane {
    /// Risk exits; serviced ahead of the lane's shutdown signal.
    Risk,
    /// Strategy orders.
    Strategy,
    /// Reconciliation and other background work.
    Background,
}

/// The bound on the queue of each lane.
pub open spec fn capacity_of(lane: Lane) -> nat {
    match lane {
        Lane::Risk => 2048,
        Lane::Strategy => 8192,
        Lane::Background => 128,
    }
}

/// The bound on a lane's queue.
pub fn queue_capacity(lane: Lane) -> (res: usize)
    ensures
        res == capacity_of(lane),
{
    match lane {
        Lane::Risk => 2048,
        Lane::Strategy => 8192,
        Lane::Background => 128,
    }
}

/// The lane's name, as it appears in latency logs.
pub fn lane_name(lane: Lane) -> (res: &'static str)
    ensures
        res@ == (match lane {
            Lane::Risk => "risk"@,
            Lane::Strategy => "strategy"@,
            Lane::Background => "background"@,
        }),
{
    match lane {
        Lane::Risk => "risk",
        Lane::Strategy => "strategy",
        Lane::Background => "background",
    }
}

/// What a lane's task received.
#[derive(Debug, Clone)]
pub enum LaneInput {
    /// An event from the lane's queue.
    Event(EngineEvent),
    /// The engine-wide shutdown signal changed.
    ShutdownSignalled,
}

/// What a lane's task does next.
#[derive(Debug, Clone)]
pub enum LaneStep {
    /// Handle the event and keep serving the lane.
    Process(EngineEvent),
    /// Stop serving the lane; with `announce_shutdown`, first tell every
    /// other lane to stop too.
    Stop { announce_shutdown: bool },
}

/// A lane stops when the shutdown signal arrives. Only the risk lane
/// treats a `Shutdown` event as the order to shut the whole engine down;
/// the other lanes handle it as an event that asks for nothing.
pub open spec fn lane_step_spec(lane: Lane, input: LaneInput) -> LaneStep {
    match input {
        LaneInput::ShutdownSignalled => LaneStep::Stop { announce_shutdown: false },
        LaneInput::Event(event) => if lane == Lane::Risk && event is Shutdown {
            LaneStep::Stop { announce_shutdown: true }
        } else {
            LaneStep::Process(event)
        },
    }
}

/// The next step of a lane's task.
pub fn lane_step(lane: Lane, input: LaneInput) -> (res: LaneStep)
    ensures
        res == lane_step_spec(lane, input),
{
    match input {
        LaneInput::ShutdownSignalled => LaneStep::Stop { announce_shutdown: false },
        LaneInput::Event(event) => {
            let shutdown = match event {
                EngineEvent::Shutdown => true,
                _ => false,
            };
            if lane == Lane::Risk && shutdown {
                LaneStep::Stop { announce_shutdown: true }
            } else {
                LaneStep::Process(event)
            }
        },
    }
}

/// What an event asks of the exchange and the store.
#[derive(Debug, Clone)]
pub enum EventPlan {
    /// Place the order, then store the update the exchange returns.
    Submit(OrderIntent),
    /// Store the update.
    Persist(OrderUpdate),
    /// Store every order the exchange reports live; a failed write is
    /// reported and skipped. Historical orders are never scanned.
    ReconcileActive,
    /// Nothing.
    Nothing,
}

/// What an event asks for: exits and strategy orders are submitted, order
/// updates stored, a reconcile request reconciles live orders only, and a
/// shutdown asks for nothing.
pub open spec fn plan_of(event: EngineEvent) -> EventPlan {
    match event {
        EngineEvent::RiskExit(intent) => EventPlan::Submit(intent),
        EngineEvent::StrategyOrder(intent) => EventPlan::Submit(intent),
        EngineEvent::OrderUpdate(update) => EventPlan::Persist(update),
        EngineEvent::Reconcile => EventPlan::ReconcileActive,
        EngineEvent::Shutdown => EventPlan::Nothing,
    }
}

/// What an event asks of the exchange and the store.
pub fn plan_event(event: EngineEvent) -> (res: EventPlan)
    ensures
        res == plan_of(event),
        event matches EngineEvent::RiskExit(i) ==> res == EventPlan::Submit(i),
        event matches EngineEvent::StrategyOrder(i) ==> res == EventPlan::Submit(i),
        event matches EngineEvent::OrderUpdate(u) ==> res == EventPlan::Persist(u),
        event is Reconcile ==> res is ReconcileActive,
        event is Shutdown ==> res is Nothing,
{
    match event {
        EngineEvent::RiskExit(intent) => EventPlan::Submit(intent),
        EngineEvent::StrategyOrder(intent) => EventPlan::Submit(intent),
        EngineEvent::OrderUpdate(update) => EventPlan::Persist(update),
        EngineEvent::Reconcile => EventPlan::ReconcileActive,
        EngineEvent::Shutdown => EventPlan::Nothing,
    }
}

/// Orders are submitted exactly as they were queued: a risk exit or a
/// strategy order is placed with every field of its intent unchanged
/// (reduce-only flag, side, quantity, price, client id), and an update is
/// stored as it arrived.
pub proof fn submission_passes_intent_unchanged(intent: OrderIntent, update: OrderUpdate)
    ensures
        plan_of(EngineEvent::RiskExit(intent)) == EventPlan::Submit(intent),
        plan_of(EngineEvent::StrategyOrder(intent)) == EventPlan::Submit(intent),
        plan_of(EngineEvent::OrderUpdate(update)) == EventPlan::Persist(update),
        plan_of(EngineEvent::RiskExit(intent)) == plan_of(EngineEvent::StrategyOrder(intent)),
{
}

/// Why the engine refused an event.
#[derive(Debug, Clone, Copy, PartialEq, Eq, Structural)]
pub enum EngineError {
    /// Only risk exits may enter the risk lane.
    RiskLaneExitsOnly,
}

impl EngineError {
    /// The human-readable description of the error.
    pub fn message(&self) -> (res: &'static str)
        ensures
            res@ == "risk lane accepts exits only"@,
    {
        "risk lane accepts exits only"
    }
}

/// Admits an event to the risk lane: risk exits only.
pub fn validate_risk_event(event: &EngineEvent) -> (res: Result<(), EngineError>)
    ensures
        res is Ok <==> event is RiskExit,
        res is Err ==> res == Err::<(), EngineError>(EngineError::RiskLaneExitsOnly),
{
    match event {
        EngineEvent::RiskExit(_) => Ok(()),
        _ => Err(EngineError::RiskLaneExitsOnly),
    }
}

/// What the supervisor does when a lane's task ends.
#[derive(Debug, Clone, Copy, PartialEq, Eq, Structural)]
pub enum Supervision {
    /// The task failed: stop the engine with its error.
    Fail,
    /// Shutdown is already under way: wait for the next task.
    Continue,
    /// Tell every remaining lane to stop, then wait for the next task.
    AnnounceShutdown,
}

/// The supervisor's decision: a failure ends the engine; the first task to
/// end cleanly triggers the shutdown of the others.
pub open spec fn supervision_of(shutdown_announced: bool, task_succeeded: bool) -> Supervision {
    if !task_succeeded {
        Supervision::Fail
    } else if shutdown_announced {
        Supervision::Continue
    } else {
        Supervision::AnnounceShutdown
    }
}

/// Decides what follows the end of a lane's task.
pub fn supervise(shutdown_announced: bool, task_succeeded: bool) -> (res: Supervision)
    ensures
        res == supervision_of(shutdown_announced, task_succeeded),
{
    if !task_succeeded {
        Supervision::Fail
    } else if shutdown_announced {
        Supervision::Continue
    } else {
        Supervision::AnnounceShutdown
    }
}

/// The supervisor over a run of task endings (`true` for a clean end):
/// whether it failed, and how many shutdown announcements it made.
pub open spec fn supervise_run(shutdown_announced: bool, outcomes: Seq<bool>) -> (bool, nat)
    decreases outcomes.len(),
{
    if outcomes.len() == 0 {
        (false, 0)
    } else {
        match supervision_of(shutdown_announced, outcomes[0]) {
            Supervision::Fail => (true, 0),
            Supervision::Continue => supervise_run(true, outcomes.drop_first()),
            Supervision::AnnounceShutdown => {
                let rest = supervise_run(true, outcomes.drop_first());
                (rest.0, rest.1 + 1)
            },
        }
    }
}

/// The shutdown signal is sent at most once, and exactly once when some
/// task ends cleanly before any failure and no announcement preceded it.
pub proof fn shutdown_announced_at_most_once(shutdown_announced: bool, outcomes: Seq<bool>)
    ensures
        supervise_run(shutdown_announced, outcomes).1 <= 1,
        shutdown_announced ==> supervise_run(shutdown_announced, outcomes).1 == 0,
        !shutdown_announced && outcomes.len() > 0 && outcomes[0] ==> supervise_run(
            shutdown_announced,
            outcomes,
        ).1 == 1,
    decreases outcomes.len(),
{
    if outcomes.len() > 0 {
        shutdown_announced_at_most_once(true, outcomes.drop_first());
    }
}

/// Only the risk lane can shut the engine down from an event, and it does
/// so only on `Shutdown`; every other event on any lane is processed.
pub proof fn only_risk_shutdown_stops_lanes(lane: Lane, event: EngineEvent)
    ensures
        lane_step_spec(lane, LaneInput::Event(event)) is Stop <==> (lane == Lane::Risk
            && event is Shutdown),
        !(lane_step_spec(lane, LaneInput::Event(event)) is Stop) ==> lane_step_spec(
            lane,
            LaneInput::Event(event),
        ) == LaneStep::Process(event),
        lane_step_spec(lane, LaneInput::ShutdownSignalled) == (LaneStep::Stop {
            announce_shutdown: false,
        }),
{
}

/// The latency budget for submitting an order and storing its update:
/// two seconds, in nanoseconds.
pub open spec fn max_order_latency_nanos() -> nat {
    2_000_000_000
}

/// How long an order waited between its creation and its submission, in
/// whole milliseconds, never negative (a clock step backwards reads 0).
pub open spec fn queue_delay_ms_of(queued: Timestamp, submitted: Timestamp) -> int {
    let waited: int = submitted.total_nanos() - queued.total_nanos();
    if waited <= 0 {
        0
    } else {
        waited / 1_000_000
    }
}

/// Whether placing and storing an order took longer than the latency
/// budget.
pub fn over_latency_budget(elapsed_nanos: u128) -> (res: bool)
    ensures
        res == (elapsed_nanos > max_order_latency_nanos()),
{
    elapsed_nanos > 2_000_000_000
}

/// The timing of one order submission.
#[derive(Debug, Clone, Copy, PartialEq, Eq, Structural)]
pub struct SubmissionTiming {
    /// Time in the queue, in milliseconds.
    pub queue_ms: i64,
    /// Whether the submission took longer than the latency budget.
    pub over_budget: bool,
}

/// Judges one submission: the order was created at `queued`, submitted at
/// `submitted`, and placing and storing it took `elapsed_nanos`.
pub fn submission_timing(queued: Timestamp, submitted: Timestamp, elapsed_nanos: u128) -> (res:
    SubmissionTiming)
    requires
        queued.well_formed(),
        submitted.well_formed(),
        -10_000_000_000_000 < queued.secs < 10_000_000_000_000,
        -10_000_000_000_000 < submitted.secs < 10_000_000_000_000,
    ensures
        res.queue_ms == queue_delay_ms_of(queued, submitted),
        res.over_budget == (elapsed_nanos > max_order_latency_nanos()),
{
    let waited: i128 = (submitted.secs as i128 - queued.secs as i128) * 1_000_000_000
        + (submitted.nanos as i128 - queued.nanos as i128);
    let queue_ms: i64 = if waited <= 0 {
        0
    } else {
        assert(waited / 1_000_000 <= 20_000_000_000_000_000) by (nonlinear_arith)
            requires
                0 < waited <= 20_000_000_000_000_000_000_000,
        ;
        (waited / 1_000_000) as i64
    };
    SubmissionTiming { queue_ms, over_budget: over_latency_budget(elapsed_nanos) }
}


/// The benchmark's wait for its orders to be stored, after each poll.
#[derive(Debug, Clone, Copy, PartialEq, Eq, Structural)]
pub enum BenchmarkPoll {
    /// Every submitted order is stored.
    Finished,
    /// The benchmark has waited longer than its 30-second budget.
    TimedOut,
    /// Poll again.
    Wait,
}

/// Decides the benchmark's next step from the number of stored orders, the
/// number submitted, and the time waited so far: done once every order is
/// stored, timed out after 30 seconds, otherwise wait.
pub fn benchmark_poll(persisted: i64, orders: u64, elapsed_nanos: u128) -> (res: BenchmarkPoll)
    ensures
        persisted >= orders ==> res == BenchmarkPoll::Finished,
        persisted < orders && elapsed_nanos > 30_000_000_000 ==> res == BenchmarkPoll::TimedOut,
        persisted < orders && elapsed_nanos <= 30_000_000_000 ==> res == BenchmarkPoll::Wait,
{
    if persisted >= 0 && persisted as u64 >= orders {
        BenchmarkPoll::Finished
    } else if elapsed_nanos > 30_000_000_000 {
        BenchmarkPoll::TimedOut
    } else {
        BenchmarkPoll::Wait
    }
}

} // verus!
