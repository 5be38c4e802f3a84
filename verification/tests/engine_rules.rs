use ck_quant_rust::domain::{EngineEvent, OrderIntent, OrderStatus, OrderUpdate, Side, ONE_BITS};
use ck_quant_rust::engine::{
    benchmark_poll, over_latency_budget, BenchmarkPoll, lane_name, lane_step, plan_event, queue_capacity, submission_timing, supervise,
    validate_risk_event, EngineError, EventPlan, Lane, LaneInput, LaneStep, Supervision,
};
use ck_quant_rust::ids::Timestamp;

fn intent() -> OrderIntent {
    OrderIntent {
        client_id: 1,
        pair: "BTC/USDT:USDT".into(),
        side: Side::Long,
        quantity_bits: 1.0f64.to_bits(),
        price_bits: None,
        reduce_only: true,
        leverage_bits: ONE_BITS,
        tag: "risk".into(),
        created_at: Timestamp { secs: 0, nanos: 0 },
    }
}

fn update() -> OrderUpdate {
    OrderUpdate {
        exchange_id: "x".into(),
        client_id: 1,
        pair: "BTC/USDT:USDT".into(),
        status: OrderStatus::Open,
        filled_quantity_bits: 0,
        average_price_bits: None,
        updated_at: Timestamp { secs: 0, nanos: 0 },
    }
}

#[test]
fn risk_lane_accepts_exits_only() {
    assert_eq!(validate_risk_event(&EngineEvent::RiskExit(intent())), Ok(()));
    for event in [
        EngineEvent::StrategyOrder(intent()),
        EngineEvent::OrderUpdate(update()),
        EngineEvent::Reconcile,
        EngineEvent::Shutdown,
    ] {
        assert_eq!(validate_risk_event(&event), Err(EngineError::RiskLaneExitsOnly));
    }
    assert_eq!(EngineError::RiskLaneExitsOnly.message(), "risk lane accepts exits only");
}

#[test]
fn lanes_are_bounded() {
    assert_eq!(queue_capacity(Lane::Risk), 2048);
    assert_eq!(queue_capacity(Lane::Strategy), 8192);
    assert_eq!(queue_capacity(Lane::Background), 128);
    assert_eq!(lane_name(Lane::Background), "background");
}

#[test]
fn only_the_risk_lane_shuts_down_on_an_event() {
    assert!(matches!(
        lane_step(Lane::Risk, LaneInput::Event(EngineEvent::Shutdown)),
        LaneStep::Stop { announce_shutdown: true }
    ));
    assert!(matches!(
        lane_step(Lane::Strategy, LaneInput::Event(EngineEvent::Shutdown)),
        LaneStep::Process(EngineEvent::Shutdown)
    ));
    assert!(matches!(
        lane_step(Lane::Risk, LaneInput::Event(EngineEvent::RiskExit(intent()))),
        LaneStep::Process(EngineEvent::RiskExit(_))
    ));
    for lane in [Lane::Risk, Lane::Strategy, Lane::Background] {
        assert!(matches!(
            lane_step(lane, LaneInput::ShutdownSignalled),
            LaneStep::Stop { announce_shutdown: false }
        ));
    }
}

#[test]
fn events_plan_their_work() {
    assert!(matches!(plan_event(EngineEvent::RiskExit(intent())), EventPlan::Submit(i) if i.tag == "risk"));
    assert!(matches!(plan_event(EngineEvent::StrategyOrder(intent())), EventPlan::Submit(_)));
    assert!(matches!(plan_event(EngineEvent::OrderUpdate(update())), EventPlan::Persist(u) if u.exchange_id == "x"));
    assert!(matches!(plan_event(EngineEvent::Reconcile), EventPlan::ReconcileActive));
    assert!(matches!(plan_event(EngineEvent::Shutdown), EventPlan::Nothing));
}

#[test]
fn first_clean_exit_announces_shutdown_once() {
    assert_eq!(supervise(false, true), Supervision::AnnounceShutdown);
    assert_eq!(supervise(true, true), Supervision::Continue);
    assert_eq!(supervise(false, false), Supervision::Fail);
    assert_eq!(supervise(true, false), Supervision::Fail);
}

#[test]
fn submission_latency_is_judged() {
    let queued = Timestamp { secs: 100, nanos: 999_000_000 };
    let submitted = Timestamp { secs: 101, nanos: 1_500_000 };
    let t = submission_timing(queued, submitted, 2_000_000_000);
    assert_eq!(t.queue_ms, 2);
    assert!(!t.over_budget);
    let t = submission_timing(submitted, queued, 2_000_000_001);
    assert_eq!(t.queue_ms, 0);
    assert!(t.over_budget);
    let t = submission_timing(
        Timestamp { secs: 0, nanos: 0 },
        Timestamp { secs: 0, nanos: 999_999 },
        0,
    );
    assert_eq!(t.queue_ms, 0);
}

#[test]
fn benchmark_waits_for_every_order_or_thirty_seconds() {
    assert_eq!(benchmark_poll(1000, 1000, 0), BenchmarkPoll::Finished);
    assert_eq!(benchmark_poll(1001, 1000, 40_000_000_000), BenchmarkPoll::Finished);
    assert_eq!(benchmark_poll(999, 1000, 30_000_000_000), BenchmarkPoll::Wait);
    assert_eq!(benchmark_poll(999, 1000, 30_000_000_001), BenchmarkPoll::TimedOut);
    assert_eq!(benchmark_poll(0, 0, 0), BenchmarkPoll::Finished);
    assert_eq!(benchmark_poll(-1, 0, 0), BenchmarkPoll::Wait);
}

#[test]
fn latency_budget_is_two_seconds() {
    assert!(!over_latency_budget(2_000_000_000));
    assert!(over_latency_budget(2_000_000_001));
}
