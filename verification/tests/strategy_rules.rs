use ck_quant_rust::domain::Side;
use ck_quant_rust::ieee::{is_nan, le, lt};
use ck_quant_rust::strategy::SampleEmaStrategy;

fn b(x: f64) -> u64 {
    x.to_bits()
}

#[test]
fn sample_strategy_identity() {
    let s = SampleEmaStrategy;
    assert_eq!(s.name(), "SampleEmaStrategy");
    assert_eq!(s.timeframe(), "15m");
    assert_eq!(s.startup_candles(), 32);
    assert_eq!(s.order_tag(), "sample_ema_cross");
}

#[test]
fn strategy_waits_for_history_and_a_flat_book() {
    let s = SampleEmaStrategy;
    assert!(!s.should_evaluate(false, 31));
    assert!(s.should_evaluate(false, 32));
    assert!(!s.should_evaluate(true, 500));
}

#[test]
fn crossings_signal_entries() {
    let s = SampleEmaStrategy;
    assert_eq!(s.entry_signal(b(1.0), b(2.0), b(3.0), b(2.5)), Some(Side::Long));
    assert_eq!(s.entry_signal(b(2.0), b(2.0), b(3.0), b(2.5)), Some(Side::Long));
    assert_eq!(s.entry_signal(b(3.0), b(2.0), b(1.0), b(2.5)), Some(Side::Short));
    assert_eq!(s.entry_signal(b(2.0), b(2.0), b(1.0), b(2.5)), Some(Side::Short));
    assert_eq!(s.entry_signal(b(3.0), b(2.0), b(3.0), b(2.5)), None);
    assert_eq!(s.entry_signal(b(1.0), b(2.0), b(2.0), b(2.0)), None);
    assert_eq!(s.entry_signal(b(f64::NAN), b(2.0), b(3.0), b(2.5)), None);
    assert_eq!(s.entry_signal(b(-0.0), b(0.0), b(1.0), b(0.5)), Some(Side::Long));
}

#[test]
fn crossings_are_symmetric() {
    let s = SampleEmaStrategy;
    let cases = [(1.0, 2.0, 3.0, 2.5), (3.0, 2.0, 1.0, 2.5), (2.0, 2.0, 2.0, 2.0)];
    for (pf, ps, f, sl) in cases {
        let a = s.entry_signal(b(pf), b(ps), b(f), b(sl));
        let swapped = s.entry_signal(b(ps), b(pf), b(sl), b(f));
        let flipped = a.map(|side| match side {
            Side::Long => Side::Short,
            Side::Short => Side::Long,
        });
        assert_eq!(swapped, flipped);
    }
}

#[test]
fn bit_comparisons_match_hardware() {
    let values = [
        0.0,
        -0.0,
        1.0,
        -1.0,
        f64::MIN_POSITIVE,
        -f64::MIN_POSITIVE,
        5e-324,
        -5e-324,
        f64::MAX,
        f64::MIN,
        f64::INFINITY,
        f64::NEG_INFINITY,
        f64::NAN,
        -f64::NAN,
        123.456,
        -123.456,
    ];
    for x in values {
        assert_eq!(is_nan(b(x)), x.is_nan());
        for y in values {
            assert_eq!(le(b(x), b(y)), x <= y, "{x} <= {y}");
            assert_eq!(lt(b(x), b(y)), x < y, "{x} < {y}");
        }
    }
}
