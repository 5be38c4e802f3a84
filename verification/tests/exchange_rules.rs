use ck_quant_rust::domain::{OrderIntent, OrderStatus, Side, ONE_BITS};
use ck_quant_rust::exchange::PaperExchange;
use ck_quant_rust::ids::Timestamp;

fn intent(client_id: u128, price: Option<f64>) -> OrderIntent {
    OrderIntent {
        client_id,
        pair: "BTC/USDT:USDT".into(),
        side: Side::Long,
        quantity_bits: 0.01f64.to_bits(),
        price_bits: price.map(f64::to_bits),
        reduce_only: true,
        leverage_bits: ONE_BITS,
        tag: "紧急平仓".into(),
        created_at: Timestamp { secs: 1, nanos: 0 },
    }
}

#[test]
fn paper_orders_fill_immediately() {
    let mut ex = PaperExchange::new();
    let at = Timestamp { secs: 10, nanos: 20 };
    let id = 0xa1a2a3a4b1b2c1c2d1d2d3d4d5d6d7d8u128;
    let update = ex.place_order(&intent(id, Some(60000.0)), at);
    assert_eq!(update.exchange_id, "paper-a1a2a3a4-b1b2-c1c2-d1d2-d3d4d5d6d7d8");
    assert_eq!(update.client_id, id);
    assert_eq!(update.pair, "BTC/USDT:USDT");
    assert_eq!(update.status, OrderStatus::Filled);
    assert_eq!(f64::from_bits(update.filled_quantity_bits), 0.01);
    assert_eq!(update.average_price_bits.map(f64::from_bits), Some(60000.0));
    assert_eq!(update.updated_at, at);
    let market = ex.place_order(&intent(7, None), at);
    assert_eq!(market.average_price_bits, None);
}

#[test]
fn paper_exchange_never_reports_live_orders() {
    let mut ex = PaperExchange::new();
    let at = Timestamp { secs: 0, nanos: 0 };
    for id in 0..5u128 {
        ex.place_order(&intent(id, None), at);
    }
    assert!(ex.active_orders().is_empty());
}

#[test]
fn paper_cancel_marks_the_order() {
    let mut ex = PaperExchange::new();
    let placed = ex.place_order(&intent(3, None), Timestamp { secs: 1, nanos: 0 });
    let later = Timestamp { secs: 2, nanos: 5 };
    let cancelled = ex.cancel_order("BTC/USDT:USDT", &placed.exchange_id, later).unwrap();
    assert_eq!(cancelled.status, OrderStatus::Cancelled);
    assert_eq!(cancelled.updated_at, later);
    assert_eq!(cancelled.client_id, 3);
    assert_eq!(cancelled.exchange_id, placed.exchange_id);
    assert!(ex.cancel_order("BTC/USDT:USDT", "paper-unknown", later).is_none());
    assert!(ex.active_orders().is_empty());
}

#[test]
fn replacing_an_order_keeps_one_record() {
    let mut ex = PaperExchange::new();
    let at = Timestamp { secs: 0, nanos: 0 };
    let first = ex.place_order(&intent(9, Some(1.0)), at);
    let second = ex.place_order(&intent(9, Some(2.0)), at);
    assert_eq!(first.exchange_id, second.exchange_id);
    let cancelled = ex.cancel_order("", &second.exchange_id, at).unwrap();
    assert_eq!(cancelled.average_price_bits.map(f64::from_bits), Some(2.0));
}
