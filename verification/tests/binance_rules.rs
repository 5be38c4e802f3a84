use ck_quant_rust::binance::{
    cancel_params, check_response, order_params, parse_status, BinanceOrder, BinanceUsdm,
    ExchangeError,
};
use ck_quant_rust::domain::{OrderIntent, OrderStatus, Side, ONE_BITS};
use ck_quant_rust::ids::Timestamp;
use hmac::{Hmac, Mac};
use sha2::Sha256;

fn intent(price: Option<f64>, reduce_only: bool) -> OrderIntent {
    OrderIntent {
        client_id: 0x67e5504410b1426f9247bb680e5fe0c8,
        pair: "BTC/USDT:USDT".into(),
        side: Side::Long,
        quantity_bits: 0.01f64.to_bits(),
        price_bits: price.map(f64::to_bits),
        reduce_only,
        leverage_bits: ONE_BITS,
        tag: "entry".into(),
        created_at: Timestamp { secs: 1_700_000_000, nanos: 0 },
    }
}

fn pairs(v: &[(String, String)]) -> Vec<(&str, &str)> {
    v.iter().map(|(a, b)| (a.as_str(), b.as_str())).collect()
}

#[test]
fn symbol_drops_settlement_and_slash() {
    assert_eq!(BinanceUsdm::symbol("BTC/USDT:USDT"), "BTCUSDT");
    assert_eq!(BinanceUsdm::symbol("ETH/USDT"), "ETHUSDT");
    assert_eq!(BinanceUsdm::symbol("SOLUSDT"), "SOLUSDT");
    assert_eq!(BinanceUsdm::symbol(":USDT"), "");
    assert_eq!(BinanceUsdm::symbol(""), "");
}

#[test]
fn exchange_statuses_are_read() {
    assert_eq!(parse_status("NEW"), OrderStatus::Open);
    assert_eq!(parse_status("PARTIALLY_FILLED"), OrderStatus::PartiallyFilled);
    assert_eq!(parse_status("FILLED"), OrderStatus::Filled);
    assert_eq!(parse_status("CANCELED"), OrderStatus::Cancelled);
    assert_eq!(parse_status("EXPIRED"), OrderStatus::Cancelled);
    assert_eq!(parse_status("REJECTED"), OrderStatus::Rejected);
    assert_eq!(parse_status("EXPIRED_IN_MATCH"), OrderStatus::Pending);
    assert_eq!(parse_status("new"), OrderStatus::Pending);
}

#[test]
fn market_order_parameters() {
    let params = order_params(&intent(None, false), "0.01", "ignored");
    assert_eq!(
        pairs(&params),
        vec![
            ("symbol", "BTCUSDT"),
            ("side", "BUY"),
            ("type", "MARKET"),
            ("quantity", "0.01"),
            ("newClientOrderId", "ckq_67e5504410b1426f9247bb680e5fe0c8"),
            ("reduceOnly", "false"),
            ("newOrderRespType", "RESULT"),
        ]
    );
}

#[test]
fn limit_exit_parameters() {
    let params = order_params(&intent(Some(60000.5), true), "0.01", "60000.5");
    assert_eq!(
        pairs(&params),
        vec![
            ("symbol", "BTCUSDT"),
            ("side", "SELL"),
            ("type", "LIMIT"),
            ("quantity", "0.01"),
            ("newClientOrderId", "ckq_67e5504410b1426f9247bb680e5fe0c8"),
            ("reduceOnly", "true"),
            ("newOrderRespType", "RESULT"),
            ("price", "60000.5"),
            ("timeInForce", "GTC"),
        ]
    );
}

#[test]
fn cancel_parameters() {
    let params = cancel_params("ETH/USDT:USDT", "8389765");
    assert_eq!(pairs(&params), vec![("symbol", "ETHUSDT"), ("orderId", "8389765")]);
}

#[test]
fn signed_query_appends_time_window_and_signature() {
    let account = BinanceUsdm::new("api-key".into(), "secret key".into());
    let params = vec![
        ("symbol".to_string(), "BTCUSDT".to_string()),
        ("note".to_string(), "a b&c=é*".to_string()),
    ];
    let signed = account.signed_query_at(params, 1_499_827_319_559).unwrap();
    let query = "symbol=BTCUSDT&note=a+b%26c%3D%C3%A9*&timestamp=1499827319559&recvWindow=3000";
    let mut mac = Hmac::<Sha256>::new_from_slice(b"secret key").unwrap();
    mac.update(query.as_bytes());
    let expected: String =
        mac.finalize().into_bytes().iter().map(|b| format!("{b:02x}")).collect();
    assert_eq!(signed, format!("{query}&signature={expected}"));
    assert_eq!(expected.len(), 64);
}

#[test]
fn signing_depends_on_the_secret() {
    let a = BinanceUsdm::new("k".into(), "one".into());
    let b = BinanceUsdm::new("k".into(), "two".into());
    let p = || vec![("symbol".to_string(), "BTCUSDT".to_string())];
    assert_ne!(a.signed_query_at(p(), 1).unwrap(), b.signed_query_at(p(), 1).unwrap());
    let live = a.signed_query(p()).unwrap();
    assert!(live.starts_with("symbol=BTCUSDT&timestamp="));
    assert!(live.contains("&recvWindow=3000&signature="));
}

#[test]
fn negative_timestamps_are_written_in_decimal() {
    let a = BinanceUsdm::new("k".into(), "s".into());
    let q = a.signed_query_at(Vec::new(), i64::MIN).unwrap();
    assert!(q.starts_with("timestamp=-9223372036854775808&recvWindow=3000&signature="));
}

#[test]
fn order_url_uses_production_endpoint() {
    let a = BinanceUsdm::new("k".into(), "s".into());
    assert_eq!(a.base_url, "https://fapi.binance.com");
    assert_eq!(a.order_url("x=1"), "https://fapi.binance.com/fapi/v1/order?x=1");
    let q = a.order_query(&intent(None, false), "0.01", "").unwrap();
    assert!(q.starts_with("symbol=BTCUSDT&side=BUY&type=MARKET&quantity=0.01&"));
    let c = a.cancel_query("BTC/USDT:USDT", "42").unwrap();
    assert!(c.starts_with("symbol=BTCUSDT&orderId=42&timestamp="));
}

#[test]
fn responses_outside_2xx_are_rejections() {
    assert_eq!(check_response(200, "{}".into()), Ok("{}".to_string()));
    assert_eq!(check_response(299, "x".into()), Ok("x".to_string()));
    assert_eq!(
        check_response(400, "bad".into()),
        Err(ExchangeError::Rejected { status: 400, body: "bad".into() })
    );
    assert!(check_response(199, String::new()).is_err());
    assert!(check_response(300, String::new()).is_err());
}

#[test]
fn live_placements_are_cached_until_cancelled() {
    let mut a = BinanceUsdm::new("k".into(), "s".into());
    let at = Timestamp { secs: 5, nanos: 6 };
    let order = BinanceOrder {
        order_id: 8389765,
        status: "NEW".into(),
        executed_qty: "0".into(),
        avg_price: None,
    };
    let update = a.record_placed(&intent(Some(1.0), false), &order, 0, None, at);
    assert_eq!(update.exchange_id, "8389765");
    assert_eq!(update.status, OrderStatus::Open);
    assert_eq!(update.client_id, 0x67e5504410b1426f9247bb680e5fe0c8);
    assert_eq!(update.updated_at, at);
    assert_eq!(a.active.len(), 1);
    let again = a.record_placed(&intent(Some(1.0), false), &order, 0, None, at);
    assert_eq!(again.exchange_id, "8389765");
    assert_eq!(a.active.len(), 1);
    let cached = a.active_orders();
    assert_eq!(cached.len(), 1);
    assert_eq!(cached[0].exchange_id, "8389765");
    a.record_cancelled("8389765");
    assert_eq!(a.active.len(), 0);
    a.record_cancelled("8389765");
    assert_eq!(a.active.len(), 0);
}

#[test]
fn filled_placements_are_not_cached() {
    let mut a = BinanceUsdm::new("k".into(), "s".into());
    let order = BinanceOrder {
        order_id: -3,
        status: "FILLED".into(),
        executed_qty: "0.01".into(),
        avg_price: Some("60000".into()),
    };
    let update = a.record_placed(
        &intent(None, false),
        &order,
        0.01f64.to_bits(),
        Some(60000.0f64.to_bits()),
        Timestamp { secs: 0, nanos: 0 },
    );
    assert_eq!(update.exchange_id, "-3");
    assert_eq!(update.status, OrderStatus::Filled);
    assert_eq!(f64::from_bits(update.filled_quantity_bits), 0.01);
    assert_eq!(update.average_price_bits.map(f64::from_bits), Some(60000.0));
    assert_eq!(a.active.len(), 0);
    assert!(a.active_orders().is_empty());
}
