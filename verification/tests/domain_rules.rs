use ck_quant_rust::domain::{OrderIntent, Side, ONE_BITS};
use ck_quant_rust::ids::{new_client_id, now, uuid_hyphenated, uuid_simple};
use ck_quant_rust::text::{chars_equal, decimal_string, hex_lower, starts_with};

#[test]
fn order_sides_open_and_close() {
    assert_eq!(Side::Long.order_side(false), "BUY");
    assert_eq!(Side::Long.order_side(true), "SELL");
    assert_eq!(Side::Short.order_side(false), "SELL");
    assert_eq!(Side::Short.order_side(true), "BUY");
}

#[test]
fn market_orders_open_at_unit_leverage() {
    let a = OrderIntent::market("BTC/USDT:USDT".into(), Side::Short, 0.5f64.to_bits(), "t".into());
    let b = OrderIntent::market("BTC/USDT:USDT".into(), Side::Short, 0.5f64.to_bits(), "t".into());
    assert_eq!(a.pair, "BTC/USDT:USDT");
    assert_eq!(a.side, Side::Short);
    assert_eq!(f64::from_bits(a.quantity_bits), 0.5);
    assert_eq!(a.price_bits, None);
    assert!(!a.reduce_only);
    assert_eq!(f64::from_bits(a.leverage_bits), 1.0);
    assert_eq!(ONE_BITS, 1.0f64.to_bits());
    assert_eq!(a.tag, "t");
    assert_ne!(a.client_id, b.client_id);
    assert!(a.created_at.nanos < 1_000_000_000);
    let c = a.clone();
    assert_eq!(c.client_id, a.client_id);
    assert_eq!(c.pair, a.pair);
}

#[test]
fn client_ids_are_version_four() {
    let id = new_client_id();
    let uuid = uuid::Uuid::from_u128(id);
    assert_eq!(uuid.get_version_num(), 4);
    assert_eq!((id >> 62) & 3, 2);
}

#[test]
fn uuid_text_forms() {
    let id = 0xa1a2a3a4b1b2c1c2d1d2d3d4d5d6d7d8u128;
    assert_eq!(uuid_hyphenated(id), "a1a2a3a4-b1b2-c1c2-d1d2-d3d4d5d6d7d8");
    assert_eq!(uuid_simple(id), "a1a2a3a4b1b2c1c2d1d2d3d4d5d6d7d8");
    assert_eq!(uuid_simple(0), "00000000000000000000000000000000");
}

#[test]
fn clock_reads_after_epoch() {
    let t = now();
    assert!(t.secs > 1_600_000_000);
    assert!(t.nanos < 1_000_000_000);
}

#[test]
fn decimal_text_matches_display() {
    for n in [0i64, 7, -7, 10, 1234567890, -1000, i64::MAX, i64::MIN] {
        assert_eq!(decimal_string(n), n.to_string());
    }
}

#[test]
fn hex_text_matches_format() {
    let bytes = [0u8, 1, 0x0f, 0x10, 0xab, 0xff];
    assert_eq!(hex_lower(&bytes), "00010f10abff");
    assert_eq!(hex_lower(&[]), "");
}

#[test]
fn string_comparisons() {
    assert!(chars_equal("héllo", "héllo"));
    assert!(!chars_equal("héllo", "hello"));
    assert!(!chars_equal("a", "ab"));
    assert!(starts_with("sqlite://x", "sqlite:"));
    assert!(!starts_with("sqlite", "sqlite:"));
    assert!(starts_with("abc", ""));
}
