//! Binance USD-M futures: request construction, HMAC-SHA256 request
//! signing, response interpretation and the cache of live orders used
//! for reconciliation. The HTTP transport runs outside the library.
use vstd::prelude::*;
use vstd::utf8::encode_utf8;
use hmac::{Hmac, Mac};
use sha2::Sha256;
use crate::domain::{buys, is_live, OrderIntent, OrderStatus, OrderUpdate, Side};
use crate::ids::{now, simple_text_is_unique, uuid_simple, uuid_simple_text, Timestamp};
use crate::text::{
    chars_equal, decimal_string, decimal_text, hex_lower, hex_lower_bytes, hex_upper_digit, push_char,
};

verus! {

// ---------------------------------------------------------------------------
// Symbols and statuses
// ---------------------------------------------------------------------------

/// The exchange symbol of a pair: the characters before the first `:`
/// (the settlement suffix), with every `/` removed.
/// `"BTC/USDT:USDT"` becomes `"BTCUSDT"`.
pub open spec fn symbol_text(pair: Seq<char>) -> Seq<char>
    decreases pair.len(),
{
    if pair.len() == 0 || pair[0] == ':' {
        Seq::empty()
    } else if pair[0] == '/' {
        symbol_text(pair.drop_first())
    } else {
        seq![pair[0]] + symbol_text(pair.drop_first())
    }
}

/// A symbol never holds the separators of a pair.
pub proof fn symbol_has_no_separators(pair: Seq<char>)
    ensures
        forall|i: int| 0 <= i < symbol_text(pair).len() ==> #[trigger] symbol_text(pair)[i] != '/'
            && symbol_text(pair)[i] != ':',
        symbol_text(pair).len() <= pair.len(),
    decreases pair.len(),
{
    if pair.len() > 0 && pair[0] != ':' {
        symbol_has_no_separators(pair.drop_first());
        if pair[0] != '/' {
            let rest = symbol_text(pair.drop_first());
            assert forall|i: int| 0 <= i < symbol_text(pair).len() implies #[trigger] symbol_text(
                pair,
            )[i] != '/' && symbol_text(pair)[i] != ':' by {
                if i > 0 {
                    assert(symbol_text(pair)[i] == rest[i - 1]);
                }
            }
        }
    }
}

/// The order status an exchange status string denotes; unknown strings
/// count as pending.
pub open spec fn status_from_exchange(value: Seq<char>) -> OrderStatus {
    if value == "NEW"@ {
        OrderStatus::Open
    } else if value == "PARTIALLY_FILLED"@ {
        OrderStatus::PartiallyFilled
    } else if value == "FILLED"@ {
        OrderStatus::Filled
    } else if value == "CANCELED"@ || value == "EXPIRED"@ {
        OrderStatus::Cancelled
    } else if value == "REJECTED"@ {
        OrderStatus::Rejected
    } else {
        OrderStatus::Pending
    }
}

/// Reads an exchange order status.
pub fn parse_status(value: &str) -> (res: OrderStatus)
    ensures
        res == status_from_exchange(value@),
{
    if chars_equal(value, "NEW") {
        OrderStatus::Open
    } else if chars_equal(value, "PARTIALLY_FILLED") {
        OrderStatus::PartiallyFilled
    } else if chars_equal(value, "FILLED") {
        OrderStatus::Filled
    } else if chars_equal(value, "CANCELED") || chars_equal(value, "EXPIRED") {
        OrderStatus::Cancelled
    } else if chars_equal(value, "REJECTED") {
        OrderStatus::Rejected
    } else {
        OrderStatus::Pending
    }
}

// ---------------------------------------------------------------------------
// Form encoding and signing
// ---------------------------------------------------------------------------

/// Bytes that `application/x-www-form-urlencoded` leaves as they are.
pub open spec fn form_unreserved(b: u8) -> bool {
    b == 0x2a || b == 0x2d || b == 0x2e || (0x30 <= b <= 0x39) || (0x41 <= b <= 0x5a) || b == 0x5f
        || (0x61 <= b <= 0x7a)
}

/// The form encoding of one byte: unreserved bytes as themselves, a space
/// as `+`, anything else as `%` and two upper-case hexadecimal digits.
pub open spec fn form_byte_text(b: u8) -> Seq<char> {
    if form_unreserved(b) {
        seq![b as char]
    } else if b == 0x20 {
        seq!['+']
    } else {
        seq!['%', hex_upper_digit((b / 16) as nat), hex_upper_digit((b % 16) as nat)]
    }
}

/// The form encoding of a byte string.
pub open spec fn form_bytes_text(bytes: Seq<u8>) -> Seq<char>
    decreases bytes.len(),
{
    if bytes.len() == 0 {
        Seq::empty()
    } else {
        form_byte_text(bytes[0]) + form_bytes_text(bytes.drop_first())
    }
}

/// One `name=value` pair, each side form-encoded from its UTF-8 bytes.
pub open spec fn form_pair_text(pair: (Seq<char>, Seq<char>)) -> Seq<char> {
    form_bytes_text(encode_utf8(pair.0)) + seq!['='] + form_bytes_text(encode_utf8(pair.1))
}

/// Pairs encoded in order and joined by `&`.
pub open spec fn form_text(pairs: Seq<(Seq<char>, Seq<char>)>) -> Seq<char>
    decreases pairs.len(),
{
    if pairs.len() == 0 {
        Seq::empty()
    } else if pairs.len() == 1 {
        form_pair_text(pairs[0])
    } else {
        form_text(pairs.drop_last()) + seq!['&'] + form_pair_text(pairs.last())
    }
}

/// The text of each name/value pair.
pub open spec fn pair_texts(pairs: Seq<(String, String)>) -> Seq<(Seq<char>, Seq<char>)> {
    pairs.map_values(|p: (String, String)| (p.0@, p.1@))
}

/// `serde_urlencoded::to_string` of a list of string pairs. By its source
/// (a sequence of two-element tuples of strings, written through
/// `form_urlencoded::Serializer::append_pair`) it never fails on such a
/// list, and the text is each pair's form-encoded UTF-8 bytes joined by `=`,
/// the pairs joined by `&`.
#[verifier::external_body]
fn form_urlencode(pairs: &Vec<(String, String)>) -> (res: Option<String>)
    ensures
        res is Some,
        res matches Some(s) ==> s@ == form_text(pair_texts(pairs@)),
{
    match serde_urlencoded::to_string(pairs) {
        Ok(s) => Some(s),
        Err(_) => None,
    }
}

/// The HMAC-SHA256 tag of `message` under `key`.
pub uninterp spec fn hmac_sha256(key: Seq<u8>, message: Seq<u8>) -> Seq<u8>;

/// HMAC-SHA256 of `message` under `key`, from the `hmac` and `sha2` crates.
/// `Hmac::new_from_slice` accepts keys of any length (longer keys are
/// hashed first), so a tag always comes back; it is 32 bytes long.
#[verifier::external_body]
fn hmac_sha256_tag(key: &[u8], message: &[u8]) -> (res: Option<Vec<u8>>)
    ensures
        res is Some,
        res matches Some(tag) ==> tag@ == hmac_sha256(key@, message@) && tag@.len() == 32,
{
    match <Hmac<Sha256> as Mac>::new_from_slice(key) {
        Ok(mac) => Some(mac.chain_update(message).finalize().into_bytes().to_vec()),
        Err(_) => None,
    }
}

/// Why a request could not be signed.
#[derive(Debug, Clone, Copy, PartialEq, Eq, Structural)]
pub enum SigningError {
    /// The parameters could not be form-encoded.
    Encoding,
    /// The secret was refused as an HMAC key.
    Key,
}

/// The receive window, in milliseconds, sent with every signed request.
pub open spec fn recv_window_text() -> Seq<char> {
    "3000"@
}

/// The query that is signed: the parameters followed by the timestamp and
/// the receive window.
pub open spec fn query_text(params: Seq<(Seq<char>, Seq<char>)>, timestamp_ms: int) -> Seq<char> {
    form_text(params.push(("timestamp"@, decimal_text(timestamp_ms))).push(("recvWindow"@, recv_window_text())))
}

/// The signed query string: the query, then `&signature=` and the
/// lower-case hexadecimal HMAC-SHA256 of the query's bytes under the
/// secret's bytes.
pub open spec fn signed_query_text(
    secret: Seq<char>,
    params: Seq<(Seq<char>, Seq<char>)>,
    timestamp_ms: int,
) -> Seq<char> {
    let query = query_text(params, timestamp_ms);
    query + "&signature="@ + hex_lower_bytes(hmac_sha256(encode_utf8(secret), encode_utf8(query)))
}

/// A USD-M futures account: where requests go, the credentials that sign
/// them, and the cache of orders the account knows to be live.
pub struct BinanceUsdm {
    pub base_url: String,
    pub api_key: String,
    pub secret: String,
    pub active: ActiveOrderCache,
}

impl BinanceUsdm {
    /// Every cached order is live.
    pub open spec fn cache_live(&self) -> bool {
        forall|k: Seq<char>| #[trigger] self.active@.dom().contains(k) ==> is_live(
            self.active@[k].status,
        )
    }

    /// An account on the production USD-M endpoint with an empty cache.
    pub fn new(api_key: String, secret: String) -> (res: Self)
        ensures
            res.base_url@ == "https://fapi.binance.com"@,
            res.api_key@ == api_key@,
            res.secret@ == secret@,
            res.active.wf(),
            res.active@ == Map::<Seq<char>, OrderUpdate>::empty(),
            res.cache_live(),
    {
        BinanceUsdm {
            base_url: String::from_str("https://fapi.binance.com"),
            api_key,
            secret,
            active: ActiveOrderCache::new(),
        }
    }

    /// The exchange symbol of a pair.
    pub fn symbol(pair: &str) -> (res: String)
        ensures
            res@ == symbol_text(pair@),
    {
        let n: usize = pair.unicode_len();
        let mut out = String::new();
        let mut i: usize = 0;
        assert(pair@.skip(0) =~= pair@);
        assert(out@ + symbol_text(pair@) =~= symbol_text(pair@));
        while i < n
            invariant
                n == pair@.len(),
                i <= n,
                symbol_text(pair@) == out@ + symbol_text(pair@.skip(i as int)),
            decreases n - i,
        {
            let c = pair.get_char(i);
            assert(pair@.skip(i as int).drop_first() =~= pair@.skip(i + 1));
            if c == ':' {
                assert(symbol_text(pair@.skip(i as int)) =~= Seq::<char>::empty());
                assert(symbol_text(pair@) =~= out@);
                return out;
            }
            if c != '/' {
                let ghost before = out@;
                push_char(&mut out, c);
                assert(symbol_text(pair@.skip(i as int)) == seq![c] + symbol_text(
                    pair@.skip(i + 1),
                ));
                assert(out@ + symbol_text(pair@.skip(i + 1)) =~= before + (seq![c] + symbol_text(
                    pair@.skip(i + 1),
                )));
            }
            i = i + 1;
        }
        assert(pair@.skip(n as int) =~= Seq::<char>::empty());
        assert(symbol_text(pair@) =~= out@);
        out
    }

    /// The signed query for `params` at the given time (milliseconds since
    /// the Unix epoch).
    pub fn signed_query_at(&self, params: Vec<(String, String)>, timestamp_ms: i64) -> (res: Result<
        String,
        SigningError,
    >)
        ensures
            res is Ok,
            res matches Ok(q) ==> q@ == signed_query_text(
                self.secret@,
                pair_texts(params@),
                timestamp_ms as int,
            ),
    {
        let mut all = params;
        let ghost given = all@;
        all.push((String::from_str("timestamp"), decimal_string(timestamp_ms)));
        all.push((String::from_str("recvWindow"), String::from_str("3000")));
        assert(pair_texts(all@) =~= pair_texts(given).push(
            ("timestamp"@, decimal_text(timestamp_ms as int)),
        ).push(("recvWindow"@, recv_window_text())));
        let query = match form_urlencode(&all) {
            Some(q) => q,
            None => return Err(SigningError::Encoding),
        };
        let tag = match hmac_sha256_tag(self.secret.as_str().as_bytes(), query.as_str().as_bytes()) {
            Some(t) => t,
            None => return Err(SigningError::Key),
        };
        let signature = hex_lower(tag.as_slice());
        let mut out = query;
        out.append("&signature=");
        out.append(signature.as_str());
        Ok(out)
    }

    /// The signed query for `params`, stamped with the current time in
    /// milliseconds since the Unix epoch. Reading the clock panics if the
    /// system clock reads before 1970, as `chrono::Utc::now` does.
    pub fn signed_query(&self, params: Vec<(String, String)>) -> (res: Result<String, SigningError>)
        ensures
            res is Ok,
            res matches Ok(q) ==> exists|t: Timestamp|
                t.well_formed() && 0 <= t.secs < 10_000_000_000_000 && q@ == signed_query_text(
                    self.secret@,
                    pair_texts(params@),
                    t.secs * 1000 + t.nanos / 1_000_000,
                ),
    {
        let t = now();
        let ms: i64 = t.secs * 1000 + (t.nanos / 1_000_000) as i64;
        self.signed_query_at(params, ms)
    }
}

// ---------------------------------------------------------------------------
// Requests and responses
// ---------------------------------------------------------------------------

/// The `side` parameter of an order.
pub open spec fn side_text(intent: OrderIntent) -> Seq<char> {
    if buys(intent.side, intent.reduce_only) {
        "BUY"@
    } else {
        "SELL"@
    }
}

/// The parameters of a new-order request, in the order they are sent:
/// symbol, side, type (`LIMIT` with a price, else `MARKET`), quantity, the
/// idempotent client order id `ckq_<uuid digits>`, reduce-only flag and
/// response type, then, for a limit order, the price and good-till-cancel.
/// `quantity` and `price` are the decimal texts of the intent's quantity
/// and price.
pub open spec fn order_param_texts(intent: OrderIntent, quantity: Seq<char>, price: Seq<char>) -> Seq<
    (Seq<char>, Seq<char>),
> {
    let base = seq![
        ("symbol"@, symbol_text(intent.pair@)),
        ("side"@, side_text(intent)),
        ("type"@, if intent.price_bits is Some { "LIMIT"@ } else { "MARKET"@ }),
        ("quantity"@, quantity),
        ("newClientOrderId"@, "ckq_"@ + uuid_simple_text(intent.client_id)),
        ("reduceOnly"@, if intent.reduce_only { "true"@ } else { "false"@ }),
        ("newOrderRespType"@, "RESULT"@),
    ];
    if intent.price_bits is Some {
        base.push(("price"@, price)).push(("timeInForce"@, "GTC"@))
    } else {
        base
    }
}

fn text_pair(name: &str, value: String) -> (res: (String, String))
    ensures
        res.0@ == name@,
        res.1@ == value@,
{
    (String::from_str(name), value)
}

/// The parameters of a new-order request. `quantity_text` and `price_text`
/// are the decimal texts of the intent's quantity and (for a limit order)
/// price; `price_text` is not sent for a market order.
pub fn order_params(intent: &OrderIntent, quantity_text: &str, price_text: &str) -> (res: Vec<
    (String, String),
>)
    ensures
        pair_texts(res@) == order_param_texts(*intent, quantity_text@, price_text@),
        res@.len() >= 2,
        res@[1].0@ == "side"@,
        res@[1].1@ == (if (intent.side == Side::Long && !intent.reduce_only) || (intent.side
            == Side::Short && intent.reduce_only) {
            "BUY"@
        } else {
            "SELL"@
        }),
{
    let mut params: Vec<(String, String)> = Vec::new();
    params.push(text_pair("symbol", BinanceUsdm::symbol(intent.pair.as_str())));
    params.push(text_pair("side", String::from_str(intent.side.order_side(intent.reduce_only))));
    let order_type = if intent.price_bits.is_some() {
        "LIMIT"
    } else {
        "MARKET"
    };
    params.push(text_pair("type", String::from_str(order_type)));
    params.push(text_pair("quantity", String::from_str(quantity_text)));
    let mut client_order_id = String::from_str("ckq_");
    let digits = uuid_simple(intent.client_id);
    client_order_id.append(digits.as_str());
    params.push(text_pair("newClientOrderId", client_order_id));
    let reduce = if intent.reduce_only {
        "true"
    } else {
        "false"
    };
    params.push(text_pair("reduceOnly", String::from_str(reduce)));
    params.push(text_pair("newOrderRespType", String::from_str("RESULT")));
    if intent.price_bits.is_some() {
        params.push(text_pair("price", String::from_str(price_text)));
        params.push(text_pair("timeInForce", String::from_str("GTC")));
    }
    assert(pair_texts(params@) =~= order_param_texts(*intent, quantity_text@, price_text@));
    params
}

/// The parameters of a cancel request: symbol and exchange order id.
pub fn cancel_params(pair: &str, exchange_id: &str) -> (res: Vec<(String, String)>)
    ensures
        pair_texts(res@) == seq![("symbol"@, symbol_text(pair@)), ("orderId"@, exchange_id@)],
{
    let mut params: Vec<(String, String)> = Vec::new();
    params.push(text_pair("symbol", BinanceUsdm::symbol(pair)));
    params.push(text_pair("orderId", String::from_str(exchange_id)));
    assert(pair_texts(params@) =~= seq![("symbol"@, symbol_text(pair@)), ("orderId"@, exchange_id@)]);
    params
}

/// Why an exchange request failed.
#[derive(Debug, Clone, PartialEq, Eq)]
pub enum ExchangeError {
    /// The request could not be signed.
    Signing(SigningError),
    /// The exchange refused the request with this HTTP status and body.
    Rejected { status: u16, body: String },
}

/// Whether an HTTP status reports success (2xx).
pub open spec fn http_success(status: u16) -> bool {
    200 <= status <= 299
}

/// The body of an accepted response, or the rejection.
pub fn check_response(status: u16, body: String) -> (res: Result<String, ExchangeError>)
    ensures
        http_success(status) ==> (res matches Ok(b) && b@ == body@),
        !http_success(status) ==> (res matches Err(ExchangeError::Rejected { status: s, body: b })
            && s == status && b@ == body@),
{
    if 200 <= status && status <= 299 {
        Ok(body)
    } else {
        Err(ExchangeError::Rejected { status, body })
    }
}

/// The fields of a new-order response that the engine reads.
#[derive(Debug, Clone)]
pub struct BinanceOrder {
    pub order_id: i64,
    pub status: String,
    pub executed_qty: String,
    pub avg_price: Option<String>,
}

/// The update a placed order produces: exchange id is the decimal order
/// id, the status is read from the exchange's status string, the pair and
/// client id are the intent's. `filled_quantity_bits` and
/// `average_price_bits` are the response's executed quantity and average
/// price read as numbers.
pub open spec fn placed_update(
    intent: OrderIntent,
    order: BinanceOrder,
    filled_quantity_bits: u64,
    average_price_bits: Option<u64>,
    at: Timestamp,
    res: OrderUpdate,
) -> bool {
    &&& res.exchange_id@ == decimal_text(order.order_id as int)
    &&& res.client_id == intent.client_id
    &&& res.pair@ == intent.pair@
    &&& res.status == status_from_exchange(order.status@)
    &&& res.filled_quantity_bits == filled_quantity_bits
    &&& res.average_price_bits == average_price_bits
    &&& res.updated_at == at
}

impl BinanceUsdm {
    /// The URL of the order endpoint with a signed query.
    pub fn order_url(&self, query: &str) -> (res: String)
        ensures
            res@ == self.base_url@ + "/fapi/v1/order?"@ + query@,
    {
        let mut url = self.base_url.clone();
        url.append("/fapi/v1/order?");
        url.append(query);
        url
    }

    /// The signed query of a new-order request.
    pub fn order_query(&self, intent: &OrderIntent, quantity_text: &str, price_text: &str) -> (res:
        Result<String, SigningError>)
        ensures
            res is Ok,
            res matches Ok(q) ==> exists|t: Timestamp|
                t.well_formed() && 0 <= t.secs < 10_000_000_000_000 && q@ == signed_query_text(
                    self.secret@,
                    order_param_texts(*intent, quantity_text@, price_text@),
                    t.secs * 1000 + t.nanos / 1_000_000,
                ),
    {
        let params = order_params(intent, quantity_text, price_text);
        self.signed_query(params)
    }

    /// The signed query of a cancel request.
    pub fn cancel_query(&self, pair: &str, exchange_id: &str) -> (res: Result<String, SigningError>)
        ensures
            res is Ok,
            res matches Ok(q) ==> exists|t: Timestamp|
                t.well_formed() && 0 <= t.secs < 10_000_000_000_000 && q@ == signed_query_text(
                    self.secret@,
                    seq![("symbol"@, symbol_text(pair@)), ("orderId"@, exchange_id@)],
                    t.secs * 1000 + t.nanos / 1_000_000,
                ),
    {
        let params = cancel_params(pair, exchange_id);
        self.signed_query(params)
    }

    /// Records an accepted new order: builds its update and caches it when
    /// it is still live.
    pub fn record_placed(
        &mut self,
        intent: &OrderIntent,
        order: &BinanceOrder,
        filled_quantity_bits: u64,
        average_price_bits: Option<u64>,
        at: Timestamp,
    ) -> (res: OrderUpdate)
        requires
            old(self).active.wf(),
        ensures
            placed_update(*intent, *order, filled_quantity_bits, average_price_bits, at, res),
            final(self).active.wf(),
            final(self).active@ == (if is_live(res.status) {
                old(self).active@.insert(res.exchange_id@, res)
            } else {
                old(self).active@
            }),
            old(self).cache_live() ==> final(self).cache_live(),
            final(self).base_url == old(self).base_url,
            final(self).api_key == old(self).api_key,
            final(self).secret == old(self).secret,
    {
        let update = OrderUpdate {
            exchange_id: decimal_string(order.order_id),
            client_id: intent.client_id,
            pair: intent.pair.clone(),
            status: parse_status(order.status.as_str()),
            filled_quantity_bits,
            average_price_bits,
            updated_at: at,
        };
        if crate::storage::is_active(update.status) {
            self.active.insert(update.clone());
        }
        update
    }

    /// Records an accepted cancellation: the order leaves the cache.
    pub fn record_cancelled(&mut self, exchange_id: &str)
        requires
            old(self).active.wf(),
        ensures
            final(self).active.wf(),
            final(self).active@ == old(self).active@.remove(exchange_id@),
            old(self).cache_live() ==> final(self).cache_live(),
            final(self).base_url == old(self).base_url,
            final(self).api_key == old(self).api_key,
            final(self).secret == old(self).secret,
    {
        self.active.remove(exchange_id);
    }

    /// The cached live orders, for reconciliation.
    pub fn active_orders(&self) -> (res: Vec<OrderUpdate>)
        requires
            self.active.wf(),
        ensures
            res@.len() == self.active@.dom().len(),
            forall|i: int| 0 <= i < res@.len() ==> self.active@.dom().contains(
                (#[trigger] res@[i]).exchange_id@,
            ) && self.active@[res@[i].exchange_id@] == res@[i],
            forall|k: Seq<char>| #[trigger] self.active@.dom().contains(k) ==> exists|i: int|
                0 <= i < res@.len() && (#[trigger] res@[i]).exchange_id@ == k,
    {
        self.active.values()
    }
}

/// The side of a new order follows from the position's direction and the
/// reduce-only flag alone: opening a long or closing a short buys, opening
/// a short or closing a long sells, whatever the price, quantity or id.
pub proof fn order_side_follows_direction(
    intent: OrderIntent,
    quantity: Seq<char>,
    price: Seq<char>,
    other_price_bits: Option<u64>,
    other_quantity: Seq<char>,
    other_price: Seq<char>,
)
    ensures
        order_param_texts(intent, quantity, price)[1] == ("side"@, if (intent.side == Side::Long
            && !intent.reduce_only) || (intent.side == Side::Short && intent.reduce_only) {
            "BUY"@
        } else {
            "SELL"@
        }),
        order_param_texts(intent, quantity, price)[1] == order_param_texts(
            OrderIntent { price_bits: other_price_bits, ..intent },
            other_quantity,
            other_price,
        )[1],
        intent.side == Side::Long && intent.reduce_only ==> order_param_texts(
            intent,
            quantity,
            price,
        )[1].1 == "SELL"@,
        intent.side == Side::Long && !intent.reduce_only ==> order_param_texts(
            intent,
            quantity,
            price,
        )[1].1 == "BUY"@,
{
}

/// A retried intent (same client id) is sent under the same client order
/// id, so the exchange can recognise the retry instead of opening a second
/// position; intents with different client ids never share one.
pub proof fn retry_reuses_client_order_id(
    first: OrderIntent,
    retry: OrderIntent,
    quantity: Seq<char>,
    price: Seq<char>,
    retry_quantity: Seq<char>,
    retry_price: Seq<char>,
)
    ensures
        (order_param_texts(first, quantity, price)[4] == order_param_texts(
            retry,
            retry_quantity,
            retry_price,
        )[4]) <==> first.client_id == retry.client_id,
        order_param_texts(first, quantity, price)[4].0 == "newClientOrderId"@,
{
    let prefix = "ckq_"@;
    let a = order_param_texts(first, quantity, price)[4].1;
    let b = order_param_texts(retry, retry_quantity, retry_price)[4].1;
    if a == b {
        assert((prefix + uuid_simple_text(first.client_id)).skip(prefix.len() as int)
            =~= uuid_simple_text(first.client_id));
        assert((prefix + uuid_simple_text(retry.client_id)).skip(prefix.len() as int)
            =~= uuid_simple_text(retry.client_id));
        simple_text_is_unique(first.client_id, retry.client_id);
    }
}

// ---------------------------------------------------------------------------
// Cache of live orders
// ---------------------------------------------------------------------------

/// The orders an account knows to be live, keyed by exchange order id. It
/// holds only what reconciliation needs, never lifetime history.
pub struct ActiveOrderCache {
    entries: Vec<OrderUpdate>,
    index: Ghost<Map<Seq<char>, OrderUpdate>>,
}

impl View for ActiveOrderCache {
    type V = Map<Seq<char>, OrderUpdate>;

    closed spec fn view(&self) -> Map<Seq<char>, OrderUpdate> {
        self.index@
    }
}

impl ActiveOrderCache {
    /// The entries agree with the map view, one entry per exchange id.
    pub closed spec fn wf(&self) -> bool {
        &&& forall|i: int, j: int|
            0 <= i < j < self.entries@.len() ==> (#[trigger] self.entries@[i]).exchange_id@
                != (#[trigger] self.entries@[j]).exchange_id@
        &&& forall|i: int|
            0 <= i < self.entries@.len() ==> self.index@.dom().contains(
                (#[trigger] self.entries@[i]).exchange_id@,
            ) && self.index@[self.entries@[i].exchange_id@] == self.entries@[i]
        &&& forall|k: Seq<char>|
            #[trigger] self.index@.dom().contains(k) ==> exists|i: int|
                0 <= i < self.entries@.len() && (#[trigger] self.entries@[i]).exchange_id@ == k
    }

    /// An empty cache.
    pub fn new() -> (res: Self)
        ensures
            res.wf(),
            res@ == Map::<Seq<char>, OrderUpdate>::empty(),
    {
        ActiveOrderCache { entries: Vec::new(), index: Ghost(Map::empty()) }
    }

    /// Number of cached orders.
    pub fn len(&self) -> (res: usize)
        requires
            self.wf(),
        ensures
            res == self@.dom().len(),
    {
        proof {
            self.lemma_len();
        }
        self.entries.len()
    }

    proof fn lemma_len(&self)
        requires
            self.wf(),
        ensures
            self@.dom().finite(),
            self@.dom().len() == self.entries@.len(),
        decreases self.entries@.len(),
    {
        let keys = self.entries@.map_values(|u: OrderUpdate| u.exchange_id@);
        assert(self@.dom() =~= keys.to_set()) by {
            assert forall|k: Seq<char>| self@.dom().contains(k) implies keys.to_set().contains(k) by {
                let i: int = choose|i: int|
                    0 <= i < self.entries@.len() && (#[trigger] self.entries@[i]).exchange_id@ == k;
                assert(keys[i] == k);
            }
            assert forall|k: Seq<char>| keys.to_set().contains(k) implies self@.dom().contains(k) by {
                let i: int = choose|i: int| 0 <= i < keys.len() && keys[i] == k;
                assert(self.entries@[i].exchange_id@ == k);
            }
        }
        assert(keys.no_duplicates()) by {
            assert forall|i: int, j: int|
                0 <= i < keys.len() && 0 <= j < keys.len() && i != j implies keys[i] != keys[j] by {
                if i < j {
                    assert(self.entries@[i].exchange_id@ != self.entries@[j].exchange_id@);
                } else {
                    assert(self.entries@[j].exchange_id@ != self.entries@[i].exchange_id@);
                }
            }
        }
        keys.unique_seq_to_set();
    }

    fn find(&self, exchange_id: &str) -> (res: Option<usize>)
        requires
            self.wf(),
        ensures
            res matches Some(i) ==> i < self.entries@.len() && self.entries@[i as int].exchange_id@
                == exchange_id@,
            res is None ==> !self@.dom().contains(exchange_id@),
    {
        let n: usize = self.entries.len();
        let mut i: usize = 0;
        while i < n
            invariant
                self.wf(),
                n == self.entries@.len(),
                i <= n,
                forall|j: int| 0 <= j < i ==> self.entries@[j].exchange_id@ != exchange_id@,
            decreases n - i,
        {
            if chars_equal(self.entries[i].exchange_id.as_str(), exchange_id) {
                return Some(i);
            }
            i = i + 1;
        }
        None
    }

    /// Records an order under its exchange id, replacing any earlier record.
    pub fn insert(&mut self, update: OrderUpdate)
        requires
            old(self).wf(),
        ensures
            final(self).wf(),
            final(self)@ == old(self)@.insert(update.exchange_id@, update),
    {
        let ghost key = update.exchange_id@;
        match self.find(update.exchange_id.as_str()) {
            Some(i) => {
                self.entries.set(i, update);
                self.index = Ghost(self.index@.insert(key, update));
                assert forall|k: Seq<char>| #[trigger] self.index@.dom().contains(k) implies exists|
                    j: int,
                | 0 <= j < self.entries@.len() && (#[trigger] self.entries@[j]).exchange_id@ == k by {
                    if k == key {
                        assert(self.entries@[i as int].exchange_id@ == k);
                    } else {
                        let j: int = choose|j: int|
                            0 <= j < old(self).entries@.len() && (#[trigger] old(
                                self,
                            ).entries@[j]).exchange_id@ == k;
                        assert(self.entries@[j] == old(self).entries@[j]);
                    }
                }
            },
            None => {
                self.entries.push(update);
                self.index = Ghost(self.index@.insert(key, update));
                let ghost n: int = self.entries@.len() - 1;
                assert forall|k: Seq<char>| #[trigger] self.index@.dom().contains(k) implies exists|
                    j: int,
                | 0 <= j < self.entries@.len() && (#[trigger] self.entries@[j]).exchange_id@ == k by {
                    if k == key {
                        assert(self.entries@[n].exchange_id@ == k);
                    } else {
                        let j: int = choose|j: int|
                            0 <= j < old(self).entries@.len() && (#[trigger] old(
                                self,
                            ).entries@[j]).exchange_id@ == k;
                        assert(self.entries@[j] == old(self).entries@[j]);
                    }
                }
                assert forall|a: int, b: int|
                    0 <= a < b < self.entries@.len() implies (#[trigger] self.entries@[a]).exchange_id@
                    != (#[trigger] self.entries@[b]).exchange_id@ by {
                    if b == n {
                        assert(old(self).index@.dom().contains(self.entries@[a].exchange_id@));
                    }
                }
            },
        }
    }

    /// Forgets the order with this exchange id, if cached.
    pub fn remove(&mut self, exchange_id: &str)
        requires
            old(self).wf(),
        ensures
            final(self).wf(),
            final(self)@ == old(self)@.remove(exchange_id@),
    {
        match self.find(exchange_id) {
            Some(i) => {
                let ghost before = self.entries@;
                self.entries.remove(i);
                self.index = Ghost(self.index@.remove(exchange_id@));
                assert forall|a: int, b: int|
                    0 <= a < b < self.entries@.len() implies (#[trigger] self.entries@[a]).exchange_id@
                    != (#[trigger] self.entries@[b]).exchange_id@ by {
                    let a0 = if a < i { a } else { a + 1 };
                    let b0 = if b < i { b } else { b + 1 };
                    assert(self.entries@[a] == before[a0]);
                    assert(self.entries@[b] == before[b0]);
                }
                assert forall|a: int| 0 <= a < self.entries@.len() implies self.index@.dom().contains(
                    (#[trigger] self.entries@[a]).exchange_id@,
                ) && self.index@[self.entries@[a].exchange_id@] == self.entries@[a] by {
                    let a0 = if a < i { a } else { a + 1 };
                    assert(self.entries@[a] == before[a0]);
                    assert(before[a0].exchange_id@ != before[i as int].exchange_id@);
                }
                assert forall|k: Seq<char>| #[trigger] self.index@.dom().contains(k) implies exists|
                    j: int,
                | 0 <= j < self.entries@.len() && (#[trigger] self.entries@[j]).exchange_id@ == k by {
                    let j: int = choose|j: int|
                        0 <= j < before.len() && (#[trigger] before[j]).exchange_id@ == k;
                    if j < i {
                        assert(self.entries@[j] == before[j]);
                    } else {
                        assert(j != i);
                        assert(self.entries@[j - 1] == before[j]);
                    }
                }
            },
            None => {
                assert(self.index@.remove(exchange_id@) =~= self.index@);
            },
        }
    }

    /// Every cached order, each once.
    pub fn values(&self) -> (res: Vec<OrderUpdate>)
        requires
            self.wf(),
        ensures
            res@.len() == self@.dom().len(),
            forall|i: int| 0 <= i < res@.len() ==> self@.dom().contains(
                (#[trigger] res@[i]).exchange_id@,
            ) && self@[res@[i].exchange_id@] == res@[i],
            forall|k: Seq<char>| #[trigger] self@.dom().contains(k) ==> exists|i: int|
                0 <= i < res@.len() && (#[trigger] res@[i]).exchange_id@ == k,
    {
        proof {
            self.lemma_len();
        }
        let n: usize = self.entries.len();
        let mut out: Vec<OrderUpdate> = Vec::new();
        let mut i: usize = 0;
        while i < n
            invariant
                self.wf(),
                n == self.entries@.len(),
                i <= n,
                out@ == self.entries@.take(i as int),
            decreases n - i,
        {
            out.push(self.entries[i].clone());
            assert(out@ =~= self.entries@.take(i + 1));
            i = i + 1;
        }
        assert(out@ =~= self.entries@);
        out
    }
}

} // verus!
