//! Split persistence: live orders stay in a small active table while
//! terminal orders move to a separate history database, so that lifetime
//! history never enters the trading hot path. The SQL itself runs outside
//! the library; this module decides which statements an update needs,
//! where the history database lives, and proves what those statements do
//! to the two tables.
use vstd::prelude::*;
use crate::domain::{is_live, OrderStatus, OrderUpdate};
use crate::ids::{new_client_id, uuid_hyphenated, uuid_hyphenated_text};
use crate::text::{chars_equal, has_prefix, starts_with};

verus! {

// ---------------------------------------------------------------------------
// Order status classification
// ---------------------------------------------------------------------------

/// Whether an order in this status belongs in the active table.
pub fn is_active(status: OrderStatus) -> (res: bool)
    ensures
        res == is_live(status),
{
    match status {
        OrderStatus::Pending | OrderStatus::Open | OrderStatus::PartiallyFilled => true,
        _ => false,
    }
}

/// The name under which a status is stored.
pub open spec fn status_text(status: OrderStatus) -> Seq<char> {
    match status {
        OrderStatus::Pending => "pending"@,
        OrderStatus::Open => "open"@,
        OrderStatus::PartiallyFilled => "partially_filled"@,
        OrderStatus::Filled => "filled"@,
        OrderStatus::Cancelled => "cancelled"@,
        OrderStatus::Rejected => "rejected"@,
    }
}

/// The name under which a status is stored.
pub fn status_name(status: OrderStatus) -> (res: &'static str)
    ensures
        res@ == status_text(status),
{
    match status {
        OrderStatus::Pending => "pending",
        OrderStatus::Open => "open",
        OrderStatus::PartiallyFilled => "partially_filled",
        OrderStatus::Filled => "filled",
        OrderStatus::Cancelled => "cancelled",
        OrderStatus::Rejected => "rejected",
    }
}

/// Distinct statuses are stored under distinct names, so a stored row
/// always tells which status it had.
pub proof fn status_names_distinct(a: OrderStatus, b: OrderStatus)
    requires
        a != b,
    ensures
        status_text(a) != status_text(b),
{
    reveal_strlit("pending");
    reveal_strlit("open");
    reveal_strlit("partially_filled");
    reveal_strlit("filled");
    reveal_strlit("cancelled");
    reveal_strlit("rejected");
    let ta = status_text(a);
    let tb = status_text(b);
    if ta.len() == tb.len() {
        // same length: the first character tells them apart, except for
        // the two names that share it, which differ in the second
        if ta[0] == tb[0] {
            assert(ta[1] != tb[1]);
        } else {
            assert(ta[0] != tb[0]);
        }
    }
}

// ---------------------------------------------------------------------------
// Upsert plan
// ---------------------------------------------------------------------------

/// The two order tables.
#[derive(Debug, Clone, Copy, PartialEq, Eq, Structural)]
pub enum OrderTable {
    /// `active_orders`, in the latency-critical database.
    Active,
    /// `order_history`, in the separate history database.
    History,
}

/// One statement of an upsert.
#[derive(Debug, Clone, Copy, PartialEq, Eq, Structural)]
pub enum StorageStep {
    /// Insert the update, or overwrite the row with the same client id.
    Upsert(OrderTable),
    /// Delete the active row with the update's client id.
    RemoveFromActive,
}

/// The statements that store an update in this status: a live order is
/// upserted into the active table; a terminal one is archived first and
/// only then removed from the active table, so that a crash between the two
/// statements cannot lose it.
pub open spec fn upsert_steps(status: OrderStatus) -> Seq<StorageStep> {
    if is_live(status) {
        seq![StorageStep::Upsert(OrderTable::Active)]
    } else {
        seq![StorageStep::Upsert(OrderTable::History), StorageStep::RemoveFromActive]
    }
}

/// The statements, in order, that store an update in this status.
pub fn upsert_plan(status: OrderStatus) -> (plan: Vec<StorageStep>)
    ensures
        plan@ == upsert_steps(status),
{
    let mut plan = Vec::new();
    if is_active(status) {
        plan.push(StorageStep::Upsert(OrderTable::Active));
    } else {
        plan.push(StorageStep::Upsert(OrderTable::History));
        plan.push(StorageStep::RemoveFromActive);
    }
    assert(plan@ =~= upsert_steps(status));
    plan
}

/// The SQL name of a table.
pub open spec fn table_text(table: OrderTable) -> Seq<char> {
    match table {
        OrderTable::Active => "active_orders"@,
        OrderTable::History => "order_history"@,
    }
}

/// The SQL name of a table.
pub fn table_name(table: OrderTable) -> (res: &'static str)
    ensures
        res@ == table_text(table),
{
    match table {
        OrderTable::Active => "active_orders",
        OrderTable::History => "order_history",
    }
}

/// Columns and conflict clause of an upsert, after the table name.
pub open spec fn upsert_tail() -> Seq<char> {
    "(client_id, exchange_id, pair, status, filled_quantity, average_price, updated_at) VALUES(?, ?, ?, ?, ?, ?, ?) ON CONFLICT(client_id) DO UPDATE SET exchange_id=excluded.exchange_id, pair=excluded.pair, status=excluded.status, filled_quantity=excluded.filled_quantity, average_price=excluded.average_price, updated_at=excluded.updated_at"@
}

/// The parameterised upsert statement for a table; its seven parameters
/// are client id, exchange id, pair, status name, filled quantity, average
/// price and update time, in that order.
pub fn upsert_statement(table: OrderTable) -> (res: String)
    ensures
        res@ == "INSERT INTO "@ + table_text(table) + upsert_tail(),
{
    let mut sql = String::from_str("INSERT INTO ");
    sql.append(table_name(table));
    sql.append(
        "(client_id, exchange_id, pair, status, filled_quantity, average_price, updated_at) VALUES(?, ?, ?, ?, ?, ?, ?) ON CONFLICT(client_id) DO UPDATE SET exchange_id=excluded.exchange_id, pair=excluded.pair, status=excluded.status, filled_quantity=excluded.filled_quantity, average_price=excluded.average_price, updated_at=excluded.updated_at",
    );
    sql
}

/// The statement that removes an active row; its parameter is the client id.
pub fn remove_active_statement() -> (res: &'static str)
    ensures
        res@ == "DELETE FROM active_orders WHERE client_id = ?"@,
{
    "DELETE FROM active_orders WHERE client_id = ?"
}

// ---------------------------------------------------------------------------
// What the statements do to the tables
// ---------------------------------------------------------------------------

/// The contents of the two tables, each keyed by client id (the tables'
/// primary key).
pub struct OrderTables {
    pub active: Map<u128, OrderUpdate>,
    pub history: Map<u128, OrderUpdate>,
}

/// The tables after one statement for `order`.
pub open spec fn apply_step(t: OrderTables, step: StorageStep, order: OrderUpdate) -> OrderTables {
    match step {
        StorageStep::Upsert(OrderTable::Active) => OrderTables {
            active: t.active.insert(order.client_id, order),
            history: t.history,
        },
        StorageStep::Upsert(OrderTable::History) => OrderTables {
            active: t.active,
            history: t.history.insert(order.client_id, order),
        },
        StorageStep::RemoveFromActive => OrderTables {
            active: t.active.remove(order.client_id),
            history: t.history,
        },
    }
}

/// The tables after running `steps` for `order`, in order.
pub open spec fn apply_steps(t: OrderTables, steps: Seq<StorageStep>, order: OrderUpdate) -> OrderTables
    decreases steps.len(),
{
    if steps.len() == 0 {
        t
    } else {
        apply_steps(apply_step(t, steps[0], order), steps.drop_first(), order)
    }
}

/// The tables after storing `order`.
pub open spec fn store(t: OrderTables, order: OrderUpdate) -> OrderTables {
    apply_steps(t, upsert_steps(order.status), order)
}

/// The tables after storing each update of `orders`, in order.
pub open spec fn store_all(t: OrderTables, orders: Seq<OrderUpdate>) -> OrderTables
    decreases orders.len(),
{
    if orders.len() == 0 {
        t
    } else {
        store_all(store(t, orders[0]), orders.drop_first())
    }
}

/// Replaying an update changes nothing: storing the same update twice
/// leaves the tables as storing it once, so reconciliation may re-send
/// what the exchange already reported.
pub proof fn storing_twice_changes_nothing(t: OrderTables, order: OrderUpdate)
    ensures
        store(store(t, order), order) == store(t, order),
{
    if is_live(order.status) {
        live_update_stays_active(t, order);
        live_update_stays_active(store(t, order), order);
        assert(store(store(t, order), order).active =~= store(t, order).active);
    } else {
        terminal_update_leaves_active_table(t, order);
        terminal_update_leaves_active_table(store(t, order), order);
        assert(store(store(t, order), order).active =~= store(t, order).active);
        assert(store(store(t, order), order).history =~= store(t, order).history);
    }
}

/// Every row of the active table is a live order.
pub open spec fn active_rows_live(t: OrderTables) -> bool {
    forall|k: u128| #[trigger] t.active.dom().contains(k) ==> is_live(t.active[k].status)
}

/// A terminal update leaves the latency-critical table: afterwards its
/// client id has no active row, the history holds the update, and nothing
/// else changes.
pub proof fn terminal_update_leaves_active_table(t: OrderTables, order: OrderUpdate)
    requires
        !is_live(order.status),
    ensures
        !store(t, order).active.dom().contains(order.client_id),
        store(t, order).active == t.active.remove(order.client_id),
        store(t, order).history == t.history.insert(order.client_id, order),
{
    reveal_with_fuel(apply_steps, 3);
    let s = upsert_steps(order.status);
    assert(s.drop_first().drop_first() =~= Seq::<StorageStep>::empty());
}

/// A live update is written to the active table only, replacing any row
/// with the same client id; a read of that client id gives it back.
pub proof fn live_update_stays_active(t: OrderTables, order: OrderUpdate)
    requires
        is_live(order.status),
    ensures
        store(t, order).active == t.active.insert(order.client_id, order),
        store(t, order).active[order.client_id] == order,
        store(t, order).history == t.history,
{
    reveal_with_fuel(apply_steps, 2);
    let s = upsert_steps(order.status);
    assert(s.drop_first() =~= Seq::<StorageStep>::empty());
}

/// Storing updates keeps the active table free of terminal orders.
pub proof fn store_keeps_active_rows_live(t: OrderTables, order: OrderUpdate)
    requires
        active_rows_live(t),
    ensures
        active_rows_live(store(t, order)),
{
    if is_live(order.status) {
        live_update_stays_active(t, order);
    } else {
        terminal_update_leaves_active_table(t, order);
    }
}

/// Archiving first: after every non-empty prefix of the statements for an
/// update, the update is already recorded in the table it belongs to, so a
/// crash part-way through cannot lose it.
pub proof fn partial_upsert_keeps_update(t: OrderTables, order: OrderUpdate, k: int)
    requires
        1 <= k <= upsert_steps(order.status).len(),
    ensures
        ({
            let p = apply_steps(t, upsert_steps(order.status).take(k), order);
            if is_live(order.status) {
                p.active.dom().contains(order.client_id) && p.active[order.client_id] == order
            } else {
                p.history.dom().contains(order.client_id) && p.history[order.client_id] == order
            }
        }),
{
    reveal_with_fuel(apply_steps, 3);
    let s = upsert_steps(order.status);
    if is_live(order.status) {
        assert(s.take(k).drop_first() =~= Seq::<StorageStep>::empty());
    } else if k == 1 {
        assert(s.take(k).drop_first() =~= Seq::<StorageStep>::empty());
    } else {
        assert(s.take(k) =~= s);
        assert(s.drop_first().drop_first() =~= Seq::<StorageStep>::empty());
    }
}

/// Growing history never grows the active table: after any run of terminal
/// updates the active table holds no client id it did not hold before, and
/// every one of those updates sits in history unless a later one of the run
/// replaced it.
pub proof fn terminal_updates_never_grow_active_table(t: OrderTables, orders: Seq<OrderUpdate>)
    requires
        forall|i: int| 0 <= i < orders.len() ==> !is_live(#[trigger] orders[i].status),
    ensures
        store_all(t, orders).active.dom().subset_of(t.active.dom()),
        store_all(t, orders).history.dom() =~= t.history.dom().union(
            Set::new(|k: u128| exists|i: int| 0 <= i < orders.len() && orders[i].client_id == k),
        ),
        forall|i: int|
            0 <= i < orders.len() ==> !#[trigger] store_all(t, orders).active.dom().contains(
                orders[i].client_id,
            ),
    decreases orders.len(),
{
    if orders.len() > 0 {
        let o = orders[0];
        terminal_update_leaves_active_table(t, o);
        let t1 = store(t, o);
        let rest = orders.drop_first();
        assert forall|i: int| 0 <= i < rest.len() implies !is_live(#[trigger] rest[i].status) by {
            assert(rest[i] == orders[i + 1]);
        }
        terminal_updates_never_grow_active_table(t1, rest);
        assert(store_all(t, orders) == store_all(t1, rest));
        let ids = Set::new(
            |k: u128| exists|i: int| 0 <= i < orders.len() && orders[i].client_id == k,
        );
        let rest_ids = Set::new(
            |k: u128| exists|i: int| 0 <= i < rest.len() && rest[i].client_id == k,
        );
        assert forall|k: u128| ids.contains(k) <==> (k == o.client_id || rest_ids.contains(k)) by {
            if ids.contains(k) {
                let i: int = choose|i: int| 0 <= i < orders.len() && orders[i].client_id == k;
                if i > 0 {
                    assert(rest[i - 1] == orders[i]);
                }
            }
            if rest_ids.contains(k) {
                let i: int = choose|i: int| 0 <= i < rest.len() && rest[i].client_id == k;
                assert(orders[i + 1] == rest[i]);
            }
            if k == o.client_id {
                assert(orders[0].client_id == k);
            }
        }
        assert forall|i: int| 0 <= i < orders.len() implies !#[trigger] store_all(
            t,
            orders,
        ).active.dom().contains(orders[i].client_id) by {
            if i > 0 {
                assert(rest[i - 1] == orders[i]);
            } else {
                assert(!t1.active.dom().contains(o.client_id));
            }
        }
    } else {
        assert(Set::new(
            |k: u128| exists|i: int| 0 <= i < orders.len() && orders[i].client_id == k,
        ) =~= Set::<u128>::empty());
    }
}

// ---------------------------------------------------------------------------
// Where the history database lives
// ---------------------------------------------------------------------------

/// Why no history database could be derived from a database URL.
#[derive(Debug, Clone, PartialEq, Eq)]
pub enum StorageError {
    /// The URL does not name an SQLite database; holds the URL.
    UnsupportedDatabase(String),
    /// The database path has no final file name.
    MissingFileName,
}

impl StorageError {
    /// The human-readable description of the error.
    pub fn message(&self) -> (res: String)
        ensures
            res@ == (match self {
                StorageError::UnsupportedDatabase(url) => "only SQLite storage is currently supported: "@
                    + url@,
                StorageError::MissingFileName => "database URL must end in a file name"@,
            }),
    {
        match self {
            StorageError::UnsupportedDatabase(url) => {
                let mut m = String::from_str("only SQLite storage is currently supported: ");
                m.append(url.as_str());
                m
            },
            StorageError::MissingFileName => String::from_str(
                "database URL must end in a file name",
            ),
        }
    }
}

/// The final component of a path, as `std::path::Path::file_name` reads it
/// (`None` when the path is empty, ends in `..`, or is a root).
pub uninterp spec fn path_file_name(path: Seq<char>) -> Option<Seq<char>>;

/// The path with its final component replaced by `name`, as
/// `std::path::Path::with_file_name` builds it.
pub uninterp spec fn path_with_file_name(path: Seq<char>, name: Seq<char>) -> Seq<char>;

/// The final component of a path (`Path::file_name`), read back as text.
/// The path comes from a `&str`, so the component is valid UTF-8 and the
/// lossy conversion is exact. A component is a non-empty run of characters
/// between separators, so it holds no `/` (the separator on Unix targets).
#[verifier::external_body]
fn file_name_of(path: &str) -> (res: Option<String>)
    ensures
        res is Some <==> path_file_name(path@) is Some,
        res matches Some(n) ==> Some(n@) == path_file_name(path@),
        res matches Some(n) ==> n@.len() > 0 && !n@.contains('/'),
{
    match std::path::Path::new(path).file_name() {
        Some(name) => Some(name.to_string_lossy().into_owned()),
        None => None,
    }
}

/// The path with its final component replaced (`Path::with_file_name`),
/// read back as text; both inputs are valid UTF-8, so the lossy conversion
/// is exact. `with_file_name` pops the old final component, if any, and
/// pushes `name`; a `name` that is a single ordinary component (non-empty,
/// no `/`, neither `.` nor `..`) is the final component of the result.
/// That holds on Unix targets, which this library is built for, where `/`
/// is the only separator; on Windows `\` and `:` separate too.
#[verifier::external_body]
fn with_file_name(path: &str, name: &str) -> (res: String)
    ensures
        res@ == path_with_file_name(path@, name@),
        name@.len() > 2 && !name@.contains('/') ==> path_file_name(res@) == Some(name@),
{
    std::path::Path::new(path).with_file_name(name).to_string_lossy().into_owned()
}

/// Index of the last occurrence of `c` in `s`, or -1.
pub open spec fn last_index_of(s: Seq<char>, c: char) -> int
    decreases s.len(),
{
    if s.len() == 0 {
        -1
    } else if s.last() == c {
        s.len() - 1
    } else {
        last_index_of(s.drop_last(), c)
    }
}

/// Whether a file name has an extension: a `.` after its first character
/// (the special name `..` has none).
pub open spec fn has_extension(name: Seq<char>) -> bool {
    name != seq!['.', '.'] && last_index_of(name, '.') > 0
}

/// The stem of a file name (`Path::file_stem`): the part before the final
/// `.`, or the whole name when it has no extension.
pub open spec fn stem_text(name: Seq<char>) -> Seq<char> {
    if has_extension(name) {
        name.take(last_index_of(name, '.'))
    } else {
        name
    }
}

/// The extension of a file name (`Path::extension`): the part after the
/// final `.`.
pub open spec fn extension_text(name: Seq<char>) -> Seq<char> {
    name.skip(last_index_of(name, '.') + 1)
}

/// The name of the history database beside a database file: `stem.history.ext`,
/// or `stem.history.sqlite` when the file has no extension.
pub open spec fn history_file_text(name: Seq<char>) -> Seq<char> {
    if has_extension(name) {
        stem_text(name) + ".history."@ + extension_text(name)
    } else {
        name + ".history.sqlite"@
    }
}

/// The history URL for an SQLite URL with the given scheme prefix and path.
pub open spec fn sibling_history_url(prefix: Seq<char>, path: Seq<char>) -> Result<Seq<char>, StorageError> {
    match path_file_name(path) {
        None => Err(StorageError::MissingFileName),
        Some(name) => Ok(prefix + path_with_file_name(path, history_file_text(name))),
    }
}

/// The URL of the in-memory history database paired with an in-memory
/// active database; `memory_id` makes it private to one connection set.
pub open spec fn memory_history_url(memory_id: u128) -> Seq<char> {
    "sqlite:file:ck_quant_history_"@ + uuid_hyphenated_text(memory_id)
        + "?mode=memory&cache=shared"@
}

/// Whether a URL, read as text, equals the URL of an in-memory database.
pub open spec fn is_memory_url(url: Seq<char>) -> bool {
    url == "sqlite::memory:"@
}

/// The history database URL derived from a database URL: an in-memory
/// database gets a private shared-cache memory database; an `sqlite://` or
/// `sqlite:` URL gets the file `stem.history.ext` beside its own file; any
/// other URL is refused. The scheme prefix is kept as written.
pub open spec fn history_url_text(url: Seq<char>, memory_id: u128) -> Result<Seq<char>, StorageError> {
    if is_memory_url(url) {
        Ok(memory_history_url(memory_id))
    } else if has_prefix(url, "sqlite://"@) {
        sibling_history_url("sqlite://"@, url.skip("sqlite://"@.len() as int))
    } else if has_prefix(url, "sqlite:"@) {
        sibling_history_url("sqlite:"@, url.skip("sqlite:"@.len() as int))
    } else {
        Err(StorageError::UnsupportedDatabase(arbitrary()))
    }
}

/// The refusal, if any, carries the URL it refused.
pub open spec fn refusal_names_url(res: Result<String, StorageError>, url: Seq<char>) -> bool {
    res matches Err(StorageError::UnsupportedDatabase(u)) ==> u@ == url
}

/// Results agree with the derivation, the refused URL compared by text.
pub open spec fn history_result_matches(
    res: Result<String, StorageError>,
    expected: Result<Seq<char>, StorageError>,
) -> bool {
    match (res, expected) {
        (Ok(s), Ok(t)) => s@ == t,
        (Err(StorageError::MissingFileName), Err(StorageError::MissingFileName)) => true,
        (Err(StorageError::UnsupportedDatabase(_)), Err(StorageError::UnsupportedDatabase(_))) => true,
        _ => false,
    }
}

proof fn lemma_last_index_bounds(s: Seq<char>, c: char)
    ensures
        -1 <= last_index_of(s, c) < s.len(),
        last_index_of(s, c) >= 0 ==> s[last_index_of(s, c)] == c,
    decreases s.len(),
{
    if s.len() > 0 && s.last() != c {
        lemma_last_index_bounds(s.drop_last(), c);
    }
}

/// The history file name is longer than the name it derives from (so the
/// two never coincide), and like a file name it holds no `/`.
pub proof fn history_file_text_shape(name: Seq<char>)
    ensures
        history_file_text(name).len() >= name.len() + 8,
        !name.contains('/') ==> !history_file_text(name).contains('/'),
{
    reveal_strlit(".history.");
    reveal_strlit(".history.sqlite");
    lemma_last_index_bounds(name, '.');
    let h = history_file_text(name);
    if !name.contains('/') {
        if has_extension(name) {
            let k = last_index_of(name, '.');
            let stem = name.take(k);
            let ext = name.skip(k + 1);
            assert forall|i: int| 0 <= i < h.len() implies h[i] != '/' by {
                if i < stem.len() {
                    assert(h[i] == name[i]);
                } else if i < stem.len() + 9 {
                    assert(h[i] == ".history."@[i - stem.len()]);
                } else {
                    assert(h[i] == name[i - 9 + 1]);
                }
            }
        } else {
            assert forall|i: int| 0 <= i < h.len() implies h[i] != '/' by {
                if i >= name.len() {
                    assert(h[i] == ".history.sqlite"@[i - name.len()]);
                }
            }
        }
    }
}

/// The name of the history file beside a file called `name`.
pub fn history_file_name(name: &str) -> (res: String)
    ensures
        res@ == history_file_text(name@),
{
    let n: usize = name.unicode_len();
    // position of the last '.'
    let mut last: usize = 0;
    let mut found = false;
    let mut i: usize = 0;
    while i < n
        invariant
            n == name@.len(),
            i <= n,
            found ==> last < i && last_index_of(name@.take(i as int), '.') == last,
            !found ==> last_index_of(name@.take(i as int), '.') == -1,
        decreases n - i,
    {
        assert(name@.take(i + 1).drop_last() =~= name@.take(i as int));
        if name.get_char(i) == '.' {
            last = i;
            found = true;
        }
        i = i + 1;
    }
    assert(name@.take(n as int) =~= name@);
    let dotdot = chars_equal(name, "..");
    proof {
        reveal_strlit("..");
        assert(".."@ =~= seq!['.', '.']);
        assert(dotdot == (name@ == seq!['.', '.']));
    }
    if found && last > 0 && !dotdot {
        let stem = name.substring_char(0, last);
        let ext = name.substring_char(last + 1, n);
        let mut out = String::from_str(stem);
        out.append(".history.");
        out.append(ext);
        out
    } else {
        let mut out = String::from_str(name);
        out.append(".history.sqlite");
        out
    }
}

/// The history URL for an SQLite URL with scheme prefix `prefix` and path `path`.
fn sibling_history(prefix: &str, path: &str) -> (res: Result<String, StorageError>)
    ensures
        history_result_matches(res, sibling_history_url(prefix@, path@)),
        res matches Ok(h) ==> h@ != prefix@ + path@,
{
    match file_name_of(path) {
        None => Err(StorageError::MissingFileName),
        Some(name) => {
            let file = history_file_name(name.as_str());
            proof {
                history_file_text_shape(name@);
            }
            let sibling = with_file_name(path, file.as_str());
            let mut out = String::from_str(prefix);
            out.append(sibling.as_str());
            proof {
                if out@ == prefix@ + path@ {
                    assert(sibling@ =~= (prefix@ + path@).skip(prefix@.len() as int));
                    assert(sibling@ =~= path@);
                    assert(path_file_name(sibling@) == Some(file@));
                    assert(file@.len() != name@.len());
                }
            }
            Ok(out)
        },
    }
}

/// The history database URL for `database_url`, using `memory_id` to name
/// the history of an in-memory database.
pub fn history_database_url_with(database_url: &str, memory_id: u128) -> (res: Result<
    String,
    StorageError,
>)
    ensures
        history_result_matches(res, history_url_text(database_url@, memory_id)),
        refusal_names_url(res, database_url@),
        res matches Ok(h) ==> h@ != database_url@,
{
    if chars_equal(database_url, "sqlite::memory:") {
        let mut out = String::from_str("sqlite:file:ck_quant_history_");
        let id = uuid_hyphenated(memory_id);
        out.append(id.as_str());
        out.append("?mode=memory&cache=shared");
        proof {
            reveal_strlit("sqlite::memory:");
            reveal_strlit("sqlite:file:ck_quant_history_");
            assert(out@.len() > "sqlite::memory:"@.len());
        }
        return Ok(out);
    }
    let n: usize = database_url.unicode_len();
    if starts_with(database_url, "sqlite://") {
        let k: usize = "sqlite://".unicode_len();
        let path = database_url.substring_char(k, n);
        assert(path@ =~= database_url@.skip("sqlite://"@.len() as int));
        assert(database_url@ =~= "sqlite://"@ + path@);
        sibling_history("sqlite://", path)
    } else if starts_with(database_url, "sqlite:") {
        let k: usize = "sqlite:".unicode_len();
        let path = database_url.substring_char(k, n);
        assert(path@ =~= database_url@.skip("sqlite:"@.len() as int));
        assert(database_url@ =~= "sqlite:"@ + path@);
        sibling_history("sqlite:", path)
    } else {
        Err(StorageError::UnsupportedDatabase(String::from_str(database_url)))
    }
}

/// The history database URL for `database_url`. An in-memory database gets
/// a fresh random identifier, so every call for `sqlite::memory:` names a
/// new private history database; for every other URL the result is
/// determined by the URL.
pub fn history_database_url(database_url: &str) -> (res: Result<String, StorageError>)
    ensures
        exists|id: u128| history_result_matches(res, history_url_text(database_url@, id)),
        !is_memory_url(database_url@) ==> forall|id: u128|
            history_result_matches(res, history_url_text(database_url@, id)),
        refusal_names_url(res, database_url@),
        res matches Ok(h) ==> h@ != database_url@,
        is_memory_url(database_url@) ==> exists|id: u128|
            (id as int / vstd::arithmetic::power2::pow2(76) as int) % 16 == 4 && (id as int
                / vstd::arithmetic::power2::pow2(62) as int) % 4 == 2 && history_result_matches(
                res,
                history_url_text(database_url@, id),
            ),
{
    let memory = chars_equal(database_url, "sqlite::memory:");
    let id: u128 = if memory {
        new_client_id()
    } else {
        0
    };
    let res = history_database_url_with(database_url, id);
    proof {
        assert(history_result_matches(res, history_url_text(database_url@, id)));
        if !is_memory_url(database_url@) {
            assert forall|other: u128|
                history_result_matches(res, history_url_text(database_url@, other)) by {
                assert(history_url_text(database_url@, other) == history_url_text(
                    database_url@,
                    id,
                ));
            }
        }
    }
    res
}

} // verus!
