//! The key-value store that every operation works on.
//!
//! The store is a `MemoryStorage` of `cosmwasm_std`, read and written through
//! the typed maps of `cw_storage_plus`. Verus does not see inside either, so
//! what the store holds is given names here, and each call into the two crates
//! is made by a small function whose contract is taken on trust. [`Store`]
//! is built on those functions and is verified.

use vstd::prelude::*;
use vstd::utf8::encode_utf8;
use cosmwasm_std::MemoryStorage;
use cosmwasm_std::Order;
use cosmwasm_std::StdError;
use cosmwasm_std::Uint128;
use cw_storage_plus::Bound;
use cw_storage_plus::Map as TypedMap;
use cw_storage_plus::PrefixBound;
use crate::chain::ChainUid;
use crate::listing::is_listing;
use crate::token::Token;
use crate::token::text_lt;
use crate::token::valid_id;

verus! {

/// `cosmwasm_std::MemoryStorage`, taken as it is: nothing is known of what
/// is inside but what the functions below say.
#[verifier::external_type_specification]
#[verifier::external_body]
pub struct ExMemoryStorage(MemoryStorage);

/// `cosmwasm_std::StdError`, taken as it is.
#[verifier::external_type_specification]
#[verifier::external_body]
pub struct ExStdError(StdError);

/// Whether an identifier fits the two-byte length field that precedes it when
/// it stands at the head of a composite key.
pub open spec fn fits(id: Seq<char>) -> bool {
    encode_utf8(id).len() <= 0xFFFF
}

/// An identifier as it stands at the head of a composite key: its length in
/// two bytes, high byte first, then its UTF-8 form.
pub open spec fn framed(id: Seq<char>) -> Seq<u8> {
    let bytes = encode_utf8(id);
    seq![(bytes.len() / 256) as u8, (bytes.len() % 256) as u8] + bytes
}

/// The stored form of a composite key: the first part framed, the second
/// part as it is.
pub open spec fn pair_key(a: Seq<char>, b: Seq<char>) -> Seq<u8> {
    framed(a) + encode_utf8(b)
}

/// The stored form of composite keys, as a function.
pub open spec fn pair_raw() -> spec_fn((Seq<char>, Seq<char>)) -> Seq<u8> {
    |k: (Seq<char>, Seq<char>)| pair_key(k.0, k.1)
}

/// The stored form of simple keys, as a function.
pub open spec fn text_raw() -> spec_fn(Seq<char>) -> Seq<u8> {
    |k: Seq<char>| encode_utf8(k)
}

/// The bound that a composite key sets on a listing.
pub open spec fn pair_bound(k: Option<(&str, &str)>) -> Option<Seq<u8>> {
    match k {
        Some(k) => Some(pair_key(k.0@, k.1@)),
        None => None,
    }
}

/// The bound that the first part of a composite key sets on a listing.
pub open spec fn head_bound(k: Option<&str>) -> Option<Seq<u8>> {
    match k {
        Some(k) => Some(framed(k@)),
        None => None,
    }
}

/// The bound that a simple key sets on a listing.
pub open spec fn text_bound(k: Option<&str>) -> Option<Seq<u8>> {
    match k {
        Some(k) => Some(encode_utf8(k@)),
        None => None,
    }
}

/// The tables that map a composite key to a text.
pub open spec fn is_text_pair_table(ns: Seq<char>) -> bool {
    ns == "vlps"@ || ns == "pair_to_vlp"@
}

/// The tables that map a composite key to an amount.
pub open spec fn is_amount_table(ns: Seq<char>) -> bool {
    ns == "escrow_balances"@
}

/// The tables that map a simple key to a text.
pub open spec fn is_text_table(ns: Seq<char>) -> bool {
    ns == "chains"@ || ns == "token_to_escrow"@ || ns == "config"@
}

/// The tables that hold the requests in flight.
pub open spec fn is_pending_table(ns: Seq<char>) -> bool {
    ns == "pending_pool"@ || ns == "pending_add_liquidity"@ || ns == "pending_remove_liquidity"@
        || ns == "pending_swaps"@
}

/// Every entry of the storage was written by one of the functions of this
/// module, each table by the functions of its own kind. Such an entry reads
/// back as the key and the value that were written.
pub uninterp spec fn well_formed(s: MemoryStorage) -> bool;

/// The entries of table `ns`, read as composite keys with text values.
pub uninterp spec fn text_pairs(s: MemoryStorage, ns: Seq<char>) -> Map<(Seq<char>, Seq<char>), Seq<char>>;

/// The entries of table `ns`, read as composite keys with amounts.
pub uninterp spec fn amount_pairs(s: MemoryStorage, ns: Seq<char>) -> Map<(Seq<char>, Seq<char>), u128>;

/// The entries of table `ns`, read as simple keys with text values.
pub uninterp spec fn texts(s: MemoryStorage, ns: Seq<char>) -> Map<Seq<char>, Seq<char>>;

/// The entries of table `ns`, read as composite keys with the rows of
/// requests.
pub uninterp spec fn pending_rows(s: MemoryStorage, ns: Seq<char>) -> Map<(Seq<char>, Seq<char>), (Seq<char>, Seq<char>, Seq<(Seq<char>, bool, Seq<char>)>, Seq<u128>, Seq<(Seq<char>, Seq<char>, Option<bool>)>, Seq<(Seq<char>, Seq<char>, Option<u128>)>, u64, Option<Seq<char>>)>;

/// Every table but `ns` holds in `b` what it holds in `a`.
pub open spec fn unchanged_outside(a: MemoryStorage, b: MemoryStorage, ns: Seq<char>) -> bool {
    &&& forall|n: Seq<char>| n != ns ==> #[trigger] text_pairs(b, n) == text_pairs(a, n)
    &&& forall|n: Seq<char>| n != ns ==> #[trigger] amount_pairs(b, n) == amount_pairs(a, n)
    &&& forall|n: Seq<char>| n != ns ==> #[trigger] texts(b, n) == texts(a, n)
    &&& forall|n: Seq<char>| n != ns ==> #[trigger] pending_rows(b, n) == pending_rows(a, n)
}

/// No table of `s` holds anything.
pub open spec fn all_empty(s: MemoryStorage) -> bool {
    &&& forall|n: Seq<char>| (#[trigger] text_pairs(s, n)).dom() == Set::<(Seq<char>, Seq<char>)>::empty()
    &&& forall|n: Seq<char>| (#[trigger] amount_pairs(s, n)).dom() == Set::<(Seq<char>, Seq<char>)>::empty()
    &&& forall|n: Seq<char>| (#[trigger] texts(s, n)).dom() == Set::<Seq<char>>::empty()
    &&& forall|n: Seq<char>| (#[trigger] pending_rows(s, n)).dom() == Set::<(Seq<char>, Seq<char>)>::empty()
}

/// The rows of a listing of text pairs, as plain values.
pub open spec fn text_pair_rows(v: Seq<((String, String), String)>) -> Seq<((Seq<char>, Seq<char>), Seq<char>)> {
    Seq::new(v.len(), |i: int| ((v[i].0.0@, v[i].0.1@), v[i].1@))
}

/// The rows of a listing of amounts under composite keys, as plain values.
pub open spec fn amount_pair_rows(v: Seq<((String, String), u128)>) -> Seq<((Seq<char>, Seq<char>), u128)> {
    Seq::new(v.len(), |i: int| ((v[i].0.0@, v[i].0.1@), v[i].1))
}

/// The rows of a listing of amounts under simple keys, as plain values.
pub open spec fn amount_rows(v: Seq<(String, u128)>) -> Seq<(Seq<char>, u128)> {
    Seq::new(v.len(), |i: int| (v[i].0@, v[i].1))
}

/// The rows of a listing of texts, as plain values.
pub open spec fn text_rows(v: Seq<(String, String)>) -> Seq<(Seq<char>, Seq<char>)> {
    Seq::new(v.len(), |i: int| (v[i].0@, v[i].1@))
}

/// The part of a table with composite keys that stands under one first part.
pub open spec fn section<V>(m: Map<(Seq<char>, Seq<char>), V>, head: Seq<char>) -> Map<Seq<char>, V> {
    Map::new(|tail: Seq<char>| m.contains_key((head, tail)), |tail: Seq<char>| m[(head, tail)])
}

/// A request in flight as the store holds it: the requester, the transaction
/// id, the tokens, the amounts, the route, the claimants, the moment of
/// expiry and the partner's address.
pub type PendingRow = (
    String,
    String,
    Vec<(String, bool, String)>,
    Vec<u128>,
    Vec<(String, String, Option<bool>)>,
    Vec<(String, String, Option<u128>)>,
    u64,
    Option<String>,
);

/// A request in flight as the store holds it, as plain values.
pub type PendingRowView = (
    Seq<char>,
    Seq<char>,
    Seq<(Seq<char>, bool, Seq<char>)>,
    Seq<u128>,
    Seq<(Seq<char>, Seq<char>, Option<bool>)>,
    Seq<(Seq<char>, Seq<char>, Option<u128>)>,
    u64,
    Option<Seq<char>>,
);

/// The tokens of a request, as plain values.
pub open spec fn token_views(tokens: Seq<(String, bool, String)>) -> Seq<(Seq<char>, bool, Seq<char>)> {
    Seq::new(tokens.len(), |i: int| (tokens[i].0@, tokens[i].1, tokens[i].2@))
}

/// The hops or the claimants of a request, as plain values.
pub open spec fn triple_views<T>(triples: Seq<(String, String, T)>) -> Seq<(Seq<char>, Seq<char>, T)> {
    Seq::new(triples.len(), |i: int| (triples[i].0@, triples[i].1@, triples[i].2))
}

/// A text that may be missing, as a plain value.
pub open spec fn text_view(text: Option<String>) -> Option<Seq<char>> {
    match text {
        Some(text) => Some(text@),
        None => None,
    }
}

/// A stored request, as plain values.
pub open spec fn row_view(row: PendingRow) -> PendingRowView {
    (
        row.0@,
        row.1@,
        token_views(row.2@),
        row.3@,
        triple_views(row.4@),
        triple_views(row.5@),
        row.6,
        text_view(row.7),
    )
}

/// The rows of a listing of requests, as plain values.
pub open spec fn pending_row_views(v: Seq<(String, PendingRow)>) -> Seq<(Seq<char>, PendingRowView)> {
    Seq::new(v.len(), |i: int| (v[i].0@, row_view(v[i].1)))
}

/// What is kept of a request while it is in flight.
#[derive(Debug, PartialEq, Eq)]
pub struct PendingRecord {
    pub sender: String,
    pub tx_id: String,
    /// Each token with whether a contract holds it and its denomination.
    pub tokens: Vec<(String, bool, String)>,
    pub amounts: Vec<u128>,
    /// Each hop's input, output and failure marker.
    pub route: Vec<(String, String, Option<bool>)>,
    /// Each claimant's address, chain and cap.
    pub claimants: Vec<(String, String, Option<u128>)>,
    /// When the request expires, in nanoseconds.
    pub timeout: u64,
    pub partner_fee_recipient: Option<String>,
}

impl View for PendingRecord {
    type V = PendingRowView;

    open spec fn view(&self) -> PendingRowView {
        (
            self.sender@,
            self.tx_id@,
            token_views(self.tokens@),
            self.amounts@,
            triple_views(self.route@),
            triple_views(self.claimants@),
            self.timeout,
            text_view(self.partner_fee_recipient),
        )
    }
}

impl PendingRecord {
    /// The record as the store holds it.
    pub fn into_row(self) -> (r: PendingRow)
        ensures
            row_view(r) == self@,
    {
        (
            self.sender,
            self.tx_id,
            self.tokens,
            self.amounts,
            self.route,
            self.claimants,
            self.timeout,
            self.partner_fee_recipient,
        )
    }

    /// The record that the store holds as `row`.
    pub fn from_row(row: PendingRow) -> (r: PendingRecord)
        ensures
            r@ == row_view(row),
    {
        PendingRecord {
            sender: row.0,
            tx_id: row.1,
            tokens: row.2,
            amounts: row.3,
            route: row.4,
            claimants: row.5,
            timeout: row.6,
            partner_fee_recipient: row.7,
        }
    }
}

/// `MemoryStorage::new`: the storage it makes holds nothing.
#[verifier::external_body]
fn new_storage() -> (s: MemoryStorage)
    ensures
        well_formed(s),
        all_empty(s),
{
    MemoryStorage::new()
}

/// `Map::may_load` on a table of text pairs: the text under the key, if the
/// table holds the key. It does not fail on what this module wrote.
#[verifier::external_body]
fn load_text_pair(s: &MemoryStorage, ns: &str, a: &str, b: &str) -> (r: Result<Option<String>, StdError>)
    requires
        well_formed(*s),
        is_text_pair_table(ns@),
        fits(a@),
    ensures
        r is Ok,
        r matches Ok(Some(v)) ==> text_pairs(*s, ns@).contains_key((a@, b@)) && text_pairs(*s, ns@)[(a@, b@)] == v@,
        r matches Ok(None) ==> !text_pairs(*s, ns@).contains_key((a@, b@)),
{
    TypedMap::<(&str, &str), String>::new(ns).may_load(s, (a, b))
}

/// `Map::save` on a table of text pairs: afterwards the key holds the text,
/// and nothing else has changed.
#[verifier::external_body]
fn save_text_pair(s: &mut MemoryStorage, ns: &str, a: &str, b: &str, v: &String) -> (r: Result<(), StdError>)
    requires
        well_formed(*old(s)),
        is_text_pair_table(ns@),
        fits(a@),
    ensures
        r is Ok,
        well_formed(*final(s)),
        text_pairs(*final(s), ns@) == text_pairs(*old(s), ns@).insert((a@, b@), v@),
        unchanged_outside(*old(s), *final(s), ns@),
    no_unwind
{
    TypedMap::<(&str, &str), String>::new(ns).save(s, (a, b), v)
}

/// `Map::range` on a table of text pairs, ascending: the entries whose stored
/// keys lie at or after `min` and before `max`, in the order of their stored
/// keys.
#[verifier::external_body]
fn range_text_pairs(s: &MemoryStorage, ns: &str, min: Option<(&str, &str)>, max: Option<(&str, &str)>) -> (r: Result<Vec<((String, String), String)>, StdError>)
    requires
        well_formed(*s),
        is_text_pair_table(ns@),
        min matches Some(k) ==> fits(k.0@),
        max matches Some(k) ==> fits(k.0@),
    ensures
        r is Ok,
        r matches Ok(rows) ==> is_listing(text_pair_rows(rows@), text_pairs(*s, ns@), pair_raw(), pair_bound(min), pair_bound(max)),
{
    TypedMap::<(&str, &str), String>::new(ns)
        .range(s, min.map(Bound::inclusive), max.map(Bound::exclusive), Order::Ascending)
        .collect()
}

/// `Map::may_load` on a table of amounts: the amount under the key, if the
/// table holds the key. It does not fail on what this module wrote.
#[verifier::external_body]
fn load_amount(s: &MemoryStorage, ns: &str, a: &str, b: &str) -> (r: Result<Option<u128>, StdError>)
    requires
        well_formed(*s),
        is_amount_table(ns@),
        fits(a@),
    ensures
        r is Ok,
        r matches Ok(Some(v)) ==> amount_pairs(*s, ns@).contains_key((a@, b@)) && amount_pairs(*s, ns@)[(a@, b@)] == v,
        r matches Ok(None) ==> !amount_pairs(*s, ns@).contains_key((a@, b@)),
{
    let found = TypedMap::<(&str, &str), Uint128>::new(ns).may_load(s, (a, b));
    found.map(|amount| amount.map(|v| v.u128()))
}

/// `Map::save` on a table of amounts: afterwards the key holds the amount,
/// and nothing else has changed.
#[verifier::external_body]
fn save_amount(s: &mut MemoryStorage, ns: &str, a: &str, b: &str, v: u128) -> (r: Result<(), StdError>)
    requires
        well_formed(*old(s)),
        is_amount_table(ns@),
        fits(a@),
    ensures
        r is Ok,
        well_formed(*final(s)),
        amount_pairs(*final(s), ns@) == amount_pairs(*old(s), ns@).insert((a@, b@), v),
        unchanged_outside(*old(s), *final(s), ns@),
    no_unwind
{
    TypedMap::<(&str, &str), Uint128>::new(ns).save(s, (a, b), &Uint128::new(v))
}

/// `Prefix::range` under `Map::prefix` on a table of amounts, ascending: the
/// entries whose key starts with `head` and whose second part lies at or
/// after `min` and before `max`, in the order of their second parts.
#[verifier::external_body]
fn range_amounts_under(s: &MemoryStorage, ns: &str, head: &str, min: Option<&str>, max: Option<&str>) -> (r: Result<Vec<(String, u128)>, StdError>)
    requires
        well_formed(*s),
        is_amount_table(ns@),
        fits(head@),
    ensures
        r is Ok,
        r matches Ok(rows) ==> is_listing(amount_rows(rows@), section(amount_pairs(*s, ns@), head@), text_raw(), text_bound(min), text_bound(max)),
{
    TypedMap::<(&str, &str), Uint128>::new(ns)
        .prefix(head)
        .range(s, min.map(Bound::inclusive), max.map(Bound::exclusive), Order::Ascending)
        .map(|row| row.map(|(tail, v)| (tail, v.u128())))
        .collect()
}

/// `Map::prefix_range` on a table of amounts, ascending: the entries whose
/// stored keys lie at or after the framed `min` and before the framed `max`,
/// in the order of their stored keys.
#[verifier::external_body]
fn range_amount_pairs(s: &MemoryStorage, ns: &str, min: Option<&str>, max: Option<&str>) -> (r: Result<Vec<((String, String), u128)>, StdError>)
    requires
        well_formed(*s),
        is_amount_table(ns@),
        min matches Some(k) ==> fits(k@),
        max matches Some(k) ==> fits(k@),
    ensures
        r is Ok,
        r matches Ok(rows) ==> is_listing(amount_pair_rows(rows@), amount_pairs(*s, ns@), pair_raw(), head_bound(min), head_bound(max)),
{
    TypedMap::<(&str, &str), Uint128>::new(ns)
        .prefix_range(s, min.map(PrefixBound::inclusive), max.map(PrefixBound::exclusive), Order::Ascending)
        .map(|row| row.map(|(k, v)| (k, v.u128())))
        .collect()
}

/// `Map::may_load` on a table of texts: the text under the key, if the table
/// holds the key. It does not fail on what this module wrote.
#[verifier::external_body]
fn load_text(s: &MemoryStorage, ns: &str, k: &str) -> (r: Result<Option<String>, StdError>)
    requires
        well_formed(*s),
        is_text_table(ns@),
    ensures
        r is Ok,
        r matches Ok(Some(v)) ==> texts(*s, ns@).contains_key(k@) && texts(*s, ns@)[k@] == v@,
        r matches Ok(None) ==> !texts(*s, ns@).contains_key(k@),
{
    TypedMap::<&str, String>::new(ns).may_load(s, k)
}

/// `Map::save` on a table of texts: afterwards the key holds the text, and
/// nothing else has changed.
#[verifier::external_body]
fn save_text(s: &mut MemoryStorage, ns: &str, k: &str, v: &String) -> (r: Result<(), StdError>)
    requires
        well_formed(*old(s)),
        is_text_table(ns@),
    ensures
        r is Ok,
        well_formed(*final(s)),
        texts(*final(s), ns@) == texts(*old(s), ns@).insert(k@, v@),
        unchanged_outside(*old(s), *final(s), ns@),
    no_unwind
{
    TypedMap::<&str, String>::new(ns).save(s, k, v)
}

/// `Map::range` on a table of texts, ascending: the entries whose keys lie at
/// or after `min` and before `max`, in the order of their keys.
#[verifier::external_body]
fn range_texts(s: &MemoryStorage, ns: &str, min: Option<&str>, max: Option<&str>) -> (r: Result<Vec<(String, String)>, StdError>)
    requires
        well_formed(*s),
        is_text_table(ns@),
    ensures
        r is Ok,
        r matches Ok(rows) ==> is_listing(text_rows(rows@), texts(*s, ns@), text_raw(), text_bound(min), text_bound(max)),
{
    TypedMap::<&str, String>::new(ns)
        .range(s, min.map(Bound::inclusive), max.map(Bound::exclusive), Order::Ascending)
        .collect()
}

/// `Map::has` on a table of requests: whether the table holds the key.
#[verifier::external_body]
fn has_pending(s: &MemoryStorage, ns: &str, sender: &str, tx_id: &str) -> (r: bool)
    requires
        well_formed(*s),
        is_pending_table(ns@),
        fits(sender@),
    ensures
        r == pending_rows(*s, ns@).contains_key((sender@, tx_id@)),
{
    TypedMap::<(&str, &str), PendingRow>::new(ns).has(s, (sender, tx_id))
}

/// `Map::may_load` on a table of requests: the request under the key, if the
/// table holds the key. It does not fail on what this module wrote.
#[verifier::external_body]
fn load_pending(s: &MemoryStorage, ns: &str, sender: &str, tx_id: &str) -> (r: Result<Option<PendingRow>, StdError>)
    requires
        well_formed(*s),
        is_pending_table(ns@),
        fits(sender@),
    ensures
        r is Ok,
        r matches Ok(Some(v)) ==> pending_rows(*s, ns@).contains_key((sender@, tx_id@)) && pending_rows(*s, ns@)[(sender@, tx_id@)] == row_view(v),
        r matches Ok(None) ==> !pending_rows(*s, ns@).contains_key((sender@, tx_id@)),
{
    TypedMap::<(&str, &str), PendingRow>::new(ns).may_load(s, (sender, tx_id))
}

/// `Map::save` on a table of requests: afterwards the key holds the request,
/// and nothing else has changed.
#[verifier::external_body]
fn save_pending(s: &mut MemoryStorage, ns: &str, sender: &str, tx_id: &str, row: &PendingRow) -> (r: Result<(), StdError>)
    requires
        well_formed(*old(s)),
        is_pending_table(ns@),
        fits(sender@),
    ensures
        r is Ok,
        well_formed(*final(s)),
        pending_rows(*final(s), ns@) == pending_rows(*old(s), ns@).insert((sender@, tx_id@), row_view(*row)),
        unchanged_outside(*old(s), *final(s), ns@),
    no_unwind
{
    TypedMap::<(&str, &str), PendingRow>::new(ns).save(s, (sender, tx_id), row)
}

/// `Map::remove` on a table of requests: afterwards the table does not hold
/// the key, and nothing else has changed.
#[verifier::external_body]
fn remove_pending(s: &mut MemoryStorage, ns: &str, sender: &str, tx_id: &str)
    requires
        well_formed(*old(s)),
        is_pending_table(ns@),
        fits(sender@),
    ensures
        well_formed(*final(s)),
        pending_rows(*final(s), ns@) == pending_rows(*old(s), ns@).remove((sender@, tx_id@)),
        unchanged_outside(*old(s), *final(s), ns@),
    no_unwind
{
    TypedMap::<(&str, &str), PendingRow>::new(ns).remove(s, (sender, tx_id))
}

/// `Prefix::range` under `Map::prefix` on a table of requests, ascending
/// and unbounded: the entries whose key starts with `sender`, in the order of
/// their transaction ids.
#[verifier::external_body]
fn range_pending_under(s: &MemoryStorage, ns: &str, sender: &str) -> (r: Result<Vec<(String, PendingRow)>, StdError>)
    requires
        well_formed(*s),
        is_pending_table(ns@),
        fits(sender@),
    ensures
        r is Ok,
        r matches Ok(rows) ==> is_listing(pending_row_views(rows@), section(pending_rows(*s, ns@), sender@), text_raw(), None, None),
{
    TypedMap::<(&str, &str), PendingRow>::new(ns)
        .prefix(sender)
        .range(s, None, None, Order::Ascending)
        .collect()
}

/// What a read of the store gave. A read of what this module wrote does not
/// fail.
fn read<T>(result: Result<T, StdError>) -> (r: T)
    requires
        result is Ok,
    ensures
        result matches Ok(v) && v == r,
{
    match result {
        Ok(r) => r,
        Err(_) => unreached(),
    }
}

/// The tables have different names.
proof fn lemma_tables_differ()
    ensures
        "vlps"@ != "pair_to_vlp"@,
        "vlps"@ != "escrow_balances"@,
        "vlps"@ != "chains"@,
        "vlps"@ != "token_to_escrow"@,
        "vlps"@ != "config"@,
        "vlps"@ != "pending_pool"@,
        "vlps"@ != "pending_add_liquidity"@,
        "vlps"@ != "pending_remove_liquidity"@,
        "vlps"@ != "pending_swaps"@,
        "pair_to_vlp"@ != "escrow_balances"@,
        "pair_to_vlp"@ != "chains"@,
        "pair_to_vlp"@ != "token_to_escrow"@,
        "pair_to_vlp"@ != "config"@,
        "pair_to_vlp"@ != "pending_pool"@,
        "pair_to_vlp"@ != "pending_add_liquidity"@,
        "pair_to_vlp"@ != "pending_remove_liquidity"@,
        "pair_to_vlp"@ != "pending_swaps"@,
        "escrow_balances"@ != "chains"@,
        "escrow_balances"@ != "token_to_escrow"@,
        "escrow_balances"@ != "config"@,
        "escrow_balances"@ != "pending_pool"@,
        "escrow_balances"@ != "pending_add_liquidity"@,
        "escrow_balances"@ != "pending_remove_liquidity"@,
        "escrow_balances"@ != "pending_swaps"@,
        "chains"@ != "token_to_escrow"@,
        "chains"@ != "config"@,
        "chains"@ != "pending_pool"@,
        "chains"@ != "pending_add_liquidity"@,
        "chains"@ != "pending_remove_liquidity"@,
        "chains"@ != "pending_swaps"@,
        "token_to_escrow"@ != "config"@,
        "token_to_escrow"@ != "pending_pool"@,
        "token_to_escrow"@ != "pending_add_liquidity"@,
        "token_to_escrow"@ != "pending_remove_liquidity"@,
        "token_to_escrow"@ != "pending_swaps"@,
        "config"@ != "pending_pool"@,
        "config"@ != "pending_add_liquidity"@,
        "config"@ != "pending_remove_liquidity"@,
        "config"@ != "pending_swaps"@,
        "pending_pool"@ != "pending_add_liquidity"@,
        "pending_pool"@ != "pending_remove_liquidity"@,
        "pending_pool"@ != "pending_swaps"@,
        "pending_add_liquidity"@ != "pending_remove_liquidity"@,
        "pending_add_liquidity"@ != "pending_swaps"@,
        "pending_remove_liquidity"@ != "pending_swaps"@,
{
    reveal_strlit("vlps");
    reveal_strlit("pair_to_vlp");
    reveal_strlit("escrow_balances");
    reveal_strlit("chains");
    reveal_strlit("token_to_escrow");
    reveal_strlit("config");
    reveal_strlit("pending_pool");
    reveal_strlit("pending_add_liquidity");
    reveal_strlit("pending_remove_liquidity");
    reveal_strlit("pending_swaps");
    assert("vlps"@.len() == 4);
    assert("pair_to_vlp"@.len() == 11);
    assert("escrow_balances"@.len() == 15);
    assert("chains"@.len() == 6);
    assert("token_to_escrow"@.len() == 15);
    assert("config"@.len() == 6);
    assert("pending_pool"@.len() == 12);
    assert("pending_add_liquidity"@.len() == 21);
    assert("pending_remove_liquidity"@.len() == 24);
    assert("pending_swaps"@.len() == 13);
    assert("chains"@[1] == 'h' && "config"@[1] == 'o');
    assert("escrow_balances"@[0] == 'e' && "token_to_escrow"@[0] == 't');
}

/// The kinds of request that a chain sends to the hub.
#[derive(Clone, Copy, Debug, PartialEq, Eq, Structural)]
pub enum TxType {
    PoolCreation,
    AddLiquidity,
    RemoveLiquidity,
    Swap,
}

impl TxType {
    /// The table that holds the requests of this kind while they are in flight.
    pub open spec fn table(self) -> Seq<char> {
        match self {
            TxType::PoolCreation => "pending_pool"@,
            TxType::AddLiquidity => "pending_add_liquidity"@,
            TxType::RemoveLiquidity => "pending_remove_liquidity"@,
            TxType::Swap => "pending_swaps"@,
        }
    }

    fn table_name(self) -> (r: &'static str)
        ensures
            r@ == self.table(),
            is_pending_table(r@),
    {
        match self {
            TxType::PoolCreation => "pending_pool",
            TxType::AddLiquidity => "pending_add_liquidity",
            TxType::RemoveLiquidity => "pending_remove_liquidity",
            TxType::Swap => "pending_swaps",
        }
    }
}

/// What a store holds, table by table.
pub struct StoreView {
    /// The hub's registry: the pool of each pair, by the pair's key.
    pub vlps: Map<(Seq<char>, Seq<char>), Seq<char>>,
    /// The hub's chains, each with what is known of it.
    pub chains: Map<Seq<char>, Seq<char>>,
    /// The hub's escrow ledger: the balance of each token on each chain.
    pub escrow_balances: Map<(Seq<char>, Seq<char>), u128>,
    /// A chain's copy of the registry.
    pub pair_to_vlp: Map<(Seq<char>, Seq<char>), Seq<char>>,
    /// A chain's escrows: the address of the escrow of each token.
    pub token_to_escrow: Map<Seq<char>, Seq<char>>,
    /// A chain's settings.
    pub config: Map<Seq<char>, Seq<char>>,
    /// The requests in flight, for each kind of request, by requester and
    /// transaction id.
    pub pending: Map<TxType, Map<(Seq<char>, Seq<char>), PendingRowView>>,
}

impl StoreView {
    /// What a store holds that holds nothing.
    pub open spec fn empty() -> StoreView {
        StoreView {
            vlps: Map::empty(),
            chains: Map::empty(),
            escrow_balances: Map::empty(),
            pair_to_vlp: Map::empty(),
            token_to_escrow: Map::empty(),
            config: Map::empty(),
            pending: Map::total(|kind: TxType| Map::<(Seq<char>, Seq<char>), PendingRowView>::empty()),
        }
    }

    /// The channel to the hub, if one has been set.
    pub open spec fn hub_channel(self) -> Option<Seq<char>> {
        if self.config.contains_key("hub_channel"@) {
            Some(self.config["hub_channel"@])
        } else {
            None
        }
    }

    /// The local chain's own identifier, if it has been set.
    pub open spec fn chain_uid(self) -> Option<Seq<char>> {
        if self.config.contains_key("chain_uid"@) {
            Some(self.config["chain_uid"@])
        } else {
            None
        }
    }

    /// The administrator's address, if it has been set.
    pub open spec fn admin(self) -> Option<Seq<char>> {
        if self.config.contains_key("admin"@) {
            Some(self.config["admin"@])
        } else {
            None
        }
    }

    /// The balance of `token` on `chain`; a missing entry is a balance of zero.
    pub open spec fn balance(self, token: Seq<char>, chain: Seq<char>) -> u128 {
        if self.escrow_balances.contains_key((token, chain)) {
            self.escrow_balances[(token, chain)]
        } else {
            0
        }
    }

    /// Whether a request of this kind is in flight under the key.
    pub open spec fn is_pending(self, kind: TxType, sender: Seq<char>, tx_id: Seq<char>) -> bool {
        self.pending[kind].contains_key((sender, tx_id))
    }
}

/// The rows of a listing of the registry, as plain values.
pub open spec fn vlp_rows(v: Seq<((Token, Token), String)>) -> Seq<((Seq<char>, Seq<char>), Seq<char>)> {
    Seq::new(v.len(), |i: int| ((v[i].0.0@, v[i].0.1@), v[i].1@))
}

/// The rows of a listing of chains, as plain values.
pub open spec fn chain_rows(v: Seq<(ChainUid, String)>) -> Seq<(Seq<char>, Seq<char>)> {
    Seq::new(v.len(), |i: int| (v[i].0@, v[i].1@))
}

/// The rows of a listing of one token's balances, as plain values.
pub open spec fn balance_rows(v: Seq<(ChainUid, u128)>) -> Seq<(Seq<char>, u128)> {
    Seq::new(v.len(), |i: int| (v[i].0@, v[i].1))
}

/// The rows of a listing of the escrow ledger, as plain values.
pub open spec fn ledger_rows(v: Seq<((Token, ChainUid), u128)>) -> Seq<((Seq<char>, Seq<char>), u128)> {
    Seq::new(v.len(), |i: int| ((v[i].0.0@, v[i].0.1@), v[i].1))
}

/// The rows of a listing of requests, as plain values.
pub open spec fn pending_record_rows(v: Seq<(String, PendingRecord)>) -> Seq<(Seq<char>, PendingRowView)> {
    Seq::new(v.len(), |i: int| (v[i].0@, v[i].1@))
}

/// The bound that a pair of tokens sets on a listing of the registry.
pub open spec fn vlp_bound(k: Option<(Token, Token)>) -> Option<Seq<u8>> {
    match k {
        Some(k) => Some(pair_key(k.0@, k.1@)),
        None => None,
    }
}

/// The bound that a token sets on a listing of the escrow ledger.
pub open spec fn token_bound(k: Option<Token>) -> Option<Seq<u8>> {
    match k {
        Some(k) => Some(framed(k@)),
        None => None,
    }
}

/// The bound that a chain sets on a listing by chain.
pub open spec fn chain_bound(k: Option<ChainUid>) -> Option<Seq<u8>> {
    match k {
        Some(k) => Some(encode_utf8(k@)),
        None => None,
    }
}

/// The rows of the registry as they come from the storage, with their tokens.
fn registry_rows(rows: Vec<((String, String), String)>) -> (r: Vec<((Token, Token), String)>)
    requires
        forall|i: int| 0 <= i < rows@.len() ==> valid_id((#[trigger] rows@[i]).0.0@) && valid_id(rows@[i].0.1@),
    ensures
        vlp_rows(r@) == text_pair_rows(rows@),
        r@.len() == rows@.len(),
        forall|i: int| 0 <= i < r@.len() ==> (#[trigger] r@[i]).0.0@ == rows@[i].0.0@ && r@[i].0.1@ == rows@[i].0.1@,
{
    let ghost listed = text_pair_rows(rows@);
    let mut out: Vec<((Token, Token), String)> = Vec::new();
    for row in it: rows.into_iter()
        invariant
            listed == text_pair_rows(it.seq()),
            forall|i: int|
                0 <= i < it.seq().len() ==> valid_id((#[trigger] it.seq()[i]).0.0@) && valid_id(it.seq()[i].0.1@),
            out@.len() == it.index(),
            forall|j: int| 0 <= j < it.index() ==> (#[trigger] vlp_rows(out@)[j]) == listed[j],
    {
        let ghost before = out@;
        let ((token_1, token_2), vlp) = row;
        out.push(((Token::from_valid(token_1), Token::from_valid(token_2)), vlp));
        proof {
            assert forall|j: int| 0 <= j < out@.len() implies (#[trigger] vlp_rows(out@)[j]) == listed[j] by {
                if j < before.len() {
                    assert(vlp_rows(before)[j] == listed[j]);
                }
            }
        }
    }
    proof {
        assert(vlp_rows(out@) =~= listed);
        assert forall|i: int| 0 <= i < out@.len() implies (#[trigger] out@[i]).0.0@ == rows@[i].0.0@ && out@[i].0.1@
            == rows@[i].0.1@ by {
            assert(vlp_rows(out@)[i] == text_pair_rows(rows@)[i]);
        }
    }
    out
}

/// The rows of a listing by chain as they come from the storage, with their
/// chains.
fn chain_keyed_rows<T>(rows: Vec<(String, T)>) -> (r: Vec<(ChainUid, T)>)
    ensures
        r@.len() == rows@.len(),
        forall|i: int| 0 <= i < r@.len() ==> (#[trigger] r@[i]).0@ == rows@[i].0@ && r@[i].1 == rows@[i].1,
{
    let ghost listed = rows@;
    let mut out: Vec<(ChainUid, T)> = Vec::new();
    for row in it: rows.into_iter()
        invariant
            listed == it.seq(),
            out@.len() == it.index(),
            forall|j: int| 0 <= j < it.index() ==> (#[trigger] out@[j]).0@ == listed[j].0@ && out@[j].1 == listed[j].1,
    {
        let (chain_uid, value) = row;
        out.push((ChainUid::new(chain_uid), value));
    }
    out
}

/// The rows of the ledger as they come from the storage, with their tokens
/// and chains.
fn ledger_entries(rows: Vec<((String, String), u128)>) -> (r: Vec<((Token, ChainUid), u128)>)
    requires
        forall|i: int| 0 <= i < rows@.len() ==> valid_id((#[trigger] rows@[i]).0.0@),
    ensures
        ledger_rows(r@) == amount_pair_rows(rows@),
{
    let ghost listed = amount_pair_rows(rows@);
    let mut out: Vec<((Token, ChainUid), u128)> = Vec::new();
    for row in it: rows.into_iter()
        invariant
            listed == amount_pair_rows(it.seq()),
            forall|i: int| 0 <= i < it.seq().len() ==> valid_id((#[trigger] it.seq()[i]).0.0@),
            out@.len() == it.index(),
            forall|j: int| 0 <= j < it.index() ==> (#[trigger] ledger_rows(out@)[j]) == listed[j],
    {
        let ghost before = out@;
        let ((token, chain_uid), balance) = row;
        out.push(((Token::from_valid(token), ChainUid::new(chain_uid)), balance));
        proof {
            assert forall|j: int| 0 <= j < out@.len() implies (#[trigger] ledger_rows(out@)[j]) == listed[j] by {
                if j < before.len() {
                    assert(ledger_rows(before)[j] == listed[j]);
                }
            }
        }
    }
    proof {
        assert(ledger_rows(out@) =~= listed);
    }
    out
}

/// A handle on the tables of the hub and of a chain.
pub struct Store {
    inner: MemoryStorage,
}

impl View for Store {
    type V = StoreView;

    closed spec fn view(&self) -> StoreView {
        StoreView {
            vlps: text_pairs(self.inner, "vlps"@),
            chains: texts(self.inner, "chains"@),
            escrow_balances: amount_pairs(self.inner, "escrow_balances"@),
            pair_to_vlp: text_pairs(self.inner, "pair_to_vlp"@),
            token_to_escrow: texts(self.inner, "token_to_escrow"@),
            config: texts(self.inner, "config"@),
            pending: Map::total(|kind: TxType| pending_rows(self.inner, kind.table())),
        }
    }
}

impl Store {
    /// What holds of every store: it holds only what this module wrote; the
    /// keys of the two registries are two valid tokens, earlier one first; the
    /// ledger's keys start with a valid token; and every requester under
    /// which a request is in flight fits the head of a key.
    #[verifier::type_invariant]
    spec fn inv(self) -> bool {
        &&& well_formed(self.inner)
        &&& forall|k: (Seq<char>, Seq<char>)| #[trigger]
            text_pairs(self.inner, "vlps"@).contains_key(k) ==> valid_id(k.0) && valid_id(k.1) && text_lt(k.0, k.1)
        &&& forall|k: (Seq<char>, Seq<char>)| #[trigger]
            amount_pairs(self.inner, "escrow_balances"@).contains_key(k) ==> valid_id(k.0)
        &&& forall|k: (Seq<char>, Seq<char>)| #[trigger]
            text_pairs(self.inner, "pair_to_vlp"@).contains_key(k) ==> valid_id(k.0) && valid_id(k.1) && text_lt(
                k.0,
                k.1,
            )
        &&& forall|kind: TxType, k: (Seq<char>, Seq<char>)| #[trigger]
            pending_rows(self.inner, kind.table()).contains_key(k) ==> fits(k.0)
    }

    /// A store whose tables are all empty.
    pub fn new() -> (r: Store)
        ensures
            r@ == StoreView::empty(),
    {
        let inner = new_storage();
        let r = Store { inner };
        proof {
            assert(r@.vlps =~= Map::<(Seq<char>, Seq<char>), Seq<char>>::empty());
            assert(r@.chains =~= Map::<Seq<char>, Seq<char>>::empty());
            assert(r@.escrow_balances =~= Map::<(Seq<char>, Seq<char>), u128>::empty());
            assert(r@.pair_to_vlp =~= Map::<(Seq<char>, Seq<char>), Seq<char>>::empty());
            assert(r@.token_to_escrow =~= Map::<Seq<char>, Seq<char>>::empty());
            assert(r@.config =~= Map::<Seq<char>, Seq<char>>::empty());
            assert forall|kind: TxType| #[trigger] r@.pending[kind] == Map::<(Seq<char>, Seq<char>), PendingRowView>::empty() by {
                assert(r@.pending[kind] =~= Map::<(Seq<char>, Seq<char>), PendingRowView>::empty());
            }
            assert(r@.pending =~= StoreView::empty().pending);
        }
        r
    }

    /// The pool registered at the hub under a pair's key. A key that holds
    /// a pool names the earlier token first.
    pub fn vlp(&self, token_1: &Token, token_2: &Token) -> (r: Option<String>)
        ensures
            r matches Some(v) ==> self@.vlps.contains_key((token_1@, token_2@)) && self@.vlps[(
                token_1@,
                token_2@,
            )] == v@ && text_lt(token_1@, token_2@),
            r is None ==> !self@.vlps.contains_key((token_1@, token_2@)),
    {
        proof {
            use_type_invariant(self);
        }
        read(load_text_pair(&self.inner, "vlps", token_1.as_str(), token_2.as_str()))
    }

    /// Puts a pool into the hub's registry under a pair's key.
    pub(crate) fn set_vlp(&mut self, token_1: &Token, token_2: &Token, vlp: &String)
        requires
            text_lt(token_1@, token_2@),
        ensures
            final(self)@ == (StoreView {
                vlps: old(self)@.vlps.insert((token_1@, token_2@), vlp@),
                ..old(self)@
            }),
    {
        proof {
            use_type_invariant(&*self);
            lemma_tables_differ();
        }
        let _ = save_text_pair(&mut self.inner, "vlps", token_1.as_str(), token_2.as_str(), vlp);
        proof {
            assert(final(self)@.pending =~= old(self)@.pending);
        }
    }

    /// The hub's registry within the bounds, in the order of its stored keys.
    /// Every key names the earlier token first.
    pub fn list_vlps(&self, min: &Option<(Token, Token)>, max: &Option<(Token, Token)>) -> (r: Vec<((Token, Token), String)>)
        ensures
            is_listing(vlp_rows(r@), self@.vlps, pair_raw(), vlp_bound(*min), vlp_bound(*max)),
            forall|i: int| 0 <= i < r@.len() ==> text_lt((#[trigger] r@[i]).0.0@, r@[i].0.1@),
    {
        proof {
            use_type_invariant(self);
        }
        let lo: Option<(&str, &str)> = match min {
            Some(k) => Some((k.0.as_str(), k.1.as_str())),
            None => None,
        };
        let hi: Option<(&str, &str)> = match max {
            Some(k) => Some((k.0.as_str(), k.1.as_str())),
            None => None,
        };
        let rows = read(range_text_pairs(&self.inner, "vlps", lo, hi));
        proof {
            assert forall|i: int| 0 <= i < rows@.len() implies valid_id((#[trigger] rows@[i]).0.0@) && valid_id(
                rows@[i].0.1@,
            ) && text_lt(rows@[i].0.0@, rows@[i].0.1@) by {
                assert(text_pairs(self.inner, "vlps"@).contains_key(text_pair_rows(rows@)[i].0));
            }
        }
        registry_rows(rows)
    }

    /// What the hub knows of a chain.
    pub fn chain(&self, chain_uid: &ChainUid) -> (r: Option<String>)
        ensures
            r matches Some(v) ==> self@.chains.contains_key(chain_uid@) && self@.chains[chain_uid@] == v@,
            r is None ==> !self@.chains.contains_key(chain_uid@),
    {
        proof {
            use_type_invariant(self);
        }
        read(load_text(&self.inner, "chains", chain_uid.as_str()))
    }

    /// Puts a chain into the hub's registry.
    pub fn set_chain(&mut self, chain_uid: &ChainUid, chain: &String)
        ensures
            final(self)@ == (StoreView {
                chains: old(self)@.chains.insert(chain_uid@, chain@),
                ..old(self)@
            }),
    {
        proof {
            use_type_invariant(&*self);
            lemma_tables_differ();
        }
        let _ = save_text(&mut self.inner, "chains", chain_uid.as_str(), chain);
        proof {
            assert(final(self)@.pending =~= old(self)@.pending);
        }
    }

    /// The hub's chains, in the order of their identifiers.
    pub fn list_chains(&self) -> (r: Vec<(ChainUid, String)>)
        ensures
            is_listing(chain_rows(r@), self@.chains, text_raw(), None, None),
    {
        proof {
            use_type_invariant(self);
        }
        let rows = read(range_texts(&self.inner, "chains", None, None));
        let ghost listed = text_rows(rows@);
        let out = chain_keyed_rows(rows);
        proof {
            assert(chain_rows(out@) =~= listed);
        }
        out
    }

    /// The balance that the hub's ledger holds for a token on a chain, if it
    /// holds one.
    pub fn escrow_balance(&self, token: &Token, chain_uid: &ChainUid) -> (r: Option<u128>)
        ensures
            r matches Some(v) ==> self@.escrow_balances.contains_key((token@, chain_uid@))
                && self@.escrow_balances[(token@, chain_uid@)] == v,
            r is None ==> !self@.escrow_balances.contains_key((token@, chain_uid@)),
    {
        proof {
            use_type_invariant(self);
        }
        read(load_amount(&self.inner, "escrow_balances", token.as_str(), chain_uid.as_str()))
    }

    /// Sets the balance of a token on a chain in the hub's ledger.
    pub(crate) fn set_escrow_balance(&mut self, token: &Token, chain_uid: &ChainUid, amount: u128)
        ensures
            final(self)@ == (StoreView {
                escrow_balances: old(self)@.escrow_balances.insert((token@, chain_uid@), amount),
                ..old(self)@
            }),
    {
        proof {
            use_type_invariant(&*self);
            lemma_tables_differ();
        }
        let _ = save_amount(&mut self.inner, "escrow_balances", token.as_str(), chain_uid.as_str(), amount);
        proof {
            assert(final(self)@.pending =~= old(self)@.pending);
        }
    }

    /// The balances of one token within the bounds, in the order of their
    /// chains.
    pub fn list_token_escrows(&self, token: &Token, min: &Option<ChainUid>, max: &Option<ChainUid>) -> (r: Vec<(ChainUid, u128)>)
        ensures
            is_listing(
                balance_rows(r@),
                section(self@.escrow_balances, token@),
                text_raw(),
                chain_bound(*min),
                chain_bound(*max),
            ),
    {
        proof {
            use_type_invariant(self);
        }
        let lo: Option<&str> = match min {
            Some(k) => Some(k.as_str()),
            None => None,
        };
        let hi: Option<&str> = match max {
            Some(k) => Some(k.as_str()),
            None => None,
        };
        let rows = read(range_amounts_under(&self.inner, "escrow_balances", token.as_str(), lo, hi));
        let ghost listed = amount_rows(rows@);
        let out = chain_keyed_rows(rows);
        proof {
            assert(balance_rows(out@) =~= listed);
        }
        out
    }

    /// The hub's ledger from the first entry of token `min` up to, and
    /// without, the first entry of token `max`, in the order of its stored
    /// keys.
    pub fn list_escrows(&self, min: &Option<Token>, max: &Option<Token>) -> (r: Vec<((Token, ChainUid), u128)>)
        ensures
            is_listing(ledger_rows(r@), self@.escrow_balances, pair_raw(), token_bound(*min), token_bound(*max)),
    {
        proof {
            use_type_invariant(self);
        }
        let lo: Option<&str> = match min {
            Some(k) => Some(k.as_str()),
            None => None,
        };
        let hi: Option<&str> = match max {
            Some(k) => Some(k.as_str()),
            None => None,
        };
        let rows = read(range_amount_pairs(&self.inner, "escrow_balances", lo, hi));
        proof {
            assert forall|i: int| 0 <= i < rows@.len() implies valid_id((#[trigger] rows@[i]).0.0@) by {
                assert(amount_pairs(self.inner, "escrow_balances"@).contains_key(amount_pair_rows(rows@)[i].0));
            }
        }
        ledger_entries(rows)
    }

    /// The pool that the chain knows for a pair's key. A key that holds a
    /// pool names the earlier token first.
    pub fn pool_of(&self, token_1: &Token, token_2: &Token) -> (r: Option<String>)
        ensures
            r matches Some(v) ==> self@.pair_to_vlp.contains_key((token_1@, token_2@))
                && self@.pair_to_vlp[(token_1@, token_2@)] == v@ && text_lt(token_1@, token_2@),
            r is None ==> !self@.pair_to_vlp.contains_key((token_1@, token_2@)),
    {
        proof {
            use_type_invariant(self);
        }
        read(load_text_pair(&self.inner, "pair_to_vlp", token_1.as_str(), token_2.as_str()))
    }

    /// The chain's copy of the registry, in the order of its stored keys.
    /// Every key names the earlier token first.
    pub fn list_pools(&self) -> (r: Vec<((Token, Token), String)>)
        ensures
            is_listing(vlp_rows(r@), self@.pair_to_vlp, pair_raw(), None, None),
            forall|i: int| 0 <= i < r@.len() ==> text_lt((#[trigger] r@[i]).0.0@, r@[i].0.1@),
    {
        proof {
            use_type_invariant(self);
        }
        let rows = read(range_text_pairs(&self.inner, "pair_to_vlp", None, None));
        proof {
            assert forall|i: int| 0 <= i < rows@.len() implies valid_id((#[trigger] rows@[i]).0.0@) && valid_id(
                rows@[i].0.1@,
            ) && text_lt(rows@[i].0.0@, rows@[i].0.1@) by {
                assert(text_pairs(self.inner, "pair_to_vlp"@).contains_key(text_pair_rows(rows@)[i].0));
            }
        }
        registry_rows(rows)
    }

    /// Records on the chain the pool of a pair's key.
    pub(crate) fn set_pool(&mut self, token_1: &Token, token_2: &Token, vlp: &String)
        requires
            text_lt(token_1@, token_2@),
        ensures
            final(self)@ == (StoreView {
                pair_to_vlp: old(self)@.pair_to_vlp.insert((token_1@, token_2@), vlp@),
                ..old(self)@
            }),
    {
        proof {
            use_type_invariant(&*self);
            lemma_tables_differ();
        }
        let _ = save_text_pair(&mut self.inner, "pair_to_vlp", token_1.as_str(), token_2.as_str(), vlp);
        proof {
            assert(final(self)@.pending =~= old(self)@.pending);
        }
    }

    /// The address of the escrow that holds a token on the chain.
    pub fn escrow_of(&self, token: &Token) -> (r: Option<String>)
        ensures
            r matches Some(v) ==> self@.token_to_escrow.contains_key(token@) && self@.token_to_escrow[token@]
                == v@,
            r is None ==> !self@.token_to_escrow.contains_key(token@),
    {
        proof {
            use_type_invariant(self);
        }
        read(load_text(&self.inner, "token_to_escrow", token.as_str()))
    }

    /// Records the address of the escrow that holds a token on the chain.
    pub fn set_escrow(&mut self, token: &Token, escrow: &String)
        ensures
            final(self)@ == (StoreView {
                token_to_escrow: old(self)@.token_to_escrow.insert(token@, escrow@),
                ..old(self)@
            }),
    {
        proof {
            use_type_invariant(&*self);
            lemma_tables_differ();
        }
        let _ = save_text(&mut self.inner, "token_to_escrow", token.as_str(), escrow);
        proof {
            assert(final(self)@.pending =~= old(self)@.pending);
        }
    }

    /// One of the chain's settings.
    pub fn setting(&self, name: &str) -> (r: Option<String>)
        ensures
            r matches Some(v) ==> self@.config.contains_key(name@) && self@.config[name@] == v@,
            r is None ==> !self@.config.contains_key(name@),
    {
        proof {
            use_type_invariant(self);
        }
        read(load_text(&self.inner, "config", name))
    }

    /// Sets one of the chain's settings.
    pub fn set_setting(&mut self, name: &str, value: &String)
        ensures
            final(self)@ == (StoreView { config: old(self)@.config.insert(name@, value@), ..old(self)@ }),
    {
        proof {
            use_type_invariant(&*self);
            lemma_tables_differ();
        }
        let _ = save_text(&mut self.inner, "config", name, value);
        proof {
            assert(final(self)@.pending =~= old(self)@.pending);
        }
    }

    /// Whether a request of this kind is in flight under the key.
    pub fn is_pending(&self, kind: TxType, sender: &str, tx_id: &str) -> (r: bool)
        ensures
            r == self@.is_pending(kind, sender@, tx_id@),
    {
        proof {
            use_type_invariant(self);
        }
        if sender.as_bytes().len() > 0xFFFF {
            return false;
        }
        has_pending(&self.inner, kind.table_name(), sender, tx_id)
    }

    /// The request of this kind that is in flight under the key, if there is
    /// one.
    pub fn pending_request(&self, kind: TxType, sender: &str, tx_id: &str) -> (r: Option<PendingRecord>)
        ensures
            r matches Some(record) ==> self@.is_pending(kind, sender@, tx_id@) && self@.pending[kind][(
                sender@,
                tx_id@,
            )] == record@,
            r is None ==> !self@.is_pending(kind, sender@, tx_id@),
    {
        proof {
            use_type_invariant(self);
        }
        if sender.as_bytes().len() > 0xFFFF {
            return None;
        }
        match read(load_pending(&self.inner, kind.table_name(), sender, tx_id)) {
            Some(row) => Some(PendingRecord::from_row(row)),
            None => None,
        }
    }

    /// The requests of this kind that a requester has in flight, each with
    /// its transaction id, in the order of the transaction ids.
    pub fn list_pending(&self, kind: TxType, sender: &str) -> (r: Vec<(String, PendingRecord)>)
        ensures
            is_listing(pending_record_rows(r@), section(self@.pending[kind], sender@), text_raw(), None, None),
    {
        proof {
            use_type_invariant(self);
        }
        if sender.as_bytes().len() > 0xFFFF {
            let none: Vec<(String, PendingRecord)> = Vec::new();
            proof {
                assert(pending_record_rows(none@).len() == 0);
            }
            return none;
        }
        let rows = read(range_pending_under(&self.inner, kind.table_name(), sender));
        let ghost listed = pending_row_views(rows@);
        let mut out: Vec<(String, PendingRecord)> = Vec::new();
        for entry in it: rows.into_iter()
            invariant
                listed == pending_row_views(it.seq()),
                out@.len() == it.index(),
                forall|j: int|
                    0 <= j < it.index() ==> (#[trigger] out@[j]).0@ == listed[j].0 && out@[j].1@ == listed[j].1,
        {
            let (tx_id, row) = entry;
            out.push((tx_id, PendingRecord::from_row(row)));
        }
        proof {
            assert(pending_record_rows(out@) =~= listed);
        }
        out
    }

    /// Records a request of this kind as in flight under the key.
    pub fn record_pending(&mut self, kind: TxType, sender: &str, tx_id: &str, record: PendingRecord)
        requires
            fits(sender@),
        ensures
            final(self)@ == (StoreView {
                pending: old(self)@.pending.insert(kind, old(self)@.pending[kind].insert((sender@, tx_id@), record@)),
                ..old(self)@
            }),
    {
        proof {
            use_type_invariant(&*self);
            lemma_tables_differ();
        }
        let row = record.into_row();
        let _ = save_pending(&mut self.inner, kind.table_name(), sender, tx_id, &row);
        proof {
            assert(final(self)@.pending =~= old(self)@.pending.insert(
                kind,
                old(self)@.pending[kind].insert((sender@, tx_id@), record@),
            ));
        }
    }

    /// Takes the request of this kind under the key out of those in flight.
    pub fn clear_pending(&mut self, kind: TxType, sender: &str, tx_id: &str)
        ensures
            final(self)@ == (StoreView {
                pending: old(self)@.pending.insert(kind, old(self)@.pending[kind].remove((sender@, tx_id@))),
                ..old(self)@
            }),
    {
        proof {
            use_type_invariant(&*self);
            lemma_tables_differ();
        }
        if sender.as_bytes().len() > 0xFFFF {
            proof {
                assert(old(self)@.pending[kind].remove((sender@, tx_id@)) =~= old(self)@.pending[kind]);
                assert(old(self)@.pending.insert(kind, old(self)@.pending[kind]) =~= old(self)@.pending);
            }
            return ;
        }
        remove_pending(&mut self.inner, kind.table_name(), sender, tx_id);
        proof {
            assert(final(self)@.pending =~= old(self)@.pending.insert(
                kind,
                old(self)@.pending[kind].remove((sender@, tx_id@)),
            ));
        }
    }

    /// Takes the request of this kind under the key out of those in flight
    /// and hands it over, if there is one: what a request ends with when the
    /// hub has answered it or it has expired.
    pub fn take_pending(&mut self, kind: TxType, sender: &str, tx_id: &str) -> (r: Option<PendingRecord>)
        ensures
            r matches Some(record) ==> old(self)@.is_pending(kind, sender@, tx_id@) && old(self)@.pending[kind][(
                sender@,
                tx_id@,
            )] == record@ && final(self)@ == (StoreView {
                pending: old(self)@.pending.insert(kind, old(self)@.pending[kind].remove((sender@, tx_id@))),
                ..old(self)@
            }),
            r is None ==> !old(self)@.is_pending(kind, sender@, tx_id@) && final(self)@ == old(self)@,
    {
        match self.pending_request(kind, sender, tx_id) {
            Some(record) => {
                self.clear_pending(kind, sender, tx_id);
                Some(record)
            },
            None => None,
        }
    }
}

} // verus!
