use vstd::prelude::*;

use crate::decimal::Decimal;
use crate::json::{is_str_entry, str_entry, JsonBody};
use crate::orders::{SignedOrderRequest, U256};
use crate::text::{decimal_digits, decimal_string};

verus! {

/// The taker address that lets any counterparty fill an order.
pub const ZERO_ADDRESS: &'static str = "0x0000000000000000000000000000000000000000";

/// The cursor of a listing's first page.
pub const INITIAL_CURSOR: &'static str = "MA==";

/// The cursor a listing returns after its last page.
pub const END_CURSOR: &'static str = "LTE=";

/// The cursor a listing starts from: the given one, or the first page's.
pub fn start_cursor(next_cursor: Option<&str>) -> (r: String)
    ensures
        r@ == (match next_cursor {
            Some(c) => c@,
            None => INITIAL_CURSOR@,
        }),
{
    match next_cursor {
        Some(c) => c.to_owned(),
        None => INITIAL_CURSOR.to_owned(),
    }
}

/// Whether a listing has no page after `cursor`.
pub fn is_end_cursor(cursor: &String) -> (r: bool)
    ensures
        r == (cursor@ == END_CURSOR@),
{
    let end = END_CURSOR.to_owned();
    *cursor == end
}

/// Which balance a balance/allowance query is about.
#[derive(Clone, Copy, Debug, PartialEq, Eq, Structural)]
pub enum AssetType {
    COLLATERAL,
    CONDITIONAL,
}

impl AssetType {
    pub open spec fn name(self) -> Seq<char> {
        match self {
            AssetType::COLLATERAL => "COLLATERAL"@,
            AssetType::CONDITIONAL => "CONDITIONAL"@,
        }
    }

    /// The name the exchange uses for the asset type.
    pub fn to_string(&self) -> (r: String)
        ensures
            r@ == self.name(),
    {
        match self {
            AssetType::COLLATERAL => "COLLATERAL".to_owned(),
            AssetType::CONDITIONAL => "CONDITIONAL".to_owned(),
        }
    }
}

/// The view of a list of query parameters.
pub open spec fn pairs_view(v: Seq<(&str, String)>) -> Seq<(Seq<char>, Seq<char>)> {
    v.map_values(|p: (&str, String)| (p.0@, p.1@))
}

/// One query parameter when the value is present, none otherwise.
pub open spec fn optional_pair(key: Seq<char>, value: Option<Seq<char>>) -> Seq<
    (Seq<char>, Seq<char>),
> {
    match value {
        Some(v) => seq![(key, v)],
        None => seq![],
    }
}

pub open spec fn option_view(o: Option<String>) -> Option<Seq<char>> {
    match o {
        Some(s) => Some(s@),
        None => None,
    }
}

pub open spec fn option_decimal(o: Option<u64>) -> Option<Seq<char>> {
    match o {
        Some(n) => Some(decimal_digits(n as nat)),
        None => None,
    }
}

/// Appends `(key, value)` to a list of query parameters.
fn push_pair<'a>(params: &mut Vec<(&'a str, String)>, key: &'a str, value: String)
    ensures
        pairs_view(final(params)@) == pairs_view(old(params)@).push((key@, value@)),
{
    let ghost before = params@;
    params.push((key, value));
    proof {
        assert(pairs_view(params@) =~= pairs_view(before).push((key@, value@)));
    }
}

/// Query for the balance and allowance of an asset.
#[derive(Debug, Default)]
pub struct BalanceAllowanceParams {
    pub asset_type: Option<AssetType>,
    pub token_id: Option<String>,
    pub signature_type: Option<u8>,
}

impl BalanceAllowanceParams {
    pub open spec fn query_pairs(&self) -> Seq<(Seq<char>, Seq<char>)> {
        let asset = match self.asset_type {
            Some(a) => Some(a.name()),
            None => None,
        };
        let sig = match self.signature_type {
            Some(s) => Some(decimal_digits(s as nat)),
            None => None,
        };
        optional_pair("asset_type"@, asset) + optional_pair("token_id"@, option_view(self.token_id))
            + optional_pair("signature_type"@, sig)
    }

    /// The query parameters for the fields that are set, in field order.
    pub fn to_query_params(&self) -> (r: Vec<(&str, String)>)
        ensures
            pairs_view(r@) == self.query_pairs(),
    {
        let mut params: Vec<(&str, String)> = Vec::new();
        if let Some(x) = &self.asset_type {
            push_pair(&mut params, "asset_type", x.to_string());
        }
        if let Some(x) = &self.token_id {
            push_pair(&mut params, "token_id", x.clone());
        }
        if let Some(x) = &self.signature_type {
            push_pair(&mut params, "signature_type", decimal_string(*x as u64));
        }
        proof {
            assert(pairs_view(params@) =~= self.query_pairs());
        }
        params
    }

    /// Sets the signature type the query is about.
    pub fn set_signature_type(&mut self, s: u8)
        ensures
            final(self).signature_type == Some(s),
            final(self).asset_type == old(self).asset_type,
            final(self).token_id == old(self).token_id,
    {
        self.signature_type = Some(s);
    }
}

/// Query for trade history.
#[derive(Debug)]
pub struct TradeParams {
    pub id: Option<String>,
    pub maker_address: Option<String>,
    pub market: Option<String>,
    pub asset_id: Option<String>,
    pub before: Option<u64>,
    pub after: Option<u64>,
}

impl TradeParams {
    pub open spec fn query_pairs(&self) -> Seq<(Seq<char>, Seq<char>)> {
        optional_pair("id"@, option_view(self.id)) + optional_pair(
            "asset_id"@,
            option_view(self.asset_id),
        ) + optional_pair("market"@, option_view(self.market)) + optional_pair(
            "before"@,
            option_decimal(self.before),
        ) + optional_pair("after"@, option_decimal(self.after))
    }

    /// The query parameters for `id`, `asset_id`, `market`, `before` and
    /// `after`, in that order, for those that are set.
    pub fn to_query_params(&self) -> (r: Vec<(&str, String)>)
        ensures
            pairs_view(r@) == self.query_pairs(),
    {
        let mut params: Vec<(&str, String)> = Vec::new();
        if let Some(x) = &self.id {
            push_pair(&mut params, "id", x.clone());
        }
        if let Some(x) = &self.asset_id {
            push_pair(&mut params, "asset_id", x.clone());
        }
        if let Some(x) = &self.market {
            push_pair(&mut params, "market", x.clone());
        }
        if let Some(x) = &self.before {
            push_pair(&mut params, "before", decimal_string(*x));
        }
        if let Some(x) = &self.after {
            push_pair(&mut params, "after", decimal_string(*x));
        }
        proof {
            assert(pairs_view(params@) =~= self.query_pairs());
        }
        params
    }
}

/// An open order as the exchange reports it.
#[derive(Debug)]
pub struct OpenOrder {
    pub associate_trades: Vec<String>,
    pub id: String,
    pub status: String,
    pub market: String,
    pub original_size: Decimal,
    pub outcome: String,
    pub maker_address: String,
    pub owner: String,
    pub price: Decimal,
    pub side: Side,
    pub size_matched: Decimal,
    pub asset_id: String,
    pub expiration: u64,
    pub order_type: OrderType,
    pub created_at: u64,
}

/// Query for open orders.
#[derive(Debug)]
pub struct OpenOrderParams {
    pub id: Option<String>,
    pub asset_id: Option<String>,
    pub market: Option<String>,
}

pub open spec fn ref_pairs_view(v: Seq<(&str, &String)>) -> Seq<(Seq<char>, Seq<char>)> {
    v.map_values(|p: (&str, &String)| (p.0@, p.1@))
}

impl OpenOrderParams {
    pub open spec fn query_pairs(&self) -> Seq<(Seq<char>, Seq<char>)> {
        optional_pair("id"@, option_view(self.id)) + optional_pair(
            "asset_id"@,
            option_view(self.asset_id),
        ) + optional_pair("market"@, option_view(self.market))
    }

    /// The query parameters for the fields that are set, in field order.
    pub fn to_query_params(&self) -> (r: Vec<(&str, &String)>)
        ensures
            ref_pairs_view(r@) == self.query_pairs(),
    {
        let mut params: Vec<(&str, &String)> = Vec::new();
        let ghost p0 = params@;
        if let Some(x) = &self.id {
            params.push(("id", x));
        }
        let ghost p1 = params@;
        if let Some(x) = &self.asset_id {
            params.push(("asset_id", x));
        }
        let ghost p2 = params@;
        if let Some(x) = &self.market {
            params.push(("market", x));
        }
        proof {
            assert(ref_pairs_view(p0) =~= seq![]);
            assert(ref_pairs_view(p1) =~= optional_pair("id"@, option_view(self.id)));
            assert(ref_pairs_view(p2) =~= optional_pair("id"@, option_view(self.id))
                + optional_pair("asset_id"@, option_view(self.asset_id)));
            assert(ref_pairs_view(params@) =~= self.query_pairs());
        }
        params
    }
}

/// The body of an order submission.
#[derive(Debug)]
pub struct PostOrder {
    pub order: SignedOrderRequest,
    pub owner: String,
    pub order_type: OrderType,
}

impl PostOrder {
    pub fn new(order: SignedOrderRequest, owner: String, order_type: OrderType) -> (r: Self)
        ensures
            r.order == order,
            r.owner == owner,
            r.order_type == order_type,
    {
        PostOrder { order, owner, order_type }
    }
}

impl PostOrder {
    /// The submission as a JSON object: `order`, `owner`, `orderType`.
    pub fn to_json_body(&self) -> (r: JsonBody)
        ensures
            r matches JsonBody::Object(e) && e@.len() == 3 && e@[0].0@ == "order"@ && (
            e@[0].1 matches JsonBody::Object(o) && self.order.json_entries(o@)) && is_str_entry(
                e@[1],
                "owner"@,
                self.owner@,
            ) && e@[2].0@ == "orderType"@ && (e@[2].1 matches JsonBody::Str(t) && t@
                == self.order_type.name()),
    {
        let mut e: Vec<(String, JsonBody)> = Vec::new();
        e.push(("order".to_owned(), self.order.to_json_body()));
        e.push(str_entry("owner", &self.owner));
        e.push(("orderType".to_owned(), JsonBody::Str(self.order_type.as_str().to_owned())));
        JsonBody::Object(e)
    }
}

/// A JSON array of strings, in order.
pub fn string_array(items: &Vec<String>) -> (r: JsonBody)
    ensures
        r matches JsonBody::Array(a) && a@.len() == items@.len() && forall|i: int|
            0 <= i < items@.len() ==> (#[trigger] a@[i] matches JsonBody::Str(s) && s@ == items@[i]@),
{
    let mut a: Vec<JsonBody> = Vec::new();
    let mut i: usize = 0;
    while i < items.len()
        invariant
            i <= items@.len(),
            a@.len() == i,
            forall|j: int| 0 <= j < i ==> (#[trigger] a@[j] matches JsonBody::Str(s) && s@ == items@[j]@),
        decreases items.len() - i,
    {
        a.push(JsonBody::Str(items[i].clone()));
        i = i + 1;
    }
    JsonBody::Array(a)
}

/// A JSON object of string entries, in order.
pub fn string_object(entries: &Vec<(&str, String)>) -> (r: JsonBody)
    ensures
        r matches JsonBody::Object(o) && o@.len() == entries@.len() && forall|i: int|
            0 <= i < entries@.len() ==> #[trigger] is_str_entry(o@[i], entries@[i].0@, entries@[i].1@),
{
    let mut o: Vec<(String, JsonBody)> = Vec::new();
    let mut i: usize = 0;
    while i < entries.len()
        invariant
            i <= entries@.len(),
            o@.len() == i,
            forall|j: int| 0 <= j < i ==> #[trigger] is_str_entry(o@[j], entries@[j].0@, entries@[j].1@),
        decreases entries.len() - i,
    {
        o.push(str_entry(entries[i].0, &entries[i].1));
        i = i + 1;
    }
    JsonBody::Object(o)
}

/// A limit order as the caller states it.
#[derive(Debug)]
pub struct OrderArgs {
    pub token_id: String,
    pub price: Decimal,
    pub size: Decimal,
    pub side: Side,
}

impl OrderArgs {
    pub fn new(token_id: &str, price: Decimal, size: Decimal, side: Side) -> (r: Self)
        ensures
            r.token_id@ == token_id@,
            r.price == price,
            r.size == size,
            r.side == side,
    {
        OrderArgs { token_id: token_id.to_owned(), price, size, side }
    }
}

/// One side of an order book, best level first.
#[derive(Debug)]
pub struct OrderBookSummary {
    pub market: String,
    pub asset_id: String,
    pub hash: String,
    pub timestamp: u64,
    pub bids: Vec<OrderSummary>,
    pub asks: Vec<OrderSummary>,
}

/// A market order: spend `amount` of the quote currency on `token_id`.
#[derive(Debug)]
pub struct MarketOrderArgs {
    pub token_id: String,
    pub amount: Decimal,
}

/// One price level of an order book.
#[derive(Clone, Copy, Debug, PartialEq, Eq, Structural)]
pub struct OrderSummary {
    pub price: Decimal,
    pub size: Decimal,
}

/// Caller overrides for an order: fee, nonce and taker.
#[derive(Debug)]
pub struct ExtraOrderArgs {
    pub fee_rate_bps: u32,
    pub nonce: U256,
    pub taker: String,
}

impl ExtraOrderArgs {
    /// No fee, nonce zero, and any taker.
    pub fn default() -> (r: Self)
        ensures
            r.fee_rate_bps == 0,
            r.nonce.value() == 0,
            r.taker@ == ZERO_ADDRESS@,
    {
        ExtraOrderArgs { fee_rate_bps: 0, nonce: U256::zero(), taker: ZERO_ADDRESS.to_owned() }
    }
}

/// Market metadata an order is built against; both must be known to build one.
#[derive(Clone, Copy, Debug, Default)]
pub struct CreateOrderOptions {
    pub tick_size: Option<Decimal>,
    pub neg_risk: Option<bool>,
}

#[derive(Debug)]
pub struct ApiKeysResponse {
    pub api_keys: Vec<String>,
}

#[derive(Debug)]
pub struct MidpointResponse {
    pub mid: Decimal,
}

#[derive(Debug)]
pub struct PriceResponse {
    pub price: Decimal,
}

#[derive(Debug)]
pub struct SpreadResponse {
    pub spread: Decimal,
}

#[derive(Debug)]
pub struct TickSizeResponse {
    pub minimum_tick_size: Decimal,
}

#[derive(Debug)]
pub struct NegRiskResponse {
    pub neg_risk: bool,
}

/// How long an order rests on the book.
#[derive(Clone, Copy, Debug, PartialEq, Eq, Structural, Hash)]
pub enum OrderType {
    GTC,
    FOK,
    GTD,
    FAK,
}

impl OrderType {
    pub open spec fn name(self) -> Seq<char> {
        match self {
            OrderType::GTC => "GTC"@,
            OrderType::FOK => "FOK"@,
            OrderType::GTD => "GTD"@,
            OrderType::FAK => "FAK"@,
        }
    }

    pub fn as_str(&self) -> (r: &'static str)
        ensures
            r@ == self.name(),
    {
        match self {
            OrderType::GTC => "GTC",
            OrderType::FOK => "FOK",
            OrderType::GTD => "GTD",
            OrderType::FAK => "FAK",
        }
    }
}

/// Whether the order buys or sells the outcome token.
#[derive(Clone, Copy, Debug, PartialEq, Eq, Structural, Hash)]
pub enum Side {
    BUY,
    SELL,
}

impl Side {
    pub open spec fn name(self) -> Seq<char> {
        match self {
            Side::BUY => "BUY"@,
            Side::SELL => "SELL"@,
        }
    }

    /// `0` for a buy and `1` for a sell, as the settlement contract encodes it.
    pub open spec fn code(self) -> u8 {
        match self {
            Side::BUY => 0,
            Side::SELL => 1,
        }
    }

    pub fn as_str(&self) -> (r: &'static str)
        ensures
            r@ == self.name(),
    {
        match self {
            Side::BUY => "BUY",
            Side::SELL => "SELL",
        }
    }

    pub fn as_u8(&self) -> (r: u8)
        ensures
            r == self.code(),
    {
        match self {
            Side::BUY => 0,
            Side::SELL => 1,
        }
    }
}

/// A book query for one token and side.
#[derive(Debug)]
pub struct BookParams {
    pub token_id: String,
    pub side: Side,
}

/// API credentials for the HMAC-authenticated endpoints.
#[derive(Debug, Default)]
pub struct ApiCreds {
    pub api_key: String,
    pub secret: String,
    pub passphrase: String,
}

/// One outcome token of a market.
#[derive(Debug)]
pub struct Token {
    pub token_id: String,
    pub outcome: String,
}

} // verus!
