//! Order construction and request authentication for a central limit order
//! book exchange: exchange-legal order amounts, signed order payloads, and the
//! two header schemes the exchange's gateway accepts.

pub mod amounts;
pub mod auth;
pub mod data;
pub mod decimal;
pub mod error;
pub mod json;
pub mod orders;
pub mod text;

pub use amounts::{
    amounts_from_legs, check_price_in_range, clamp_amount_precision, decimal_to_token_u32, fix_amount_rounding,
    get_market_order_amounts, get_order_amounts, is_price_in_range, resolve_tick_size, round_config_for,
    RoundConfig,
};
pub use auth::{
    build_hmac_message, build_hmac_signature, build_hmac_signature_from_str, create_l1_headers,
    create_l2_headers, get_current_unix_time_secs, l1_headers, l2_headers, Headers,
};
pub use data::{
    is_end_cursor, start_cursor, string_array, string_object, ApiCreds, ApiKeysResponse, AssetType, BalanceAllowanceParams,
    BookParams, CreateOrderOptions, ExtraOrderArgs, MarketOrderArgs, MidpointResponse,
    NegRiskResponse, OpenOrder, OpenOrderParams, OrderArgs, OrderBookSummary, OrderSummary,
    OrderType, PostOrder, PriceResponse, Side, SpreadResponse, TickSizeResponse, Token,
    TradeParams, END_CURSOR, INITIAL_CURSOR, ZERO_ADDRESS,
};
pub use decimal::{Decimal, RoundingStrategy};
pub use error::ClobError;
pub use json::{format_hmac_body, JsonBody};
pub use orders::{
    get_contract_config, salt_from, Address, ContractConfig, EthSigner, Order, OrderBuilder,
    SigType, SignedOrderRequest, U256,
};
