use std::str::FromStr;

use clob_client::{
    create_l1_headers, get_contract_config, salt_from, Address, ClobError, ContractConfig,
    CreateOrderOptions, Decimal, EthSigner, ExtraOrderArgs, MarketOrderArgs, Order, OrderArgs,
    OrderBuilder, OrderSummary, OrderType, PostOrder, Side, SigType, U256, ZERO_ADDRESS,
};

const WALLET: &str = "0xd8dA6BF26964aF9D7eEd9e03E53415D37aA96045";
const EXCHANGE: &str = "0x4bFb41d5B3570DeFd03C39a9A4D8dE6Bd8B8982E";
const NEG_RISK_EXCHANGE: &str = "0xC5d563A36AE78145C45a50134d48A1215220f80a";

fn address(s: &str) -> Address {
    Address { bytes: alloy_primitives::Address::from_str(s).unwrap().into_array() }
}

struct TestSigner {
    wallet: Address,
    refuse: bool,
}

impl EthSigner for TestSigner {
    fn address(&self) -> Address {
        self.wallet
    }

    fn sign_clob_auth(&self, timestamp: &str, nonce: &U256) -> Result<String, String> {
        if self.refuse {
            Err("refused".to_string())
        } else {
            Ok(format!("auth-{timestamp}-{}", nonce.limbs[0]))
        }
    }

    fn sign_order(&self, order: &Order, chain_id: u64, exchange: &Address) -> Result<String, String> {
        if self.refuse {
            Err("refused".to_string())
        } else {
            Ok(format!(
                "sig-{}-{}-{}-{}-{}",
                order.maker_amount, order.taker_amount, order.side, chain_id, exchange.bytes[0]
            ))
        }
    }
}

fn builder(refuse: bool) -> OrderBuilder<TestSigner> {
    OrderBuilder::new(TestSigner { wallet: address(WALLET), refuse }, None, None)
}

fn registry() -> Vec<ContractConfig> {
    vec![
        ContractConfig {
            chain_id: 137,
            neg_risk: false,
            exchange: EXCHANGE.to_string(),
            collateral: "0x2791Bca1f2de4661ED88A30C99A7a9449Aa84174".to_string(),
            conditional_tokens: "0x4D97DCd97eC945f40cF65F87097ACe5EA0476045".to_string(),
        },
        ContractConfig {
            chain_id: 137,
            neg_risk: true,
            exchange: NEG_RISK_EXCHANGE.to_string(),
            collateral: "0x2791Bca1f2de4661ED88A30C99A7a9449Aa84174".to_string(),
            conditional_tokens: "0x4D97DCd97eC945f40cF65F87097ACe5EA0476045".to_string(),
        },
        ContractConfig {
            chain_id: 5,
            neg_risk: false,
            exchange: "not an address".to_string(),
            collateral: String::new(),
            conditional_tokens: String::new(),
        },
    ]
}

fn options() -> CreateOrderOptions {
    CreateOrderOptions { tick_size: Some(Decimal::new(1, 2)), neg_risk: Some(false) }
}

fn buy_args() -> OrderArgs {
    OrderArgs::new("1234", Decimal::new(35, 2), Decimal::new(100, 0), Side::BUY)
}

fn level(price: (u64, u32), size: (u64, u32)) -> OrderSummary {
    OrderSummary { price: Decimal::new(price.0, price.1), size: Decimal::new(size.0, size.1) }
}

#[test]
fn estimate_price_accumulates_notional_not_size() {
    // The first level's notional is 0.5 * 10 = 5, short of 7; the second
    // brings the running notional to 11.
    let book = vec![level((5, 1), (10, 0)), level((6, 1), (10, 0))];
    let price = builder(false).calculate_market_price(&book, Decimal::new(7, 0)).unwrap();
    assert_eq!(price, Decimal::new(6, 1));
}

#[test]
fn estimate_price_first_level_covers_target() {
    let book = vec![level((5, 1), (10, 0)), level((6, 1), (10, 0))];
    let price = builder(false).calculate_market_price(&book, Decimal::new(4, 0)).unwrap();
    assert_eq!(price, Decimal::new(5, 1));
}

#[test]
fn estimate_price_walks_to_second_level() {
    let book = vec![level((5, 1), (3, 0)), level((6, 1), (10, 0))];
    let price = builder(false).calculate_market_price(&book, Decimal::new(5, 0)).unwrap();
    assert_eq!(price, Decimal::new(6, 1));
}

#[test]
fn estimate_price_reports_insufficient_liquidity() {
    let book = vec![level((5, 1), (1, 0))];
    let r = builder(false).calculate_market_price(&book, Decimal::new(10, 0));
    assert_eq!(r, Err(ClobError::InsufficientLiquidity { amount: Decimal::new(10, 0) }));
    let r = builder(false).calculate_market_price(&vec![], Decimal::new(1, 0));
    assert_eq!(r, Err(ClobError::InsufficientLiquidity { amount: Decimal::new(1, 0) }));
}

#[test]
fn estimate_price_reaching_target_exactly() {
    // 0.5 * 10 = 5 reaches a target of exactly 5.
    let book = vec![level((5, 1), (10, 0)), level((6, 1), (10, 0))];
    let price = builder(false).calculate_market_price(&book, Decimal::new(500, 2)).unwrap();
    assert_eq!(price, Decimal::new(5, 1));
}

#[test]
fn limit_order_wire_form() {
    let b = builder(false);
    let extras = ExtraOrderArgs::default();
    let req = b.create_order_with_salt(137, &buy_args(), 0, &extras, options(), &registry(), 42).unwrap();
    assert_eq!(req.salt, 42);
    assert_eq!(req.maker, WALLET);
    assert_eq!(req.signer, WALLET);
    assert_eq!(req.taker, ZERO_ADDRESS);
    assert_eq!(req.token_id, "1234");
    assert_eq!(req.maker_amount, "35000000");
    assert_eq!(req.taker_amount, "100000000");
    assert_eq!(req.expiration, "0");
    assert_eq!(req.nonce, "0");
    assert_eq!(req.fee_rate_bps, "0");
    assert_eq!(req.side, "BUY");
    assert_eq!(req.signature_type, 0);
    assert_eq!(req.signature, "sig-35000000-100000000-0-137-75");
}

#[test]
fn sell_order_with_overrides() {
    let funder = address("0x00000000000000000000000000000000000000ff");
    let b = OrderBuilder::new(
        TestSigner { wallet: address(WALLET), refuse: false },
        Some(SigType::PolyGnosisSafe),
        Some(funder),
    );
    assert_eq!(b.get_sig_type(), 2);
    let args = OrderArgs::new("99", Decimal::new(35, 2), Decimal::new(100, 0), Side::SELL);
    let extras = ExtraOrderArgs {
        fee_rate_bps: 25,
        nonce: U256 { limbs: [7, 0, 0, 0] },
        taker: WALLET.to_lowercase(),
    };
    let opts = CreateOrderOptions { tick_size: Some(Decimal::new(1, 2)), neg_risk: Some(true) };
    let req = b.create_order_with_salt(137, &args, 1700000000, &extras, opts, &registry(), 9).unwrap();
    assert!(req.maker.eq_ignore_ascii_case("0x00000000000000000000000000000000000000ff"));
    assert_eq!(req.signer, WALLET);
    assert_eq!(req.taker, WALLET);
    assert_eq!(req.maker_amount, "100000000");
    assert_eq!(req.taker_amount, "35000000");
    assert_eq!(req.expiration, "1700000000");
    assert_eq!(req.nonce, "7");
    assert_eq!(req.fee_rate_bps, "25");
    assert_eq!(req.side, "SELL");
    assert_eq!(req.signature_type, 2);
    // Signed for the neg-risk exchange.
    assert_eq!(req.signature, "sig-100000000-35000000-1-137-197");
}

#[test]
fn market_order_wire_form() {
    let b = builder(false);
    let args = MarketOrderArgs { token_id: "77".to_string(), amount: Decimal::new(100, 0) };
    let req = b
        .create_market_order_with_salt(137, &args, Decimal::new(5, 1), &ExtraOrderArgs::default(), options(), &registry(), 1)
        .unwrap();
    assert_eq!(req.maker_amount, "100000000");
    assert_eq!(req.taker_amount, "200000000");
    assert_eq!(req.side, "BUY");
    assert_eq!(req.expiration, "0");
}

#[test]
fn order_errors_in_order_of_checks() {
    let b = builder(false);
    let extras = ExtraOrderArgs::default();
    let reg = registry();
    let missing_tick = CreateOrderOptions { tick_size: None, neg_risk: Some(false) };
    assert_eq!(
        b.create_order_with_salt(137, &buy_args(), 0, &extras, missing_tick, &reg, 1).unwrap_err(),
        ClobError::MissingTickSize
    );
    let odd_tick = CreateOrderOptions { tick_size: Some(Decimal::new(5, 2)), neg_risk: Some(false) };
    assert_eq!(
        b.create_order_with_salt(137, &buy_args(), 0, &extras, odd_tick, &reg, 1).unwrap_err(),
        ClobError::UnsupportedTickSize
    );
    let huge = OrderArgs::new("1", Decimal::new(5, 1), Decimal::new(5000, 0), Side::BUY);
    assert_eq!(
        b.create_order_with_salt(137, &huge, 0, &extras, options(), &reg, 1).unwrap_err(),
        ClobError::AmountOutOfRange
    );
    let missing_neg_risk = CreateOrderOptions { tick_size: Some(Decimal::new(1, 2)), neg_risk: None };
    assert_eq!(
        b.create_order_with_salt(137, &buy_args(), 0, &extras, missing_neg_risk, &reg, 1).unwrap_err(),
        ClobError::MissingNegRisk
    );
    assert_eq!(
        b.create_order_with_salt(80002, &buy_args(), 0, &extras, options(), &reg, 1).unwrap_err(),
        ClobError::UnknownContract
    );
    assert_eq!(
        b.create_order_with_salt(5, &buy_args(), 0, &extras, options(), &reg, 1).unwrap_err(),
        ClobError::InvalidExchangeAddress
    );
    let bad_taker = ExtraOrderArgs { fee_rate_bps: 0, nonce: U256::zero(), taker: "0x12".to_string() };
    assert_eq!(
        b.create_order_with_salt(137, &buy_args(), 0, &bad_taker, options(), &reg, 1).unwrap_err(),
        ClobError::InvalidTakerAddress
    );
    let bad_token = OrderArgs::new("12a", Decimal::new(35, 2), Decimal::new(100, 0), Side::BUY);
    assert_eq!(
        b.create_order_with_salt(137, &bad_token, 0, &extras, options(), &reg, 1).unwrap_err(),
        ClobError::InvalidTokenId
    );
    let refusing = builder(true);
    assert_eq!(
        refusing.create_order_with_salt(137, &buy_args(), 0, &extras, options(), &reg, 1).unwrap_err(),
        ClobError::Signing("refused".to_string())
    );
}

#[test]
fn salted_order_uses_clock_salt() {
    let req = builder(false)
        .create_order(137, &buy_args(), 0, &ExtraOrderArgs::default(), options(), &registry())
        .unwrap();
    assert_eq!(req.maker_amount, "35000000");
}

#[test]
fn salt_scales_time_by_fraction() {
    assert_eq!(salt_from(1000, 1 << 63), 500);
    assert_eq!(salt_from(1000, 0), 0);
    assert_eq!(salt_from(1000, u64::MAX), 999);
    assert_eq!(salt_from(0, u64::MAX), 0);
}

#[test]
fn registry_lookup_takes_first_match() {
    let reg = registry();
    assert_eq!(get_contract_config(&reg, 137, false), Some(0));
    assert_eq!(get_contract_config(&reg, 137, true), Some(1));
    assert_eq!(get_contract_config(&reg, 1, false), None);
}

#[test]
fn post_order_body_is_camel_case_with_string_amounts() {
    let req = builder(false)
        .create_order_with_salt(137, &buy_args(), 0, &ExtraOrderArgs::default(), options(), &registry(), 42)
        .unwrap();
    let body = PostOrder::new(req, "owner-key".to_string(), OrderType::GTC).to_json_body();
    assert_eq!(
        clob_client::format_hmac_body(&body),
        format!(
            "{{\"order\": {{\"salt\": 42, \"maker\": \"{WALLET}\", \"signer\": \"{WALLET}\", \"taker\": \"{ZERO_ADDRESS}\", \"tokenId\": \"1234\", \"makerAmount\": \"35000000\", \"takerAmount\": \"100000000\", \"expiration\": \"0\", \"nonce\": \"0\", \"feeRateBps\": \"0\", \"side\": \"BUY\", \"signatureType\": 0, \"signature\": \"sig-35000000-100000000-0-137-75\"}}, \"owner\": \"owner-key\", \"orderType\": \"GTC\"}}"
        )
    );
}

#[test]
fn l1_headers_from_signer() {
    let headers = create_l1_headers(&TestSigner { wallet: address(WALLET), refuse: false }, Some(U256::from_u64(3))).unwrap();
    assert_eq!(headers.len(), 4);
    assert_eq!(headers[0], ("poly_address", WALLET.to_lowercase()));
    assert_eq!(headers[3], ("poly_nonce", "3".to_string()));
    assert!(headers[1].1.starts_with("auth-"));
    assert!(headers[1].1.ends_with("-3"));
    let r = create_l1_headers(&TestSigner { wallet: address(WALLET), refuse: true }, None);
    assert_eq!(r.unwrap_err(), ClobError::Signing("refused".to_string()));
}
