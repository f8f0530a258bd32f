use clob_client::{
    is_end_cursor, start_cursor, AssetType, BalanceAllowanceParams, Decimal, OpenOrderParams,
    OrderType, Side, TradeParams,
};

#[test]
fn balance_allowance_query_params() {
    let mut params = BalanceAllowanceParams::default();
    assert!(params.to_query_params().is_empty());
    params.asset_type = Some(AssetType::CONDITIONAL);
    params.token_id = Some("123".to_string());
    params.set_signature_type(2);
    assert_eq!(
        params.to_query_params(),
        vec![
            ("asset_type", "CONDITIONAL".to_string()),
            ("token_id", "123".to_string()),
            ("signature_type", "2".to_string()),
        ]
    );
    let collateral = BalanceAllowanceParams {
        asset_type: Some(AssetType::COLLATERAL),
        token_id: None,
        signature_type: Some(255),
    };
    assert_eq!(
        collateral.to_query_params(),
        vec![("asset_type", "COLLATERAL".to_string()), ("signature_type", "255".to_string())]
    );
}

#[test]
fn trade_query_params_skip_maker_address() {
    let params = TradeParams {
        id: Some("t1".to_string()),
        maker_address: Some("0xabc".to_string()),
        market: Some("m".to_string()),
        asset_id: Some("a".to_string()),
        before: Some(1700000000),
        after: Some(0),
    };
    assert_eq!(
        params.to_query_params(),
        vec![
            ("id", "t1".to_string()),
            ("asset_id", "a".to_string()),
            ("market", "m".to_string()),
            ("before", "1700000000".to_string()),
            ("after", "0".to_string()),
        ]
    );
    let empty = TradeParams { id: None, maker_address: None, market: None, asset_id: None, before: None, after: None };
    assert!(empty.to_query_params().is_empty());
}

#[test]
fn open_order_query_params() {
    let id = "o1".to_string();
    let market = "m".to_string();
    let params = OpenOrderParams { id: Some(id.clone()), asset_id: None, market: Some(market.clone()) };
    assert_eq!(params.to_query_params(), vec![("id", &id), ("market", &market)]);
}

#[test]
fn enum_names() {
    assert_eq!(Side::BUY.as_str(), "BUY");
    assert_eq!(Side::SELL.as_str(), "SELL");
    assert_eq!(Side::BUY.as_u8(), 0);
    assert_eq!(Side::SELL.as_u8(), 1);
    assert_eq!(OrderType::GTC.as_str(), "GTC");
    assert_eq!(OrderType::FOK.as_str(), "FOK");
    assert_eq!(OrderType::GTD.as_str(), "GTD");
    assert_eq!(OrderType::FAK.as_str(), "FAK");
    assert_eq!(AssetType::COLLATERAL.to_string(), "COLLATERAL");
    assert_eq!(AssetType::CONDITIONAL.to_string(), "CONDITIONAL");
}

#[test]
fn listing_cursors() {
    assert_eq!(start_cursor(None), "MA==");
    assert_eq!(start_cursor(Some("abc")), "abc");
    assert!(is_end_cursor(&"LTE=".to_string()));
    assert!(!is_end_cursor(&"MA==".to_string()));
    assert!(!is_end_cursor(&String::new()));
}

#[test]
fn decimal_validity() {
    assert!(Decimal::new(1, 28).is_valid());
    assert!(!Decimal { mantissa: 1, scale: 29 }.is_valid());
    assert!(!Decimal { mantissa: 1 << 96, scale: 0 }.is_valid());
    assert!(Decimal { mantissa: (1 << 96) - 1, scale: 0 }.is_valid());
}
