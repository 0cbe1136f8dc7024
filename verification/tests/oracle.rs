use fair_lp_oracle::asset::AssetInfo;
use fair_lp_oracle::msg::{plan_query, QueryMsg, QueryPlan};
use fair_lp_oracle::proxy::ProxyQueryMsg;
use fair_lp_oracle::decimal::{Decimal, DECIMAL_FRACTIONAL};
use fair_lp_oracle::pool::{find_depth, resolve_pool, Asset, PoolResponse, PoolSnapshot};
use fair_lp_oracle::price::{
    price_source_for, quote_for_base, quote_from_hub, quote_from_native_rates, PriceSource,
};
use fair_lp_oracle::state::Config;
use fair_lp_oracle::valuation::{compute_fair_value, compute_lp_rate};
use fair_lp_oracle::OracleError;

const ONE: u128 = DECIMAL_FRACTIONAL;

fn dec(atomics: u128) -> Decimal {
    Decimal { atomics }
}

fn config(addr: &str) -> Config {
    Config::new(addr.to_string())
}

fn snapshot(reserve_a: u128, reserve_b: u128, total_shares: u128) -> PoolSnapshot {
    PoolSnapshot {
        asset_a: AssetInfo::Native("uusd".to_string()),
        reserve_a,
        asset_b: AssetInfo::Cw20("token0000".to_string()),
        reserve_b,
        total_shares,
    }
}

#[test]
fn base_denom_needs_no_query() {
    let asset = AssetInfo::Native("uusd".to_string());
    let source = price_source_for(&asset, &config("hub0000"));
    assert!(matches!(source, PriceSource::Base));
    // The choice cannot depend on the configuration.
    let source = price_source_for(&asset, &config("elsewhere"));
    assert!(matches!(source, PriceSource::Base));
    let quote = quote_for_base();
    assert_eq!(quote.rate, dec(ONE));
    assert_eq!(quote.observed_at, u64::MAX);
}

#[test]
fn other_native_goes_to_exchange_rates() {
    let asset = AssetInfo::Native("uluna".to_string());
    let source = price_source_for(&asset, &config("hub0000"));
    assert_eq!(
        source,
        PriceSource::NativeExchangeRate { denom: "uluna".to_string() }
    );
}

#[test]
fn token_goes_to_configured_hub() {
    let asset = AssetInfo::Cw20("token0000".to_string());
    let source = price_source_for(&asset, &config("hub0000"));
    assert_eq!(
        source,
        PriceSource::Hub {
            hub_addr: "hub0000".to_string(),
            token_addr: "token0000".to_string(),
        }
    );
}

#[test]
fn empty_exchange_rate_list_fails() {
    let rates: Vec<Decimal> = vec![];
    assert_eq!(quote_from_native_rates(&rates), Err(OracleError::ExternalQuery));
}

#[test]
fn first_exchange_rate_is_used() {
    let rates = vec![dec(3 * ONE / 2), dec(7)];
    let quote = quote_from_native_rates(&rates).unwrap();
    assert_eq!(quote.rate, dec(3 * ONE / 2));
    assert_eq!(quote.observed_at, u64::MAX);
}

#[test]
fn hub_quote_passes_through() {
    let quote = quote_from_hub(dec(5 * ONE), 1234);
    assert_eq!(quote.rate, dec(5 * ONE));
    assert_eq!(quote.observed_at, 1234);
}

#[test]
fn equilibrium_pool_rate() {
    // reserve_a = 100 at price 2, reserve_b = 200 at price 1: both sides are
    // worth 200, the pool value is 2 * sqrt(200 * 200) = 400, and with 100
    // shares each share is worth 4.
    let value = compute_fair_value(100, dec(2 * ONE), 200, dec(ONE)).unwrap();
    assert_eq!(value, 400);
    let resp = compute_lp_rate(&snapshot(100, 200, 100), dec(2 * ONE), dec(ONE), 55).unwrap();
    assert_eq!(resp.rate, dec(4 * ONE));
    assert_eq!(resp.last_updated, 55);
}

#[test]
fn rate_is_symmetric_in_the_assets() {
    let a = compute_lp_rate(&snapshot(100, 200, 100), dec(2 * ONE), dec(ONE), 7).unwrap();
    let b = compute_lp_rate(&snapshot(200, 100, 100), dec(ONE), dec(2 * ONE), 7).unwrap();
    assert_eq!(a, b);
    let c = compute_lp_rate(&snapshot(123, 4567, 89), dec(31 * ONE / 10), dec(ONE / 4), 7);
    let d = compute_lp_rate(&snapshot(4567, 123, 89), dec(ONE / 4), dec(31 * ONE / 10), 7);
    assert_eq!(c, d);
}

#[test]
fn one_sided_shift_leaves_fair_value_unchanged() {
    // Shift reserve_a -> 2 * reserve_a and reserve_b -> reserve_b / 2 at
    // fixed prices: the reserve product (the pool invariant) is preserved,
    // and the geometric-mean value does not move at all ...
    let before = compute_fair_value(100, dec(2 * ONE), 200, dec(ONE)).unwrap();
    let after = compute_fair_value(200, dec(2 * ONE), 100, dec(ONE)).unwrap();
    assert_eq!(before, 400);
    assert_eq!(after, before);
    // ... while the arithmetic-mean value 200 + 200 = 400 would jump to
    // 400 + 100 = 500, proportionally to the shift.
    let arithmetic_before = 100 * 2 + 200 * 1;
    let arithmetic_after = 200 * 2 + 100 * 1;
    assert_eq!(arithmetic_before, 400);
    assert_eq!(arithmetic_after, 500);
}

#[test]
fn empty_pool_fails_instead_of_dividing() {
    let r = compute_lp_rate(&snapshot(100, 200, 0), dec(2 * ONE), dec(ONE), 7);
    assert_eq!(r, Err(OracleError::DivideByZero));
}

#[test]
fn oversized_value_fails_instead_of_truncating() {
    // reserve * price = 2 * u128::MAX does not fit in 128 bits.
    let r = compute_fair_value(u128::MAX, dec(2 * ONE), 1, dec(ONE));
    assert_eq!(r, Err(OracleError::Overflow));
}

#[test]
fn missing_asset_is_a_pool_data_error() {
    let assets = vec![
        Asset { info: AssetInfo::Native("uusd".to_string()), amount: 5 },
        Asset { info: AssetInfo::Native("uluna".to_string()), amount: 7 },
    ];
    let absent = AssetInfo::Cw20("token0000".to_string());
    assert_eq!(find_depth(&assets, &absent), Err(OracleError::PoolData));
    // Same name under a different kind is a different asset.
    let wrong_kind = AssetInfo::Cw20("uusd".to_string());
    assert_eq!(find_depth(&assets, &wrong_kind), Err(OracleError::PoolData));
    let present = AssetInfo::Native("uluna".to_string());
    assert_eq!(find_depth(&assets, &present), Ok(7));
}

#[test]
fn pool_with_wrong_entry_count_is_rejected() {
    let one_entry = PoolResponse {
        assets: vec![Asset { info: AssetInfo::Native("uusd".to_string()), amount: 5 }],
        total_share: 10,
    };
    assert_eq!(resolve_pool(&one_entry).unwrap_err(), OracleError::PoolData);
    let three = PoolResponse {
        assets: vec![
            Asset { info: AssetInfo::Native("uusd".to_string()), amount: 5 },
            Asset { info: AssetInfo::Native("uluna".to_string()), amount: 7 },
            Asset { info: AssetInfo::Cw20("token0000".to_string()), amount: 9 },
        ],
        total_share: 10,
    };
    assert_eq!(resolve_pool(&three).unwrap_err(), OracleError::PoolData);
}

#[test]
fn pool_resolution_reads_entries_in_order() {
    let resp = PoolResponse {
        assets: vec![
            Asset { info: AssetInfo::Native("uusd".to_string()), amount: 500 },
            Asset { info: AssetInfo::Cw20("token0000".to_string()), amount: 250 },
        ],
        total_share: 100,
    };
    let snap = resolve_pool(&resp).unwrap();
    assert!(snap.asset_a.matches(&AssetInfo::Native("uusd".to_string())));
    assert_eq!(snap.reserve_a, 500);
    assert!(snap.asset_b.matches(&AssetInfo::Cw20("token0000".to_string())));
    assert_eq!(snap.reserve_b, 250);
    assert_eq!(snap.total_shares, 100);
}

#[test]
fn duplicate_entries_resolve_to_the_first() {
    // Both entries name the same asset: each lookup finds the first one.
    let resp = PoolResponse {
        assets: vec![
            Asset { info: AssetInfo::Native("uusd".to_string()), amount: 5 },
            Asset { info: AssetInfo::Native("uusd".to_string()), amount: 7 },
        ],
        total_share: 10,
    };
    let snap = resolve_pool(&resp).unwrap();
    assert_eq!(snap.reserve_a, 5);
    assert_eq!(snap.reserve_b, 5);
}

#[test]
fn queries_dispatch_to_the_right_plan() {
    assert_eq!(plan_query(QueryMsg::Config {}), QueryPlan::ReadConfig);
    let msg = QueryMsg::Base(ProxyQueryMsg::Price { asset_token: "lp0000".to_string() });
    assert_eq!(
        plan_query(msg),
        QueryPlan::PriceLpToken { asset_token: "lp0000".to_string() }
    );
}

#[test]
fn config_round_trip() {
    let res = Config::new("hub0000".to_string()).as_res();
    assert_eq!(res.prism_oracle_addr, "hub0000".to_string());
}
