use reflector_client::mock::MockOracle;
use reflector_client::reflector::Asset;
use reflector_client::reflector::Contract as Oracle;
use reflector_client::Contract;
use reflector_client::PriceData;
use reflector_client::Symbol;

const ORACLE_ADDRESS: &str = "CCYOZJCOPG34LLQQ7N24YXBM7LL62R7ONMZ3G6WZAAYPB5OYKOMJRN63";

fn xlm() -> Asset {
    Asset::Other(Symbol::new("XLM").unwrap())
}

fn empty_mock() -> MockOracle {
    MockOracle {
        base_asset: Asset::Other(Symbol::new("USDC").unwrap()),
        asset_list: vec![],
        decimals_value: 14,
        resolution_value: 300,
        period_value: None,
        last_timestamp_value: 0,
        version_value: 1,
        admin_value: None,
        price_entries: vec![],
        cross_entries: vec![],
        twap_entries: vec![],
        x_twap_entries: vec![],
    }
}

fn mock_with_xlm_price(price: i128, timestamp: u64) -> MockOracle {
    let mut m = empty_mock();
    m.price_entries.push((xlm(), PriceData { price, timestamp }));
    m
}

#[test]
fn constructor_stores_oracle_address() {
    let c = Contract::__constructor();
    let stored = c.stored_oracle().expect("slot must be written");
    assert_eq!(stored.text(), ORACLE_ADDRESS);
}

#[test]
fn query_returns_programmed_price() {
    let mut c = Contract::__constructor();
    let oracle = mock_with_xlm_price(105000000, 1700000000);
    assert_eq!(c.hello_xlm(&oracle), 105000000);
}

#[test]
fn query_returns_sentinel_when_oracle_has_no_data() {
    let mut c = Contract::__constructor();
    let oracle = empty_mock();
    assert_eq!(c.hello_xlm(&oracle), -1);
}

#[test]
fn query_ignores_prices_of_other_assets() {
    let mut c = Contract::__constructor();
    let mut oracle = empty_mock();
    let other = Asset::Other(Symbol::new("USD").unwrap());
    oracle.price_entries.push((other, PriceData { price: 42, timestamp: 7 }));
    assert_eq!(c.hello_xlm(&oracle), -1);
}

#[test]
fn query_never_mutates_the_oracle_slot() {
    let mut c = Contract::__constructor();
    let before = c.stored_oracle().unwrap();
    let oracle = mock_with_xlm_price(99, 5);
    for _ in 0..3 {
        c.hello_xlm(&oracle);
        let after = c.stored_oracle().unwrap();
        assert!(after == before);
    }
}

#[test]
fn construction_is_idempotent_in_effect() {
    let c1 = Contract::__constructor();
    let c2 = Contract::__constructor();
    assert!(c1.stored_oracle().unwrap() == c2.stored_oracle().unwrap());
}

#[test]
fn query_uses_first_entry_for_the_asset() {
    let mut c = Contract::__constructor();
    let mut oracle = empty_mock();
    oracle.price_entries.push((xlm(), PriceData { price: 1, timestamp: 10 }));
    oracle.price_entries.push((xlm(), PriceData { price: 2, timestamp: 20 }));
    assert_eq!(c.hello_xlm(&oracle), 1);
}

#[test]
fn query_can_return_a_negative_programmed_price() {
    // The sentinel is indistinguishable from a genuine price of -1.
    let mut c = Contract::__constructor();
    let oracle = mock_with_xlm_price(-1, 12);
    assert_eq!(c.hello_xlm(&oracle), -1);
}

#[test]
fn price_from_response_unwraps_or_defaults() {
    assert_eq!(
        reflector_client::price_from_response(Some(PriceData { price: 7, timestamp: 3 })),
        7
    );
    assert_eq!(reflector_client::price_from_response(None), -1);
}

#[test]
fn constant_texts() {
    assert_eq!(reflector_client::oracle_address_text(), ORACLE_ADDRESS);
    assert_eq!(reflector_client::oracle_key_text(), "oracle");
    assert_eq!(reflector_client::xlm_symbol_text(), "XLM");
}

#[test]
fn lastprice_via_trait_matches_query() {
    let oracle = mock_with_xlm_price(314, 1000);
    let data = oracle.lastprice(&xlm()).unwrap();
    assert_eq!(data, PriceData { price: 314, timestamp: 1000 });
    let mut c = Contract::__constructor();
    assert_eq!(c.hello_xlm(&oracle), data.price);
}
