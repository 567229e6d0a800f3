use reflector_client::mock::MockOracle;
use reflector_client::reflector::Asset;
use reflector_client::reflector::Contract as Oracle;
use reflector_client::Address;
use reflector_client::PriceData;
use reflector_client::Symbol;

fn sym_asset(name: &str) -> Asset {
    Asset::Other(Symbol::new(name).unwrap())
}

fn stellar_asset(addr: &str) -> Asset {
    Asset::Stellar(Address::new(addr))
}

fn base_mock() -> MockOracle {
    MockOracle {
        base_asset: sym_asset("USD"),
        asset_list: vec![sym_asset("XLM"), sym_asset("BTC")],
        decimals_value: 14,
        resolution_value: 300,
        period_value: Some(86400),
        last_timestamp_value: 1700000300,
        version_value: 2,
        admin_value: Some(Address::new("GADMIN")),
        price_entries: vec![
            (sym_asset("XLM"), PriceData { price: 105000000, timestamp: 1700000000 }),
            (sym_asset("BTC"), PriceData { price: 43000, timestamp: 1700000100 }),
        ],
        cross_entries: vec![
            (sym_asset("BTC"), sym_asset("XLM"), PriceData { price: 999, timestamp: 50 }),
        ],
        twap_entries: vec![(sym_asset("XLM"), 104000000)],
        x_twap_entries: vec![(sym_asset("BTC"), sym_asset("XLM"), 998)],
    }
}

#[test]
fn base_returns_the_configured_asset() {
    let m = base_mock();
    assert!(m.base() == sym_asset("USD"));
}

#[test]
fn assets_returns_the_configured_list() {
    let m = base_mock();
    let listed = m.assets();
    assert_eq!(listed.len(), 2);
    assert!(listed[0] == sym_asset("XLM"));
    assert!(listed[1] == sym_asset("BTC"));
}

#[test]
fn scalar_configuration_is_returned_as_programmed() {
    let m = base_mock();
    assert_eq!(m.decimals(), 14);
    assert_eq!(m.resolution(), 300);
    assert_eq!(m.period(), Some(86400));
    assert_eq!(m.last_timestamp(), 1700000300);
    assert_eq!(m.version(), 2);
    assert!(m.admin().unwrap() == Address::new("GADMIN"));
}

#[test]
fn admin_can_be_absent() {
    let mut m = base_mock();
    m.admin_value = None;
    assert!(m.admin().is_none());
}

#[test]
fn lastprice_finds_each_programmed_asset() {
    let m = base_mock();
    assert_eq!(
        m.lastprice(&sym_asset("XLM")),
        Some(PriceData { price: 105000000, timestamp: 1700000000 })
    );
    assert_eq!(
        m.lastprice(&sym_asset("BTC")),
        Some(PriceData { price: 43000, timestamp: 1700000100 })
    );
    assert_eq!(m.lastprice(&sym_asset("ETH")), None);
}

#[test]
fn lastprice_distinguishes_variants() {
    let mut m = base_mock();
    m.price_entries.push((stellar_asset("GABC"), PriceData { price: 5, timestamp: 1 }));
    assert_eq!(m.lastprice(&stellar_asset("GABC")), Some(PriceData { price: 5, timestamp: 1 }));
    assert_eq!(m.lastprice(&sym_asset("GABC")), None);
}

#[test]
fn price_requires_the_exact_timestamp() {
    let m = base_mock();
    assert_eq!(
        m.price(&sym_asset("XLM"), 1700000000),
        Some(PriceData { price: 105000000, timestamp: 1700000000 })
    );
    assert_eq!(m.price(&sym_asset("XLM"), 1699999999), None);
    assert_eq!(m.price(&sym_asset("ETH"), 1700000000), None);
}

#[test]
fn prices_returns_up_to_the_requested_records() {
    let m = base_mock();
    let one = m.prices(&sym_asset("XLM"), 5).unwrap();
    assert_eq!(one, vec![PriceData { price: 105000000, timestamp: 1700000000 }]);
    let none_asked = m.prices(&sym_asset("XLM"), 0).unwrap();
    assert!(none_asked.is_empty());
    assert!(m.prices(&sym_asset("ETH"), 5).is_none());
}

#[test]
fn cross_rates_answer_from_the_cross_table() {
    let m = base_mock();
    assert_eq!(
        m.x_last_price(&sym_asset("BTC"), &sym_asset("XLM")),
        Some(PriceData { price: 999, timestamp: 50 })
    );
    assert_eq!(m.x_last_price(&sym_asset("XLM"), &sym_asset("BTC")), None);
    assert_eq!(
        m.x_price(&sym_asset("BTC"), &sym_asset("XLM"), 50),
        Some(PriceData { price: 999, timestamp: 50 })
    );
    assert_eq!(m.x_price(&sym_asset("BTC"), &sym_asset("XLM"), 51), None);
    let pair = m.x_prices(&sym_asset("BTC"), &sym_asset("XLM"), 3).unwrap();
    assert_eq!(pair, vec![PriceData { price: 999, timestamp: 50 }]);
    assert!(m.x_prices(&sym_asset("XLM"), &sym_asset("BTC"), 3).is_none());
}

#[test]
fn twap_needs_at_least_one_record() {
    let m = base_mock();
    assert_eq!(m.twap(&sym_asset("XLM"), 0), None);
    assert_eq!(m.twap(&sym_asset("XLM"), 3), Some(104000000));
    assert_eq!(m.twap(&sym_asset("ETH"), 3), None);
    assert_eq!(m.x_twap(&sym_asset("BTC"), &sym_asset("XLM"), 0), None);
    assert_eq!(m.x_twap(&sym_asset("BTC"), &sym_asset("XLM"), 2), Some(998));
    assert_eq!(m.x_twap(&sym_asset("XLM"), &sym_asset("BTC"), 2), None);
}

#[test]
fn earlier_entries_shadow_later_ones() {
    let mut m = base_mock();
    m.price_entries.insert(0, (sym_asset("XLM"), PriceData { price: 1, timestamp: 2 }));
    assert_eq!(m.lastprice(&sym_asset("XLM")), Some(PriceData { price: 1, timestamp: 2 }));
}
