//! The oracle's remote interface and the data shapes it exchanges.
use vstd::prelude::*;
use crate::address::Address;
use crate::symbol::Symbol;

verus! {

/// The mathematical value of an [`Asset`]: the variant tag together with the
/// text of its payload.
pub enum AssetView {
    Stellar(Seq<char>),
    Other(Seq<char>),
}

/// A priced instrument: either a native ledger identity, or a generic
/// symbolic name such as a currency code.
pub enum Asset {
    Stellar(Address),
    Other(Symbol),
}

impl View for Asset {
    type V = AssetView;

    open spec fn view(&self) -> AssetView {
        match self {
            Asset::Stellar(a) => AssetView::Stellar(a@),
            Asset::Other(s) => AssetView::Other(s@),
        }
    }
}

impl DeepView for Asset {
    type V = AssetView;

    open spec fn deep_view(&self) -> AssetView {
        self@
    }
}

impl Asset {
    /// An equal copy of the asset.
    pub fn duplicate(&self) -> (r: Asset)
        ensures
            r == *self,
    {
        match self {
            Asset::Stellar(a) => Asset::Stellar(a.duplicate()),
            Asset::Other(s) => Asset::Other(s.duplicate()),
        }
    }
}

impl PartialEq for Asset {
    fn eq(&self, other: &Asset) -> bool {
        match (self, other) {
            (Asset::Stellar(a), Asset::Stellar(b)) => a == b,
            (Asset::Other(a), Asset::Other(b)) => a == b,
            _ => false,
        }
    }
}

impl vstd::std_specs::cmp::PartialEqSpecImpl for Asset {
    open spec fn obeys_eq_spec() -> bool {
        true
    }

    open spec fn eq_spec(&self, other: &Asset) -> bool {
        self@ == other@
    }
}

/// Lexicographic order on character sequences, by code point; a proper
/// prefix comes first.
pub open spec fn seq_char_le(a: Seq<char>, b: Seq<char>) -> bool
    decreases a.len(),
{
    if a.len() == 0 {
        true
    } else if b.len() == 0 {
        false
    } else if (a[0] as u32) < (b[0] as u32) {
        true
    } else if (b[0] as u32) < (a[0] as u32) {
        false
    } else {
        seq_char_le(a.drop_first(), b.drop_first())
    }
}

/// The total order on assets: the variant tag decides first (a native ledger
/// identity comes before a symbolic name), then the payload text decides
/// lexicographically. Assets can therefore serve as lookup keys.
pub open spec fn asset_le(a: AssetView, b: AssetView) -> bool {
    match (a, b) {
        (AssetView::Stellar(x), AssetView::Stellar(y)) => seq_char_le(x, y),
        (AssetView::Stellar(_), AssetView::Other(_)) => true,
        (AssetView::Other(_), AssetView::Stellar(_)) => false,
        (AssetView::Other(x), AssetView::Other(y)) => seq_char_le(x, y),
    }
}

proof fn lemma_seq_char_le_total(a: Seq<char>, b: Seq<char>)
    ensures
        seq_char_le(a, b) || seq_char_le(b, a),
    decreases a.len(),
{
    if a.len() != 0 && b.len() != 0 && a[0] as u32 == b[0] as u32 {
        lemma_seq_char_le_total(a.drop_first(), b.drop_first());
    }
}

proof fn lemma_seq_char_le_antisymmetric(a: Seq<char>, b: Seq<char>)
    requires
        seq_char_le(a, b),
        seq_char_le(b, a),
    ensures
        a == b,
    decreases a.len(),
{
    if a.len() == 0 {
        assert(a =~= b);
    } else {
        if b.len() == 0 {
            assert(!seq_char_le(a, b));
        }
        if (a[0] as u32) < (b[0] as u32) {
            assert(!seq_char_le(b, a));
        }
        if (b[0] as u32) < (a[0] as u32) {
            assert(!seq_char_le(a, b));
        }
        assert(b.len() != 0);
        assert(a[0] as u32 == b[0] as u32);
        vstd::utf8::char_u32_cast(a[0], a[0] as u32);
        vstd::utf8::char_u32_cast(b[0], b[0] as u32);
        lemma_seq_char_le_antisymmetric(a.drop_first(), b.drop_first());
        assert(a[0] == b[0]);
        assert forall|i: int| 0 <= i < a.len() implies a[i] == b[i] by {
            if i > 0 {
                assert(a[i] == a.drop_first()[i - 1]);
                assert(b[i] == b.drop_first()[i - 1]);
            }
        }
        assert(a =~= b);
    }
}

proof fn lemma_seq_char_le_transitive(a: Seq<char>, b: Seq<char>, c: Seq<char>)
    requires
        seq_char_le(a, b),
        seq_char_le(b, c),
    ensures
        seq_char_le(a, c),
    decreases a.len(),
{
    if a.len() != 0 && b.len() != 0 && c.len() != 0 && a[0] as u32 == b[0] as u32 && b[0] as u32
        == c[0] as u32 {
        lemma_seq_char_le_transitive(a.drop_first(), b.drop_first(), c.drop_first());
    }
}

/// The order on assets relates every pair, one way or the other.
pub proof fn lemma_asset_le_total(a: AssetView, b: AssetView)
    ensures
        asset_le(a, b) || asset_le(b, a),
{
    match (a, b) {
        (AssetView::Stellar(x), AssetView::Stellar(y)) => lemma_seq_char_le_total(x, y),
        (AssetView::Other(x), AssetView::Other(y)) => lemma_seq_char_le_total(x, y),
        _ => {},
    }
}

/// Two assets each at most the other are the same asset.
pub proof fn lemma_asset_le_antisymmetric(a: AssetView, b: AssetView)
    requires
        asset_le(a, b),
        asset_le(b, a),
    ensures
        a == b,
{
    match (a, b) {
        (AssetView::Stellar(x), AssetView::Stellar(y)) => lemma_seq_char_le_antisymmetric(x, y),
        (AssetView::Other(x), AssetView::Other(y)) => lemma_seq_char_le_antisymmetric(x, y),
        _ => {},
    }
}

/// The order on assets is transitive.
pub proof fn lemma_asset_le_transitive(a: AssetView, b: AssetView, c: AssetView)
    ensures
        asset_le(a, b) && asset_le(b, c) ==> asset_le(a, c),
{
    if asset_le(a, b) && asset_le(b, c) {
        match (a, b, c) {
            (AssetView::Stellar(x), AssetView::Stellar(y), AssetView::Stellar(z)) => {
                lemma_seq_char_le_transitive(x, y, z);
            },
            (AssetView::Other(x), AssetView::Other(y), AssetView::Other(z)) => {
                lemma_seq_char_le_transitive(x, y, z);
            },
            _ => {},
        }
    }
}

/// Every asset is at most itself.
pub proof fn lemma_asset_le_reflexive(a: AssetView)
    ensures
        asset_le(a, a),
{
    lemma_asset_le_total(a, a);
}

/// An immutable price observation: a signed fixed-point price (the scale is
/// the oracle's `decimals()`) together with the timestamp of the observation.
#[derive(Debug, Clone, PartialEq, Eq, Structural)]
pub struct PriceData {
    pub price: i128,
    pub timestamp: u64,
}

impl View for PriceData {
    type V = PriceData;

    open spec fn view(&self) -> PriceData {
        *self
    }
}

impl DeepView for PriceData {
    type V = PriceData;

    open spec fn deep_view(&self) -> PriceData {
        *self
    }
}

impl PriceData {
    /// An equal copy of the observation.
    pub fn duplicate(&self) -> (r: PriceData)
        ensures
            r == *self,
    {
        PriceData { price: self.price, timestamp: self.timestamp }
    }
}

/// The oracle's full remote call surface. Each operation is a synchronous
/// cross-contract call; an implementor's specification functions give the
/// mathematical value each call returns. The client contract below uses only
/// `lastprice`; the rest are declared so that the oracle's surface is
/// described in full and future operations need not redefine it.
pub trait Contract {
    /// The oracle's reference/quote asset.
    spec fn spec_base(&self) -> AssetView;

    /// All assets the oracle prices, in the oracle's order.
    spec fn spec_assets(&self) -> Seq<AssetView>;

    /// The fixed-point scale of returned prices.
    spec fn spec_decimals(&self) -> u32;

    /// The historical price of `asset` at timestamp `timestamp`, if any.
    spec fn spec_price(&self, asset: AssetView, timestamp: u64) -> Option<PriceData>;

    /// The most recent price of `asset`, absent if the oracle has no data.
    spec fn spec_lastprice(&self, asset: AssetView) -> Option<PriceData>;

    /// Up to `records` most recent observations of `asset`, newest first.
    spec fn spec_prices(&self, asset: AssetView, records: u32) -> Option<Seq<PriceData>>;

    /// The most recent cross rate of `base_asset` denominated in `quote_asset`.
    spec fn spec_x_last_price(&self, base_asset: AssetView, quote_asset: AssetView) -> Option<
        PriceData,
    >;

    /// The historical cross rate at `timestamp`, if any.
    spec fn spec_x_price(
        &self,
        base_asset: AssetView,
        quote_asset: AssetView,
        timestamp: u64,
    ) -> Option<PriceData>;

    /// Up to `records` most recent cross-rate observations, newest first.
    spec fn spec_x_prices(
        &self,
        base_asset: AssetView,
        quote_asset: AssetView,
        records: u32,
    ) -> Option<Seq<PriceData>>;

    /// The time-weighted average price over the `records` most recent records.
    spec fn spec_twap(&self, asset: AssetView, records: u32) -> Option<i128>;

    /// The time-weighted average cross rate over the `records` most recent
    /// records.
    spec fn spec_x_twap(&self, base_asset: AssetView, quote_asset: AssetView, records: u32) -> Option<
        i128,
    >;

    /// The oracle's sampling interval.
    spec fn spec_resolution(&self) -> u32;

    /// The oracle's retention window, if bounded.
    spec fn spec_period(&self) -> Option<u64>;

    /// The timestamp of the oracle's most recent update.
    spec fn spec_last_timestamp(&self) -> u64;

    /// The oracle's schema/version number.
    spec fn spec_version(&self) -> u32;

    /// The oracle's administrator, if one exists.
    spec fn spec_admin(&self) -> Option<Seq<char>>;

    fn base(&self) -> (r: Asset)
        ensures
            r@ == self.spec_base(),
    ;

    fn assets(&self) -> (r: Vec<Asset>)
        ensures
            r.deep_view() == self.spec_assets(),
    ;

    fn decimals(&self) -> (r: u32)
        ensures
            r == self.spec_decimals(),
    ;

    fn price(&self, asset: &Asset, timestamp: u64) -> (r: Option<PriceData>)
        ensures
            r == self.spec_price(asset@, timestamp),
    ;

    fn lastprice(&self, asset: &Asset) -> (r: Option<PriceData>)
        ensures
            r == self.spec_lastprice(asset@),
    ;

    fn prices(&self, asset: &Asset, records: u32) -> (r: Option<Vec<PriceData>>)
        ensures
            r.deep_view() == self.spec_prices(asset@, records),
    ;

    fn x_last_price(&self, base_asset: &Asset, quote_asset: &Asset) -> (r: Option<PriceData>)
        ensures
            r == self.spec_x_last_price(base_asset@, quote_asset@),
    ;

    fn x_price(&self, base_asset: &Asset, quote_asset: &Asset, timestamp: u64) -> (r: Option<
        PriceData,
    >)
        ensures
            r == self.spec_x_price(base_asset@, quote_asset@, timestamp),
    ;

    fn x_prices(&self, base_asset: &Asset, quote_asset: &Asset, records: u32) -> (r: Option<
        Vec<PriceData>,
    >)
        ensures
            r.deep_view() == self.spec_x_prices(base_asset@, quote_asset@, records),
    ;

    fn twap(&self, asset: &Asset, records: u32) -> (r: Option<i128>)
        ensures
            r == self.spec_twap(asset@, records),
    ;

    fn x_twap(&self, base_asset: &Asset, quote_asset: &Asset, records: u32) -> (r: Option<i128>)
        ensures
            r == self.spec_x_twap(base_asset@, quote_asset@, records),
    ;

    fn resolution(&self) -> (r: u32)
        ensures
            r == self.spec_resolution(),
    ;

    fn period(&self) -> (r: Option<u64>)
        ensures
            r == self.spec_period(),
    ;

    fn last_timestamp(&self) -> (r: u64)
        ensures
            r == self.spec_last_timestamp(),
    ;

    fn version(&self) -> (r: u32)
        ensures
            r == self.spec_version(),
    ;

    fn admin(&self) -> (r: Option<Address>)
        ensures
            r.deep_view() == self.spec_admin(),
    ;
}

/// The oracle's own error taxonomy. The client contract never raises any of
/// these; they are declared only so that the oracle's error domain is
/// described in full.
#[derive(Debug, Copy, Clone, PartialEq, Eq, Structural)]
pub enum Error {
    AlreadyInitialized,
    Unauthorized,
    AssetMissing,
    AssetAlreadyExists,
    InvalidConfigVersion,
    InvalidTimestamp,
    InvalidUpdateLength,
    AssetLimitExceeded,
}

impl Error {
    /// The numeric code the oracle assigns to each error kind.
    pub fn code(&self) -> (c: u32)
        ensures
            c == self.spec_code(),
    {
        match self {
            Error::AlreadyInitialized => 0,
            Error::Unauthorized => 1,
            Error::AssetMissing => 2,
            Error::AssetAlreadyExists => 3,
            Error::InvalidConfigVersion => 4,
            Error::InvalidTimestamp => 5,
            Error::InvalidUpdateLength => 6,
            Error::AssetLimitExceeded => 7,
        }
    }

    pub open spec fn spec_code(self) -> u32 {
        match self {
            Error::AlreadyInitialized => 0,
            Error::Unauthorized => 1,
            Error::AssetMissing => 2,
            Error::AssetAlreadyExists => 3,
            Error::InvalidConfigVersion => 4,
            Error::InvalidTimestamp => 5,
            Error::InvalidUpdateLength => 6,
            Error::AssetLimitExceeded => 7,
        }
    }
}

} // verus!
