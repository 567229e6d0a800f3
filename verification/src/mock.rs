//! An in-memory oracle returning programmed responses, for exercising the
//! contract without a deployed oracle. The contract depends only on the
//! oracle interface, never on this concrete implementation.
use vstd::prelude::*;
use crate::address::Address;
use crate::reflector::Asset;
use crate::reflector::AssetView;
use crate::reflector::Contract;
use crate::reflector::PriceData;

verus! {

/// The first programmed observation for `asset`, if any.
pub open spec fn lookup_price(s: Seq<(Asset, PriceData)>, asset: AssetView) -> Option<PriceData>
    decreases s.len(),
{
    if s.len() == 0 {
        None
    } else if s[0].0@ == asset {
        Some(s[0].1)
    } else {
        lookup_price(s.drop_first(), asset)
    }
}

/// The first programmed cross-rate observation for the pair, if any.
pub open spec fn lookup_cross(
    s: Seq<(Asset, Asset, PriceData)>,
    base_asset: AssetView,
    quote_asset: AssetView,
) -> Option<PriceData>
    decreases s.len(),
{
    if s.len() == 0 {
        None
    } else if s[0].0@ == base_asset && s[0].1@ == quote_asset {
        Some(s[0].2)
    } else {
        lookup_cross(s.drop_first(), base_asset, quote_asset)
    }
}

/// The programmed time-weighted average for `asset`, if any.
pub open spec fn lookup_twap(s: Seq<(Asset, i128)>, asset: AssetView) -> Option<i128>
    decreases s.len(),
{
    if s.len() == 0 {
        None
    } else if s[0].0@ == asset {
        Some(s[0].1)
    } else {
        lookup_twap(s.drop_first(), asset)
    }
}

/// The programmed time-weighted average cross rate for the pair, if any.
pub open spec fn lookup_x_twap(
    s: Seq<(Asset, Asset, i128)>,
    base_asset: AssetView,
    quote_asset: AssetView,
) -> Option<i128>
    decreases s.len(),
{
    if s.len() == 0 {
        None
    } else if s[0].0@ == base_asset && s[0].1@ == quote_asset {
        Some(s[0].2)
    } else {
        lookup_x_twap(s.drop_first(), base_asset, quote_asset)
    }
}

/// The lookup reports absence exactly where no programmed entry names the
/// asset: the mock's `lastprice` is absent if and only if the asset is
/// unknown to it.
pub proof fn lemma_lookup_price_absent(s: Seq<(Asset, PriceData)>, asset: AssetView)
    ensures
        lookup_price(s, asset) is None <==> (forall|i: int|
            0 <= i < s.len() ==> #[trigger] s[i].0@ != asset),
    decreases s.len(),
{
    if s.len() > 0 {
        lemma_lookup_price_absent(s.drop_first(), asset);
        if s[0].0@ == asset {
            assert(s[0].0@ == asset);
        } else {
            if forall|j: int| 0 <= j < s.drop_first().len() ==> #[trigger] s.drop_first()[j].0@
                != asset {
                assert forall|i: int| 0 <= i < s.len() implies #[trigger] s[i].0@ != asset by {
                    if i > 0 {
                        assert(s[i] == s.drop_first()[i - 1]);
                    }
                }
            }
            if forall|i: int| 0 <= i < s.len() ==> #[trigger] s[i].0@ != asset {
                assert forall|j: int|
                    0 <= j < s.drop_first().len() implies #[trigger] s.drop_first()[j].0@
                    != asset by {
                    assert(s.drop_first()[j] == s[j + 1]);
                }
            }
        }
    }
}

/// Where the lookup finds an observation, it is the first programmed entry
/// for the asset: earlier entries shadow later ones.
pub proof fn lemma_lookup_price_found(s: Seq<(Asset, PriceData)>, asset: AssetView)
    requires
        lookup_price(s, asset) is Some,
    ensures
        exists|i: int|
            {
                &&& 0 <= i < s.len()
                &&& #[trigger] s[i].0@ == asset
                &&& lookup_price(s, asset) == Some(s[i].1)
                &&& forall|j: int| 0 <= j < i ==> #[trigger] s[j].0@ != asset
            },
    decreases s.len(),
{
    if s[0].0@ == asset {
        assert({
            &&& 0 <= 0 < s.len()
            &&& s[0].0@ == asset
            &&& lookup_price(s, asset) == Some(s[0].1)
            &&& forall|j: int| 0 <= j < 0 ==> #[trigger] s[j].0@ != asset
        });
    } else {
        lemma_lookup_price_found(s.drop_first(), asset);
        let i = choose|i: int|
            {
                &&& 0 <= i < s.drop_first().len()
                &&& #[trigger] s.drop_first()[i].0@ == asset
                &&& lookup_price(s.drop_first(), asset) == Some(s.drop_first()[i].1)
                &&& forall|j: int| 0 <= j < i ==> #[trigger] s.drop_first()[j].0@ != asset
            };
        assert(s[i + 1] == s.drop_first()[i]);
        assert forall|j: int| 0 <= j < i + 1 implies #[trigger] s[j].0@ != asset by {
            if j > 0 {
                assert(s[j] == s.drop_first()[j - 1]);
            }
        }
        assert({
            &&& 0 <= i + 1 < s.len()
            &&& s[i + 1].0@ == asset
            &&& lookup_price(s, asset) == Some(s[i + 1].1)
            &&& forall|j: int| 0 <= j < i + 1 ==> #[trigger] s[j].0@ != asset
        });
    }
}

fn find_price(entries: &Vec<(Asset, PriceData)>, asset: &Asset) -> (r: Option<PriceData>)
    ensures
        r == lookup_price(entries@, asset@),
{
    let n = entries.len();
    let mut i: usize = 0;
    proof {
        assert(entries@.skip(0) =~= entries@);
    }
    while i < n
        invariant
            0 <= i <= n,
            n == entries@.len(),
            lookup_price(entries@, asset@) == lookup_price(entries@.skip(i as int), asset@),
        decreases n - i,
    {
        if entries[i].0 == *asset {
            proof {
                assert(entries@.skip(i as int)[0] == entries@[i as int]);
            }
            return Some(entries[i].1.duplicate());
        }
        proof {
            assert(entries@.skip(i as int).drop_first() =~= entries@.skip(i as int + 1));
        }
        i += 1;
    }
    proof {
        assert(entries@.skip(n as int) =~= Seq::<(Asset, PriceData)>::empty());
    }
    None
}

fn find_cross(
    entries: &Vec<(Asset, Asset, PriceData)>,
    base_asset: &Asset,
    quote_asset: &Asset,
) -> (r: Option<PriceData>)
    ensures
        r == lookup_cross(entries@, base_asset@, quote_asset@),
{
    let n = entries.len();
    let mut i: usize = 0;
    proof {
        assert(entries@.skip(0) =~= entries@);
    }
    while i < n
        invariant
            0 <= i <= n,
            n == entries@.len(),
            lookup_cross(entries@, base_asset@, quote_asset@) == lookup_cross(
                entries@.skip(i as int),
                base_asset@,
                quote_asset@,
            ),
        decreases n - i,
    {
        if entries[i].0 == *base_asset && entries[i].1 == *quote_asset {
            proof {
                assert(entries@.skip(i as int)[0] == entries@[i as int]);
            }
            return Some(entries[i].2.duplicate());
        }
        proof {
            assert(entries@.skip(i as int)[0] == entries@[i as int]);
            assert(entries@.skip(i as int).drop_first() =~= entries@.skip(i as int + 1));
        }
        i += 1;
    }
    proof {
        assert(entries@.skip(n as int) =~= Seq::<(Asset, Asset, PriceData)>::empty());
    }
    None
}

fn find_twap(entries: &Vec<(Asset, i128)>, asset: &Asset) -> (r: Option<i128>)
    ensures
        r == lookup_twap(entries@, asset@),
{
    let n = entries.len();
    let mut i: usize = 0;
    proof {
        assert(entries@.skip(0) =~= entries@);
    }
    while i < n
        invariant
            0 <= i <= n,
            n == entries@.len(),
            lookup_twap(entries@, asset@) == lookup_twap(entries@.skip(i as int), asset@),
        decreases n - i,
    {
        if entries[i].0 == *asset {
            proof {
                assert(entries@.skip(i as int)[0] == entries@[i as int]);
            }
            return Some(entries[i].1);
        }
        proof {
            assert(entries@.skip(i as int).drop_first() =~= entries@.skip(i as int + 1));
        }
        i += 1;
    }
    proof {
        assert(entries@.skip(n as int) =~= Seq::<(Asset, i128)>::empty());
    }
    None
}

fn find_x_twap(
    entries: &Vec<(Asset, Asset, i128)>,
    base_asset: &Asset,
    quote_asset: &Asset,
) -> (r: Option<i128>)
    ensures
        r == lookup_x_twap(entries@, base_asset@, quote_asset@),
{
    let n = entries.len();
    let mut i: usize = 0;
    proof {
        assert(entries@.skip(0) =~= entries@);
    }
    while i < n
        invariant
            0 <= i <= n,
            n == entries@.len(),
            lookup_x_twap(entries@, base_asset@, quote_asset@) == lookup_x_twap(
                entries@.skip(i as int),
                base_asset@,
                quote_asset@,
            ),
        decreases n - i,
    {
        if entries[i].0 == *base_asset && entries[i].1 == *quote_asset {
            proof {
                assert(entries@.skip(i as int)[0] == entries@[i as int]);
            }
            return Some(entries[i].2);
        }
        proof {
            assert(entries@.skip(i as int)[0] == entries@[i as int]);
            assert(entries@.skip(i as int).drop_first() =~= entries@.skip(i as int + 1));
        }
        i += 1;
    }
    proof {
        assert(entries@.skip(n as int) =~= Seq::<(Asset, Asset, i128)>::empty());
    }
    None
}

/// An equal copy of a list of assets.
fn copy_assets(v: &Vec<Asset>) -> (r: Vec<Asset>)
    ensures
        r@ == v@,
{
    let n = v.len();
    let mut out: Vec<Asset> = Vec::new();
    let mut i: usize = 0;
    while i < n
        invariant
            0 <= i <= n,
            n == v@.len(),
            out@ == v@.subrange(0, i as int),
        decreases n - i,
    {
        out.push(v[i].duplicate());
        proof {
            assert(out@ =~= v@.subrange(0, i as int + 1));
        }
        i += 1;
    }
    proof {
        assert(v@.subrange(0, n as int) =~= v@);
    }
    out
}

/// An oracle whose every operation answers from a programmed table: one
/// latest observation per asset, one cross-rate observation per asset pair,
/// and one time-weighted average per asset or pair. Earlier entries shadow
/// later ones for the same key.
pub struct MockOracle {
    pub base_asset: Asset,
    pub asset_list: Vec<Asset>,
    pub decimals_value: u32,
    pub resolution_value: u32,
    pub period_value: Option<u64>,
    pub last_timestamp_value: u64,
    pub version_value: u32,
    pub admin_value: Option<Address>,
    pub price_entries: Vec<(Asset, PriceData)>,
    pub cross_entries: Vec<(Asset, Asset, PriceData)>,
    pub twap_entries: Vec<(Asset, i128)>,
    pub x_twap_entries: Vec<(Asset, Asset, i128)>,
}

impl Contract for MockOracle {
    open spec fn spec_base(&self) -> AssetView {
        self.base_asset@
    }

    open spec fn spec_assets(&self) -> Seq<AssetView> {
        self.asset_list.deep_view()
    }

    open spec fn spec_decimals(&self) -> u32 {
        self.decimals_value
    }

    open spec fn spec_price(&self, asset: AssetView, timestamp: u64) -> Option<PriceData> {
        match lookup_price(self.price_entries@, asset) {
            Some(d) => if d.timestamp == timestamp {
                Some(d)
            } else {
                None
            },
            None => None,
        }
    }

    open spec fn spec_lastprice(&self, asset: AssetView) -> Option<PriceData> {
        lookup_price(self.price_entries@, asset)
    }

    open spec fn spec_prices(&self, asset: AssetView, records: u32) -> Option<Seq<PriceData>> {
        match lookup_price(self.price_entries@, asset) {
            Some(d) => if records == 0 {
                Some(Seq::<PriceData>::empty())
            } else {
                Some(seq![d])
            },
            None => None,
        }
    }

    open spec fn spec_x_last_price(&self, base_asset: AssetView, quote_asset: AssetView) -> Option<
        PriceData,
    > {
        lookup_cross(self.cross_entries@, base_asset, quote_asset)
    }

    open spec fn spec_x_price(
        &self,
        base_asset: AssetView,
        quote_asset: AssetView,
        timestamp: u64,
    ) -> Option<PriceData> {
        match lookup_cross(self.cross_entries@, base_asset, quote_asset) {
            Some(d) => if d.timestamp == timestamp {
                Some(d)
            } else {
                None
            },
            None => None,
        }
    }

    open spec fn spec_x_prices(
        &self,
        base_asset: AssetView,
        quote_asset: AssetView,
        records: u32,
    ) -> Option<Seq<PriceData>> {
        match lookup_cross(self.cross_entries@, base_asset, quote_asset) {
            Some(d) => if records == 0 {
                Some(Seq::<PriceData>::empty())
            } else {
                Some(seq![d])
            },
            None => None,
        }
    }

    open spec fn spec_twap(&self, asset: AssetView, records: u32) -> Option<i128> {
        if records == 0 {
            None
        } else {
            lookup_twap(self.twap_entries@, asset)
        }
    }

    open spec fn spec_x_twap(
        &self,
        base_asset: AssetView,
        quote_asset: AssetView,
        records: u32,
    ) -> Option<i128> {
        if records == 0 {
            None
        } else {
            lookup_x_twap(self.x_twap_entries@, base_asset, quote_asset)
        }
    }

    open spec fn spec_resolution(&self) -> u32 {
        self.resolution_value
    }

    open spec fn spec_period(&self) -> Option<u64> {
        self.period_value
    }

    open spec fn spec_last_timestamp(&self) -> u64 {
        self.last_timestamp_value
    }

    open spec fn spec_version(&self) -> u32 {
        self.version_value
    }

    open spec fn spec_admin(&self) -> Option<Seq<char>> {
        self.admin_value.deep_view()
    }

    fn base(&self) -> (r: Asset) {
        self.base_asset.duplicate()
    }

    fn assets(&self) -> (r: Vec<Asset>) {
        copy_assets(&self.asset_list)
    }

    fn decimals(&self) -> (r: u32) {
        self.decimals_value
    }

    fn price(&self, asset: &Asset, timestamp: u64) -> (r: Option<PriceData>) {
        match self.lastprice(asset) {
            Some(d) => if d.timestamp == timestamp {
                Some(d)
            } else {
                None
            },
            None => None,
        }
    }

    fn lastprice(&self, asset: &Asset) -> (r: Option<PriceData>) {
        find_price(&self.price_entries, asset)
    }

    fn prices(&self, asset: &Asset, records: u32) -> (r: Option<Vec<PriceData>>) {
        match self.lastprice(asset) {
            Some(d) => {
                let mut out: Vec<PriceData> = Vec::new();
                if records > 0 {
                    out.push(d);
                }
                proof {
                    if records == 0 {
                        assert(out.deep_view() =~= Seq::<PriceData>::empty());
                    } else {
                        assert(out.deep_view() =~= seq![
                            lookup_price(self.price_entries@, asset@)->0,
                        ]);
                    }
                }
                Some(out)
            },
            None => None,
        }
    }

    fn x_last_price(&self, base_asset: &Asset, quote_asset: &Asset) -> (r: Option<PriceData>) {
        find_cross(&self.cross_entries, base_asset, quote_asset)
    }

    fn x_price(&self, base_asset: &Asset, quote_asset: &Asset, timestamp: u64) -> (r: Option<
        PriceData,
    >) {
        match self.x_last_price(base_asset, quote_asset) {
            Some(d) => if d.timestamp == timestamp {
                Some(d)
            } else {
                None
            },
            None => None,
        }
    }

    fn x_prices(&self, base_asset: &Asset, quote_asset: &Asset, records: u32) -> (r: Option<
        Vec<PriceData>,
    >) {
        match self.x_last_price(base_asset, quote_asset) {
            Some(d) => {
                let mut out: Vec<PriceData> = Vec::new();
                if records > 0 {
                    out.push(d);
                }
                proof {
                    if records == 0 {
                        assert(out.deep_view() =~= Seq::<PriceData>::empty());
                    } else {
                        assert(out.deep_view() =~= seq![
                            lookup_cross(self.cross_entries@, base_asset@, quote_asset@)->0,
                        ]);
                    }
                }
                Some(out)
            },
            None => None,
        }
    }

    fn twap(&self, asset: &Asset, records: u32) -> (r: Option<i128>) {
        if records == 0 {
            None
        } else {
            find_twap(&self.twap_entries, asset)
        }
    }

    fn x_twap(&self, base_asset: &Asset, quote_asset: &Asset, records: u32) -> (r: Option<i128>) {
        if records == 0 {
            None
        } else {
            find_x_twap(&self.x_twap_entries, base_asset, quote_asset)
        }
    }

    fn resolution(&self) -> (r: u32) {
        self.resolution_value
    }

    fn period(&self) -> (r: Option<u64>) {
        self.period_value
    }

    fn last_timestamp(&self) -> (r: u64) {
        self.last_timestamp_value
    }

    fn version(&self) -> (r: u32) {
        self.version_value
    }

    fn admin(&self) -> (r: Option<Address>) {
        match &self.admin_value {
            Some(a) => Some(a.duplicate()),
            None => None,
        }
    }
}

} // verus!
