//! A minimal price-feed contract bound to a Reflector-style oracle.
//!
//! The contract stores the oracle's address in one persistent slot at
//! construction time and exposes a single query that asks the oracle for the
//! latest XLM price, returning the price itself or the sentinel `-1` when the
//! oracle has no data for the symbol.
use vstd::prelude::*;

pub mod address;
pub mod mock;
pub mod reflector;
pub mod storage;
pub mod symbol;

pub use address::Address;
pub use reflector::Asset;
pub use reflector::Error;
pub use reflector::PriceData;
pub use symbol::Symbol;

verus! {

/// The text of the storage key under which the oracle's address persists.
pub fn oracle_key_text() -> (t: &'static str)
    ensures
        t@ == spec_oracle_key(),
{
    "oracle"
}

/// The storage key under which the oracle's address persists.
pub open spec fn spec_oracle_key() -> Seq<char> {
    "oracle"@
}

/// The fixed address of the deployed oracle contract.
pub fn oracle_address_text() -> (t: &'static str)
    ensures
        t@ == spec_oracle_address(),
{
    "CCYOZJCOPG34LLQQ7N24YXBM7LL62R7ONMZ3G6WZAAYPB5OYKOMJRN63"
}

/// The fixed address of the deployed oracle contract.
pub open spec fn spec_oracle_address() -> Seq<char> {
    "CCYOZJCOPG34LLQQ7N24YXBM7LL62R7ONMZ3G6WZAAYPB5OYKOMJRN63"@
}

/// The symbolic name of the asset the query operation prices.
pub fn xlm_symbol_text() -> (t: &'static str)
    ensures
        t@ == spec_xlm_symbol(),
{
    "XLM"
}

/// The symbolic name of the asset the query operation prices.
pub open spec fn spec_xlm_symbol() -> Seq<char> {
    "XLM"@
}

/// The asset the query operation asks the oracle about.
pub open spec fn spec_xlm_asset() -> reflector::AssetView {
    reflector::AssetView::Other(spec_xlm_symbol())
}

/// The price the query operation returns for a given oracle response: the
/// price field of the observation, or the sentinel `-1` where the oracle has
/// no data. The sentinel is indistinguishable from a genuine price of `-1`;
/// that conflation is deliberate.
pub open spec fn spec_price_or_sentinel(r: Option<PriceData>) -> i128 {
    match r {
        Some(d) => d.price,
        None => -1i128,
    }
}

/// Turns the oracle's response to a `lastprice` call into the value the query
/// operation returns.
pub fn price_from_response(r: Option<PriceData>) -> (p: i128)
    ensures
        p == spec_price_or_sentinel(r),
{
    match r {
        Some(data) => data.price,
        None => -1,
    }
}

/// The deployable unit: holds the one piece of persistent state, the oracle's
/// address under the "oracle" slot, and exposes the price query.
pub struct Contract {
    storage: storage::InstanceStorage,
}

impl Contract {
    /// What the slot named `key` currently holds.
    pub closed spec fn spec_slot(&self, key: Seq<char>) -> Option<Seq<char>> {
        self.storage.spec_get(key)
    }

    /// What the "oracle" slot currently holds.
    pub open spec fn spec_oracle_slot(&self) -> Option<Seq<char>> {
        self.spec_slot(spec_oracle_key())
    }

    /// The state every contract is in once construction has completed: the
    /// "oracle" slot holds the fixed configured address, and no other slot
    /// holds anything — the persisted layout is exactly one entry.
    pub open spec fn constructed(&self) -> bool {
        &&& self.spec_oracle_slot() == Some(spec_oracle_address())
        &&& forall|k: Seq<char>| k != spec_oracle_key() ==> self.spec_slot(k) is None
    }

    /// Construction, invoked exactly once at deployment: stores the fixed
    /// oracle address into the "oracle" slot. It cannot fail: the address is
    /// a compile-time constant and the slot key is a well-formed symbol.
    pub fn __constructor() -> (c: Contract)
        ensures
            c.constructed(),
    {
        proof {
            reveal_strlit("oracle");
        }
        let key = Symbol::new(oracle_key_text()).unwrap();
        let oracle_address = Address::new(oracle_address_text());
        let mut st = storage::InstanceStorage::new();
        st.set(&key, &oracle_address);
        Contract { storage: st }
    }

    /// A read of the persisted "oracle" slot.
    pub fn stored_oracle(&self) -> (r: Option<Address>)
        ensures
            match r {
                Some(a) => self.spec_oracle_slot() == Some(a@),
                None => self.spec_oracle_slot() is None,
            },
    {
        proof {
            reveal_strlit("oracle");
        }
        let key = Symbol::new(oracle_key_text()).unwrap();
        self.storage.get(&key)
    }

    /// The query operation: reads the stored oracle address, asks the oracle
    /// for the latest price of the asset named "XLM", and returns the price,
    /// or `-1` where the oracle has no data for it. The host aborts the whole
    /// invocation where the slot is absent or the remote call fails; the
    /// first cannot occur post-construction and is excluded here, the second
    /// lies with the host. The contract's own state is never changed.
    pub fn hello_xlm<O: reflector::Contract>(&mut self, oracle: &O) -> (price: i128)
        requires
            old(self).spec_oracle_slot() is Some,
        ensures
            *final(self) == *old(self),
            final(self).spec_oracle_slot() == old(self).spec_oracle_slot(),
            price == spec_price_or_sentinel(oracle.spec_lastprice(spec_xlm_asset())),
    {
        proof {
            reveal_strlit("oracle");
            reveal_strlit("XLM");
        }
        let key = Symbol::new(oracle_key_text()).unwrap();
        // The host would resolve this address to the deployed oracle; the
        // `oracle` argument stands for the contract deployed there.
        let _oracle_address: Address = self.storage.get(&key).unwrap();
        let xlm = Symbol::new(xlm_symbol_text()).unwrap();
        let xlm_asset = Asset::Other(xlm);
        let price_data = oracle.lastprice(&xlm_asset);
        price_from_response(price_data)
    }
}

/// After construction the persisted "oracle" slot yields the fixed configured
/// address, and it keeps doing so across query invocations: `hello_xlm`
/// ensures the state, and with it the slot, is exactly what it was.
pub proof fn lemma_constructed_slot(c: Contract)
    requires
        c.constructed(),
    ensures
        c.spec_oracle_slot() == Some(spec_oracle_address()),
{
}

/// Whatever the oracle answers, the query's result is determined by it: the
/// price of the latest observation for the queried asset where one exists,
/// and exactly `-1` where the oracle reports absence.
pub proof fn lemma_query_price<O: reflector::Contract>(oracle: &O, price: i128)
    requires
        price == spec_price_or_sentinel(oracle.spec_lastprice(spec_xlm_asset())),
    ensures
        oracle.spec_lastprice(spec_xlm_asset()) matches Some(d) ==> price == d.price,
        oracle.spec_lastprice(spec_xlm_asset()) is None ==> price == -1,
{
}

/// Construction is idempotent in effect: any two contracts that have
/// completed construction persist exactly the same state, slot for slot, so
/// repeating construction cannot alter the already-stored address.
pub proof fn lemma_construction_idempotent(c1: Contract, c2: Contract)
    requires
        c1.constructed(),
        c2.constructed(),
    ensures
        forall|k: Seq<char>| c1.spec_slot(k) == c2.spec_slot(k),
{
    assert forall|k: Seq<char>| c1.spec_slot(k) == c2.spec_slot(k) by {
        if k != spec_oracle_key() {
            assert(c1.spec_slot(k) is None);
            assert(c2.spec_slot(k) is None);
        }
    }
}

} // verus!
