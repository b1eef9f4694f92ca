use vstd::prelude::*;

use crate::types::{Address, U256};

verus! {

/// The account store: the engine's cache database over an empty backing
/// source, so all state lives in memory for the sandbox's lifetime. The
/// verifier sees nothing inside; every access goes through the trusted
/// accessors below, whose contracts speak of `db_balances`.
#[verifier::external_body]
pub struct StateDb {
    pub(crate) cache: revm::db::CacheDB<revm::db::EmptyDB>,
}

/// The balances the account store holds, keyed by the 20 address bytes:
/// exactly the addresses whose record a read of the store would return.
pub uninterp spec fn db_balances(db: StateDb) -> Map<Seq<u8>, nat>;

/// A balance map with no account records at all.
pub open spec fn balances_empty(m: Map<Seq<u8>, nat>) -> bool {
    m == Map::<Seq<u8>, nat>::empty()
}

/// Relies on CacheDB::new over EmptyDB: a fresh store holds no account
/// records, and the empty backing source answers every miss with nothing.
#[verifier::external_body]
pub fn new_db() -> (r: StateDb)
    ensures
        balances_empty(db_balances(r)),
{
    StateDb { cache: revm::db::CacheDB::new(revm::db::EmptyDB::default()) }
}

/// Relies on the store's account map: replacing the address's whole record
/// with one holding just the balance (nonce, code and storage reset) makes
/// exactly that key readable with that balance, and touches no other key.
#[verifier::external_body]
pub fn write_balance(
    db: &mut StateDb,
    address: &Address,
    balance: &U256,
)
    requires
        address.wf(),
        balance.wf(),
    ensures
        db_balances(*final(db)) == db_balances(*old(db)).insert(address@, balance.val()),
{
    let info = revm::primitives::AccountInfo {
        balance: revm::primitives::U256::from_be_slice(balance.bytes.as_slice()),
        ..Default::default()
    };
    let addr = revm::primitives::Address::from_slice(address.bytes.as_slice());
    db.cache.accounts.insert(addr, revm::db::DbAccount::from(info));
}

/// Relies on DatabaseRef::basic_ref of CacheDB over EmptyDB: it returns the
/// record the store holds for the address, and nothing for an address the
/// store never saw; the 256-bit balance is read out as 32 big-endian bytes.
#[verifier::external_body]
pub fn read_balance(db: &StateDb, address: &Address) -> (r: Option<U256>)
    requires
        address.wf(),
    ensures
        r is Some <==> db_balances(*db).contains_key(address@),
        r is Some ==> r.unwrap().wf() && r.unwrap().val() == db_balances(*db)[address@],
{
    let addr = revm::primitives::Address::from_slice(address.bytes.as_slice());
    match revm::db::DatabaseRef::basic_ref(&db.cache, addr) {
        Ok(Some(info)) => Some(U256 { bytes: info.balance.to_be_bytes_vec() }),
        Ok(None) => None,
        Err(_) => None,
    }
}

} // verus!
