use vstd::prelude::*;

pub mod engine;
pub mod hexcodec;
pub mod outcome;
pub mod request;
pub mod store;
pub mod types;
pub mod utils;

use crate::engine::{build_env, engine_commit, engine_dry_run, outcome_of};
use crate::hexcodec::{hex_decoded, strip_hex_prefix};
use crate::outcome::{normalize, RawOutcome, ResultRecord};
use crate::request::{
    addr_error, addr_hex_ok, parse_address, parse_tx_request, request_error, request_ok,
};
use crate::store::{db_balances, new_db, read_balance, write_balance};
use crate::types::{spec_code_of, Address, EvmConfig, EvmEnv, InputError, SandboxError, TxOpts, U256};

verus! {

/// The balance an address holds in a balance map: zero when the address
/// was never written, the implicit default.
pub open spec fn balance_in(m: Map<Seq<u8>, nat>, a: Seq<u8>) -> nat {
    if m.contains_key(a) {
        m[a]
    } else {
        0
    }
}

/// An address never written reads as zero: the implicit default is no error.
pub proof fn lemma_unset_address_is_zero(m: Map<Seq<u8>, nat>, a: Seq<u8>)
    requires
        !m.dom().contains(a),
    ensures
        balance_in(m, a) == 0,
{
}

/// Setting a balance and reading the same address back yields exactly the
/// value written, over the whole 256-bit range.
pub proof fn lemma_set_then_get(m: Map<Seq<u8>, nat>, a: Seq<u8>, v: nat)
    ensures
        balance_in(m.insert(a, v), a) == v,
{
}

/// Setting one address leaves every other address's balance unchanged.
pub proof fn lemma_set_preserves_others(m: Map<Seq<u8>, nat>, a: Seq<u8>, v: nat, b: Seq<u8>)
    requires
        a != b,
    ensures
        balance_in(m.insert(a, v), b) == balance_in(m, b),
{
}

/// The sandbox: one authoritative account store, owner of all state for
/// its lifetime.
pub struct Revm {
    db: crate::store::StateDb,
}

impl Revm {
    /// The balances the authoritative store holds, by address bytes.
    pub closed spec fn balances(&self) -> Map<Seq<u8>, nat> {
        db_balances(self.db)
    }

    /// A fresh sandbox with an empty account store.
    pub fn new() -> (r: Self)
        ensures
            r.balances() == Map::<Seq<u8>, nat>::empty(),
    {
        let db = new_db();
        Revm { db }
    }

    /// Reads an account's balance; an address never written reads as zero.
    pub fn get_balance(&self, address: &Address) -> (r: U256)
        requires
            address.wf(),
        ensures
            r.wf(),
            r.val() == balance_in(self.balances(), address@),
    {
        match read_balance(&self.db, address) {
            Some(balance) => balance,
            None => U256::zero(),
        }
    }

    /// Overwrites the account's record with the given balance, resetting
    /// nonce, code and storage: an explicit account replacement.
    pub fn set_balance(&mut self, address: Address, balance: U256) -> (r: Result<
        (),
        SandboxError,
    >)
        requires
            address.wf(),
            balance.wf(),
        ensures
            r is Ok,
            final(self).balances() == old(self).balances().insert(address@, balance.val()),
    {
        write_balance(&mut self.db, &address, &balance);
        Ok(())
    }

    /// Builds the execution environment, a pure function of the request
    /// and the configuration, populated fresh for this one call.
    pub fn get_env(&self, tx_opts: TxOpts, evm_config: EvmConfig) -> (e: EvmEnv)
        requires
            tx_opts.wf(),
        ensures
            e.wf(),
            e.from == tx_opts.from,
            e.to == tx_opts.to,
            e.value == tx_opts.value,
            e.data == tx_opts.tx_data,
            e.gas_limit == tx_opts.gas_limit,
            e.gas_price == tx_opts.gas_price,
            e.spec_code == spec_code_of(evm_config.spec_id),
    {
        let spec_code = evm_config.spec_id.code();
        EvmEnv {
            from: tx_opts.from,
            to: tx_opts.to,
            value: tx_opts.value,
            data: tx_opts.tx_data,
            gas_limit: tx_opts.gas_limit,
            gas_price: tx_opts.gas_price,
            spec_code,
        }
    }

    /// Executes the transaction exactly once against the authoritative
    /// store and commits whatever state the engine produced. An engine
    /// that yields no outcome is a failure, never a fabricated result.
    pub fn call_commit(&mut self, tx_opts: TxOpts, evm_config: EvmConfig) -> (r: Result<
        RawOutcome,
        SandboxError,
    >)
        requires
            tx_opts.wf(),
        ensures
            r is Ok ==> r.unwrap().wf(),
            r is Err ==> r.unwrap_err() == SandboxError::Engine,
    {
        let env = self.get_env(tx_opts, evm_config);
        let spec_code = env.spec_code;
        let env = build_env(&env);
        match engine_commit(&mut self.db, env, spec_code) {
            Some(result) => Ok(outcome_of(result)),
            None => Err(SandboxError::Engine),
        }
    }

    /// Executes the transaction exactly once against an isolated clone of
    /// the store; the authoritative balances are left untouched whatever
    /// the outcome, and the speculative state is discarded.
    pub fn call_no_commit(&mut self, tx_opts: TxOpts, evm_config: EvmConfig) -> (r: Result<
        RawOutcome,
        SandboxError,
    >)
        requires
            tx_opts.wf(),
        ensures
            final(self).balances() == old(self).balances(),
            r is Ok ==> r.unwrap().wf(),
            r is Err ==> r.unwrap_err() == SandboxError::Engine,
    {
        let env = self.get_env(tx_opts, evm_config);
        let spec_code = env.spec_code;
        let env = build_env(&env);
        match engine_dry_run(&self.db, env, spec_code) {
            Some(result) => Ok(outcome_of(result)),
            None => Err(SandboxError::Engine),
        }
    }
}

/// Reads a balance by address hex: the caller-facing boundary that rejects
/// malformed addresses before they reach the store.
pub fn get_balance(vm: &Revm, address_hex: &[u8]) -> (r: Result<U256, InputError>)
    ensures
        r is Ok <==> addr_hex_ok(address_hex@),
        r is Ok ==> r.unwrap().wf() && r.unwrap().val() == balance_in(
            vm.balances(),
            hex_decoded(strip_hex_prefix(address_hex@)),
        ),
        r is Err ==> r.unwrap_err() == addr_error(address_hex@),
{
    match parse_address(address_hex) {
        Ok(address) => Ok(vm.get_balance(&address)),
        Err(e) => Err(e),
    }
}

/// Sets a balance by address hex; reports true on success as the caller's
/// success flag.
pub fn set_balance(vm: &mut Revm, address_hex: &[u8], balance: u64) -> (r: Result<
    bool,
    InputError,
>)
    ensures
        r is Ok <==> addr_hex_ok(address_hex@),
        r is Ok ==> r.unwrap() == true && final(vm).balances() == old(vm).balances().insert(
            hex_decoded(strip_hex_prefix(address_hex@)),
            balance as nat,
        ),
        r is Err ==> r.unwrap_err() == addr_error(address_hex@) && final(vm).balances() == old(
            vm,
        ).balances(),
{
    match parse_address(address_hex) {
        Ok(address) => {
            let value = U256::from_u64(balance);
            let _ = vm.set_balance(address, value);
            Ok(true)
        },
        Err(e) => Err(e),
    }
}

/// Parses the raw caller inputs, executes with commit, and returns the
/// normalized result record. Malformed input is rejected exactly as the
/// request parser classifies it; an engine failure is reported as such.
pub fn call_commit(
    vm: &mut Revm,
    from: &[u8],
    to: &[u8],
    value: u64,
    data_hex: &[u8],
    gas_limit: u64,
    gas_price: u64,
    spec_tag: &str,
) -> (r: Result<ResultRecord, SandboxError>)
    ensures
        !request_ok(from@, to@, data_hex@) ==> r == Result::<ResultRecord, SandboxError>::Err(
            SandboxError::Input(request_error(from@, to@, data_hex@)),
        ),
        r matches Err(SandboxError::Input(e)) ==> !request_ok(from@, to@, data_hex@) && e
            == request_error(from@, to@, data_hex@),
{
    let (tx, cfg) = match parse_tx_request(from, to, value, data_hex, gas_limit, gas_price, spec_tag) {
        Ok(parsed) => parsed,
        Err(e) => {
            return Err(SandboxError::Input(e));
        },
    };
    match vm.call_commit(tx, cfg) {
        Ok(outcome) => Ok(normalize(&outcome)),
        Err(e) => Err(e),
    }
}

/// Parses the raw caller inputs and executes speculatively: the result is
/// computed the same way, and the authoritative balances never change.
pub fn call_no_commit(
    vm: &mut Revm,
    from: &[u8],
    to: &[u8],
    value: u64,
    data_hex: &[u8],
    gas_limit: u64,
    gas_price: u64,
    spec_tag: &str,
) -> (r: Result<ResultRecord, SandboxError>)
    ensures
        final(vm).balances() == old(vm).balances(),
        !request_ok(from@, to@, data_hex@) ==> r == Result::<ResultRecord, SandboxError>::Err(
            SandboxError::Input(request_error(from@, to@, data_hex@)),
        ),
        r matches Err(SandboxError::Input(e)) ==> !request_ok(from@, to@, data_hex@) && e
            == request_error(from@, to@, data_hex@),
{
    let (tx, cfg) = match parse_tx_request(from, to, value, data_hex, gas_limit, gas_price, spec_tag) {
        Ok(parsed) => parsed,
        Err(e) => {
            return Err(SandboxError::Input(e));
        },
    };
    match vm.call_no_commit(tx, cfg) {
        Ok(outcome) => Ok(normalize(&outcome)),
        Err(e) => Err(e),
    }
}

} // verus!
