use revm::primitives::Address as EngineAddress;
use revm::primitives::Bytes as EngineBytes;
use revm::primitives::Env as EngineEnv;
use revm::primitives::ExecutionResult as EngineResult;
use revm::primitives::HaltReason as EngineHalt;
use revm::primitives::Output as EngineOutput;
use revm::primitives::SpecId as EngineSpecId;
use revm::primitives::TransactTo as EngineTarget;
use revm::primitives::U256 as EngineWord;
use vstd::prelude::*;

use crate::outcome::{HaltKind, RawOutcome, RawOutput};
use crate::store::StateDb;
use crate::types::{Address, EvmEnv};

verus! {

#[verifier::external_type_specification]
#[verifier::external_body]
pub struct ExEnv(revm::primitives::Env);

#[verifier::external_type_specification]
#[verifier::external_body]
pub struct ExExecutionResult(revm::primitives::ExecutionResult);

#[verifier::external_type_specification]
#[verifier::external_body]
pub struct ExHalt(revm::primitives::HaltReason);

#[verifier::external_type_specification]
#[verifier::external_body]
pub struct ExOutput(revm::primitives::Output);

/// Relies on Env construction: the engine environment is built fresh from
/// the given fields and nothing else; everything not supplied keeps the
/// engine's defaults.
#[verifier::external_body]
pub fn build_env(e: &EvmEnv) -> Box<EngineEnv>
    requires
        e.wf(),
{
    let mut env = Box::<EngineEnv>::default();
    env.tx.caller = EngineAddress::from_slice(e.from.bytes.as_slice());
    env.tx.gas_limit = e.gas_limit;
    env.tx.gas_price = EngineWord::from_be_slice(e.gas_price.bytes.as_slice());
    env.tx.value = EngineWord::from_be_slice(e.value.bytes.as_slice());
    env.tx.data = EngineBytes::from(e.data.clone());
    env.tx.transact_to = match &e.to {
        Some(a) => EngineTarget::Call(EngineAddress::from_slice(a.bytes.as_slice())),
        None => EngineTarget::Create,
    };
    env
}

/// Relies on Evm::transact_commit: exactly one execution attempt against
/// the authoritative store, whose state the engine updates in place; None
/// when the engine fails to produce any outcome. The ruleset code resolves
/// through SpecId::try_from_u8, whose numbering the library's codes follow.
#[verifier::external_body]
pub fn engine_commit(db: &mut StateDb, env: Box<EngineEnv>, spec_code: u8) -> (r: Option<
    EngineResult,
>) {
    let spec = EngineSpecId::try_from_u8(spec_code).unwrap_or(EngineSpecId::LATEST);
    let builder = revm::Evm::builder().with_db(&mut db.cache).with_spec_id(spec).with_env(env);
    let mut evm = builder.build();
    evm.transact_commit().ok()
}

/// Relies on Evm::transact over a clone of the store: the execution runs
/// against the isolated clone, nothing is committed, and the shared
/// borrow leaves the authoritative store untouched whatever the outcome.
#[verifier::external_body]
pub fn engine_dry_run(db: &StateDb, env: Box<EngineEnv>, spec_code: u8) -> (r: Option<
    EngineResult,
>) {
    let spec = EngineSpecId::try_from_u8(spec_code).unwrap_or(EngineSpecId::LATEST);
    let builder = revm::Evm::builder().with_db(db.cache.clone()).with_spec_id(spec).with_env(env);
    let mut evm = builder.build();
    evm.transact().ok().map(|ras| ras.result)
}

/// Relies on the shape of the engine's success Output: a creation's
/// deployed address, when reported, is exactly 20 bytes; call output
/// bytes are carried over unchanged.
#[verifier::external_body]
pub fn output_of(output: EngineOutput) -> (r: RawOutput)
    ensures
        r.wf(),
{
    match output {
        EngineOutput::Create(_, Some(a)) => RawOutput::Create {
            address: Some(Address { bytes: a.as_slice().to_vec() }),
        },
        EngineOutput::Create(_, None) => RawOutput::Create { address: None },
        EngineOutput::Call(data) => RawOutput::Call { data: data.to_vec() },
    }
}

/// Relies on the shape of the engine's ExecutionResult: each of the three
/// variants is carried over one for one with its gas, output and reason.
#[verifier::external_body]
pub fn outcome_of(result: EngineResult) -> (r: RawOutcome)
    ensures
        r.wf(),
{
    match result {
        EngineResult::Success { gas_used, output, .. } => RawOutcome::Success {
            gas_used,
            output: output_of(output),
        },
        EngineResult::Revert { gas_used, output } => RawOutcome::Revert {
            gas_used,
            output: output.to_vec(),
        },
        EngineResult::Halt { gas_used, reason } => RawOutcome::Halt {
            gas_used,
            reason: halt_kind_of(reason),
        },
    }
}

/// Relies on the engine's closed Halt enumeration: each reason is carried
/// over to the library's own kind one for one; the out-of-gas sub-reason
/// is dropped, as every sub-reason names the same class of halt.
#[verifier::external_body]
pub fn halt_kind_of(reason: EngineHalt) -> (r: HaltKind) {
    match reason {
        EngineHalt::OutOfGas(_) => HaltKind::OutOfGas, EngineHalt::OpcodeNotFound => HaltKind::OpcodeNotFound,
        EngineHalt::InvalidFEOpcode => HaltKind::InvalidFEOpcode, EngineHalt::InvalidJump => HaltKind::InvalidJump,
        EngineHalt::NotActivated => HaltKind::NotActivated, EngineHalt::StackUnderflow => HaltKind::StackUnderflow,
        EngineHalt::StackOverflow => HaltKind::StackOverflow, EngineHalt::OutOfOffset => HaltKind::OutOfOffset,
        EngineHalt::CreateCollision => HaltKind::CreateCollision, EngineHalt::PrecompileError => HaltKind::PrecompileError,
        EngineHalt::NonceOverflow => HaltKind::NonceOverflow, EngineHalt::CreateContractSizeLimit => HaltKind::CreateContractSizeLimit,
        EngineHalt::CreateContractStartingWithEF => HaltKind::CreateContractStartingWithEF,
        EngineHalt::CreateInitCodeSizeLimit => HaltKind::CreateInitcodeSizeLimit, EngineHalt::OverflowPayment => HaltKind::OverflowPayment,
        EngineHalt::StateChangeDuringStaticCall => HaltKind::StateChangeDuringStaticCall,
        EngineHalt::CallNotAllowedInsideStatic => HaltKind::CallNotAllowedInsideStatic,
        EngineHalt::OutOfFunds => HaltKind::OutOfFund, EngineHalt::CallTooDeep => HaltKind::CallTooDeep,
    }
}

} // verus!
