use vstd::prelude::*;

use crate::hexcodec::{encode_hex, encode_hex_prefixed, hex_encoded};
use crate::types::Address;
use crate::utils::{halt_reason_as_string, halt_text};

verus! {

/// The closed set of abnormal-termination reasons the engine can report.
#[derive(Clone, Copy, PartialEq, Eq, Structural, Debug)]
pub enum HaltKind {
    OutOfGas,
    OpcodeNotFound,
    InvalidFEOpcode,
    InvalidJump,
    NotActivated,
    StackUnderflow,
    StackOverflow,
    OutOfOffset,
    CreateCollision,
    PrecompileError,
    NonceOverflow,
    CreateContractSizeLimit,
    CreateContractStartingWithEF,
    CreateInitcodeSizeLimit,
    OverflowPayment,
    StateChangeDuringStaticCall,
    CallNotAllowedInsideStatic,
    OutOfFund,
    CallTooDeep,
}

/// The output carried by a successful execution.
#[derive(Debug)]
pub enum RawOutput {
    /// A contract creation; the deployed address is present when the
    /// engine reports one.
    Create { address: Option<Address> },
    /// A plain call with its returned bytes.
    Call { data: Vec<u8> },
}

/// One execution outcome, exactly one variant per run, gas always present.
#[derive(Debug)]
pub enum RawOutcome {
    Success { gas_used: u64, output: RawOutput },
    Revert { gas_used: u64, output: Vec<u8> },
    Halt { gas_used: u64, reason: HaltKind },
}

impl RawOutput {
    pub open spec fn wf(&self) -> bool {
        match self {
            RawOutput::Create { address: Some(a) } => a.wf(),
            _ => true,
        }
    }
}

impl RawOutcome {
    pub open spec fn wf(&self) -> bool {
        match self {
            RawOutcome::Success { output, .. } => output.wf(),
            _ => true,
        }
    }
}

/// The output field of a successful result record: exactly one of a
/// created-contract address, raw call output, or nothing.
#[derive(Debug)]
pub enum SuccessOutput {
    /// The creation deployed a contract at this `0x`-prefixed hex address.
    ContractCreated { address_hex: Vec<u8> },
    /// The call returned these bytes, rendered as hex.
    CallOutput { output_hex: Vec<u8> },
    /// A creation whose deployed address the engine did not report.
    NoOutput,
}

/// The stable result record handed to callers: only the fields that
/// belong to the outcome variant are present.
#[derive(Debug)]
pub enum ResultRecord {
    Success { gas_used: u64, output: SuccessOutput },
    Reverted { gas_used: u64, revert_output_hex: Vec<u8> },
    Halted { gas_used: u64, reason: String },
}

/// How a result record must render a raw outcome.
pub open spec fn record_matches(o: RawOutcome, r: ResultRecord) -> bool {
    match o {
        RawOutcome::Success { gas_used, output } => match output {
            RawOutput::Create { address: Some(a) } => {
                &&& r matches ResultRecord::Success { gas_used: g, output: SuccessOutput::ContractCreated { address_hex } }
                &&& g == gas_used
                &&& address_hex@ == seq![48u8, 120u8] + hex_encoded(a@)
            },
            RawOutput::Create { address: None } => {
                &&& r matches ResultRecord::Success { gas_used: g, output: SuccessOutput::NoOutput }
                &&& g == gas_used
            },
            RawOutput::Call { data } => {
                &&& r matches ResultRecord::Success { gas_used: g, output: SuccessOutput::CallOutput { output_hex } }
                &&& g == gas_used
                &&& output_hex@ == hex_encoded(data@)
            },
        },
        RawOutcome::Revert { gas_used, output } => {
            &&& r matches ResultRecord::Reverted { gas_used: g, revert_output_hex }
            &&& g == gas_used
            &&& revert_output_hex@ == hex_encoded(output@)
        },
        RawOutcome::Halt { gas_used, reason } => {
            &&& r matches ResultRecord::Halted { gas_used: g, reason: text }
            &&& g == gas_used
            &&& text@ == halt_text(reason)
        },
    }
}

impl ResultRecord {
    /// The success discriminant that callers branch on.
    pub open spec fn spec_success(&self) -> bool {
        self is Success
    }

    pub fn success(&self) -> (r: bool)
        ensures
            r == self.spec_success(),
    {
        match self {
            ResultRecord::Success { .. } => true,
            _ => false,
        }
    }

    /// Gas used, present whatever the variant.
    pub open spec fn spec_gas_used(&self) -> u64 {
        match self {
            ResultRecord::Success { gas_used, .. } => *gas_used,
            ResultRecord::Reverted { gas_used, .. } => *gas_used,
            ResultRecord::Halted { gas_used, .. } => *gas_used,
        }
    }

    pub fn gas_used(&self) -> (r: u64)
        ensures
            r == self.spec_gas_used(),
    {
        match self {
            ResultRecord::Success { gas_used, .. } => *gas_used,
            ResultRecord::Reverted { gas_used, .. } => *gas_used,
            ResultRecord::Halted { gas_used, .. } => *gas_used,
        }
    }
}

/// Normalizes a raw outcome into the stable result record: a total
/// function over the three outcome variants.
pub fn normalize(outcome: &RawOutcome) -> (r: ResultRecord)
    requires
        outcome.wf(),
    ensures
        record_matches(*outcome, r),
        r.spec_success() == (outcome is Success),
{
    match outcome {
        RawOutcome::Success { gas_used, output } => {
            let rendered = match output {
                RawOutput::Create { address: Some(a) } => SuccessOutput::ContractCreated {
                    address_hex: encode_hex_prefixed(a.bytes.as_slice()),
                },
                RawOutput::Create { address: None } => SuccessOutput::NoOutput,
                RawOutput::Call { data } => SuccessOutput::CallOutput {
                    output_hex: encode_hex(data.as_slice()),
                },
            };
            ResultRecord::Success { gas_used: *gas_used, output: rendered }
        },
        RawOutcome::Revert { gas_used, output } => ResultRecord::Reverted {
            gas_used: *gas_used,
            revert_output_hex: encode_hex(output.as_slice()),
        },
        RawOutcome::Halt { gas_used, reason } => ResultRecord::Halted {
            gas_used: *gas_used,
            reason: halt_reason_as_string(*reason),
        },
    }
}

} // verus!
