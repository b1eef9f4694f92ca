use evm_sandbox::hexcodec::{decode_hex, decode_payload, encode_hex, encode_hex_prefixed};
use evm_sandbox::outcome::{normalize, HaltKind, RawOutcome, RawOutput, ResultRecord, SuccessOutput};
use evm_sandbox::types::{Address, InputError, SpecKind, U256};
use evm_sandbox::utils::{halt_reason_as_string, to_spec_id};

#[test]
fn decode_bare_hex() {
    assert_eq!(decode_hex(b"dead").unwrap(), vec![0xde, 0xad]);
    assert_eq!(decode_hex(b"").unwrap(), Vec::<u8>::new());
    assert_eq!(decode_hex(b"00ff10").unwrap(), vec![0x00, 0xff, 0x10]);
    assert_eq!(decode_hex(b"DEAD").unwrap(), vec![0xde, 0xad]);
}

#[test]
fn decode_rejects_odd_length() {
    assert_eq!(decode_hex(b"abc").unwrap_err(), InputError::OddHexLength);
    assert_eq!(decode_payload(b"0xabc").unwrap_err(), InputError::OddHexLength);
}

#[test]
fn decode_rejects_bad_digit() {
    assert_eq!(decode_hex(b"zz").unwrap_err(), InputError::BadHexDigit);
    assert_eq!(decode_payload(b"0x12g4").unwrap_err(), InputError::BadHexDigit);
}

#[test]
fn decode_strips_marker() {
    assert_eq!(decode_payload(b"0xdead").unwrap(), vec![0xde, 0xad]);
    assert_eq!(decode_payload(b"dead").unwrap(), vec![0xde, 0xad]);
    assert_eq!(decode_payload(b"0x").unwrap(), Vec::<u8>::new());
}

#[test]
fn encode_exact_digits() {
    assert_eq!(encode_hex(&[0xde, 0xad, 0x01]), b"dead01".to_vec());
    assert_eq!(encode_hex(&[]), Vec::<u8>::new());
    assert_eq!(encode_hex_prefixed(&[0x0f]), b"0x0f".to_vec());
}

#[test]
fn hex_round_trip_with_and_without_marker() {
    let payload: Vec<u8> = vec![0x00, 0x12, 0xab, 0xff, 0x7e];
    let bare = encode_hex(&payload);
    assert_eq!(decode_payload(&bare).unwrap(), payload);
    let mut prefixed = b"0x".to_vec();
    prefixed.extend_from_slice(&bare);
    assert_eq!(decode_payload(&prefixed).unwrap(), payload);
}

#[test]
fn known_tags_resolve() {
    assert_eq!(to_spec_id("FRONTIER"), SpecKind::Frontier);
    assert_eq!(to_spec_id("FRONTIER_THAWING"), SpecKind::FrontierThawing);
    assert_eq!(to_spec_id("HOMESTAD"), SpecKind::Homestead);
    assert_eq!(to_spec_id("DAO_FORK"), SpecKind::DaoFork);
    assert_eq!(to_spec_id("TANGERINE"), SpecKind::Tangerine);
    assert_eq!(to_spec_id("SPURIOUS_DRAGON"), SpecKind::SpuriousDragon);
    assert_eq!(to_spec_id("BYZANTIUM"), SpecKind::Byzantium);
    assert_eq!(to_spec_id("CONSTANTINOPLE"), SpecKind::Constantinople);
    assert_eq!(to_spec_id("PETERSBURG"), SpecKind::Petersburg);
    assert_eq!(to_spec_id("ISTANBUL"), SpecKind::Istanbul);
    assert_eq!(to_spec_id("MUIR_GLACIER"), SpecKind::MuirGlacier);
    assert_eq!(to_spec_id("BERLIN"), SpecKind::Berlin);
    assert_eq!(to_spec_id("LONDON"), SpecKind::London);
    assert_eq!(to_spec_id("ARROW_GLACIER"), SpecKind::ArrowGlacier);
    assert_eq!(to_spec_id("GRAY_GLACIER"), SpecKind::GrayGlacier);
    assert_eq!(to_spec_id("MERGE"), SpecKind::Merge);
    assert_eq!(to_spec_id("SHANGHAI"), SpecKind::Shanghai);
}

#[test]
fn unknown_tag_resolves_to_latest() {
    assert_eq!(to_spec_id("NOT_A_FORK"), SpecKind::Latest);
    assert_eq!(to_spec_id("LATEST"), SpecKind::Latest);
    assert_eq!(to_spec_id(""), SpecKind::Latest);
    assert_eq!(to_spec_id("frontier"), SpecKind::Latest);
    assert_eq!(to_spec_id("NOT_A_FORK"), to_spec_id("LATEST"));
}

#[test]
fn halt_reasons_have_fixed_text() {
    assert_eq!(halt_reason_as_string(HaltKind::OutOfGas), "Out of Gas");
    assert_eq!(halt_reason_as_string(HaltKind::OpcodeNotFound), "Opcode Not Found");
    assert_eq!(halt_reason_as_string(HaltKind::InvalidFEOpcode), "Invalid FE Opcode");
    assert_eq!(halt_reason_as_string(HaltKind::InvalidJump), "Invalid Jump");
    assert_eq!(halt_reason_as_string(HaltKind::NotActivated), "Not Activated");
    assert_eq!(halt_reason_as_string(HaltKind::StackUnderflow), "Stack Underflow");
    assert_eq!(halt_reason_as_string(HaltKind::StackOverflow), "Stack Overflow");
    assert_eq!(halt_reason_as_string(HaltKind::OutOfOffset), "Out of Offset");
    assert_eq!(halt_reason_as_string(HaltKind::CreateCollision), "Create Collision");
    assert_eq!(halt_reason_as_string(HaltKind::PrecompileError), "Precompile Error");
    assert_eq!(halt_reason_as_string(HaltKind::NonceOverflow), "Nonce Overflow");
    assert_eq!(
        halt_reason_as_string(HaltKind::CreateContractSizeLimit),
        "Create Contract Size Limit"
    );
    assert_eq!(
        halt_reason_as_string(HaltKind::CreateContractStartingWithEF),
        "Create Contract Starting With EF"
    );
    assert_eq!(
        halt_reason_as_string(HaltKind::CreateInitcodeSizeLimit),
        "Create Initcode Size Limit"
    );
    assert_eq!(halt_reason_as_string(HaltKind::OverflowPayment), "Overflow Payment");
    assert_eq!(
        halt_reason_as_string(HaltKind::StateChangeDuringStaticCall),
        "State Change During Static Call"
    );
    assert_eq!(
        halt_reason_as_string(HaltKind::CallNotAllowedInsideStatic),
        "Call Not Allowed Inside Static"
    );
    assert_eq!(halt_reason_as_string(HaltKind::OutOfFund), "Out of Fund");
    assert_eq!(halt_reason_as_string(HaltKind::CallTooDeep), "Call Too Deep");
}

#[test]
fn u256_from_u64_layout() {
    let v = U256::from_u64(0x0102030405060708);
    let mut expected = vec![0u8; 24];
    expected.extend_from_slice(&[1, 2, 3, 4, 5, 6, 7, 8]);
    assert_eq!(v.bytes, expected);
    assert_eq!(U256::zero().bytes, vec![0u8; 32]);
    assert!(U256::from_be_bytes(vec![0u8; 31]).is_none());
    assert_eq!(U256::from_be_bytes(vec![0xffu8; 32]).unwrap().bytes, vec![0xffu8; 32]);
}

#[test]
fn normalize_created_contract() {
    let outcome = RawOutcome::Success {
        gas_used: 53000,
        output: RawOutput::Create {
            address: Some(Address { bytes: vec![0xab; 20] }),
        },
    };
    let record = normalize(&outcome);
    assert!(record.success());
    assert_eq!(record.gas_used(), 53000);
    match record {
        ResultRecord::Success { output: SuccessOutput::ContractCreated { address_hex }, .. } => {
            let mut expected = b"0x".to_vec();
            expected.extend_from_slice("ab".repeat(20).as_bytes());
            assert_eq!(address_hex, expected);
        },
        other => panic!("expected a created contract, got {:?}", other),
    }
}

#[test]
fn normalize_call_output() {
    let outcome = RawOutcome::Success {
        gas_used: 21064,
        output: RawOutput::Call { data: vec![0x01, 0xfe] },
    };
    match normalize(&outcome) {
        ResultRecord::Success { gas_used, output: SuccessOutput::CallOutput { output_hex } } => {
            assert_eq!(gas_used, 21064);
            assert_eq!(output_hex, b"01fe".to_vec());
        },
        other => panic!("expected call output, got {:?}", other),
    }
}

#[test]
fn normalize_revert_and_halt() {
    let revert = RawOutcome::Revert { gas_used: 300, output: vec![0xde, 0xad] };
    match normalize(&revert) {
        ResultRecord::Reverted { gas_used, revert_output_hex } => {
            assert_eq!(gas_used, 300);
            assert_eq!(revert_output_hex, b"dead".to_vec());
        },
        other => panic!("expected a revert, got {:?}", other),
    }
    let halt = RawOutcome::Halt { gas_used: 60000, reason: HaltKind::OutOfGas };
    match normalize(&halt) {
        ResultRecord::Halted { gas_used, reason } => {
            assert_eq!(gas_used, 60000);
            assert_eq!(reason, "Out of Gas");
        },
        other => panic!("expected a halt, got {:?}", other),
    }
}
