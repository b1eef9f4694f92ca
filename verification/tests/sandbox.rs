use evm_sandbox::outcome::{ResultRecord, SuccessOutput};
use evm_sandbox::request::parse_address;
use evm_sandbox::types::{EvmConfig, InputError, SandboxError, SpecKind, TxOpts, U256};
use evm_sandbox::{call_commit, call_no_commit, get_balance, set_balance, Revm};

const ALICE: &[u8] = b"0x1000000000000000000000000000000000000001";
const BOB: &[u8] = b"0x2000000000000000000000000000000000000002";

fn balance_u64_bytes(v: u64) -> Vec<u8> {
    U256::from_u64(v).bytes
}

#[test]
fn fresh_store_reads_zero() {
    let vm = Revm::new();
    let balance = get_balance(&vm, ALICE).unwrap();
    assert_eq!(balance.bytes, vec![0u8; 32]);
    let balance = get_balance(&vm, BOB).unwrap();
    assert_eq!(balance.bytes, vec![0u8; 32]);
}

#[test]
fn set_then_get_returns_exact_value() {
    let mut vm = Revm::new();
    assert!(set_balance(&mut vm, ALICE, 0).unwrap());
    assert_eq!(get_balance(&vm, ALICE).unwrap().bytes, vec![0u8; 32]);
    assert!(set_balance(&mut vm, ALICE, 12345).unwrap());
    assert_eq!(get_balance(&vm, ALICE).unwrap().bytes, balance_u64_bytes(12345));
    // the maximum representable 256-bit value survives the round trip
    let max = U256::from_be_bytes(vec![0xffu8; 32]).unwrap();
    let alice = parse_address(ALICE).unwrap();
    vm.set_balance(alice, max).unwrap();
    assert_eq!(get_balance(&vm, ALICE).unwrap().bytes, vec![0xffu8; 32]);
}

#[test]
fn set_overwrites_and_leaves_others() {
    let mut vm = Revm::new();
    set_balance(&mut vm, ALICE, 7).unwrap();
    set_balance(&mut vm, BOB, 9).unwrap();
    set_balance(&mut vm, ALICE, 3).unwrap();
    assert_eq!(get_balance(&vm, ALICE).unwrap().bytes, balance_u64_bytes(3));
    assert_eq!(get_balance(&vm, BOB).unwrap().bytes, balance_u64_bytes(9));
}

#[test]
fn malformed_addresses_are_rejected() {
    let mut vm = Revm::new();
    assert_eq!(get_balance(&vm, b"0x123").unwrap_err(), InputError::OddHexLength);
    assert_eq!(get_balance(&vm, b"0xzz").unwrap_err(), InputError::BadHexDigit);
    assert_eq!(get_balance(&vm, b"0x1234").unwrap_err(), InputError::BadAddressLength);
    assert_eq!(set_balance(&mut vm, b"nonsense!!", 5).unwrap_err(), InputError::BadHexDigit);
    match call_commit(&mut vm, b"0x12", BOB, 0, b"", 21000, 0, "SHANGHAI") {
        Err(SandboxError::Input(InputError::BadAddressLength)) => {},
        other => panic!("expected an address rejection, got {:?}", other),
    }
    match call_commit(&mut vm, ALICE, BOB, 0, b"0xf", 21000, 0, "SHANGHAI") {
        Err(SandboxError::Input(InputError::OddHexLength)) => {},
        other => panic!("expected a payload rejection, got {:?}", other),
    }
}

#[test]
fn commit_transfer_moves_value_and_gas() {
    let mut vm = Revm::new();
    set_balance(&mut vm, ALICE, 1_000_000).unwrap();
    let record = call_commit(&mut vm, ALICE, BOB, 1234, b"", 21000, 1, "SHANGHAI").unwrap();
    assert!(record.success());
    assert_eq!(record.gas_used(), 21000);
    // the sender pays the value plus the gas charge, the recipient gains
    // exactly the value
    assert_eq!(
        get_balance(&vm, ALICE).unwrap().bytes,
        balance_u64_bytes(1_000_000 - 1234 - 21000)
    );
    assert_eq!(get_balance(&vm, BOB).unwrap().bytes, balance_u64_bytes(1234));
}

#[test]
fn no_commit_leaves_balances_unchanged() {
    let mut vm = Revm::new();
    set_balance(&mut vm, ALICE, 1_000_000).unwrap();
    // a successful transfer, computed speculatively
    let record = call_no_commit(&mut vm, ALICE, BOB, 1234, b"", 21000, 1, "SHANGHAI").unwrap();
    assert!(record.success());
    assert_eq!(record.gas_used(), 21000);
    assert_eq!(get_balance(&vm, ALICE).unwrap().bytes, balance_u64_bytes(1_000_000));
    assert_eq!(get_balance(&vm, BOB).unwrap().bytes, vec![0u8; 32]);
    // a creation that halts, computed speculatively
    let _ = call_no_commit(&mut vm, ALICE, b"", 0, b"0x5b600056", 60000, 0, "SHANGHAI").unwrap();
    assert_eq!(get_balance(&vm, ALICE).unwrap().bytes, balance_u64_bytes(1_000_000));
    // a creation that reverts, computed speculatively
    let _ = call_no_commit(&mut vm, ALICE, b"", 0, b"0x60006000fd", 60000, 0, "SHANGHAI").unwrap();
    assert_eq!(get_balance(&vm, ALICE).unwrap().bytes, balance_u64_bytes(1_000_000));
}

#[test]
fn creation_reports_contract_address() {
    let mut vm = Revm::new();
    // PUSH1 0 PUSH1 0 RETURN: initcode that deploys an empty contract
    let record = call_commit(&mut vm, ALICE, b"", 0, b"0x60006000f3", 100000, 0, "SHANGHAI")
        .unwrap();
    assert!(record.success());
    match record {
        ResultRecord::Success { output: SuccessOutput::ContractCreated { address_hex }, .. } => {
            assert_eq!(address_hex.len(), 42);
            assert_eq!(&address_hex[0..2], b"0x");
        },
        other => panic!("expected a created contract and no call output, got {:?}", other),
    }
}

#[test]
fn gas_starved_creation_halts_out_of_gas() {
    let mut vm = Revm::new();
    // JUMPDEST PUSH1 0 JUMP: initcode that loops until the gas is gone
    let record = call_commit(&mut vm, ALICE, b"", 0, b"0x5b600056", 60000, 0, "SHANGHAI").unwrap();
    assert!(!record.success());
    match record {
        ResultRecord::Halted { gas_used, reason } => {
            assert_eq!(reason, "Out of Gas");
            assert_eq!(gas_used, 60000);
        },
        other => panic!("expected an out-of-gas halt, got {:?}", other),
    }
}

#[test]
fn reverting_creation_reports_revert_payload() {
    let mut vm = Revm::new();
    // PUSH1 0 PUSH1 0 REVERT: initcode that reverts with an empty payload
    let record = call_commit(&mut vm, ALICE, b"", 0, b"0x60006000fd", 60000, 0, "SHANGHAI")
        .unwrap();
    assert!(!record.success());
    match record {
        ResultRecord::Reverted { revert_output_hex, .. } => {
            assert_eq!(revert_output_hex, Vec::<u8>::new());
        },
        other => panic!("expected a revert, got {:?}", other),
    }
}

#[test]
fn plain_call_reports_call_output() {
    let mut vm = Revm::new();
    set_balance(&mut vm, ALICE, 1_000_000).unwrap();
    let record = call_commit(&mut vm, ALICE, BOB, 0, b"", 21000, 0, "SHANGHAI").unwrap();
    match record {
        ResultRecord::Success { output: SuccessOutput::CallOutput { output_hex }, .. } => {
            assert_eq!(output_hex, Vec::<u8>::new());
        },
        other => panic!("expected empty call output, got {:?}", other),
    }
}

#[test]
fn underfunded_transfer_is_an_engine_failure() {
    let mut vm = Revm::new();
    // the sender holds nothing, so preverification rejects the transfer
    match call_commit(&mut vm, ALICE, BOB, 5, b"", 21000, 1, "SHANGHAI") {
        Err(SandboxError::Engine) => {},
        other => panic!("expected an engine failure, got {:?}", other),
    }
}

#[test]
fn unknown_tag_behaves_as_latest() {
    let mut vm_a = Revm::new();
    let mut vm_b = Revm::new();
    set_balance(&mut vm_a, ALICE, 1_000_000).unwrap();
    set_balance(&mut vm_b, ALICE, 1_000_000).unwrap();
    let ra = call_commit(&mut vm_a, ALICE, BOB, 777, b"", 21000, 1, "NOT_A_FORK").unwrap();
    let rb = call_commit(&mut vm_b, ALICE, BOB, 777, b"", 21000, 1, "LATEST").unwrap();
    assert_eq!(ra.success(), rb.success());
    assert_eq!(ra.gas_used(), rb.gas_used());
    assert_eq!(
        get_balance(&vm_a, ALICE).unwrap().bytes,
        get_balance(&vm_b, ALICE).unwrap().bytes
    );
    assert_eq!(get_balance(&vm_a, BOB).unwrap().bytes, get_balance(&vm_b, BOB).unwrap().bytes);
}

#[test]
fn env_builder_copies_request_fields() {
    let vm = Revm::new();
    let tx = TxOpts {
        from: parse_address(ALICE).unwrap(),
        to: Some(parse_address(BOB).unwrap()),
        value: U256::from_u64(5),
        tx_data: vec![0xaa, 0xbb],
        gas_limit: 30000,
        gas_price: U256::from_u64(2),
    };
    let cfg = EvmConfig { spec_id: SpecKind::Shanghai };
    let env = vm.get_env(tx, cfg);
    assert_eq!(env.from.bytes, parse_address(ALICE).unwrap().bytes);
    assert_eq!(env.to.unwrap().bytes, parse_address(BOB).unwrap().bytes);
    assert_eq!(env.value.bytes, U256::from_u64(5).bytes);
    assert_eq!(env.data, vec![0xaa, 0xbb]);
    assert_eq!(env.gas_limit, 30000);
    assert_eq!(env.gas_price.bytes, U256::from_u64(2).bytes);
    assert_eq!(env.spec_code, SpecKind::Shanghai.code());
    assert_eq!(SpecKind::Latest.code(), 255);
}
