use vstd::prelude::*;
use vstd::string::StringSliceAdditionalSpecFns;

use crate::hexcodec::{decode_payload, hex_decoded, strip_hex_prefix, valid_hex};
use crate::types::{Address, EvmConfig, InputError, TxOpts, U256};
use crate::utils::{spec_of_tag, to_spec_id};

verus! {

/// Whether a hex string denotes a well-formed 20-byte address.
pub open spec fn addr_hex_ok(s: Seq<u8>) -> bool {
    valid_hex(strip_hex_prefix(s)) && hex_decoded(strip_hex_prefix(s)).len() == 20
}

/// The rejection an address hex string earns when it is malformed.
pub open spec fn addr_error(s: Seq<u8>) -> InputError {
    if strip_hex_prefix(s).len() % 2 != 0 {
        InputError::OddHexLength
    } else if !valid_hex(strip_hex_prefix(s)) {
        InputError::BadHexDigit
    } else {
        InputError::BadAddressLength
    }
}

/// The rejection a data hex string earns when it is malformed.
pub open spec fn data_error(s: Seq<u8>) -> InputError {
    if strip_hex_prefix(s).len() % 2 != 0 {
        InputError::OddHexLength
    } else {
        InputError::BadHexDigit
    }
}

/// Whether a whole transaction request parses: well-formed caller address,
/// recipient empty (creation) or a well-formed address, well-formed data.
pub open spec fn request_ok(from: Seq<u8>, to: Seq<u8>, data: Seq<u8>) -> bool {
    &&& addr_hex_ok(from)
    &&& (to.len() == 0 || addr_hex_ok(to))
    &&& valid_hex(strip_hex_prefix(data))
}

/// The first rejection a malformed request earns, checked in the order
/// caller address, recipient, payload.
pub open spec fn request_error(from: Seq<u8>, to: Seq<u8>, data: Seq<u8>) -> InputError {
    if !addr_hex_ok(from) {
        addr_error(from)
    } else if to.len() != 0 && !addr_hex_ok(to) {
        addr_error(to)
    } else {
        data_error(data)
    }
}

/// Parses a 20-byte address from hex, with or without the `0x` marker.
pub fn parse_address(s: &[u8]) -> (r: Result<Address, InputError>)
    ensures
        r is Ok <==> addr_hex_ok(s@),
        r is Ok ==> r.unwrap().wf() && r.unwrap()@ == hex_decoded(strip_hex_prefix(s@)),
        r is Err ==> r.unwrap_err() == addr_error(s@),
{
    match decode_payload(s) {
        Ok(bytes) => {
            if bytes.len() == 20 {
                Ok(Address { bytes })
            } else {
                Err(InputError::BadAddressLength)
            }
        },
        Err(e) => Err(e),
    }
}

/// Parses the raw caller-supplied transaction fields into a request and
/// an engine configuration. An empty recipient selects contract creation;
/// the version tag resolves through the fixed tag set.
pub fn parse_tx_request(
    from: &[u8],
    to: &[u8],
    value: u64,
    data_hex: &[u8],
    gas_limit: u64,
    gas_price: u64,
    spec_tag: &str,
) -> (r: Result<(TxOpts, EvmConfig), InputError>)
    ensures
        r is Ok <==> request_ok(from@, to@, data_hex@),
        r is Err ==> r.unwrap_err() == request_error(from@, to@, data_hex@),
        r is Ok ==> {
            let (tx, cfg) = r.unwrap();
            &&& tx.wf()
            &&& tx.from@ == hex_decoded(strip_hex_prefix(from@))
            &&& (tx.to is Some <==> to@.len() != 0)
            &&& (to@.len() != 0 ==> tx.to.unwrap()@ == hex_decoded(strip_hex_prefix(to@)))
            &&& tx.value.val() == value as nat
            &&& tx.tx_data@ == hex_decoded(strip_hex_prefix(data_hex@))
            &&& tx.gas_limit == gas_limit
            &&& tx.gas_price.val() == gas_price as nat
            &&& cfg.spec_id == spec_of_tag(spec_tag.spec_bytes())
        },
{
    let from_addr = match parse_address(from) {
        Ok(a) => a,
        Err(e) => {
            return Err(e);
        },
    };
    let to_target: Option<Address> = if to.len() == 0 {
        None
    } else {
        match parse_address(to) {
            Ok(a) => Some(a),
            Err(e) => {
                return Err(e);
            },
        }
    };
    let tx_data = match decode_payload(data_hex) {
        Ok(d) => d,
        Err(e) => {
            return Err(e);
        },
    };
    let tx = TxOpts {
        from: from_addr,
        to: to_target,
        value: U256::from_u64(value),
        tx_data,
        gas_limit,
        gas_price: U256::from_u64(gas_price),
    };
    let cfg = EvmConfig { spec_id: to_spec_id(spec_tag) };
    Ok((tx, cfg))
}

} // verus!
