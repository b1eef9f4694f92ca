use vstd::prelude::*;
use vstd::string::StringSliceAdditionalSpecFns;

use crate::outcome::HaltKind;
use crate::types::SpecKind;

verus! {

/// Whether t is one of the protocol-version tags with a ruleset of its own.
pub open spec fn known_tag(t: Seq<u8>) -> bool {
    ||| t == ("FRONTIER").spec_bytes()
    ||| t == ("FRONTIER_THAWING").spec_bytes()
    ||| t == ("HOMESTAD").spec_bytes()
    ||| t == ("DAO_FORK").spec_bytes()
    ||| t == ("TANGERINE").spec_bytes()
    ||| t == ("SPURIOUS_DRAGON").spec_bytes()
    ||| t == ("BYZANTIUM").spec_bytes()
    ||| t == ("CONSTANTINOPLE").spec_bytes()
    ||| t == ("PETERSBURG").spec_bytes()
    ||| t == ("ISTANBUL").spec_bytes()
    ||| t == ("MUIR_GLACIER").spec_bytes()
    ||| t == ("BERLIN").spec_bytes()
    ||| t == ("LONDON").spec_bytes()
    ||| t == ("ARROW_GLACIER").spec_bytes()
    ||| t == ("GRAY_GLACIER").spec_bytes()
    ||| t == ("MERGE").spec_bytes()
    ||| t == ("SHANGHAI").spec_bytes()
}

/// The ruleset selected by a version tag; an unrecognized tag falls back
/// to the most current ruleset by design.
pub open spec fn spec_of_tag(t: Seq<u8>) -> SpecKind {
    if t == ("FRONTIER").spec_bytes() {
        SpecKind::Frontier
    } else if t == ("FRONTIER_THAWING").spec_bytes() {
        SpecKind::FrontierThawing
    } else if t == ("HOMESTAD").spec_bytes() {
        SpecKind::Homestead
    } else if t == ("DAO_FORK").spec_bytes() {
        SpecKind::DaoFork
    } else if t == ("TANGERINE").spec_bytes() {
        SpecKind::Tangerine
    } else if t == ("SPURIOUS_DRAGON").spec_bytes() {
        SpecKind::SpuriousDragon
    } else if t == ("BYZANTIUM").spec_bytes() {
        SpecKind::Byzantium
    } else if t == ("CONSTANTINOPLE").spec_bytes() {
        SpecKind::Constantinople
    } else if t == ("PETERSBURG").spec_bytes() {
        SpecKind::Petersburg
    } else if t == ("ISTANBUL").spec_bytes() {
        SpecKind::Istanbul
    } else if t == ("MUIR_GLACIER").spec_bytes() {
        SpecKind::MuirGlacier
    } else if t == ("BERLIN").spec_bytes() {
        SpecKind::Berlin
    } else if t == ("LONDON").spec_bytes() {
        SpecKind::London
    } else if t == ("ARROW_GLACIER").spec_bytes() {
        SpecKind::ArrowGlacier
    } else if t == ("GRAY_GLACIER").spec_bytes() {
        SpecKind::GrayGlacier
    } else if t == ("MERGE").spec_bytes() {
        SpecKind::Merge
    } else if t == ("SHANGHAI").spec_bytes() {
        SpecKind::Shanghai
    } else {
        SpecKind::Latest
    }
}

/// Any tag outside the known set selects the most current ruleset: the
/// deliberate fallback policy, not an error path.
pub proof fn lemma_unknown_tag_latest(t: Seq<u8>)
    requires
        !known_tag(t),
    ensures
        spec_of_tag(t) == SpecKind::Latest,
{
}

fn bytes_eq(a: &[u8], b: &[u8]) -> (r: bool)
    ensures
        r == (a@ == b@),
{
    if a.len() != b.len() {
        proof {
            assert(a@ != b@);
        }
        return false;
    }
    let n = a.len();
    let mut i: usize = 0;
    while i < n
        invariant
            i <= n,
            n == a@.len(),
            n == b@.len(),
            forall|j: int| 0 <= j < i ==> a@[j] == b@[j],
        decreases n - i,
    {
        if a[i] != b[i] {
            proof {
                assert(a@[i as int] != b@[i as int]);
            }
            return false;
        }
        i = i + 1;
    }
    proof {
        assert(a@ =~= b@);
    }
    true
}

fn tag_is(tag: &str, name: &str) -> (r: bool)
    ensures
        r == (tag.spec_bytes() == name.spec_bytes()),
{
    bytes_eq(tag.as_bytes(), name.as_bytes())
}

/// Resolves a protocol-version tag, case-sensitively, to a ruleset;
/// unrecognized tags resolve to the most current one.
pub fn to_spec_id(spec_id: &str) -> (r: SpecKind)
    ensures
        r == spec_of_tag(spec_id.spec_bytes()),
{
    if tag_is(spec_id, "FRONTIER") {
        SpecKind::Frontier
    } else if tag_is(spec_id, "FRONTIER_THAWING") {
        SpecKind::FrontierThawing
    } else if tag_is(spec_id, "HOMESTAD") {
        SpecKind::Homestead
    } else if tag_is(spec_id, "DAO_FORK") {
        SpecKind::DaoFork
    } else if tag_is(spec_id, "TANGERINE") {
        SpecKind::Tangerine
    } else if tag_is(spec_id, "SPURIOUS_DRAGON") {
        SpecKind::SpuriousDragon
    } else if tag_is(spec_id, "BYZANTIUM") {
        SpecKind::Byzantium
    } else if tag_is(spec_id, "CONSTANTINOPLE") {
        SpecKind::Constantinople
    } else if tag_is(spec_id, "PETERSBURG") {
        SpecKind::Petersburg
    } else if tag_is(spec_id, "ISTANBUL") {
        SpecKind::Istanbul
    } else if tag_is(spec_id, "MUIR_GLACIER") {
        SpecKind::MuirGlacier
    } else if tag_is(spec_id, "BERLIN") {
        SpecKind::Berlin
    } else if tag_is(spec_id, "LONDON") {
        SpecKind::London
    } else if tag_is(spec_id, "ARROW_GLACIER") {
        SpecKind::ArrowGlacier
    } else if tag_is(spec_id, "GRAY_GLACIER") {
        SpecKind::GrayGlacier
    } else if tag_is(spec_id, "MERGE") {
        SpecKind::Merge
    } else if tag_is(spec_id, "SHANGHAI") {
        SpecKind::Shanghai
    } else {
        SpecKind::Latest
    }
}

/// The fixed, human-readable text for each halt reason.
pub open spec fn halt_text(reason: HaltKind) -> Seq<char> {
    match reason {
        HaltKind::OutOfGas => ("Out of Gas")@,
        HaltKind::OpcodeNotFound => ("Opcode Not Found")@,
        HaltKind::InvalidFEOpcode => ("Invalid FE Opcode")@,
        HaltKind::InvalidJump => ("Invalid Jump")@,
        HaltKind::NotActivated => ("Not Activated")@,
        HaltKind::StackUnderflow => ("Stack Underflow")@,
        HaltKind::StackOverflow => ("Stack Overflow")@,
        HaltKind::OutOfOffset => ("Out of Offset")@,
        HaltKind::CreateCollision => ("Create Collision")@,
        HaltKind::PrecompileError => ("Precompile Error")@,
        HaltKind::NonceOverflow => ("Nonce Overflow")@,
        HaltKind::CreateContractSizeLimit => ("Create Contract Size Limit")@,
        HaltKind::CreateContractStartingWithEF => ("Create Contract Starting With EF")@,
        HaltKind::CreateInitcodeSizeLimit => ("Create Initcode Size Limit")@,
        HaltKind::OverflowPayment => ("Overflow Payment")@,
        HaltKind::StateChangeDuringStaticCall => ("State Change During Static Call")@,
        HaltKind::CallNotAllowedInsideStatic => ("Call Not Allowed Inside Static")@,
        HaltKind::OutOfFund => ("Out of Fund")@,
        HaltKind::CallTooDeep => ("Call Too Deep")@,
    }
}

/// Maps every halt reason to its defined text; the mapping is total over
/// the closed reason set.
pub fn halt_reason_as_string(reason: HaltKind) -> (r: String)
    ensures
        r@ == halt_text(reason),
{
    match reason {
        HaltKind::OutOfGas => "Out of Gas".to_owned(),
        HaltKind::OpcodeNotFound => "Opcode Not Found".to_owned(),
        HaltKind::InvalidFEOpcode => "Invalid FE Opcode".to_owned(),
        HaltKind::InvalidJump => "Invalid Jump".to_owned(),
        HaltKind::NotActivated => "Not Activated".to_owned(),
        HaltKind::StackUnderflow => "Stack Underflow".to_owned(),
        HaltKind::StackOverflow => "Stack Overflow".to_owned(),
        HaltKind::OutOfOffset => "Out of Offset".to_owned(),
        HaltKind::CreateCollision => "Create Collision".to_owned(),
        HaltKind::PrecompileError => "Precompile Error".to_owned(),
        HaltKind::NonceOverflow => "Nonce Overflow".to_owned(),
        HaltKind::CreateContractSizeLimit => "Create Contract Size Limit".to_owned(),
        HaltKind::CreateContractStartingWithEF => "Create Contract Starting With EF".to_owned(),
        HaltKind::CreateInitcodeSizeLimit => "Create Initcode Size Limit".to_owned(),
        HaltKind::OverflowPayment => "Overflow Payment".to_owned(),
        HaltKind::StateChangeDuringStaticCall => "State Change During Static Call".to_owned(),
        HaltKind::CallNotAllowedInsideStatic => "Call Not Allowed Inside Static".to_owned(),
        HaltKind::OutOfFund => "Out of Fund".to_owned(),
        HaltKind::CallTooDeep => "Call Too Deep".to_owned(),
    }
}

} // verus!
