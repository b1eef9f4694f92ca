use vstd::prelude::*;

verus! {

/// Unsigned value of a byte sequence read in big-endian order.
pub open spec fn be_val(s: Seq<u8>) -> nat
    decreases s.len(),
{
    if s.len() == 0 {
        0
    } else {
        be_val(s.drop_last()) * 256nat + (s.last() as nat)
    }
}

pub proof fn lemma_be_val_push(s: Seq<u8>, b: u8)
    ensures
        be_val(s.push(b)) == be_val(s) * 256 + b,
{
    assert(s.push(b).drop_last() =~= s);
    assert(s.push(b).last() == b);
}

/// A 20-byte account address.
#[derive(Debug)]
pub struct Address {
    pub bytes: Vec<u8>,
}

impl Address {
    pub open spec fn wf(&self) -> bool {
        self.bytes@.len() == 20
    }
}

impl View for Address {
    type V = Seq<u8>;

    open spec fn view(&self) -> Seq<u8> {
        self.bytes@
    }
}

/// A 256-bit unsigned integer held as 32 big-endian bytes.
#[derive(Debug)]
pub struct U256 {
    pub bytes: Vec<u8>,
}

impl U256 {
    pub open spec fn wf(&self) -> bool {
        self.bytes@.len() == 32
    }

    /// The numeric value of this word.
    pub open spec fn val(&self) -> nat {
        be_val(self.bytes@)
    }

    pub fn zero() -> (r: U256)
        ensures
            r.wf(),
            r.val() == 0,
    {
        let mut bytes: Vec<u8> = Vec::new();
        let mut i: usize = 0;
        while i < 32
            invariant
                i <= 32,
                bytes@.len() == i,
                be_val(bytes@) == 0,
            decreases 32 - i,
        {
            proof {
                lemma_be_val_push(bytes@, 0);
            }
            bytes.push(0);
            i = i + 1;
        }
        U256 { bytes }
    }

    /// Builds the word whose value is the given 64-bit integer.
    pub fn from_u64(v: u64) -> (r: U256)
        ensures
            r.wf(),
            r.val() == v as nat,
    {
        let mut bytes: Vec<u8> = Vec::new();
        let mut i: usize = 0;
        while i < 24
            invariant
                i <= 24,
                bytes@.len() == i,
                be_val(bytes@) == 0,
            decreases 24 - i,
        {
            proof {
                lemma_be_val_push(bytes@, 0);
            }
            bytes.push(0);
            i = i + 1;
        }
        proof {
            lemma_pow2_8x_values();
            assert((v as nat) / pow2_8x(8) == 0) by (nonlinear_arith)
                requires
                    v <= 0xffffffffffffffff && pow2_8x(8) == 0x10000000000000000,
            ;
        }
        let mut k: usize = 0;
        while k < 8
            invariant
                k <= 8,
                bytes@.len() == 24 + k,
                be_val(bytes@) == (v as nat) / pow2_8x((8 - k) as nat),
            decreases 8 - k,
        {
            let shift: u64 = 8 * (8 - k as u64 - 1);
            let byte: u8 = ((v >> shift) & 0xff) as u8;
            proof {
                assert((v >> shift) & 0xff < 256) by (bit_vector);
                lemma_u64_take_byte(v, (8 - k) as nat, shift);
                lemma_be_val_push(bytes@, byte);
            }
            bytes.push(byte);
            k = k + 1;
        }
        proof {
            assert(pow2_8x(0) == 1);
            assert((v as nat) / 1 == v as nat);
        }
        U256 { bytes }
    }

    /// Builds a word from exactly 32 big-endian bytes.
    pub fn from_be_bytes(bytes: Vec<u8>) -> (r: Option<U256>)
        ensures
            r is Some <==> bytes@.len() == 32,
            r is Some ==> r.unwrap().wf() && r.unwrap().val() == be_val(bytes@),
    {
        if bytes.len() == 32 {
            Some(U256 { bytes })
        } else {
            None
        }
    }
}

impl View for U256 {
    type V = Seq<u8>;

    open spec fn view(&self) -> Seq<u8> {
        self.bytes@
    }
}

/// 2 raised to the power of 8 times k: the weight of k trailing bytes.
pub open spec fn pow2_8x(k: nat) -> nat
    decreases k,
{
    if k == 0 {
        1
    } else {
        256 * pow2_8x((k - 1) as nat)
    }
}

proof fn lemma_pow2_8x_pos(k: nat)
    ensures
        pow2_8x(k) >= 1,
    decreases k,
{
    if k > 0 {
        lemma_pow2_8x_pos((k - 1) as nat);
    }
}

/// The weights of whole numbers of bytes, written out.
proof fn lemma_pow2_8x_values()
    ensures
        pow2_8x(8) == 0x10000000000000000,
{
    assert(pow2_8x(0) == 1);
    assert(pow2_8x(1) == 256);
    assert(pow2_8x(2) == 0x10000);
    assert(pow2_8x(3) == 0x1000000);
    assert(pow2_8x(4) == 0x100000000);
    assert(pow2_8x(5) == 0x10000000000);
    assert(pow2_8x(6) == 0x1000000000000);
    assert(pow2_8x(7) == 0x100000000000000);
    assert(pow2_8x(8) == 0x10000000000000000);
}

/// Dividing out one more byte of v equals shifting out 8 more bits.
proof fn lemma_u64_take_byte(v: u64, j: nat, s: u64)
    requires
        1 <= j <= 8,
        s == 8 * (j - 1),
    ensures
        (v as nat) / pow2_8x(j) * 256 + ((v >> s) & 0xff) == (v as nat) / pow2_8x((j - 1) as nat),
{
    let s8: u64 = (s + 8) as u64;
    assert(v >> s == (v as nat) / pow2_8x((j - 1) as nat)) by {
        lemma_u64_shr_is_div(v, s);
        assert(pow2_8x(((s / 8) as nat)) == pow2_8x((j - 1) as nat));
    }
    assert(v >> s8 == (v as nat) / pow2_8x(j)) by {
        lemma_u64_shr_is_div(v, s8);
        assert(((s8 / 8) as nat) == j);
    }
    assert((v >> s8) * 256 + ((v >> s) & 0xff) == v >> s) by (bit_vector)
        requires
            s <= 56 && s8 == s + 8,
    ;
}

/// Right-shifting by a multiple of 8 divides by the weight of those bytes.
proof fn lemma_u64_shr_is_div(v: u64, s: u64)
    requires
        s <= 64,
        s % 8 == 0,
    ensures
        v >> s == (v as nat) / pow2_8x(((s / 8) as nat)),
    decreases s,
{
    if s == 0 {
        assert(v >> 0u64 == v) by (bit_vector);
        assert(v >> s == v);
        assert(pow2_8x(0) == 1);
        assert((v as nat) / 1 == v as nat);
        assert(v >> s == (v as nat) / pow2_8x(((s / 8) as nat)));
    } else {
        let t: u64 = (s - 8) as u64;
        lemma_u64_shr_is_div(v, t);
        assert(v >> s == (v >> t) / 256) by (bit_vector)
            requires
                8 <= s <= 64 && t == s - 8,
        ;
        let p = pow2_8x(((t / 8) as nat));
        lemma_pow2_8x_pos(((t / 8) as nat));
        assert(((s / 8) as nat) == ((t / 8) as nat) + 1);
        assert(pow2_8x(((s / 8) as nat)) == 256 * p);
        assert((v as nat) / p / 256 == (v as nat) / (p * 256)) by {
            vstd::arithmetic::div_mod::lemma_div_denominator(v as int, p as int, 256);
        }
        assert(((v >> t) / 256) as nat == ((v as nat) / p) / 256);
        assert(v >> s == (v as nat) / (p * 256));
        assert(p * 256 == 256 * p) by (nonlinear_arith);
        assert(v >> s == (v as nat) / pow2_8x(((s / 8) as nat)));
    }
}

/// The protocol rulesets that a version tag can select.
#[derive(Clone, Copy, PartialEq, Eq, Structural, Debug)]
pub enum SpecKind {
    Frontier,
    FrontierThawing,
    Homestead,
    DaoFork,
    Tangerine,
    SpuriousDragon,
    Byzantium,
    Constantinople,
    Petersburg,
    Istanbul,
    MuirGlacier,
    Berlin,
    London,
    ArrowGlacier,
    GrayGlacier,
    Merge,
    Shanghai,
    Latest,
}

/// The numeric ruleset identifier as the execution engine numbers them.
pub open spec fn spec_code_of(k: SpecKind) -> u8 {
    match k {
        SpecKind::Frontier => 0,
        SpecKind::FrontierThawing => 1,
        SpecKind::Homestead => 2,
        SpecKind::DaoFork => 3,
        SpecKind::Tangerine => 4,
        SpecKind::SpuriousDragon => 5,
        SpecKind::Byzantium => 6,
        SpecKind::Constantinople => 7,
        SpecKind::Petersburg => 8,
        SpecKind::Istanbul => 9,
        SpecKind::MuirGlacier => 10,
        SpecKind::Berlin => 11,
        SpecKind::London => 12,
        SpecKind::ArrowGlacier => 13,
        SpecKind::GrayGlacier => 14,
        SpecKind::Merge => 15,
        SpecKind::Shanghai => 16,
        SpecKind::Latest => 255,
    }
}

impl SpecKind {
    /// The engine's numeric identifier for this ruleset.
    pub fn code(&self) -> (r: u8)
        ensures
            r == spec_code_of(*self),
    {
        match self {
            SpecKind::Frontier => 0,
            SpecKind::FrontierThawing => 1,
            SpecKind::Homestead => 2,
            SpecKind::DaoFork => 3,
            SpecKind::Tangerine => 4,
            SpecKind::SpuriousDragon => 5,
            SpecKind::Byzantium => 6,
            SpecKind::Constantinople => 7,
            SpecKind::Petersburg => 8,
            SpecKind::Istanbul => 9,
            SpecKind::MuirGlacier => 10,
            SpecKind::Berlin => 11,
            SpecKind::London => 12,
            SpecKind::ArrowGlacier => 13,
            SpecKind::GrayGlacier => 14,
            SpecKind::Merge => 15,
            SpecKind::Shanghai => 16,
            SpecKind::Latest => 255,
        }
    }
}

/// Engine configuration for one execution: the selected ruleset.
#[derive(Debug)]
pub struct EvmConfig {
    pub spec_id: SpecKind,
}

/// A transaction request, already parsed into plain values.
#[derive(Debug)]
pub struct TxOpts {
    pub from: Address,
    /// The recipient of a call, or `None` for contract creation.
    pub to: Option<Address>,
    pub value: U256,
    pub tx_data: Vec<u8>,
    pub gas_limit: u64,
    pub gas_price: U256,
}

impl TxOpts {
    pub open spec fn wf(&self) -> bool {
        &&& self.from.wf()
        &&& (self.to is Some ==> self.to.unwrap().wf())
        &&& self.value.wf()
        &&& self.gas_price.wf()
    }
}

/// The execution environment handed to the engine: the ruleset code and
/// the transaction fields, fully populated before the engine runs.
#[derive(Debug)]
pub struct EvmEnv {
    pub from: Address,
    pub to: Option<Address>,
    pub value: U256,
    pub data: Vec<u8>,
    pub gas_limit: u64,
    pub gas_price: U256,
    pub spec_code: u8,
}

impl EvmEnv {
    pub open spec fn wf(&self) -> bool {
        &&& self.from.wf()
        &&& (self.to is Some ==> self.to.unwrap().wf())
        &&& self.value.wf()
        &&& self.gas_price.wf()
    }
}

/// Rejection of malformed caller input.
#[derive(Clone, Copy, PartialEq, Eq, Structural, Debug)]
pub enum InputError {
    /// A hex payload has an odd number of digits.
    OddHexLength,
    /// A hex payload holds a character that is no hex digit.
    BadHexDigit,
    /// An address does not decode to exactly 20 bytes.
    BadAddressLength,
}

/// Failure of one sandbox call.
#[derive(Clone, Copy, PartialEq, Eq, Structural, Debug)]
pub enum SandboxError {
    /// The caller's input was rejected before execution.
    Input(InputError),
    /// The execution engine failed to produce any outcome.
    Engine,
}

} // verus!
