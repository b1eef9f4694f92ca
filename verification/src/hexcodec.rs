use vstd::prelude::*;

use crate::types::InputError;

verus! {

/// ASCII code of the digit zero.
pub const CHAR_ZERO: u8 = 48;

/// ASCII code of the lower-case letter x.
pub const CHAR_X: u8 = 120;

/// Whether b is the ASCII code of a hex digit, upper or lower case.
pub open spec fn is_hex_digit(b: u8) -> bool {
    (48 <= b && b <= 57) || (97 <= b && b <= 102) || (65 <= b && b <= 70)
}

/// The value of a hex digit character.
pub open spec fn hex_digit_val(b: u8) -> u8 {
    if 48 <= b && b <= 57 {
        (b - 48) as u8
    } else if 97 <= b && b <= 102 {
        (b - 87) as u8
    } else {
        (b - 55) as u8
    }
}

/// The lower-case hex digit character for a value below 16.
pub open spec fn hex_digit_char(v: u8) -> u8 {
    if v < 10 {
        (48 + v) as u8
    } else {
        (87 + v) as u8
    }
}

/// A well-formed hex payload: even length, hex digits throughout.
pub open spec fn valid_hex(s: Seq<u8>) -> bool {
    s.len() % 2 == 0 && (forall|i: int| 0 <= i < s.len() ==> is_hex_digit(#[trigger] s[i]))
}

/// The bytes denoted by a hex payload, two digits to a byte.
pub open spec fn hex_decoded(s: Seq<u8>) -> Seq<u8>
    decreases s.len(),
{
    if s.len() < 2 {
        Seq::empty()
    } else {
        seq![((hex_digit_val(s[0]) * 16 + hex_digit_val(s[1])) as u8)] + hex_decoded(s.skip(2))
    }
}

/// The lower-case hex rendering of a byte sequence.
pub open spec fn hex_encoded(b: Seq<u8>) -> Seq<u8>
    decreases b.len(),
{
    if b.len() == 0 {
        Seq::empty()
    } else {
        seq![
            hex_digit_char((b[0] / 16) as u8),
            hex_digit_char((b[0] % 16) as u8),
        ] + hex_encoded(b.skip(1))
    }
}

/// A payload with any leading `0x` marker removed.
pub open spec fn strip_hex_prefix(s: Seq<u8>) -> Seq<u8> {
    if s.len() >= 2 && s[0] == 48 && s[1] == 120 {
        s.skip(2)
    } else {
        s
    }
}

fn digit_char(v: u8) -> (r: u8)
    requires
        v < 16,
    ensures
        r == hex_digit_char(v),
{
    if v < 10 {
        48 + v
    } else {
        87 + v
    }
}

fn digit_val(b: u8) -> (r: Option<u8>)
    ensures
        r is Some <==> is_hex_digit(b),
        r is Some ==> r.unwrap() == hex_digit_val(b) && r.unwrap() < 16,
{
    if 48 <= b && b <= 57 {
        Some(b - 48)
    } else if 97 <= b && b <= 102 {
        Some(b - 87)
    } else if 65 <= b && b <= 70 {
        Some(b - 55)
    } else {
        None
    }
}

proof fn lemma_hex_encoded_push(s: Seq<u8>, x: u8)
    ensures
        hex_encoded(s.push(x)) =~= hex_encoded(s) + seq![
            hex_digit_char((x / 16) as u8),
            hex_digit_char((x % 16) as u8),
        ],
    decreases s.len(),
{
    if s.len() == 0 {
        assert(s.push(x) =~= seq![x]);
        assert(seq![x].skip(1) =~= Seq::<u8>::empty());
        assert(hex_encoded(Seq::<u8>::empty()) =~= Seq::<u8>::empty());
    } else {
        lemma_hex_encoded_push(s.skip(1), x);
        assert(s.push(x).skip(1) =~= s.skip(1).push(x));
        assert(s.push(x)[0] == s[0]);
    }
}

proof fn lemma_hex_decoded_append_pair(s: Seq<u8>, a: u8, b: u8)
    requires
        s.len() % 2 == 0,
    ensures
        hex_decoded(s + seq![a, b]) =~= hex_decoded(s).push(
            ((hex_digit_val(a) * 16 + hex_digit_val(b)) as u8),
        ),
    decreases s.len(),
{
    if s.len() == 0 {
        assert(s + seq![a, b] =~= seq![a, b]);
        assert(seq![a, b].skip(2) =~= Seq::<u8>::empty());
        assert(hex_decoded(Seq::<u8>::empty()) =~= Seq::<u8>::empty());
    } else {
        lemma_hex_decoded_append_pair(s.skip(2), a, b);
        assert((s + seq![a, b]).skip(2) =~= s.skip(2) + seq![a, b]);
        assert((s + seq![a, b])[0] == s[0]);
        assert((s + seq![a, b])[1] == s[1]);
    }
}

proof fn lemma_digit_char_ok(v: u8)
    requires
        v < 16,
    ensures
        is_hex_digit(hex_digit_char(v)),
        hex_digit_val(hex_digit_char(v)) == v,
        hex_digit_char(v) != 120,
{
}

/// Encoding then decoding reproduces any byte sequence exactly.
pub proof fn lemma_hex_round_trip(data: Seq<u8>)
    ensures
        hex_encoded(data).len() == 2 * data.len(),
        valid_hex(hex_encoded(data)),
        hex_decoded(hex_encoded(data)) =~= data,
    decreases data.len(),
{
    if data.len() == 0 {
    } else {
        lemma_hex_round_trip(data.skip(1));
        lemma_digit_char_ok((data[0] / 16) as u8);
        lemma_digit_char_ok((data[0] % 16) as u8);
        let c1 = hex_digit_char((data[0] / 16) as u8);
        let c2 = hex_digit_char((data[0] % 16) as u8);
        let e = hex_encoded(data);
        let er = hex_encoded(data.skip(1));
        assert(e =~= seq![c1, c2] + er);
        assert(forall|i: int| 0 <= i < e.len() ==> is_hex_digit(#[trigger] e[i])) by {
            assert forall|i: int| 0 <= i < e.len() implies is_hex_digit(#[trigger] e[i]) by {
                if i >= 2 {
                    assert(e[i] == er[i - 2]);
                }
            }
        }
        assert(e.skip(2) =~= er);
        assert(hex_decoded(e) =~= seq![data[0]] + hex_decoded(er));
        assert(seq![data[0]] + data.skip(1) =~= data);
    }
}

/// The round trip also holds when the payload carries the `0x` marker.
pub proof fn lemma_payload_round_trip(data: Seq<u8>)
    ensures
        strip_hex_prefix(hex_encoded(data)) =~= hex_encoded(data),
        hex_decoded(strip_hex_prefix(hex_encoded(data))) =~= data,
        strip_hex_prefix(seq![48u8, 120u8] + hex_encoded(data)) =~= hex_encoded(data),
        hex_decoded(strip_hex_prefix(seq![48u8, 120u8] + hex_encoded(data))) =~= data,
{
    lemma_hex_round_trip(data);
    let e = hex_encoded(data);
    if e.len() >= 2 {
        assert(is_hex_digit(e[1]));
        assert(e[1] != 120);
    }
    assert((seq![48u8, 120u8] + e).skip(2) =~= e);
}

/// Renders bytes as lower-case hex digits.
pub fn encode_hex(data: &[u8]) -> (r: Vec<u8>)
    ensures
        r@ == hex_encoded(data@),
{
    let mut out: Vec<u8> = Vec::new();
    let mut i: usize = 0;
    while i < data.len()
        invariant
            i <= data@.len(),
            out@ == hex_encoded(data@.take(i as int)),
        decreases data@.len() - i,
    {
        let b = data[i];
        proof {
            lemma_hex_encoded_push(data@.take(i as int), b);
            assert(data@.take(i as int).push(b) =~= data@.take(i as int + 1));
        }
        out.push(digit_char(b / 16));
        out.push(digit_char(b % 16));
        i = i + 1;
    }
    proof {
        assert(data@.take(data@.len() as int) =~= data@);
    }
    out
}

/// Renders bytes as lower-case hex digits behind a `0x` marker.
pub fn encode_hex_prefixed(data: &[u8]) -> (r: Vec<u8>)
    ensures
        r@ == seq![48u8, 120u8] + hex_encoded(data@),
{
    let mut out: Vec<u8> = Vec::new();
    out.push(CHAR_ZERO);
    out.push(CHAR_X);
    let mut i: usize = 0;
    while i < data.len()
        invariant
            i <= data@.len(),
            out@ == seq![48u8, 120u8] + hex_encoded(data@.take(i as int)),
        decreases data@.len() - i,
    {
        let b = data[i];
        proof {
            lemma_hex_encoded_push(data@.take(i as int), b);
            assert(data@.take(i as int).push(b) =~= data@.take(i as int + 1));
        }
        out.push(digit_char(b / 16));
        out.push(digit_char(b % 16));
        i = i + 1;
    }
    proof {
        assert(data@.take(data@.len() as int) =~= data@);
    }
    out
}

fn decode_from(s: &[u8], start: usize) -> (r: Result<Vec<u8>, InputError>)
    requires
        start <= s@.len(),
    ensures
        r is Ok <==> valid_hex(s@.skip(start as int)),
        r is Ok ==> r.unwrap()@ == hex_decoded(s@.skip(start as int)),
        r is Err ==> r.unwrap_err() == (if (s@.len() - start) % 2 != 0 {
            InputError::OddHexLength
        } else {
            InputError::BadHexDigit
        }),
{
    let n = s.len();
    if (n - start) % 2 != 0 {
        return Err(InputError::OddHexLength);
    }
    let ghost t = s@.skip(start as int);
    let mut out: Vec<u8> = Vec::new();
    let mut i: usize = start;
    while i < n
        invariant
            start <= i <= n,
            n == s@.len(),
            (i - start) % 2 == 0,
            (n - start) % 2 == 0,
            t == s@.skip(start as int),
            forall|j: int| start <= j < i ==> is_hex_digit(#[trigger] s@[j]),
            out@ == hex_decoded(s@.subrange(start as int, i as int)),
        decreases n - i,
    {
        let a = match digit_val(s[i]) {
            Some(v) => v,
            None => {
                proof {
                    assert(t[i - start as int] == s@[i as int]);
                }
                return Err(InputError::BadHexDigit);
            },
        };
        let b = match digit_val(s[i + 1]) {
            Some(v) => v,
            None => {
                proof {
                    assert(t[i + 1 - start as int] == s@[i as int + 1]);
                }
                return Err(InputError::BadHexDigit);
            },
        };
        proof {
            lemma_hex_decoded_append_pair(
                s@.subrange(start as int, i as int),
                s@[i as int],
                s@[i as int + 1],
            );
            assert(s@.subrange(start as int, i as int) + seq![s@[i as int], s@[i as int + 1]]
                =~= s@.subrange(start as int, i as int + 2));
        }
        out.push(a * 16 + b);
        i = i + 2;
    }
    proof {
        assert(s@.subrange(start as int, n as int) =~= t);
        assert(forall|k: int| 0 <= k < t.len() ==> is_hex_digit(#[trigger] t[k])) by {
            assert forall|k: int| 0 <= k < t.len() implies is_hex_digit(#[trigger] t[k]) by {
                assert(t[k] == s@[k + start]);
            }
        }
    }
    Ok(out)
}

/// Decodes a bare hex payload.
pub fn decode_hex(s: &[u8]) -> (r: Result<Vec<u8>, InputError>)
    ensures
        r is Ok <==> valid_hex(s@),
        r is Ok ==> r.unwrap()@ == hex_decoded(s@),
        r is Err ==> r.unwrap_err() == (if s@.len() % 2 != 0 {
            InputError::OddHexLength
        } else {
            InputError::BadHexDigit
        }),
{
    proof {
        assert(s@.skip(0) =~= s@);
    }
    decode_from(s, 0)
}

/// Decodes a hex payload after removing any leading `0x` marker.
pub fn decode_payload(s: &[u8]) -> (r: Result<Vec<u8>, InputError>)
    ensures
        r is Ok <==> valid_hex(strip_hex_prefix(s@)),
        r is Ok ==> r.unwrap()@ == hex_decoded(strip_hex_prefix(s@)),
        r is Err ==> r.unwrap_err() == (if strip_hex_prefix(s@).len() % 2 != 0 {
            InputError::OddHexLength
        } else {
            InputError::BadHexDigit
        }),
{
    if s.len() >= 2 && s[0] == CHAR_ZERO && s[1] == CHAR_X {
        decode_from(s, 2)
    } else {
        proof {
            assert(s@.skip(0) =~= s@);
        }
        decode_from(s, 0)
    }
}

} // verus!
