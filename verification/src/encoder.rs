use vstd::bytes::*;
use vstd::prelude::*;

use crate::errors::ErrorCode;

verus! {

/// A typed plaintext scalar handed to a circuit.
#[derive(Clone, Copy, Debug)]
pub enum Scalar {
    U8(u8),
    U16(u16),
    U32(u32),
    U64(u64),
    U128(u128),
}

/// The width a circuit declares for one of its plaintext parameters.
#[derive(Clone, Copy, Debug, PartialEq, Eq, Structural)]
pub enum ScalarType {
    U8,
    U16,
    U32,
    U64,
    U128,
}

impl Scalar {
    /// The declared width this scalar carries.
    pub open spec fn scalar_type(self) -> ScalarType {
        match self {
            Scalar::U8(_) => ScalarType::U8,
            Scalar::U16(_) => ScalarType::U16,
            Scalar::U32(_) => ScalarType::U32,
            Scalar::U64(_) => ScalarType::U64,
            Scalar::U128(_) => ScalarType::U128,
        }
    }

    /// The little-endian byte image of this scalar, at its declared width.
    pub open spec fn le_bytes(self) -> Seq<u8> {
        match self {
            Scalar::U8(x) => seq![x],
            Scalar::U16(x) => spec_u16_to_le_bytes(x),
            Scalar::U32(x) => spec_u32_to_le_bytes(x),
            Scalar::U64(x) => spec_u64_to_le_bytes(x),
            Scalar::U128(x) => spec_u128_to_le_bytes(x),
        }
    }

    pub fn type_of(&self) -> (t: ScalarType)
        ensures
            t == self.scalar_type(),
    {
        match self {
            Scalar::U8(_) => ScalarType::U8,
            Scalar::U16(_) => ScalarType::U16,
            Scalar::U32(_) => ScalarType::U32,
            Scalar::U64(_) => ScalarType::U64,
            Scalar::U128(_) => ScalarType::U128,
        }
    }
}

/// Whether a parameter list matches a circuit's declared parameter types,
/// position by position.
pub open spec fn params_match(params: Seq<Scalar>, expected: Seq<ScalarType>) -> bool {
    &&& params.len() == expected.len()
    &&& forall|i: int| 0 <= i < params.len() ==> params[i].scalar_type() == expected[i]
}

/// The byte image of a parameter list: each scalar's little-endian bytes, in
/// declaration order.
pub open spec fn params_bytes(params: Seq<Scalar>) -> Seq<u8>
    decreases params.len(),
{
    if params.len() == 0 {
        Seq::empty()
    } else {
        params_bytes(params.drop_last()) + params.last().le_bytes()
    }
}

/// The exact byte layout a registered circuit expects for its arguments:
/// the requester's 32-byte public key first, then the 128-bit nonce in
/// little-endian order, then each plaintext parameter at its declared width.
pub open spec fn encoded_args(public_key: Seq<u8>, nonce: u128, params: Seq<Scalar>) -> Seq<u8> {
    public_key + spec_u128_to_le_bytes(nonce) + params_bytes(params)
}

/// Appends one scalar's little-endian bytes to an output buffer.
fn push_scalar_bytes(out: &mut Vec<u8>, s: &Scalar)
    ensures
        final(out)@ == old(out)@ + s.le_bytes(),
{
    match s {
        Scalar::U8(x) => {
            out.push(*x);
            assert(out@ =~= old(out)@ + s.le_bytes());
        },
        Scalar::U16(x) => {
            let mut bytes = u16_to_le_bytes(*x);
            out.append(&mut bytes);
        },
        Scalar::U32(x) => {
            let mut bytes = u32_to_le_bytes(*x);
            out.append(&mut bytes);
        },
        Scalar::U64(x) => {
            let mut bytes = u64_to_le_bytes(*x);
            out.append(&mut bytes);
        },
        Scalar::U128(x) => {
            let mut bytes = u128_to_le_bytes(*x);
            out.append(&mut bytes);
        },
    }
}

/// Serializes a public key, nonce, and plaintext parameters into the byte
/// layout the target circuit expects, or reports `EncodingMismatch` when a
/// parameter's declared width differs from the circuit's expected type at
/// that position. A pure transformation: nothing else is read or changed.
pub fn encode(
    public_key: &Vec<u8>,
    nonce: u128,
    params: &Vec<Scalar>,
    expected: &Vec<ScalarType>,
) -> (r: Result<Vec<u8>, ErrorCode>)
    requires
        public_key@.len() == 32,
    ensures
        r matches Ok(bytes) ==> params_match(params@, expected@) && bytes@ == encoded_args(
            public_key@,
            nonce,
            params@,
        ),
        r matches Err(e) ==> !params_match(params@, expected@) && e
            == ErrorCode::EncodingMismatch,
{
    if params.len() != expected.len() {
        return Err(ErrorCode::EncodingMismatch);
    }
    let n = params.len();
    for i in 0..n
        invariant
            n == params@.len() == expected@.len(),
            forall|j: int| 0 <= j < i ==> params@[j].scalar_type() == expected@[j],
    {
        if params[i].type_of() != expected[i] {
            return Err(ErrorCode::EncodingMismatch);
        }
    }
    let mut out: Vec<u8> = Vec::new();
    let mut k: usize = 0;
    while k < 32
        invariant
            public_key@.len() == 32,
            k <= 32,
            out@ == public_key@.take(k as int),
        decreases 32 - k,
    {
        out.push(public_key[k]);
        k = k + 1;
        assert(out@ =~= public_key@.take(k as int));
    }
    assert(out@ =~= public_key@);
    let mut nonce_bytes = u128_to_le_bytes(nonce);
    out.append(&mut nonce_bytes);
    let ghost header: Seq<u8> = public_key@ + spec_u128_to_le_bytes(nonce);
    assert(out@ =~= header);
    for i in 0..n
        invariant
            n == params@.len(),
            out@ == header + params_bytes(params@.take(i as int)),
    {
        push_scalar_bytes(&mut out, &params[i]);
        proof {
            assert(params@.take(i + 1).drop_last() =~= params@.take(i as int));
            assert(out@ =~= header + params_bytes(params@.take(i + 1)));
        }
    }
    proof {
        assert(params@.take(n as int) =~= params@);
        assert(out@ =~= encoded_args(public_key@, nonce, params@));
    }
    Ok(out)
}

} // verus!
