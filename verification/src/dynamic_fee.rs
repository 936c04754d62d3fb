//! Codec for the time-evolving half of the fee model: a record of the last
//! update time and volatility state stored in a ledger account as exactly
//! 24 bytes, little-endian, in a fixed field order, followed by 4 reserved
//! bytes that are carried through unchanged.

use vstd::prelude::*;

use crate::error::DecodeError;
use crate::le_bytes::{
    lemma_u32_le_bytes_of, lemma_u32_le_round_trip, lemma_u64_le_bytes_of, lemma_u64_le_round_trip,
    push_u32_le, push_u64_le, read_u32_le, read_u64_le, u32_le_bytes, u32_of_le_bytes,
    u64_le_bytes, u64_of_le_bytes,
};

verus! {

broadcast use vstd::array::group_array_axioms;

/// The mutable runtime fee state. Field order and widths match the 24-byte
/// account layout exactly: time_last_updated(8), volatility_accumulator(4),
/// volatility_reference(4), id_reference(4), reserved(4). Equality is
/// structural, reserved bytes included.
#[derive(Clone, Copy, Debug, PartialEq)]
pub struct DynamicFeeParameters {
    pub time_last_updated: u64,
    pub volatility_accumulator: u32,
    pub volatility_reference: u32,
    pub id_reference: u32,
    pub _space: [u8; 4],
}

impl DynamicFeeParameters {
    /// The record's fixed encoded width in bytes; a constant of the wire
    /// contract, never computed from field contents.
    pub const LEN: usize = 24;

    /// The exact 24-byte encoding of the record.
    pub open spec fn spec_bytes(self) -> Seq<u8> {
        u64_le_bytes(self.time_last_updated) + u32_le_bytes(self.volatility_accumulator)
            + u32_le_bytes(self.volatility_reference) + u32_le_bytes(self.id_reference)
            + self._space@
    }

    /// The record read from the first 24 bytes of `s`, each field at its
    /// fixed offset, reserved bytes taken verbatim.
    pub open spec fn spec_of_bytes(s: Seq<u8>) -> DynamicFeeParameters
        recommends
            s.len() >= 24,
    {
        DynamicFeeParameters {
            time_last_updated: u64_of_le_bytes(s.subrange(0, 8)),
            volatility_accumulator: u32_of_le_bytes(s.subrange(8, 12)),
            volatility_reference: u32_of_le_bytes(s.subrange(12, 16)),
            id_reference: u32_of_le_bytes(s.subrange(16, 20)),
            _space: [s[20], s[21], s[22], s[23]],
        }
    }

    /// A decoded record is always considered initialized; the codec has no
    /// empty or sentinel state, and absence of an account is checked by the
    /// caller before a buffer ever reaches it.
    pub fn is_initialized(&self) -> (r: bool)
        ensures
            r,
    {
        true
    }

    /// The record's 24-byte encoding, as a fresh buffer.
    pub fn to_bytes(&self) -> (out: Vec<u8>)
        ensures
            out@ == self.spec_bytes(),
            out@.len() == 24,
    {
        let mut out: Vec<u8> = Vec::new();
        push_u64_le(&mut out, self.time_last_updated);
        push_u32_le(&mut out, self.volatility_accumulator);
        push_u32_le(&mut out, self.volatility_reference);
        push_u32_le(&mut out, self.id_reference);
        out.push(self._space[0]);
        out.push(self._space[1]);
        out.push(self._space[2]);
        out.push(self._space[3]);
        proof {
            assert(out@ =~= self.spec_bytes());
        }
        out
    }

    /// Writes the record's 24-byte encoding over the start of `output`,
    /// leaving every byte past offset 23 unchanged. Supplying a buffer
    /// shorter than 24 bytes is a contract violation, not a runtime error.
    pub fn pack_into_slice(&self, output: &mut Vec<u8>)
        requires
            old(output)@.len() >= 24,
        ensures
            final(output)@.len() == old(output)@.len(),
            final(output)@ == self.spec_bytes() + old(output)@.skip(24),
    {
        let enc = self.to_bytes();
        let ghost orig = output@;
        let mut i: usize = 0;
        while i < Self::LEN
            invariant
                i <= 24,
                enc@ == self.spec_bytes(),
                enc@.len() == 24,
                output@.len() == orig.len(),
                orig.len() >= 24,
                forall|j: int| 0 <= j < i ==> output@[j] == enc@[j],
                forall|j: int| i <= j < orig.len() ==> output@[j] == orig[j],
            decreases 24 - i,
        {
            let b = enc[i];
            output[i] = b;
            i = i + 1;
        }
        proof {
            assert(output@ =~= self.spec_bytes() + orig.skip(24));
        }
    }

    /// Reads a record from the first 24 bytes of `input`; fails with
    /// `BufferTooShort` if and only if fewer than 24 bytes are available.
    pub fn unpack_from_slice(input: &[u8]) -> (r: Result<DynamicFeeParameters, DecodeError>)
        ensures
            input@.len() >= 24 ==> r == Ok::<DynamicFeeParameters, DecodeError>(
                DynamicFeeParameters::spec_of_bytes(input@),
            ),
            input@.len() < 24 ==> r == Err::<DynamicFeeParameters, DecodeError>(
                DecodeError::BufferTooShort,
            ),
    {
        if input.len() < Self::LEN {
            return Err(DecodeError::BufferTooShort);
        }
        let p = DynamicFeeParameters {
            time_last_updated: read_u64_le(input, 0),
            volatility_accumulator: read_u32_le(input, 8),
            volatility_reference: read_u32_le(input, 12),
            id_reference: read_u32_le(input, 16),
            _space: [input[20], input[21], input[22], input[23]],
        };
        proof {
            assert(p == DynamicFeeParameters::spec_of_bytes(input@));
        }
        Ok(p)
    }
}

/// Fixed-width law: the encoding is exactly 24 bytes whatever the field
/// values.
pub proof fn lemma_dynamic_bytes_len(p: DynamicFeeParameters)
    ensures
        p.spec_bytes().len() == 24,
{
}

/// Round-trip law: decoding a record's encoding yields the record again,
/// field by field, reserved bytes included.
pub proof fn lemma_dynamic_round_trip(p: DynamicFeeParameters)
    ensures
        DynamicFeeParameters::spec_of_bytes(p.spec_bytes()) == p,
{
    let s = p.spec_bytes();
    lemma_u64_le_round_trip(p.time_last_updated);
    lemma_u32_le_round_trip(p.volatility_accumulator);
    lemma_u32_le_round_trip(p.volatility_reference);
    lemma_u32_le_round_trip(p.id_reference);
    assert(s.subrange(0, 8) =~= u64_le_bytes(p.time_last_updated));
    assert(s.subrange(8, 12) =~= u32_le_bytes(p.volatility_accumulator));
    assert(s.subrange(12, 16) =~= u32_le_bytes(p.volatility_reference));
    assert(s.subrange(16, 20) =~= u32_le_bytes(p.id_reference));
    assert(s[20] == p._space@[0] && s[21] == p._space@[1] && s[22] == p._space@[2] && s[23]
        == p._space@[3]);
    assert(DynamicFeeParameters::spec_of_bytes(s)._space =~= p._space);
}

/// Exact-inverse law in the other direction: re-encoding a decoded 24-byte
/// buffer reproduces it byte for byte, reserved region included.
pub proof fn lemma_dynamic_bytes_of_decoded(s: Seq<u8>)
    requires
        s.len() == 24,
    ensures
        DynamicFeeParameters::spec_of_bytes(s).spec_bytes() == s,
{
    lemma_u64_le_bytes_of(s.subrange(0, 8));
    lemma_u32_le_bytes_of(s.subrange(8, 12));
    lemma_u32_le_bytes_of(s.subrange(12, 16));
    lemma_u32_le_bytes_of(s.subrange(16, 20));
    assert(DynamicFeeParameters::spec_of_bytes(s).spec_bytes() =~= s);
}

/// Endianness law: a record whose `time_last_updated` is 1 encodes that
/// field as byte 0x01 at offset 0 and zero bytes at offsets 1 through 7.
pub proof fn lemma_time_last_updated_little_endian(p: DynamicFeeParameters)
    requires
        p.time_last_updated == 1,
    ensures
        p.spec_bytes()[0] == 1,
        forall|i: int| 1 <= i < 8 ==> p.spec_bytes()[i] == 0,
{
    assert(1u64 & 0xff == 1 && (1u64 >> 8) & 0xff == 0 && (1u64 >> 16) & 0xff == 0 && (1u64 >> 24)
        & 0xff == 0 && (1u64 >> 32) & 0xff == 0 && (1u64 >> 40) & 0xff == 0 && (1u64 >> 48) & 0xff
        == 0 && (1u64 >> 56) & 0xff == 0) by (bit_vector);
    assert(forall|i: int| 1 <= i < 8 ==> p.spec_bytes()[i] == u64_le_bytes(1)[i]);
}

} // verus!
