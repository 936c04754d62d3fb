//! Codec for the configuration-time half of the fee model: a record of
//! seven numeric parameters stored in a ledger account as exactly 20 bytes,
//! little-endian, in a fixed field order, followed by 2 reserved bytes that
//! are carried through unchanged.

use vstd::prelude::*;

use crate::error::DecodeError;
use crate::le_bytes::{
    lemma_u16_le_bytes_of, lemma_u16_le_round_trip, lemma_u32_le_bytes_of, lemma_u32_le_round_trip,
    push_u16_le, push_u32_le, read_u16_le, read_u32_le, u16_le_bytes, u16_of_le_bytes,
    u32_le_bytes, u32_of_le_bytes,
};

verus! {

broadcast use vstd::array::group_array_axioms;

/// The configuration-time fee parameters. Field order and widths match the
/// 20-byte account layout exactly: base_factor(2), filter_period(2),
/// decay_period(2), reduction_factor(2), variable_fee_control(4),
/// max_volatility_accumulator(4), protocol_share(2), reserved(2). Equality
/// is structural, reserved bytes included.
#[derive(Clone, Copy, Debug, PartialEq)]
pub struct StaticFeeParameters {
    pub base_factor: u16,
    pub filter_period: u16,
    pub decay_period: u16,
    pub reduction_factor: u16,
    pub variable_fee_control: u32,
    pub max_volatility_accumulator: u32,
    pub protocol_share: u16,
    pub _space: [u8; 2],
}

impl StaticFeeParameters {
    /// The record's fixed encoded width in bytes; a constant of the wire
    /// contract, never computed from field contents.
    pub const LEN: usize = 20;

    /// The exact 20-byte encoding of the record.
    pub open spec fn spec_bytes(self) -> Seq<u8> {
        u16_le_bytes(self.base_factor) + u16_le_bytes(self.filter_period) + u16_le_bytes(
            self.decay_period,
        ) + u16_le_bytes(self.reduction_factor) + u32_le_bytes(self.variable_fee_control)
            + u32_le_bytes(self.max_volatility_accumulator) + u16_le_bytes(self.protocol_share)
            + self._space@
    }

    /// The record read from the first 20 bytes of `s`, each field at its
    /// fixed offset, reserved bytes taken verbatim.
    pub open spec fn spec_of_bytes(s: Seq<u8>) -> StaticFeeParameters
        recommends
            s.len() >= 20,
    {
        StaticFeeParameters {
            base_factor: u16_of_le_bytes(s.subrange(0, 2)),
            filter_period: u16_of_le_bytes(s.subrange(2, 4)),
            decay_period: u16_of_le_bytes(s.subrange(4, 6)),
            reduction_factor: u16_of_le_bytes(s.subrange(6, 8)),
            variable_fee_control: u32_of_le_bytes(s.subrange(8, 12)),
            max_volatility_accumulator: u32_of_le_bytes(s.subrange(12, 16)),
            protocol_share: u16_of_le_bytes(s.subrange(16, 18)),
            _space: [s[18], s[19]],
        }
    }

    /// The record's 20-byte encoding, as a fresh buffer.
    pub fn to_bytes(&self) -> (out: Vec<u8>)
        ensures
            out@ == self.spec_bytes(),
            out@.len() == 20,
    {
        let mut out: Vec<u8> = Vec::new();
        push_u16_le(&mut out, self.base_factor);
        push_u16_le(&mut out, self.filter_period);
        push_u16_le(&mut out, self.decay_period);
        push_u16_le(&mut out, self.reduction_factor);
        push_u32_le(&mut out, self.variable_fee_control);
        push_u32_le(&mut out, self.max_volatility_accumulator);
        push_u16_le(&mut out, self.protocol_share);
        out.push(self._space[0]);
        out.push(self._space[1]);
        proof {
            assert(out@ =~= self.spec_bytes());
        }
        out
    }

    /// Writes the record's 20-byte encoding over the start of `output`,
    /// leaving every byte past offset 19 unchanged. Supplying a buffer
    /// shorter than 20 bytes is a contract violation, not a runtime error.
    pub fn pack_into_slice(&self, output: &mut Vec<u8>)
        requires
            old(output)@.len() >= 20,
        ensures
            final(output)@.len() == old(output)@.len(),
            final(output)@ == self.spec_bytes() + old(output)@.skip(20),
    {
        let enc = self.to_bytes();
        let ghost orig = output@;
        let mut i: usize = 0;
        while i < Self::LEN
            invariant
                i <= 20,
                enc@ == self.spec_bytes(),
                enc@.len() == 20,
                output@.len() == orig.len(),
                orig.len() >= 20,
                forall|j: int| 0 <= j < i ==> output@[j] == enc@[j],
                forall|j: int| i <= j < orig.len() ==> output@[j] == orig[j],
            decreases 20 - i,
        {
            let b = enc[i];
            output[i] = b;
            i = i + 1;
        }
        proof {
            assert(output@ =~= self.spec_bytes() + orig.skip(20));
        }
    }

    /// Reads a record from the first 20 bytes of `input`; fails with
    /// `BufferTooShort` if and only if fewer than 20 bytes are available.
    pub fn unpack_from_slice(input: &[u8]) -> (r: Result<StaticFeeParameters, DecodeError>)
        ensures
            input@.len() >= 20 ==> r == Ok::<StaticFeeParameters, DecodeError>(
                StaticFeeParameters::spec_of_bytes(input@),
            ),
            input@.len() < 20 ==> r == Err::<StaticFeeParameters, DecodeError>(
                DecodeError::BufferTooShort,
            ),
    {
        if input.len() < Self::LEN {
            return Err(DecodeError::BufferTooShort);
        }
        let p = StaticFeeParameters {
            base_factor: read_u16_le(input, 0),
            filter_period: read_u16_le(input, 2),
            decay_period: read_u16_le(input, 4),
            reduction_factor: read_u16_le(input, 6),
            variable_fee_control: read_u32_le(input, 8),
            max_volatility_accumulator: read_u32_le(input, 12),
            protocol_share: read_u16_le(input, 16),
            _space: [input[18], input[19]],
        };
        proof {
            assert(p == StaticFeeParameters::spec_of_bytes(input@));
        }
        Ok(p)
    }
}

/// Fixed-width law: the encoding is exactly 20 bytes whatever the field
/// values.
pub proof fn lemma_static_bytes_len(p: StaticFeeParameters)
    ensures
        p.spec_bytes().len() == 20,
{
}

/// Round-trip law: decoding a record's encoding yields the record again,
/// field by field, reserved bytes included.
pub proof fn lemma_static_round_trip(p: StaticFeeParameters)
    ensures
        StaticFeeParameters::spec_of_bytes(p.spec_bytes()) == p,
{
    let s = p.spec_bytes();
    lemma_u16_le_round_trip(p.base_factor);
    lemma_u16_le_round_trip(p.filter_period);
    lemma_u16_le_round_trip(p.decay_period);
    lemma_u16_le_round_trip(p.reduction_factor);
    lemma_u32_le_round_trip(p.variable_fee_control);
    lemma_u32_le_round_trip(p.max_volatility_accumulator);
    lemma_u16_le_round_trip(p.protocol_share);
    assert(s.subrange(0, 2) =~= u16_le_bytes(p.base_factor));
    assert(s.subrange(2, 4) =~= u16_le_bytes(p.filter_period));
    assert(s.subrange(4, 6) =~= u16_le_bytes(p.decay_period));
    assert(s.subrange(6, 8) =~= u16_le_bytes(p.reduction_factor));
    assert(s.subrange(8, 12) =~= u32_le_bytes(p.variable_fee_control));
    assert(s.subrange(12, 16) =~= u32_le_bytes(p.max_volatility_accumulator));
    assert(s.subrange(16, 18) =~= u16_le_bytes(p.protocol_share));
    assert(s[18] == p._space@[0] && s[19] == p._space@[1]);
    assert(StaticFeeParameters::spec_of_bytes(s)._space =~= p._space);
}

/// Exact-inverse law in the other direction: re-encoding a decoded 20-byte
/// buffer reproduces it byte for byte, reserved region included.
pub proof fn lemma_static_bytes_of_decoded(s: Seq<u8>)
    requires
        s.len() == 20,
    ensures
        StaticFeeParameters::spec_of_bytes(s).spec_bytes() == s,
{
    lemma_u16_le_bytes_of(s.subrange(0, 2));
    lemma_u16_le_bytes_of(s.subrange(2, 4));
    lemma_u16_le_bytes_of(s.subrange(4, 6));
    lemma_u16_le_bytes_of(s.subrange(6, 8));
    lemma_u32_le_bytes_of(s.subrange(8, 12));
    lemma_u32_le_bytes_of(s.subrange(12, 16));
    lemma_u16_le_bytes_of(s.subrange(16, 18));
    assert(StaticFeeParameters::spec_of_bytes(s).spec_bytes() =~= s);
}

/// Offset-stability law: two records that differ only in `protocol_share`
/// encode to buffers that agree on every byte outside offsets 16 and 17.
pub proof fn lemma_protocol_share_offset_stability(a: StaticFeeParameters, b: StaticFeeParameters)
    requires
        a.base_factor == b.base_factor,
        a.filter_period == b.filter_period,
        a.decay_period == b.decay_period,
        a.reduction_factor == b.reduction_factor,
        a.variable_fee_control == b.variable_fee_control,
        a.max_volatility_accumulator == b.max_volatility_accumulator,
        a._space == b._space,
    ensures
        forall|i: int|
            0 <= i < 20 && !(16 <= i < 18) ==> a.spec_bytes()[i] == b.spec_bytes()[i],
{
}

} // verus!
