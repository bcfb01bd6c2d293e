//! The [`Outpoint`] struct, which points at one output of a previous
//! transaction.

use vstd::prelude::*;

use crate::bitcoin::byteorder::{
    push_le_bytes, read_bytes_32, spec_le_bytes, spec_le_int, u64_from_le,
};
use crate::bitcoin::Encodable;

verus! {

/// Represents an outpoint.
#[derive(Clone, Debug, PartialEq, Eq)]
pub struct Outpoint {
    /// The identifier of the transaction being referenced.
    pub tx_id: [u8; 32],
    /// The index of the output being referenced.
    pub vout: u32,
}

/// The mathematical model of an outpoint.
pub struct OutpointV {
    /// The referenced transaction identifier.
    pub tx_id: Seq<u8>,
    /// The referenced output index.
    pub vout: u32,
}

impl View for Outpoint {
    type V = OutpointV;

    open spec fn view(&self) -> OutpointV {
        OutpointV { tx_id: self.tx_id@, vout: self.vout }
    }
}

/// Error associated with [`Outpoint`] deserialization.
#[derive(Clone, Copy, Debug, PartialEq, Eq, Structural)]
pub struct DecodeError;

/// Decoding an outpoint from the front of `s`: a 32-byte transaction
/// identifier followed by a little-endian output index.
pub open spec fn spec_decode_outpoint(s: Seq<u8>) -> Result<(OutpointV, int), DecodeError> {
    if s.len() < 36 {
        Err(DecodeError)
    } else {
        Ok(
            (
                OutpointV {
                    tx_id: s.subrange(0, 32),
                    vout: spec_le_int(s.subrange(32, 36)) as u32,
                },
                36,
            ),
        )
    }
}

impl Outpoint {
    /// Parse an outpoint from `buf` starting at `pos`, returning it with
    /// the position just past it.
    pub fn decode_from(buf: &[u8], pos: usize) -> (r: Result<(Outpoint, usize), DecodeError>)
        requires
            pos <= buf@.len(),
        ensures
            match r {
                Ok((o, newpos)) => {
                    &&& pos < newpos <= buf@.len()
                    &&& spec_decode_outpoint(buf@.skip(pos as int)) == Ok::<_, DecodeError>(
                        (o@, newpos - pos as int),
                    )
                },
                Err(e) => spec_decode_outpoint(buf@.skip(pos as int)) == Err::<
                    (OutpointV, int),
                    _,
                >(e),
            },
    {
        let ghost s = buf@.skip(pos as int);
        if buf.len() - pos < 36 {
            return Err(DecodeError);
        }
        let tx_id = read_bytes_32(buf, pos);
        let vout_raw = u64_from_le(&buf[pos + 32..pos + 36]);
        let vout = vout_raw as u32;
        proof {
            assert(buf@.subrange(pos as int, pos + 32) =~= s.subrange(0, 32));
            assert(buf@.subrange(pos + 32, pos + 36) =~= s.subrange(32, 36));
            crate::bitcoin::byteorder::lemma_le_int_bound(s.subrange(32, 36));
            reveal_with_fuel(crate::bitcoin::byteorder::pow256, 5);
        }
        Ok((Outpoint { tx_id, vout }, pos + 36))
    }

    /// Parse an outpoint from the front of `buf`.
    pub fn decode(buf: &[u8]) -> (r: Result<Outpoint, DecodeError>)
        ensures
            match r {
                Ok(o) => spec_decode_outpoint(buf@) matches Ok(p) && p.0 == o@,
                Err(e) => spec_decode_outpoint(buf@) == Err::<(OutpointV, int), _>(e),
            },
    {
        proof {
            assert(buf@.skip(0) =~= buf@);
        }
        match Self::decode_from(buf, 0) {
            Ok((o, newpos)) => {
                proof {
                    assert(spec_decode_outpoint(buf@) == Ok::<_, DecodeError>((o@, newpos as int)));
                }
                Ok(o)
            },
            Err(e) => Err(e),
        }
    }
}

impl Encodable for Outpoint {
    open spec fn encoding(&self) -> Seq<u8> {
        self.tx_id@ + spec_le_bytes(self.vout as u64, 4)
    }

    fn encoded_len(&self) -> (n: usize)
        ensures
            n == self.encoding().len(),
    {
        36
    }

    fn encode_raw(&self, buf: &mut Vec<u8>)
        ensures
            final(buf)@ == old(buf)@ + self.encoding(),
    {
        let ghost start = buf@;
        for i in 0..32usize
            invariant
                buf@ == start + self.tx_id@.subrange(0, i as int),
        {
            buf.push(self.tx_id[i]);
            proof {
                assert(self.tx_id@.subrange(0, i + 1) =~= self.tx_id@.subrange(0, i as int).push(
                    self.tx_id@[i as int],
                ));
            }
        }
        proof {
            assert(self.tx_id@.subrange(0, 32) =~= self.tx_id@);
        }
        push_le_bytes(buf, self.vout as u64, 4);
        proof {
            assert(buf@ =~= start + self.encoding());
        }
    }
}

} // verus!
