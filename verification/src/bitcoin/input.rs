//! The [`Input`] struct, which spends an earlier output.

use vstd::prelude::*;

use crate::bitcoin::byteorder::{push_u32_be, spec_u32_be, spec_u32_from_be, u32_from_be};
use crate::bitcoin::outpoint::{
    spec_decode_outpoint, DecodeError as OutpointDecodeError, Outpoint, OutpointV,
};
use crate::bitcoin::script::Script;
use crate::bitcoin::var_int::{
    spec_decode_var_int, spec_encode_var_int, DecodeError as VarIntDecodeError, VarInt,
};
use crate::bitcoin::Encodable;

verus! {

/// The error type associated with `Input` deserialization.
#[derive(Clone, Copy, Debug, PartialEq, Eq, Structural)]
pub enum DecodeError {
    /// Unable to decode the outpoint.
    Outpoint(OutpointDecodeError),
    /// Unable to decode the script length variable-length integer.
    ScriptLen(VarIntDecodeError),
    /// Script is too short.
    ScriptTooShort,
    /// Sequence number is too short.
    SequenceTooShort,
}

/// Represents an input.
#[derive(Clone, Debug, PartialEq, Eq)]
pub struct Input {
    /// The output this input spends.
    pub outpoint: Outpoint,
    /// The script unlocking the spent output.
    pub script: Script,
    /// The sequence number.
    pub sequence: u32,
}

/// The mathematical model of an input.
pub struct InputV {
    /// The spent outpoint.
    pub outpoint: OutpointV,
    /// The unlocking script's bytes.
    pub script: Seq<u8>,
    /// The sequence number.
    pub sequence: u32,
}

impl View for Input {
    type V = InputV;

    open spec fn view(&self) -> InputV {
        InputV { outpoint: self.outpoint@, script: self.script@, sequence: self.sequence }
    }
}

/// Decoding an input from the front of `s`: an outpoint, a length-prefixed
/// script, and a four-byte sequence number.
pub open spec fn spec_decode_input(s: Seq<u8>) -> Result<(InputV, int), DecodeError> {
    match spec_decode_outpoint(s) {
        Err(e) => Err(DecodeError::Outpoint(e)),
        Ok((outpoint, u0)) => match spec_decode_var_int(s.skip(u0)) {
            Err(e) => Err(DecodeError::ScriptLen(e)),
            Ok((script_len, u1)) => if s.len() - u0 - u1 < script_len {
                Err(DecodeError::ScriptTooShort)
            } else if s.len() - u0 - u1 - script_len < 4 {
                Err(DecodeError::SequenceTooShort)
            } else {
                Ok(
                    (
                        InputV {
                            outpoint,
                            script: s.subrange(u0 + u1, u0 + u1 + script_len),
                            sequence: spec_u32_from_be(
                                s.subrange(u0 + u1 + script_len, u0 + u1 + script_len + 4),
                            ),
                        },
                        u0 + u1 + script_len + 4,
                    ),
                )
            },
        },
    }
}

impl Input {
    /// Parse an input from `buf` starting at `pos`, returning it with the
    /// position just past it.
    pub fn decode_from(buf: &[u8], pos: usize) -> (r: Result<(Input, usize), DecodeError>)
        requires
            pos <= buf@.len(),
        ensures
            match r {
                Ok((i, newpos)) => {
                    &&& pos < newpos <= buf@.len()
                    &&& spec_decode_input(buf@.skip(pos as int)) == Ok::<_, DecodeError>(
                        (i@, newpos - pos as int),
                    )
                },
                Err(e) => spec_decode_input(buf@.skip(pos as int)) == Err::<(InputV, int), _>(e),
            },
    {
        let ghost s = buf@.skip(pos as int);
        let (outpoint, p0) = match Outpoint::decode_from(buf, pos) {
            Ok(ok) => ok,
            Err(e) => {
                return Err(DecodeError::Outpoint(e));
            },
        };
        proof {
            assert(buf@.skip(p0 as int) =~= s.skip(p0 - pos));
        }
        let (script_len_varint, p1) = match VarInt::decode_from(buf, p0) {
            Ok(ok) => ok,
            Err(e) => {
                return Err(DecodeError::ScriptLen(e));
            },
        };
        let script_len = script_len_varint.0;
        if ((buf.len() - p1) as u64) < script_len {
            return Err(DecodeError::ScriptTooShort);
        }
        let script_end = p1 + (script_len as usize);
        if buf.len() - script_end < 4 {
            return Err(DecodeError::SequenceTooShort);
        }
        let raw_script = vstd::slice::slice_to_vec(&buf[p1..script_end]);
        let script = Script::new(raw_script);
        let sequence = u32_from_be(&buf[script_end..script_end + 4]);
        proof {
            assert(buf@.subrange(p1 as int, script_end as int) =~= s.subrange(
                p0 - pos + (p1 - p0),
                p0 - pos + (p1 - p0) + script_len,
            ));
            assert(buf@.subrange(script_end as int, script_end + 4) =~= s.subrange(
                p0 - pos + (p1 - p0) + script_len,
                p0 - pos + (p1 - p0) + script_len + 4,
            ));
        }
        Ok((Input { outpoint, script, sequence }, script_end + 4))
    }

    /// Parse an input from the front of `buf`.
    pub fn decode(buf: &[u8]) -> (r: Result<Input, DecodeError>)
        ensures
            match r {
                Ok(i) => spec_decode_input(buf@) matches Ok(p) && p.0 == i@,
                Err(e) => spec_decode_input(buf@) == Err::<(InputV, int), _>(e),
            },
    {
        proof {
            assert(buf@.skip(0) =~= buf@);
        }
        match Self::decode_from(buf, 0) {
            Ok((i, newpos)) => {
                proof {
                    assert(spec_decode_input(buf@) == Ok::<_, DecodeError>((i@, newpos as int)));
                }
                Ok(i)
            },
            Err(e) => Err(e),
        }
    }
}

impl Encodable for Input {
    open spec fn encoding(&self) -> Seq<u8> {
        self.outpoint.encoding() + spec_encode_var_int(self@.script.len() as u64) + self@.script
            + spec_u32_be(self.sequence)
    }

    fn encoded_len(&self) -> (n: usize)
        ensures
            n == self.encoding().len(),
    {
        self.outpoint.encoded_len() + self.script.len_varint().encoded_len()
            + self.script.encoded_len() + 4
    }

    fn encode_raw(&self, buf: &mut Vec<u8>)
        ensures
            final(buf)@ == old(buf)@ + self.encoding(),
    {
        let ghost start = buf@;
        self.outpoint.encode_raw(buf);
        self.script.len_varint().encode_raw(buf);
        self.script.encode_raw(buf);
        push_u32_be(buf, self.sequence);
        proof {
            assert(buf@ =~= start + self.encoding());
        }
    }
}

} // verus!
