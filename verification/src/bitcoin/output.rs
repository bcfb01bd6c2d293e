//! The [`Output`] struct, which carries a value and the script that locks
//! it.

use vstd::prelude::*;

use crate::bitcoin::byteorder::{push_u64_be, spec_u64_be, spec_u64_from_be, u64_from_be};
use crate::bitcoin::script::Script;
use crate::bitcoin::var_int::{
    spec_decode_var_int, spec_encode_var_int, DecodeError as VarIntDecodeError, VarInt,
};
use crate::bitcoin::Encodable;

verus! {

/// The error type associated with `Output` deserialization.
#[derive(Clone, Copy, Debug, PartialEq, Eq, Structural)]
pub enum DecodeError {
    /// Value is too short.
    ValueTooShort,
    /// Unable to decode the script length variable-length integer.
    ScriptLen(VarIntDecodeError),
    /// Script is too short.
    ScriptTooShort,
}

/// Represents an output.
#[derive(Clone, Debug, PartialEq, Eq)]
pub struct Output {
    /// The value paid by this output, in base units.
    pub value: u64,
    /// The script locking this output.
    pub script: Script,
}

/// The mathematical model of an output.
pub struct OutputV {
    /// The value paid.
    pub value: u64,
    /// The locking script's bytes.
    pub script: Seq<u8>,
}

impl View for Output {
    type V = OutputV;

    open spec fn view(&self) -> OutputV {
        OutputV { value: self.value, script: self.script@ }
    }
}

/// Decoding an output from the front of `s`: an eight-byte value, then a
/// length-prefixed script.
pub open spec fn spec_decode_output(s: Seq<u8>) -> Result<(OutputV, int), DecodeError> {
    if s.len() < 8 {
        Err(DecodeError::ValueTooShort)
    } else {
        let value = spec_u64_from_be(s.subrange(0, 8));
        match spec_decode_var_int(s.skip(8)) {
            Err(e) => Err(DecodeError::ScriptLen(e)),
            Ok((script_len, u1)) => if s.len() - 8 - u1 < script_len {
                Err(DecodeError::ScriptTooShort)
            } else {
                Ok(
                    (
                        OutputV {
                            value,
                            script: s.subrange(8 + u1, 8 + u1 + script_len),
                        },
                        8 + u1 + script_len,
                    ),
                )
            },
        }
    }
}

impl Output {
    /// Parse an output from `buf` starting at `pos`, returning it with the
    /// position just past it.
    pub fn decode_from(buf: &[u8], pos: usize) -> (r: Result<(Output, usize), DecodeError>)
        requires
            pos <= buf@.len(),
        ensures
            match r {
                Ok((o, newpos)) => {
                    &&& pos < newpos <= buf@.len()
                    &&& spec_decode_output(buf@.skip(pos as int)) == Ok::<_, DecodeError>(
                        (o@, newpos - pos as int),
                    )
                },
                Err(e) => spec_decode_output(buf@.skip(pos as int)) == Err::<(OutputV, int), _>(e),
            },
    {
        let ghost s = buf@.skip(pos as int);
        if buf.len() - pos < 8 {
            return Err(DecodeError::ValueTooShort);
        }
        let value = u64_from_be(&buf[pos..pos + 8]);
        proof {
            assert(buf@.subrange(pos as int, pos + 8) =~= s.subrange(0, 8));
            assert(buf@.skip(pos + 8) =~= s.skip(8));
        }
        let (script_len_varint, p1) = match VarInt::decode_from(buf, pos + 8) {
            Ok(ok) => ok,
            Err(e) => {
                return Err(DecodeError::ScriptLen(e));
            },
        };
        let script_len = script_len_varint.0;
        if ((buf.len() - p1) as u64) < script_len {
            return Err(DecodeError::ScriptTooShort);
        }
        let script_end = p1 + (script_len as usize);
        let raw_script = vstd::slice::slice_to_vec(&buf[p1..script_end]);
        let script = Script::new(raw_script);
        proof {
            assert(buf@.subrange(p1 as int, script_end as int) =~= s.subrange(
                8 + (p1 - pos - 8),
                8 + (p1 - pos - 8) + script_len,
            ));
        }
        Ok((Output { value, script }, script_end))
    }

    /// Parse an output from the front of `buf`.
    pub fn decode(buf: &[u8]) -> (r: Result<Output, DecodeError>)
        ensures
            match r {
                Ok(o) => spec_decode_output(buf@) matches Ok(p) && p.0 == o@,
                Err(e) => spec_decode_output(buf@) == Err::<(OutputV, int), _>(e),
            },
    {
        proof {
            assert(buf@.skip(0) =~= buf@);
        }
        match Self::decode_from(buf, 0) {
            Ok((o, newpos)) => {
                proof {
                    assert(spec_decode_output(buf@) == Ok::<_, DecodeError>((o@, newpos as int)));
                }
                Ok(o)
            },
            Err(e) => Err(e),
        }
    }
}

impl Encodable for Output {
    open spec fn encoding(&self) -> Seq<u8> {
        spec_u64_be(self.value) + spec_encode_var_int(self@.script.len() as u64) + self@.script
    }

    fn encoded_len(&self) -> (n: usize)
        ensures
            n == self.encoding().len(),
    {
        8 + self.script.len_varint().encoded_len() + self.script.encoded_len()
    }

    fn encode_raw(&self, buf: &mut Vec<u8>)
        ensures
            final(buf)@ == old(buf)@ + self.encoding(),
    {
        let ghost start = buf@;
        push_u64_be(buf, self.value);
        self.script.len_varint().encode_raw(buf);
        self.script.encode_raw(buf);
        proof {
            assert(buf@ =~= start + self.encoding());
        }
    }
}

} // verus!
