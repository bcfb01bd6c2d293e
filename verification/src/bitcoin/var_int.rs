//! Variable-length integers, as used to prefix the counts and scripts of a
//! transaction.

use vstd::prelude::*;

use crate::bitcoin::byteorder::{
    pow256, push_le_bytes, spec_le_bytes, spec_le_int, u64_from_le,
};
use crate::bitcoin::Encodable;

verus! {

/// The error type associated with `VarInt` deserialization.
#[derive(Clone, Copy, Debug, PartialEq, Eq, Structural)]
pub enum DecodeError {
    /// The buffer ends before the integer does.
    TooShort,
    /// The integer is not encoded in its shortest form.
    NonMinimal,
}

/// Represents a variable-length integer.
#[derive(Debug, PartialEq, Eq, Structural)]
pub struct VarInt(pub u64);

/// The encoding of a variable-length integer: values up to `0xfc` stand in a
/// single byte; wider values carry a one-byte marker followed by their
/// little-endian bytes.
pub open spec fn spec_encode_var_int(v: u64) -> Seq<u8> {
    if v <= 0xfc {
        seq![v as u8]
    } else if v <= 0xffff {
        seq![0xfdu8] + spec_le_bytes(v, 2)
    } else if v <= 0xffffffff {
        seq![0xfeu8] + spec_le_bytes(v, 4)
    } else {
        seq![0xffu8] + spec_le_bytes(v, 8)
    }
}

/// Decoding a variable-length integer from the front of `s`: the value and
/// the number of bytes consumed, or the first failure met.
pub open spec fn spec_decode_var_int(s: Seq<u8>) -> Result<(u64, int), DecodeError> {
    if s.len() == 0 {
        Err(DecodeError::TooShort)
    } else if s[0] == 0xff {
        if s.len() < 9 {
            Err(DecodeError::TooShort)
        } else {
            let x = spec_le_int(s.subrange(1, 9));
            if x < 0x100000000 {
                Err(DecodeError::NonMinimal)
            } else {
                Ok((x as u64, 9))
            }
        }
    } else if s[0] == 0xfe {
        if s.len() < 5 {
            Err(DecodeError::TooShort)
        } else {
            let x = spec_le_int(s.subrange(1, 5));
            if x < 0x10000 {
                Err(DecodeError::NonMinimal)
            } else {
                Ok((x as u64, 5))
            }
        }
    } else if s[0] == 0xfd {
        if s.len() < 3 {
            Err(DecodeError::TooShort)
        } else {
            let x = spec_le_int(s.subrange(1, 3));
            if x < 0xfd {
                Err(DecodeError::NonMinimal)
            } else {
                Ok((x as u64, 3))
            }
        }
    } else {
        Ok((s[0] as u64, 1))
    }
}

impl VarInt {
    /// Parse a variable-length integer from `buf` starting at `pos`,
    /// returning it with the position just past it.
    pub fn decode_from(buf: &[u8], pos: usize) -> (r: Result<(VarInt, usize), DecodeError>)
        requires
            pos <= buf@.len(),
        ensures
            match r {
                Ok((v, newpos)) => {
                    &&& pos < newpos <= buf@.len()
                    &&& spec_decode_var_int(buf@.skip(pos as int)) == Ok::<_, DecodeError>(
                        (v.0, newpos - pos as int),
                    )
                },
                Err(e) => spec_decode_var_int(buf@.skip(pos as int)) == Err::<(u64, int), _>(e),
            },
    {
        let ghost s = buf@.skip(pos as int);
        if pos >= buf.len() {
            return Err(DecodeError::TooShort);
        }
        let first_byte = buf[pos];
        proof {
            assert(s[0] == buf@[pos as int]);
        }
        if first_byte == 0xff {
            if buf.len() - (pos + 1) < 8 {
                return Err(DecodeError::TooShort);
            }
            let x = u64_from_le(&buf[pos + 1..pos + 9]);
            proof {
                assert(buf@.subrange(pos + 1, pos + 9) =~= s.subrange(1, 9));
            }
            if x < 0x100000000 {
                Err(DecodeError::NonMinimal)
            } else {
                Ok((VarInt(x), pos + 9))
            }
        } else if first_byte == 0xfe {
            if buf.len() - (pos + 1) < 4 {
                return Err(DecodeError::TooShort);
            }
            let x = u64_from_le(&buf[pos + 1..pos + 5]);
            proof {
                assert(buf@.subrange(pos + 1, pos + 5) =~= s.subrange(1, 5));
            }
            if x < 0x10000 {
                Err(DecodeError::NonMinimal)
            } else {
                Ok((VarInt(x), pos + 5))
            }
        } else if first_byte == 0xfd {
            if buf.len() - (pos + 1) < 2 {
                return Err(DecodeError::TooShort);
            }
            let x = u64_from_le(&buf[pos + 1..pos + 3]);
            proof {
                assert(buf@.subrange(pos + 1, pos + 3) =~= s.subrange(1, 3));
            }
            if x < 0xfd {
                Err(DecodeError::NonMinimal)
            } else {
                Ok((VarInt(x), pos + 3))
            }
        } else {
            Ok((VarInt(first_byte as u64), pos + 1))
        }
    }

    /// Parse a variable-length integer from the front of `buf`.
    pub fn decode(buf: &[u8]) -> (r: Result<VarInt, DecodeError>)
        ensures
            match r {
                Ok(v) => spec_decode_var_int(buf@) matches Ok(p) && p.0 == v.0,
                Err(e) => spec_decode_var_int(buf@) == Err::<(u64, int), _>(e),
            },
    {
        proof {
            assert(buf@.skip(0) =~= buf@);
        }
        match Self::decode_from(buf, 0) {
            Ok((v, newpos)) => {
                proof {
                    assert(spec_decode_var_int(buf@) == Ok::<_, DecodeError>(
                        (v.0, newpos as int),
                    ));
                }
                Ok(v)
            },
            Err(e) => Err(e),
        }
    }
}

impl Encodable for VarInt {
    open spec fn encoding(&self) -> Seq<u8> {
        spec_encode_var_int(self.0)
    }

    fn encoded_len(&self) -> (n: usize)
        ensures
            n == self.encoding().len(),
    {
        if self.0 <= 0xfc {
            1
        } else if self.0 <= 0xffff {
            3
        } else if self.0 <= 0xffffffff {
            5
        } else {
            9
        }
    }

    fn encode_raw(&self, buf: &mut Vec<u8>)
        ensures
            final(buf)@ == old(buf)@ + self.encoding(),
    {
        let ghost start = buf@;
        if self.0 <= 0xfc {
            buf.push(self.0 as u8);
            proof {
                assert(buf@ =~= start + spec_encode_var_int(self.0));
            }
        } else if self.0 <= 0xffff {
            buf.push(0xfd);
            push_le_bytes(buf, self.0, 2);
            proof {
                assert(buf@ =~= start + spec_encode_var_int(self.0));
            }
        } else if self.0 <= 0xffffffff {
            buf.push(0xfe);
            push_le_bytes(buf, self.0, 4);
            proof {
                assert(buf@ =~= start + spec_encode_var_int(self.0));
            }
        } else {
            buf.push(0xff);
            push_le_bytes(buf, self.0, 8);
            proof {
                assert(buf@ =~= start + spec_encode_var_int(self.0));
            }
        }
    }
}

} // verus!
