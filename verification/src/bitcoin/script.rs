//! Transaction scripts and the output patterns the stamp verifier cares
//! about: pay-to-pubkey-hash and data-carrying `OP_RETURN` outputs.

use vstd::prelude::*;

use crate::bitcoin::opcodes;
use crate::bitcoin::var_int::VarInt;
use crate::bitcoin::Encodable;

verus! {

/// Represents a script.
#[derive(Clone, Debug, PartialEq, Eq)]
pub struct Script {
    bytes: Vec<u8>,
}

impl View for Script {
    type V = Seq<u8>;

    closed spec fn view(&self) -> Seq<u8> {
        self.bytes@
    }
}

/// Whether `s` is an `OP_RETURN` script: non-empty and opening with the
/// `OP_RETURN` opcode.
pub open spec fn spec_is_op_return(s: Seq<u8>) -> bool {
    s.len() > 0 && s[0] == opcodes::OP_RETURN
}

/// Whether `s` is a pay-to-pubkey-hash script:
/// `OP_DUP OP_HASH160 <20-byte hash> OP_EQUALVERIFY OP_CHECKSIG`.
pub open spec fn spec_is_p2pkh(s: Seq<u8>) -> bool {
    &&& s.len() == 25
    &&& s[0] == opcodes::OP_DUP
    &&& s[1] == opcodes::OP_HASH160
    &&& s[2] == opcodes::OP_PUSHBYTES_20
    &&& s[23] == opcodes::OP_EQUALVERIFY
    &&& s[24] == opcodes::OP_CHECKSIG
}

/// The pubkey hash embedded in a pay-to-pubkey-hash script.
pub open spec fn spec_p2pkh_hash(s: Seq<u8>) -> Seq<u8>
    recommends
        spec_is_p2pkh(s),
{
    s.subrange(3, 23)
}

impl From<Vec<u8>> for Script {
    fn from(raw: Vec<u8>) -> (r: Script) {
        Script { bytes: raw }
    }
}

impl vstd::std_specs::convert::FromSpecImpl<Vec<u8>> for Script {
    closed spec fn obeys_from_spec() -> bool {
        true
    }

    closed spec fn from_spec(raw: Vec<u8>) -> Script {
        Script { bytes: raw }
    }
}

impl Script {
    /// Wrap raw bytes as a script.
    pub fn new(raw: Vec<u8>) -> (r: Script)
        ensures
            r@ == raw@,
    {
        Script { bytes: raw }
    }

    /// Length of the script.
    pub fn len(&self) -> (n: usize)
        ensures
            n == self@.len(),
    {
        self.bytes.len()
    }

    /// Length of the script as `VarInt`.
    pub fn len_varint(&self) -> (v: VarInt)
        ensures
            v == VarInt(self@.len() as u64),
    {
        VarInt(self.bytes.len() as u64)
    }

    /// Convert the script into the underlying bytes.
    pub fn into_bytes(self) -> (r: Vec<u8>)
        ensures
            r@ == self@,
    {
        self.bytes
    }

    /// Converts the script into a byte slice.
    pub fn as_bytes(&self) -> (r: &[u8])
        ensures
            r@ == self@,
    {
        self.bytes.as_slice()
    }

    /// Checks whether the script fits the OP_RETURN pattern.
    pub fn is_op_return(&self) -> (r: bool)
        ensures
            r == spec_is_op_return(self@),
    {
        self.bytes.len() > 0 && self.bytes[0] == opcodes::OP_RETURN
    }

    /// Checks whether the script fits the P2PKH pattern.
    pub fn is_p2pkh(&self) -> (r: bool)
        ensures
            r == spec_is_p2pkh(self@),
    {
        self.bytes.len() == 25 && self.bytes[0] == opcodes::OP_DUP && self.bytes[1]
            == opcodes::OP_HASH160 && self.bytes[2] == opcodes::OP_PUSHBYTES_20 && self.bytes[23]
            == opcodes::OP_EQUALVERIFY && self.bytes[24] == opcodes::OP_CHECKSIG
    }
}

impl Encodable for Script {
    open spec fn encoding(&self) -> Seq<u8> {
        self@
    }

    fn encoded_len(&self) -> (n: usize)
        ensures
            n == self.encoding().len(),
    {
        self.bytes.len()
    }

    fn encode_raw(&self, buf: &mut Vec<u8>)
        ensures
            final(buf)@ == old(buf)@ + self.encoding(),
    {
        let n: usize = self.bytes.len();
        for i in 0..n
            invariant
                n == self.bytes@.len(),
                buf@ == old(buf)@ + self.bytes@.subrange(0, i as int),
        {
            buf.push(self.bytes[i]);
            proof {
                assert(self.bytes@.subrange(0, i + 1) =~= self.bytes@.subrange(0, i as int).push(
                    self.bytes@[i as int],
                ));
            }
        }
        proof {
            assert(self.bytes@.subrange(0, n as int) =~= self.bytes@);
        }
    }
}

} // verus!
