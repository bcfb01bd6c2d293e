//! Bitcoin wire structures: variable-length integers, scripts, transaction
//! inputs and outputs, whole transactions, and hierarchical deterministic
//! key derivation.

use vstd::prelude::*;

pub mod bip32;
pub mod byteorder;
pub mod input;
pub mod opcodes;
pub mod output;
pub mod outpoint;
pub mod script;
pub mod transaction;
pub mod var_int;

verus! {

/// Insufficient capacity in buffer when encoding a Bitcoin structure.
#[derive(Clone, Debug, PartialEq, Eq, Structural)]
pub struct InsufficientCapacity;

/// Common interface for the serialization of Bitcoin structures.
///
/// A structure's `encoding` is the byte sequence it serializes to;
/// `encode_raw` appends it to a buffer, and `encode` first checks that the
/// buffer's declared capacity can take it.
pub trait Encodable {
    /// The byte sequence this structure serializes to.
    spec fn encoding(&self) -> Seq<u8>;

    /// Returns the encoded length of the message.
    fn encoded_len(&self) -> (n: usize)
        requires
            self.encoding().len() <= usize::MAX,
        ensures
            n == self.encoding().len(),
    ;

    /// Encodes the structure, appending it to the buffer.
    fn encode_raw(&self, buf: &mut Vec<u8>)
        ensures
            final(buf)@ == old(buf)@ + self.encoding(),
    ;

    /// Encodes the structure, appending it to a buffer of the given
    /// capacity; fails without writing when the encoding does not fit.
    fn encode(&self, buf: &mut Vec<u8>, capacity: usize) -> (r: Result<(), InsufficientCapacity>)
        requires
            self.encoding().len() <= usize::MAX,
        ensures
            match r {
                Ok(()) => {
                    &&& old(buf)@.len() + self.encoding().len() <= capacity
                    &&& final(buf)@ == old(buf)@ + self.encoding()
                },
                Err(InsufficientCapacity) => {
                    &&& old(buf)@.len() + self.encoding().len() > capacity
                    &&& final(buf)@ == old(buf)@
                },
            },
    {
        let n = self.encoded_len();
        if buf.len() > capacity || capacity - buf.len() < n {
            Err(InsufficientCapacity)
        } else {
            self.encode_raw(buf);
            Ok(())
        }
    }
}

/// The concatenated encodings of a sequence of structures.
pub open spec fn seq_encoding<T: Encodable>(s: Seq<T>) -> Seq<u8>
    decreases s.len(),
{
    if s.len() == 0 {
        Seq::empty()
    } else {
        s[0].encoding() + seq_encoding(s.drop_first())
    }
}

/// Appending one structure appends its encoding.
pub proof fn lemma_seq_encoding_push<T: Encodable>(s: Seq<T>, x: T)
    ensures
        seq_encoding(s.push(x)) == seq_encoding(s) + x.encoding(),
    decreases s.len(),
{
    if s.len() == 0 {
        assert(s.push(x)[0] == x);
        assert(s.push(x).drop_first() =~= Seq::<T>::empty());
        assert(seq_encoding(s.push(x)) == x.encoding() + seq_encoding(Seq::<T>::empty()));
        assert(seq_encoding(Seq::<T>::empty()) == Seq::<u8>::empty());
        assert(seq_encoding(s) == Seq::<u8>::empty());
        assert(x.encoding() + Seq::<u8>::empty() =~= x.encoding());
        assert(Seq::<u8>::empty() + x.encoding() =~= x.encoding());
    } else {
        lemma_seq_encoding_push(s.drop_first(), x);
        assert(s.push(x).drop_first() =~= s.drop_first().push(x));
        assert(s.push(x)[0] == s[0]);
        assert(seq_encoding(s.push(x)) == s[0].encoding() + (seq_encoding(s.drop_first())
            + x.encoding()));
        assert(seq_encoding(s.push(x)) =~= (s[0].encoding() + seq_encoding(s.drop_first()))
            + x.encoding());
        assert(seq_encoding(s) == s[0].encoding() + seq_encoding(s.drop_first()));
    }
}

/// Enumeration of all standard Bitcoin networks.
#[derive(Clone, Copy, Debug, PartialEq, Eq, Structural)]
pub enum Network {
    /// Main network
    Mainnet,
    /// Test network
    Testnet,
    /// Regression test network
    Regtest,
}

/// Network was unexpected.
#[derive(Clone, Debug, PartialEq, Eq, Structural)]
pub struct UnexpectedNetwork;

impl Network {
    /// Parse a network from its lower-case name.
    pub fn try_from(network: String) -> (r: Result<Self, UnexpectedNetwork>)
        ensures
            match r {
                Ok(Network::Mainnet) => network@ == "mainnet"@,
                Ok(Network::Testnet) => network@ == "testnet"@,
                Ok(Network::Regtest) => network@ == "regtest"@,
                Err(UnexpectedNetwork) => {
                    &&& network@ != "mainnet"@
                    &&& network@ != "testnet"@
                    &&& network@ != "regtest"@
                },
            },
    {
        if network == "mainnet".to_owned() {
            Ok(Self::Mainnet)
        } else if network == "testnet".to_owned() {
            Ok(Self::Testnet)
        } else if network == "regtest".to_owned() {
            Ok(Self::Regtest)
        } else {
            Err(UnexpectedNetwork)
        }
    }

    /// The network's lower-case name.
    pub fn to_string(&self) -> (r: String)
        ensures
            match self {
                Network::Mainnet => r@ == "mainnet"@,
                Network::Testnet => r@ == "testnet"@,
                Network::Regtest => r@ == "regtest"@,
            },
    {
        match self {
            Self::Mainnet => "mainnet".to_owned(),
            Self::Testnet => "testnet".to_owned(),
            Self::Regtest => "regtest".to_owned(),
        }
    }
}

} // verus!
