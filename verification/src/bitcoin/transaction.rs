//! The [`Transaction`] struct: version, inputs, outputs, and lock time.

use vstd::prelude::*;

use crate::bitcoin::byteorder::{push_u32_be, spec_u32_be, spec_u32_from_be, u32_from_be};
use crate::bitcoin::input::{spec_decode_input, DecodeError as InputDecodeError, Input, InputV};
use crate::bitcoin::output::{
    spec_decode_output, DecodeError as OutputDecodeError, Output, OutputV,
};
use crate::bitcoin::var_int::{
    spec_decode_var_int, spec_encode_var_int, DecodeError as VarIntDecodeError, VarInt,
};
use crate::bitcoin::{lemma_seq_encoding_push, seq_encoding, Encodable};

verus! {

/// Represents a transaction.
#[derive(Clone, Debug, PartialEq, Eq)]
pub struct Transaction {
    /// The version number.
    pub version: u32,
    /// The inputs being spent.
    pub inputs: Vec<Input>,
    /// The outputs being created.
    pub outputs: Vec<Output>,
    /// The lock time.
    pub lock_time: u32,
}

/// The mathematical model of a transaction.
pub struct TransactionV {
    /// The version number.
    pub version: u32,
    /// The inputs being spent.
    pub inputs: Seq<InputV>,
    /// The outputs being created.
    pub outputs: Seq<OutputV>,
    /// The lock time.
    pub lock_time: u32,
}

impl View for Transaction {
    type V = TransactionV;

    open spec fn view(&self) -> TransactionV {
        TransactionV {
            version: self.version,
            inputs: self.inputs@.map_values(|i: Input| i@),
            outputs: self.outputs@.map_values(|o: Output| o@),
            lock_time: self.lock_time,
        }
    }
}

/// The error type associated with `Transaction` deserialization.
#[derive(Clone, Copy, Debug, PartialEq, Eq, Structural)]
pub enum DecodeError {
    /// The version field is cut short.
    VersionTooShort,
    /// Unable to decode the input count.
    InputCount(VarIntDecodeError),
    /// Unable to decode an input.
    Input(InputDecodeError),
    /// Unable to decode the output count.
    OutputCount(VarIntDecodeError),
    /// Unable to decode an output.
    Output(OutputDecodeError),
    /// The lock time field is cut short.
    LockTimeTooShort,
}

/// Decoding `n` consecutive inputs from the front of `s`.
pub open spec fn spec_decode_inputs(s: Seq<u8>, n: nat) -> Result<
    (Seq<InputV>, int),
    InputDecodeError,
>
    decreases n,
{
    if n == 0 {
        Ok((Seq::empty(), 0))
    } else {
        match spec_decode_input(s) {
            Err(e) => Err(e),
            Ok((first, used)) => match spec_decode_inputs(s.skip(used), (n - 1) as nat) {
                Err(e) => Err(e),
                Ok((rest, used2)) => Ok((seq![first] + rest, used + used2)),
            },
        }
    }
}

/// Decoding `n` consecutive outputs from the front of `s`.
pub open spec fn spec_decode_outputs(s: Seq<u8>, n: nat) -> Result<
    (Seq<OutputV>, int),
    OutputDecodeError,
>
    decreases n,
{
    if n == 0 {
        Ok((Seq::empty(), 0))
    } else {
        match spec_decode_output(s) {
            Err(e) => Err(e),
            Ok((first, used)) => match spec_decode_outputs(s.skip(used), (n - 1) as nat) {
                Err(e) => Err(e),
                Ok((rest, used2)) => Ok((seq![first] + rest, used + used2)),
            },
        }
    }
}

/// Decoding a transaction from the front of `s`: a four-byte version, the
/// counted inputs and outputs, and a four-byte lock time.
pub open spec fn spec_decode_transaction(s: Seq<u8>) -> Result<(TransactionV, int), DecodeError> {
    if s.len() < 4 {
        Err(DecodeError::VersionTooShort)
    } else {
        let version = spec_u32_from_be(s.subrange(0, 4));
        match spec_decode_var_int(s.skip(4)) {
            Err(e) => Err(DecodeError::InputCount(e)),
            Ok((n_in, u1)) => match spec_decode_inputs(s.skip(4 + u1), n_in as nat) {
                Err(e) => Err(DecodeError::Input(e)),
                Ok((inputs, u2)) => match spec_decode_var_int(s.skip(4 + u1 + u2)) {
                    Err(e) => Err(DecodeError::OutputCount(e)),
                    Ok((n_out, u3)) => match spec_decode_outputs(
                        s.skip(4 + u1 + u2 + u3),
                        n_out as nat,
                    ) {
                        Err(e) => Err(DecodeError::Output(e)),
                        Ok((outputs, u4)) => if s.len() - 4 - u1 - u2 - u3 - u4 < 4 {
                            Err(DecodeError::LockTimeTooShort)
                        } else {
                            Ok(
                                (
                                    TransactionV {
                                        version,
                                        inputs,
                                        outputs,
                                        lock_time: spec_u32_from_be(
                                            s.subrange(
                                                4 + u1 + u2 + u3 + u4,
                                                4 + u1 + u2 + u3 + u4 + 4,
                                            ),
                                        ),
                                    },
                                    4 + u1 + u2 + u3 + u4 + 4,
                                ),
                            )
                        },
                    },
                },
            },
        }
    }
}

/// Parse `n` consecutive inputs from `buf` starting at `pos`.
fn decode_inputs(buf: &[u8], pos: usize, n: u64) -> (r: Result<
    (Vec<Input>, usize),
    InputDecodeError,
>)
    requires
        pos <= buf@.len(),
    ensures
        match r {
            Ok((v, newpos)) => {
                &&& pos <= newpos <= buf@.len()
                &&& spec_decode_inputs(buf@.skip(pos as int), n as nat) == Ok::<
                    _,
                    InputDecodeError,
                >((v@.map_values(|i: Input| i@), newpos - pos as int))
            },
            Err(e) => spec_decode_inputs(buf@.skip(pos as int), n as nat) == Err::<
                (Seq<InputV>, int),
                _,
            >(e),
        },
{
    let mut v: Vec<Input> = Vec::new();
    let mut p: usize = pos;
    let mut k: u64 = 0;
    proof {
        assert(v@.map_values(|i: Input| i@) =~= Seq::<InputV>::empty());
    }
    while k < n
        invariant
            pos <= p <= buf@.len(),
            k <= n,
            match spec_decode_inputs(buf@.skip(p as int), (n - k) as nat) {
                Ok(rem) => spec_decode_inputs(buf@.skip(pos as int), n as nat) == Ok::<
                    _,
                    InputDecodeError,
                >((v@.map_values(|i: Input| i@) + rem.0, (p - pos) + rem.1)),
                Err(e) => spec_decode_inputs(buf@.skip(pos as int), n as nat) == Err::<
                    (Seq<InputV>, int),
                    _,
                >(e),
            },
        decreases n - k,
    {
        let ghost acc = v@.map_values(|i: Input| i@);
        match Input::decode_from(buf, p) {
            Err(e) => {
                return Err(e);
            },
            Ok((inp, p2)) => {
                proof {
                    assert(buf@.skip(p as int).skip(p2 - p) =~= buf@.skip(p2 as int));
                }
                let ghost rem_before = spec_decode_inputs(buf@.skip(p as int), (n - k) as nat);
                v.push(inp);
                proof {
                    assert(v@.map_values(|i: Input| i@) =~= acc.push(inp@));
                    match spec_decode_inputs(buf@.skip(p2 as int), (n - k - 1) as nat) {
                        Ok(rem2) => {
                            assert(rem_before == Ok::<_, InputDecodeError>(
                                (seq![inp@] + rem2.0, (p2 - p) + rem2.1),
                            ));
                            assert(acc + (seq![inp@] + rem2.0) =~= acc.push(inp@) + rem2.0);
                        },
                        Err(e) => {
                            assert(rem_before == Err::<(Seq<InputV>, int), _>(e));
                        },
                    }
                }
                p = p2;
                k = k + 1;
            },
        }
    }
    proof {
        assert(v@.map_values(|i: Input| i@) + Seq::<InputV>::empty() =~= v@.map_values(
            |i: Input| i@,
        ));
    }
    Ok((v, p))
}

/// Parse `n` consecutive outputs from `buf` starting at `pos`.
fn decode_outputs(buf: &[u8], pos: usize, n: u64) -> (r: Result<
    (Vec<Output>, usize),
    OutputDecodeError,
>)
    requires
        pos <= buf@.len(),
    ensures
        match r {
            Ok((v, newpos)) => {
                &&& pos <= newpos <= buf@.len()
                &&& spec_decode_outputs(buf@.skip(pos as int), n as nat) == Ok::<
                    _,
                    OutputDecodeError,
                >((v@.map_values(|o: Output| o@), newpos - pos as int))
            },
            Err(e) => spec_decode_outputs(buf@.skip(pos as int), n as nat) == Err::<
                (Seq<OutputV>, int),
                _,
            >(e),
        },
{
    let mut v: Vec<Output> = Vec::new();
    let mut p: usize = pos;
    let mut k: u64 = 0;
    proof {
        assert(v@.map_values(|o: Output| o@) =~= Seq::<OutputV>::empty());
    }
    while k < n
        invariant
            pos <= p <= buf@.len(),
            k <= n,
            match spec_decode_outputs(buf@.skip(p as int), (n - k) as nat) {
                Ok(rem) => spec_decode_outputs(buf@.skip(pos as int), n as nat) == Ok::<
                    _,
                    OutputDecodeError,
                >((v@.map_values(|o: Output| o@) + rem.0, (p - pos) + rem.1)),
                Err(e) => spec_decode_outputs(buf@.skip(pos as int), n as nat) == Err::<
                    (Seq<OutputV>, int),
                    _,
                >(e),
            },
        decreases n - k,
    {
        let ghost acc = v@.map_values(|o: Output| o@);
        match Output::decode_from(buf, p) {
            Err(e) => {
                return Err(e);
            },
            Ok((out, p2)) => {
                proof {
                    assert(buf@.skip(p as int).skip(p2 - p) =~= buf@.skip(p2 as int));
                }
                let ghost rem_before = spec_decode_outputs(buf@.skip(p as int), (n - k) as nat);
                v.push(out);
                proof {
                    assert(v@.map_values(|o: Output| o@) =~= acc.push(out@));
                    match spec_decode_outputs(buf@.skip(p2 as int), (n - k - 1) as nat) {
                        Ok(rem2) => {
                            assert(rem_before == Ok::<_, OutputDecodeError>(
                                (seq![out@] + rem2.0, (p2 - p) + rem2.1),
                            ));
                            assert(acc + (seq![out@] + rem2.0) =~= acc.push(out@) + rem2.0);
                        },
                        Err(e) => {
                            assert(rem_before == Err::<(Seq<OutputV>, int), _>(e));
                        },
                    }
                }
                p = p2;
                k = k + 1;
            },
        }
    }
    proof {
        assert(v@.map_values(|o: Output| o@) + Seq::<OutputV>::empty() =~= v@.map_values(
            |o: Output| o@,
        ));
    }
    Ok((v, p))
}

impl Transaction {
    /// The number of inputs as a `VarInt`.
    pub fn input_len_varint(&self) -> (r: VarInt)
        ensures
            r == VarInt(self.inputs@.len() as u64),
    {
        VarInt(self.inputs.len() as u64)
    }

    /// The number of outputs as a `VarInt`.
    pub fn output_len_varint(&self) -> (r: VarInt)
        ensures
            r == VarInt(self.outputs@.len() as u64),
    {
        VarInt(self.outputs.len() as u64)
    }

    /// Parse a transaction from `buf` starting at `pos`, returning it with
    /// the position just past it.
    #[verifier::rlimit(100)]
    pub fn decode_from(buf: &[u8], pos: usize) -> (r: Result<(Transaction, usize), DecodeError>)
        requires
            pos <= buf@.len(),
        ensures
            match r {
                Ok((tx, newpos)) => {
                    &&& pos < newpos <= buf@.len()
                    &&& spec_decode_transaction(buf@.skip(pos as int)) == Ok::<_, DecodeError>(
                        (tx@, newpos - pos as int),
                    )
                },
                Err(e) => spec_decode_transaction(buf@.skip(pos as int)) == Err::<
                    (TransactionV, int),
                    _,
                >(e),
            },
    {
        let ghost s = buf@.skip(pos as int);
        if buf.len() - pos < 4 {
            return Err(DecodeError::VersionTooShort);
        }
        let version = u32_from_be(&buf[pos..pos + 4]);
        proof {
            assert(buf@.subrange(pos as int, pos + 4) =~= s.subrange(0, 4));
            assert(buf@.skip(pos + 4) =~= s.skip(4));
        }
        let (n_in, p1) = match VarInt::decode_from(buf, pos + 4) {
            Ok(ok) => ok,
            Err(e) => {
                return Err(DecodeError::InputCount(e));
            },
        };
        proof {
            assert(buf@.skip(p1 as int) =~= s.skip(4 + (p1 - pos - 4)));
        }
        let (inputs, p2) = match decode_inputs(buf, p1, n_in.0) {
            Ok(ok) => ok,
            Err(e) => {
                return Err(DecodeError::Input(e));
            },
        };
        proof {
            assert(buf@.skip(p2 as int) =~= s.skip(4 + (p1 - pos - 4) + (p2 - p1)));
        }
        let (n_out, p3) = match VarInt::decode_from(buf, p2) {
            Ok(ok) => ok,
            Err(e) => {
                return Err(DecodeError::OutputCount(e));
            },
        };
        proof {
            assert(buf@.skip(p3 as int) =~= s.skip(
                4 + (p1 - pos - 4) + (p2 - p1) + (p3 - p2),
            ));
        }
        let (outputs, p4) = match decode_outputs(buf, p3, n_out.0) {
            Ok(ok) => ok,
            Err(e) => {
                return Err(DecodeError::Output(e));
            },
        };
        if buf.len() - p4 < 4 {
            return Err(DecodeError::LockTimeTooShort);
        }
        let lock_time = u32_from_be(&buf[p4..p4 + 4]);
        proof {
            assert(buf@.subrange(p4 as int, p4 + 4) =~= s.subrange(p4 - pos, p4 - pos + 4));
        }
        Ok((Transaction { version, lock_time, inputs, outputs }, p4 + 4))
    }

    /// Parse a transaction from the front of `buf`.
    pub fn decode(buf: &[u8]) -> (r: Result<Transaction, DecodeError>)
        ensures
            match r {
                Ok(tx) => spec_decode_transaction(buf@) matches Ok(p) && p.0 == tx@,
                Err(e) => spec_decode_transaction(buf@) == Err::<(TransactionV, int), _>(e),
            },
    {
        proof {
            assert(buf@.skip(0) =~= buf@);
        }
        match Self::decode_from(buf, 0) {
            Ok((tx, newpos)) => {
                proof {
                    assert(spec_decode_transaction(buf@) == Ok::<_, DecodeError>(
                        (tx@, newpos as int),
                    ));
                }
                Ok(tx)
            },
            Err(e) => Err(e),
        }
    }
}

impl Encodable for Transaction {
    open spec fn encoding(&self) -> Seq<u8> {
        spec_u32_be(self.version) + spec_encode_var_int(self.inputs@.len() as u64) + seq_encoding(
            self.inputs@,
        ) + spec_encode_var_int(self.outputs@.len() as u64) + seq_encoding(self.outputs@)
            + spec_u32_be(self.lock_time)
    }

    fn encoded_len(&self) -> (n: usize)
        ensures
            n == self.encoding().len(),
    {
        let mut n: usize = 4 + self.input_len_varint().encoded_len();
        let n_inputs: usize = self.inputs.len();
        proof {
            assert(self.inputs@.take(0) =~= Seq::<Input>::empty());
            lemma_seq_encoding_prefix_bound(self.inputs@, 0);
        }
        for i in 0..n_inputs
            invariant
                n_inputs == self.inputs@.len(),
                self.encoding().len() <= usize::MAX,
                n == 4 + spec_encode_var_int(self.inputs@.len() as u64).len() + seq_encoding(
                    self.inputs@.take(i as int),
                ).len(),
                n <= self.encoding().len(),
        {
            proof {
                lemma_seq_encoding_prefix_bound(self.inputs@, i + 1);
                assert(self.inputs@.take(i + 1) =~= self.inputs@.take(i as int).push(
                    self.inputs@[i as int],
                ));
                lemma_seq_encoding_push(self.inputs@.take(i as int), self.inputs@[i as int]);
            }
            n = n + self.inputs[i].encoded_len();
        }
        proof {
            assert(self.inputs@.take(n_inputs as int) =~= self.inputs@);
        }
        let mut m: usize = self.output_len_varint().encoded_len();
        let n_outputs: usize = self.outputs.len();
        proof {
            assert(self.outputs@.take(0) =~= Seq::<Output>::empty());
            lemma_seq_encoding_prefix_bound_out(self.outputs@, 0);
        }
        for i in 0..n_outputs
            invariant
                n_outputs == self.outputs@.len(),
                self.encoding().len() <= usize::MAX,
                n == 4 + spec_encode_var_int(self.inputs@.len() as u64).len() + seq_encoding(
                    self.inputs@,
                ).len(),
                n <= self.encoding().len(),
                m == spec_encode_var_int(self.outputs@.len() as u64).len() + seq_encoding(
                    self.outputs@.take(i as int),
                ).len(),
                n + m + 4 <= self.encoding().len(),
        {
            proof {
                lemma_seq_encoding_prefix_bound_out(self.outputs@, i + 1);
                assert(self.outputs@.take(i + 1) =~= self.outputs@.take(i as int).push(
                    self.outputs@[i as int],
                ));
                lemma_seq_encoding_push(self.outputs@.take(i as int), self.outputs@[i as int]);
            }
            m = m + self.outputs[i].encoded_len();
        }
        proof {
            assert(self.outputs@.take(n_outputs as int) =~= self.outputs@);
        }
        n + m + 4
    }

    fn encode_raw(&self, buf: &mut Vec<u8>)
        ensures
            final(buf)@ == old(buf)@ + self.encoding(),
    {
        let ghost start = buf@;
        push_u32_be(buf, self.version);
        self.input_len_varint().encode_raw(buf);
        let n_inputs: usize = self.inputs.len();
        proof {
            assert(self.inputs@.take(0) =~= Seq::<Input>::empty());
            assert(buf@ =~= start + spec_u32_be(self.version) + spec_encode_var_int(
                self.inputs@.len() as u64,
            ) + seq_encoding(self.inputs@.take(0)));
        }
        for i in 0..n_inputs
            invariant
                n_inputs == self.inputs@.len(),
                buf@ == start + spec_u32_be(self.version) + spec_encode_var_int(
                    self.inputs@.len() as u64,
                ) + seq_encoding(self.inputs@.take(i as int)),
        {
            self.inputs[i].encode_raw(buf);
            proof {
                assert(self.inputs@.take(i + 1) =~= self.inputs@.take(i as int).push(
                    self.inputs@[i as int],
                ));
                lemma_seq_encoding_push(self.inputs@.take(i as int), self.inputs@[i as int]);
            }
        }
        proof {
            assert(self.inputs@.take(n_inputs as int) =~= self.inputs@);
        }
        self.output_len_varint().encode_raw(buf);
        let ghost mid = buf@;
        let n_outputs: usize = self.outputs.len();
        proof {
            assert(self.outputs@.take(0) =~= Seq::<Output>::empty());
            assert(buf@ =~= mid + seq_encoding(self.outputs@.take(0)));
        }
        for i in 0..n_outputs
            invariant
                n_outputs == self.outputs@.len(),
                buf@ == mid + seq_encoding(self.outputs@.take(i as int)),
        {
            self.outputs[i].encode_raw(buf);
            proof {
                assert(self.outputs@.take(i + 1) =~= self.outputs@.take(i as int).push(
                    self.outputs@[i as int],
                ));
                lemma_seq_encoding_push(self.outputs@.take(i as int), self.outputs@[i as int]);
            }
        }
        proof {
            assert(self.outputs@.take(n_outputs as int) =~= self.outputs@);
        }
        push_u32_be(buf, self.lock_time);
        proof {
            assert(buf@ =~= start + self.encoding());
        }
    }
}

/// The encoding of a prefix is no longer than the whole: inputs.
proof fn lemma_seq_encoding_prefix_bound(s: Seq<Input>, k: int)
    requires
        0 <= k <= s.len(),
    ensures
        seq_encoding(s.take(k)).len() + (if k < s.len() {
            s[k].encoding().len()
        } else {
            0
        }) <= seq_encoding(s).len(),
    decreases s.len() - k,
{
    if k < s.len() {
        lemma_seq_encoding_prefix_bound(s, k + 1);
        assert(s.take(k + 1) =~= s.take(k).push(s[k]));
        lemma_seq_encoding_push(s.take(k), s[k]);
    } else {
        assert(s.take(k) =~= s);
    }
}

/// The encoding of a prefix is no longer than the whole: outputs.
proof fn lemma_seq_encoding_prefix_bound_out(s: Seq<Output>, k: int)
    requires
        0 <= k <= s.len(),
    ensures
        seq_encoding(s.take(k)).len() + (if k < s.len() {
            s[k].encoding().len()
        } else {
            0
        }) <= seq_encoding(s).len(),
    decreases s.len() - k,
{
    if k < s.len() {
        lemma_seq_encoding_prefix_bound_out(s, k + 1);
        assert(s.take(k + 1) =~= s.take(k).push(s[k]));
        lemma_seq_encoding_push(s.take(k), s[k]);
    } else {
        assert(s.take(k) =~= s);
    }
}

} // verus!
