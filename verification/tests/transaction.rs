use cashweb::bitcoin::transaction::{DecodeError, Transaction};
use cashweb::bitcoin::var_int::{DecodeError as VarIntDecodeError, VarInt};
use cashweb::bitcoin::Encodable;

const HEX_TX: &str = "0200000001dc0e0c39e2d7a7150ad058ab80b7b1d543097a785e4616fa59dcae8fbecce4240100000000ffffffff0120aa4400000000001976a914043ea5736aa3a48ebdd5034309b590505d8bdd9088ac00000000";

#[test]
fn decode() {
    let raw_tx = hex::decode(HEX_TX).unwrap();
    Transaction::decode(&raw_tx).unwrap();
}

#[test]
fn mod_encode() {
    let raw_tx_input = hex::decode(HEX_TX).unwrap();
    let tx = Transaction::decode(&raw_tx_input).unwrap();

    let buffer_len = tx.encoded_len();
    let mut raw_tx_output: Vec<u8> = Vec::with_capacity(buffer_len);
    tx.encode(&mut raw_tx_output, buffer_len).unwrap();
    assert_eq!(raw_tx_output, raw_tx_input)
}

#[test]
fn encode_insufficent_capacity() {
    let raw_tx_input = hex::decode(HEX_TX).unwrap();
    let tx = Transaction::decode(&raw_tx_input).unwrap();

    let mut raw_tx_output: Vec<u8> = Vec::with_capacity(0);
    assert!(tx.encode(&mut raw_tx_output, 0).is_err());
}

#[test]
fn decoded_fields() {
    let raw_tx = hex::decode(HEX_TX).unwrap();
    let tx = Transaction::decode(&raw_tx).unwrap();
    assert_eq!(tx.inputs.len(), 1);
    assert_eq!(tx.outputs.len(), 1);
    assert!(tx.outputs[0].script.is_p2pkh());
    assert!(!tx.outputs[0].script.is_op_return());
    assert_eq!(tx.outputs[0].script.len(), 25);
}

#[test]
fn decode_version_too_short() {
    assert_eq!(
        Transaction::decode(&[1, 2, 3]),
        Err(DecodeError::VersionTooShort)
    );
}

#[test]
fn decode_truncated_input() {
    // Version, then an input count of one, then nothing.
    let raw = [0u8, 0, 0, 2, 1];
    assert!(matches!(
        Transaction::decode(&raw),
        Err(DecodeError::Input(_))
    ));
}

#[test]
fn var_int_encode() {
    let var_int = VarInt(10);
    let capacity = var_int.encoded_len();
    let mut raw = Vec::with_capacity(capacity);
    var_int.encode(&mut raw, capacity).unwrap();
    assert_eq!(raw, vec![10u8]);

    let var_int = VarInt(0xfc);
    let mut raw = Vec::with_capacity(var_int.encoded_len());
    var_int.encode_raw(&mut raw);
    assert_eq!(raw, vec![0xfcu8]);

    let var_int = VarInt(0xfd);
    let mut raw = Vec::with_capacity(var_int.encoded_len());
    var_int.encode_raw(&mut raw);
    assert_eq!(raw, vec![0xfdu8, 0xfd, 0]);

    let var_int = VarInt(0xfff);
    let mut raw = Vec::with_capacity(var_int.encoded_len());
    var_int.encode_raw(&mut raw);
    assert_eq!(raw, vec![0xfdu8, 0xff, 0xf]);

    let var_int = VarInt(0xf0f0f0f);
    let mut raw = Vec::with_capacity(var_int.encoded_len());
    var_int.encode_raw(&mut raw);
    assert_eq!(raw, vec![0xfeu8, 0xf, 0xf, 0xf, 0xf]);

    let var_int = VarInt(0xf0f0f0f0f0e0);
    let mut raw = Vec::with_capacity(var_int.encoded_len());
    var_int.encode_raw(&mut raw);
    assert_eq!(raw, vec![0xffu8, 0xe0, 0xf0, 0xf0, 0xf0, 0xf0, 0xf0, 0, 0]);
}

#[test]
fn var_int_decode_round_trip() {
    for value in [0u64, 1, 0xfc, 0xfd, 0xffff, 0x10000, 0xffffffff, 0x100000000, u64::MAX] {
        let var_int = VarInt(value);
        let mut raw = Vec::new();
        var_int.encode_raw(&mut raw);
        assert_eq!(VarInt::decode(&raw).unwrap(), VarInt(value));
    }
}

#[test]
fn var_int_decode_errors() {
    assert_eq!(VarInt::decode(&[]), Err(VarIntDecodeError::TooShort));
    assert_eq!(VarInt::decode(&[0xfd, 1]), Err(VarIntDecodeError::TooShort));
    // 0xfd marker carrying a value below 0xfd is non-minimal.
    assert_eq!(
        VarInt::decode(&[0xfd, 0x10, 0x00]),
        Err(VarIntDecodeError::NonMinimal)
    );
    assert_eq!(
        VarInt::decode(&[0xfe, 0x10, 0x00, 0x00, 0x00]),
        Err(VarIntDecodeError::NonMinimal)
    );
}
