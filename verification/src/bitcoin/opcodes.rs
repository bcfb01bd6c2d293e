//! Collection of script operation codes.

use vstd::prelude::*;

verus! {

/// OP_RETURN
pub const OP_RETURN: u8 = 0x6a;

/// OP_DUP
pub const OP_DUP: u8 = 0x76;

/// OP_HASH160
pub const OP_HASH160: u8 = 0xa9;

/// OP_PUSHBYTES_20
pub const OP_PUSHBYTES_20: u8 = 0x14;

/// OP_EQUALVERIFY
pub const OP_EQUALVERIFY: u8 = 0x88;

/// OP_CHECKSIG
pub const OP_CHECKSIG: u8 = 0xac;

} // verus!
