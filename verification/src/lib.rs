//! ISO8583 financial message engine: bitmap-indexed binary codec, BER-TLV
//! (EMV) parsing, transaction lifecycle and reversal rules, with contracts
//! verified by Verus.

pub mod hexutil;
pub mod strutil;
pub mod bitmap;
pub mod message;
pub mod codec;
pub mod tlv;
pub mod transaction;
pub mod response;
pub mod stan;
pub mod reversal;
pub mod profile;
pub mod emv_map;
pub mod mac;
pub mod service;
pub mod qr;
