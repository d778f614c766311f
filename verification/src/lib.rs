//! Signing of Bitcoin transaction inputs for P2WPKH and Taproot script-path
//! spends: computing the per-input signature digest, producing the ECDSA or
//! Schnorr signature, and assembling the input's witness.

pub mod types;
pub mod encode;
pub mod digest;
pub mod sign;
pub mod utxo;
