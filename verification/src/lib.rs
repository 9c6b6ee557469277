//! A single error type for a Bitcoin wallet.
//!
//! Wallet operations fail in several places: in I/O, in BIP32 key derivation,
//! in secp256k1 operations and in the symmetric cipher that protects secrets.
//! [`error::WalletError`] gathers these failures into one closed type, renders
//! each as a message, hands out the wrapped error as the cause, and degrades to
//! a `std::io::Error` for callers that know no other error.

pub mod error;
pub mod foreign;
pub mod laws;
