//! The wallet's error type, its messages and its conversions.

use crate::foreign::{
    bip32_description, bip32_error_description, bip32_error_text, bip32_to_string, cipher_error_kind,
    cipher_kind, io_description, io_error_renders, new_other_io_error, other_io_error,
    secp256k1_description, secp256k1_error_description, secp256k1_error_text, secp256k1_to_string,
};
use vstd::prelude::*;
use vstd::std_specs::convert::FromSpecImpl;

verus! {

/// Every failure that a wallet operation can report.
pub enum WalletError {
    /// The operation is not supported; the payload says which.
    Unsupported(&'static str),
    /// A mnemonic was rejected; the payload says why.
    Mnemonic(&'static str),
    /// The passphrase does not open the wallet.
    Passphrase,
    /// The key belongs to another network.
    Network,
    /// An I/O operation failed.
    IO(std::io::Error),
    /// A BIP32 key derivation failed.
    KeyDerivation(bitcoin::util::bip32::Error),
    /// A secp256k1 operation failed.
    SecpError(secp256k1::Error),
    /// The symmetric cipher rejected its input.
    SymmetricCipherError(crypto::symmetriccipher::SymmetricCipherError),
}

/// The error that a [`WalletError`] wraps and hands out as its cause.
pub enum Cause<'a> {
    /// The I/O error inside `WalletError::IO`.
    IO(&'a std::io::Error),
    /// The BIP32 error inside `WalletError::KeyDerivation`.
    KeyDerivation(&'a bitcoin::util::bip32::Error),
    /// The secp256k1 error inside `WalletError::SecpError`.
    SecpError(&'a secp256k1::Error),
}

impl WalletError {
    /// The message of `self`, where `inner` is the text of the error that
    /// `self` wraps. A variant that wraps no error ignores `inner`.
    pub open spec fn message_with(self, inner: Seq<char>) -> Seq<char> {
        match self {
            WalletError::Passphrase => "wrong passphrase"@,
            WalletError::Network => "wrong network"@,
            WalletError::Unsupported(s) => "Unsupported: "@ + s@,
            WalletError::Mnemonic(s) => "Mnemonic: "@ + s@,
            WalletError::IO(_) => "IO error: "@ + inner,
            WalletError::KeyDerivation(_) => "BIP32 error: "@ + inner,
            WalletError::SecpError(_) => "Secp256k1 error: "@ + inner,
            WalletError::SymmetricCipherError(_) => "Cipher error: "@ + inner,
        }
    }

    /// The text of the error that `self` wraps, for the variants where the
    /// wrapped value fixes it; empty for the variants that wrap none. The text
    /// of an I/O error is no function of its value: see [`io_error_renders`].
    pub open spec fn inner_text(self) -> Seq<char>
        recommends
            !(self is IO),
    {
        match self {
            WalletError::KeyDerivation(e) => bip32_error_text(e),
            WalletError::SecpError(e) => secp256k1_error_text(e),
            WalletError::SymmetricCipherError(e) => cipher_error_kind(e).text(),
            _ => Seq::empty(),
        }
    }

    /// The message of an error other than `IO`.
    pub open spec fn message(self) -> Seq<char>
        recommends
            !(self is IO),
    {
        self.message_with(self.inner_text())
    }

    /// The short description of an error other than `IO`: the message without
    /// its tag, with the wrapped error's own description in place of its text.
    pub open spec fn description_text(self) -> Seq<char>
        recommends
            !(self is IO),
    {
        match self {
            WalletError::Passphrase => "wrong passphrase"@,
            WalletError::Network => "wrong network"@,
            WalletError::Unsupported(s) => s@,
            WalletError::Mnemonic(s) => s@,
            WalletError::IO(_) => Seq::empty(),
            WalletError::KeyDerivation(e) => bip32_error_description(e),
            WalletError::SecpError(e) => secp256k1_error_description(e),
            WalletError::SymmetricCipherError(e) => cipher_error_kind(e).text(),
        }
    }

    /// The wrapped error that `self` hands out as its cause. A cipher error is
    /// folded into the message and is no cause.
    pub open spec fn cause_of(&self) -> Option<Cause<'_>> {
        match self {
            WalletError::IO(e) => Some(Cause::IO(e)),
            WalletError::KeyDerivation(e) => Some(Cause::KeyDerivation(e)),
            WalletError::SecpError(e) => Some(Cause::SecpError(e)),
            _ => None,
        }
    }

    /// Builds the message of `self` around `inner`, the text of the error that
    /// `self` wraps.
    pub fn render(&self, inner: &str) -> (text: String)
        ensures
            text@ == self.message_with(inner@),
    {
        match self {
            WalletError::Passphrase => "wrong passphrase".to_owned(),
            WalletError::Network => "wrong network".to_owned(),
            WalletError::Unsupported(s) => "Unsupported: ".to_owned().concat(s),
            WalletError::Mnemonic(s) => "Mnemonic: ".to_owned().concat(s),
            WalletError::IO(_) => "IO error: ".to_owned().concat(inner),
            WalletError::KeyDerivation(_) => "BIP32 error: ".to_owned().concat(inner),
            WalletError::SecpError(_) => "Secp256k1 error: ".to_owned().concat(inner),
            WalletError::SymmetricCipherError(_) => "Cipher error: ".to_owned().concat(inner),
        }
    }

    /// The message of `self`: a tag for the variant, then the payload or the
    /// text of the wrapped error.
    pub fn to_string(&self) -> (text: String)
        ensures
            !(self is IO) ==> text@ == self.message(),
            *self matches WalletError::IO(e) ==> exists|inner: Seq<char>|
                io_error_renders(e, inner) && text@ == self.message_with(inner),
    {
        match self {
            WalletError::IO(e) => {
                let inner = e.to_string();
                self.render(inner.as_str())
            },
            WalletError::KeyDerivation(e) => {
                let inner = bip32_to_string(e);
                self.render(inner.as_str())
            },
            WalletError::SecpError(e) => {
                let inner = secp256k1_to_string(e);
                self.render(inner.as_str())
            },
            WalletError::SymmetricCipherError(e) => self.render(cipher_kind(e).as_str()),
            _ => self.render(""),
        }
    }

    /// The short description of `self`. For `IO` it is whatever the I/O error
    /// describes itself as.
    pub fn description(&self) -> (text: &str)
        ensures
            !(self is IO) ==> text@ == self.description_text(),
    {
        match self {
            WalletError::Passphrase => "wrong passphrase",
            WalletError::Network => "wrong network",
            WalletError::Unsupported(s) => s,
            WalletError::Mnemonic(s) => s,
            WalletError::IO(e) => io_description(e),
            WalletError::KeyDerivation(e) => bip32_description(e),
            WalletError::SecpError(e) => secp256k1_description(e),
            WalletError::SymmetricCipherError(e) => cipher_kind(e).as_str(),
        }
    }

    /// The wrapped error, where `self` chains one.
    pub fn cause(&self) -> (cause: Option<Cause<'_>>)
        ensures
            cause == self.cause_of(),
    {
        match self {
            WalletError::IO(e) => Some(Cause::IO(e)),
            WalletError::KeyDerivation(e) => Some(Cause::KeyDerivation(e)),
            WalletError::SecpError(e) => Some(Cause::SecpError(e)),
            _ => None,
        }
    }
}

impl From<std::io::Error> for WalletError {
    /// Wraps an I/O error.
    fn from(err: std::io::Error) -> (e: WalletError) {
        WalletError::IO(err)
    }
}

impl FromSpecImpl<std::io::Error> for WalletError {
    open spec fn obeys_from_spec() -> bool {
        true
    }

    open spec fn from_spec(err: std::io::Error) -> WalletError {
        WalletError::IO(err)
    }
}

impl From<bitcoin::util::bip32::Error> for WalletError {
    /// Wraps a BIP32 error.
    fn from(err: bitcoin::util::bip32::Error) -> (e: WalletError) {
        WalletError::KeyDerivation(err)
    }
}

impl FromSpecImpl<bitcoin::util::bip32::Error> for WalletError {
    open spec fn obeys_from_spec() -> bool {
        true
    }

    open spec fn from_spec(err: bitcoin::util::bip32::Error) -> WalletError {
        WalletError::KeyDerivation(err)
    }
}

impl From<crypto::symmetriccipher::SymmetricCipherError> for WalletError {
    /// Wraps a cipher error.
    fn from(err: crypto::symmetriccipher::SymmetricCipherError) -> (e: WalletError) {
        WalletError::SymmetricCipherError(err)
    }
}

impl FromSpecImpl<crypto::symmetriccipher::SymmetricCipherError> for WalletError {
    open spec fn obeys_from_spec() -> bool {
        true
    }

    open spec fn from_spec(err: crypto::symmetriccipher::SymmetricCipherError) -> WalletError {
        WalletError::SymmetricCipherError(err)
    }
}

impl From<secp256k1::Error> for WalletError {
    /// Wraps a secp256k1 error.
    fn from(err: secp256k1::Error) -> (e: WalletError) {
        WalletError::SecpError(err)
    }
}

impl FromSpecImpl<secp256k1::Error> for WalletError {
    open spec fn obeys_from_spec() -> bool {
        true
    }

    open spec fn from_spec(err: secp256k1::Error) -> WalletError {
        WalletError::SecpError(err)
    }
}

impl From<WalletError> for std::io::Error {
    /// Hands back the I/O error that `err` wraps. Any other error degrades to
    /// an I/O error of kind `Other` that carries its message and nothing else.
    fn from(err: WalletError) -> (e: std::io::Error) {
        match err {
            WalletError::IO(e) => e,
            other => {
                let message = other.to_string();
                new_other_io_error(message.as_str())
            },
        }
    }
}

impl FromSpecImpl<WalletError> for std::io::Error {
    open spec fn obeys_from_spec() -> bool {
        true
    }

    open spec fn from_spec(err: WalletError) -> std::io::Error {
        match err {
            WalletError::IO(e) => e,
            _ => other_io_error(err.message()),
        }
    }
}

} // verus!
