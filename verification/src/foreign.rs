//! The error types of other crates that a wallet error may wrap.
//!
//! Verus does not look inside these types. What the wallet error needs of them
//! is stated here and taken on trust: the text that each renders to, the kind
//! of a cipher error, and the I/O error that carries a given message.

use vstd::prelude::*;
use vstd::string::to_string_from_display_ensures;

verus! {

/// `std::io::Error`, carried through as an opaque value.
#[verifier::external_type_specification]
#[verifier::external_body]
pub struct ExIoError(std::io::Error);

/// `bitcoin::util::bip32::Error`, carried through as an opaque value.
#[verifier::external_type_specification]
#[verifier::external_body]
pub struct ExBip32Error(bitcoin::util::bip32::Error);

/// `secp256k1::Error`, carried through as an opaque value.
#[verifier::external_type_specification]
#[verifier::external_body]
pub struct ExSecp256k1Error(secp256k1::Error);

/// `crypto::symmetriccipher::SymmetricCipherError`, carried through as an
/// opaque value.
#[verifier::external_type_specification]
#[verifier::external_body]
pub struct ExSymmetricCipherError(crypto::symmetriccipher::SymmetricCipherError);

/// The two ways in which a symmetric cipher operation can fail.
#[derive(Clone, Copy, Debug, PartialEq, Eq, Structural)]
pub enum CipherErrorKind {
    /// The input's length does not fit the cipher.
    InvalidLength,
    /// The padding of the decrypted data is malformed.
    InvalidPadding,
}

impl CipherErrorKind {
    /// The fixed text that describes this kind.
    pub open spec fn text(self) -> Seq<char> {
        match self {
            CipherErrorKind::InvalidLength => "invalid length"@,
            CipherErrorKind::InvalidPadding => "invalid padding"@,
        }
    }

    /// The fixed text that describes this kind.
    pub fn as_str(self) -> (s: &'static str)
        ensures
            s@ == self.text(),
    {
        match self {
            CipherErrorKind::InvalidLength => "invalid length",
            CipherErrorKind::InvalidPadding => "invalid padding",
        }
    }
}

/// Whether `text` is what the `Display` of the I/O error `e` may write. The
/// operating system words some I/O errors, so this is a relation and not a
/// function of `e`.
pub open spec fn io_error_renders(e: std::io::Error, text: Seq<char>) -> bool {
    exists|s: String| #[trigger] to_string_from_display_ensures::<std::io::Error>(&e, s) && s@ == text
}

/// The text that `Display` writes for the BIP32 error `e`.
pub uninterp spec fn bip32_error_text(e: bitcoin::util::bip32::Error) -> Seq<char>;

/// The text that `std::error::Error::description` gives for the BIP32 error `e`.
pub uninterp spec fn bip32_error_description(e: bitcoin::util::bip32::Error) -> Seq<char>;

/// The text that `Display` writes for the secp256k1 error `e`.
pub uninterp spec fn secp256k1_error_text(e: secp256k1::Error) -> Seq<char>;

/// The text that `std::error::Error::description` gives for the secp256k1
/// error `e`.
pub uninterp spec fn secp256k1_error_description(e: secp256k1::Error) -> Seq<char>;

/// Which of its two variants the cipher error `e` is.
pub uninterp spec fn cipher_error_kind(
    e: crypto::symmetriccipher::SymmetricCipherError,
) -> CipherErrorKind;

/// The I/O error of kind `Other` that carries `message`: the value of
/// `std::io::Error::new(std::io::ErrorKind::Other, message)`.
pub uninterp spec fn other_io_error(message: Seq<char>) -> std::io::Error;

/// Calls `to_string` on a `bitcoin::util::bip32::Error`, that is its `Display`.
/// Trusted: the result is the text named [`bip32_error_text`]; the impl
/// matches on the error and reads nothing else.
#[verifier::external_body]
pub(crate) fn bip32_to_string(e: &bitcoin::util::bip32::Error) -> (text: String)
    ensures
        text@ == bip32_error_text(*e),
{
    e.to_string()
}

/// Calls `std::error::Error::description` on a `bitcoin::util::bip32::Error`.
/// Trusted: the result is the text named [`bip32_error_description`]; the impl
/// picks a fixed string by the error's variant.
#[allow(deprecated)]
#[verifier::external_body]
pub(crate) fn bip32_description(e: &bitcoin::util::bip32::Error) -> (text: &str)
    ensures
        text@ == bip32_error_description(*e),
{
    std::error::Error::description(e)
}

/// Calls `to_string` on a `secp256k1::Error`, that is its `Display`.
/// Trusted: the result is the text named [`secp256k1_error_text`]; the impl
/// writes a fixed string chosen by the error's variant.
#[verifier::external_body]
pub(crate) fn secp256k1_to_string(e: &secp256k1::Error) -> (text: String)
    ensures
        text@ == secp256k1_error_text(*e),
{
    e.to_string()
}

/// Calls `std::error::Error::description` on a `secp256k1::Error`.
/// Trusted: the result is the text named [`secp256k1_error_description`]; the
/// impl picks a fixed string by the error's variant.
#[allow(deprecated)]
#[verifier::external_body]
pub(crate) fn secp256k1_description(e: &secp256k1::Error) -> (text: &str)
    ensures
        text@ == secp256k1_error_description(*e),
{
    std::error::Error::description(e)
}

/// Calls `std::error::Error::description` on a `std::io::Error`. Nothing is
/// claimed of the text.
#[allow(deprecated)]
#[verifier::external_body]
pub(crate) fn io_description(e: &std::io::Error) -> (text: &str) {
    std::error::Error::description(e)
}

/// Tells the two variants of `crypto::symmetriccipher::SymmetricCipherError`
/// apart. Trusted: the result is the kind named [`cipher_error_kind`].
#[verifier::external_body]
pub(crate) fn cipher_kind(e: &crypto::symmetriccipher::SymmetricCipherError) -> (kind:
    CipherErrorKind)
    ensures
        kind == cipher_error_kind(*e),
{
    match *e {
        crypto::symmetriccipher::SymmetricCipherError::InvalidLength => {
            CipherErrorKind::InvalidLength
        },
        crypto::symmetriccipher::SymmetricCipherError::InvalidPadding => {
            CipherErrorKind::InvalidPadding
        },
    }
}

/// Calls `std::io::Error::new` with the kind `Other` and `message` as the
/// payload. Trusted: the result is the error named [`other_io_error`].
#[verifier::external_body]
pub(crate) fn new_other_io_error(message: &str) -> (e: std::io::Error)
    ensures
        e == other_io_error(message@),
{
    std::io::Error::new(std::io::ErrorKind::Other, message)
}

} // verus!
