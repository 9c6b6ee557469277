//! What holds of every wallet error, proved from the contracts of
//! [`crate::error`].

use crate::error::{Cause, WalletError};
use crate::foreign::{
    bip32_error_text, cipher_error_kind, other_io_error, secp256k1_error_text, CipherErrorKind,
};
use vstd::prelude::*;
use vstd::std_specs::convert::FromSpec;

verus! {

/// An I/O error survives the way into a wallet error and back unchanged, and
/// the wallet error in between has it as its cause.
pub proof fn io_error_round_trip(e: std::io::Error)
    ensures
        <std::io::Error as FromSpec<WalletError>>::from_spec(
            <WalletError as FromSpec<std::io::Error>>::from_spec(e),
        ) == e,
        <WalletError as FromSpec<std::io::Error>>::from_spec(e).cause_of() == Some(Cause::IO(&e)),
{
}

/// The message of a wrapped BIP32 error is the tag `BIP32 error: ` followed by
/// the error's own text, and the error is the cause.
pub proof fn key_derivation_message(e: bitcoin::util::bip32::Error)
    ensures
        <WalletError as FromSpec<bitcoin::util::bip32::Error>>::from_spec(e).message()
            == "BIP32 error: "@ + bip32_error_text(e),
        <WalletError as FromSpec<bitcoin::util::bip32::Error>>::from_spec(e).cause_of() == Some(
            Cause::KeyDerivation(&e),
        ),
{
}

/// The message of a wrapped secp256k1 error is the tag `Secp256k1 error: `
/// followed by the error's own text, and the error is the cause.
pub proof fn secp_message(e: secp256k1::Error)
    ensures
        <WalletError as FromSpec<secp256k1::Error>>::from_spec(e).message()
            == "Secp256k1 error: "@ + secp256k1_error_text(e),
        <WalletError as FromSpec<secp256k1::Error>>::from_spec(e).cause_of() == Some(
            Cause::SecpError(&e),
        ),
{
}

/// The message of a wrapped cipher error is one of two fixed texts, chosen by
/// the error's kind, and it has no cause.
pub proof fn cipher_message(e: crypto::symmetriccipher::SymmetricCipherError)
    ensures
        cipher_error_kind(e) == CipherErrorKind::InvalidLength ==> <WalletError as FromSpec<
            crypto::symmetriccipher::SymmetricCipherError,
        >>::from_spec(e).message() == "Cipher error: invalid length"@,
        cipher_error_kind(e) == CipherErrorKind::InvalidPadding ==> <WalletError as FromSpec<
            crypto::symmetriccipher::SymmetricCipherError,
        >>::from_spec(e).message() == "Cipher error: invalid padding"@,
        <WalletError as FromSpec<crypto::symmetriccipher::SymmetricCipherError>>::from_spec(
            e,
        ).cause_of() is None,
{
    reveal_strlit("Cipher error: ");
    reveal_strlit("invalid length");
    reveal_strlit("invalid padding");
    reveal_strlit("Cipher error: invalid length");
    reveal_strlit("Cipher error: invalid padding");
    assert("Cipher error: "@ + "invalid length"@ =~= "Cipher error: invalid length"@);
    assert("Cipher error: "@ + "invalid padding"@ =~= "Cipher error: invalid padding"@);
}

/// A wrong passphrase and a wrong network have fixed messages and no cause.
pub proof fn fixed_messages()
    ensures
        WalletError::Passphrase.message() == "wrong passphrase"@,
        WalletError::Passphrase.cause_of() is None,
        WalletError::Network.message() == "wrong network"@,
        WalletError::Network.cause_of() is None,
{
}

/// An error other than `IO` degrades to the I/O error of kind `Other` that
/// carries the error's message.
pub proof fn degraded_io_error(err: WalletError)
    requires
        !(err is IO),
    ensures
        <std::io::Error as FromSpec<WalletError>>::from_spec(err) == other_io_error(err.message()),
{
}

} // verus!
