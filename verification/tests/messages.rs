use bitcoin::util::bip32;
use crypto::symmetriccipher::SymmetricCipherError;
use std::io;
use wallet_error::error::{Cause, WalletError};
use wallet_error::foreign::CipherErrorKind;

#[test]
fn unsupported_message_has_tag_and_payload() {
    let e = WalletError::Unsupported("watch-only accounts");
    assert_eq!(e.to_string(), "Unsupported: watch-only accounts");
    assert!(e.cause().is_none());
}

#[test]
fn unsupported_description_is_payload() {
    let e = WalletError::Unsupported("watch-only accounts");
    assert_eq!(e.description(), "watch-only accounts");
}

#[test]
fn mnemonic_message_has_tag_and_payload() {
    let e = WalletError::Mnemonic("checksum does not match");
    assert_eq!(e.to_string(), "Mnemonic: checksum does not match");
    assert_eq!(e.description(), "checksum does not match");
    assert!(e.cause().is_none());
}

#[test]
fn empty_payload_leaves_the_tag() {
    assert_eq!(WalletError::Unsupported("").to_string(), "Unsupported: ");
    assert_eq!(WalletError::Mnemonic("").to_string(), "Mnemonic: ");
    assert_eq!(WalletError::Unsupported("").description(), "");
}

#[test]
fn passphrase_message_is_fixed() {
    let e = WalletError::Passphrase;
    assert_eq!(e.to_string(), "wrong passphrase");
    assert_eq!(e.description(), "wrong passphrase");
    assert!(e.cause().is_none());
}

#[test]
fn network_message_is_fixed() {
    let e = WalletError::Network;
    assert_eq!(e.to_string(), "wrong network");
    assert_eq!(e.description(), "wrong network");
    assert!(e.cause().is_none());
}

#[test]
fn io_message_has_tag_and_inner_text() {
    let e = WalletError::IO(io::Error::new(io::ErrorKind::NotFound, "wallet file is gone"));
    assert_eq!(e.to_string(), "IO error: wallet file is gone");
}

#[test]
fn io_message_of_a_bare_kind() {
    let inner = io::Error::from(io::ErrorKind::UnexpectedEof);
    let expected = format!("IO error: {}", inner);
    let e = WalletError::IO(io::Error::from(io::ErrorKind::UnexpectedEof));
    assert_eq!(e.to_string(), expected);
}

#[test]
#[allow(deprecated)]
fn io_description_is_the_inner_description() {
    let twin = io::Error::new(io::ErrorKind::Other, "boom");
    let expected = std::error::Error::description(&twin).to_string();
    let e = WalletError::IO(io::Error::new(io::ErrorKind::Other, "boom"));
    assert_eq!(e.description(), expected);
}

#[test]
fn io_cause_is_the_wrapped_error() {
    let e = WalletError::IO(io::Error::new(io::ErrorKind::PermissionDenied, "locked"));
    match e.cause() {
        Some(Cause::IO(inner)) => {
            assert_eq!(inner.kind(), io::ErrorKind::PermissionDenied);
            assert_eq!(inner.to_string(), "locked");
        }
        _ => panic!("an I/O error is its own cause"),
    }
}

#[test]
fn key_derivation_message_has_tag_and_inner_text() {
    let e = WalletError::KeyDerivation(bip32::Error::CannotDeriveFromHardenedKey);
    assert_eq!(e.to_string(), "BIP32 error: cannot derive hardened key from public key");
    assert_eq!(e.description(), "cannot derive hardened key from public key");
}

#[test]
fn key_derivation_message_differs_from_description() {
    let e = WalletError::KeyDerivation(bip32::Error::InvalidChildNumber(7));
    assert_eq!(
        e.to_string(),
        "BIP32 error: child number 7 is invalid (not within [0, 2^31 - 1])"
    );
    assert_eq!(e.description(), "child number is invalid");
}

#[test]
fn key_derivation_message_carries_the_rng_text() {
    let e = WalletError::KeyDerivation(bip32::Error::RngError("no entropy".to_string()));
    assert_eq!(e.to_string(), "BIP32 error: rng error no entropy");
    assert_eq!(e.description(), "rng error");
}

#[test]
fn key_derivation_message_of_a_nested_secp_error() {
    let e = WalletError::KeyDerivation(bip32::Error::Ecdsa(secp256k1::Error::InvalidSecretKey));
    assert_eq!(
        e.to_string(),
        "BIP32 error: secp: malformed or out-of-range secret key"
    );
    assert_eq!(e.description(), "secp: malformed or out-of-range secret key");
}

#[test]
fn key_derivation_message_equals_tag_plus_display() {
    let inner = bip32::Error::InvalidDerivationPathFormat;
    let expected = format!("BIP32 error: {}", inner);
    assert_eq!(WalletError::KeyDerivation(inner).to_string(), expected);
}

#[test]
fn key_derivation_cause_is_the_wrapped_error() {
    let e = WalletError::KeyDerivation(bip32::Error::InvalidChildNumber(1 << 31));
    match e.cause() {
        Some(Cause::KeyDerivation(inner)) => {
            assert_eq!(*inner, bip32::Error::InvalidChildNumber(1 << 31));
        }
        _ => panic!("a BIP32 error is the cause"),
    }
}

#[test]
fn secp_message_has_tag_and_inner_text() {
    let e = WalletError::SecpError(secp256k1::Error::IncorrectSignature);
    assert_eq!(e.to_string(), "Secp256k1 error: secp: signature failed verification");
    assert_eq!(e.description(), "secp: signature failed verification");
}

#[test]
fn secp_message_equals_tag_plus_display() {
    let all = [
        secp256k1::Error::IncorrectSignature,
        secp256k1::Error::InvalidMessage,
        secp256k1::Error::InvalidPublicKey,
        secp256k1::Error::InvalidSignature,
        secp256k1::Error::InvalidSecretKey,
        secp256k1::Error::InvalidRecoveryId,
        secp256k1::Error::InvalidTweak,
    ];
    for inner in all {
        let expected = format!("Secp256k1 error: {}", inner);
        assert_eq!(WalletError::SecpError(inner).to_string(), expected);
    }
}

#[test]
fn secp_cause_is_the_wrapped_error() {
    let e = WalletError::SecpError(secp256k1::Error::InvalidTweak);
    match e.cause() {
        Some(Cause::SecpError(inner)) => assert_eq!(*inner, secp256k1::Error::InvalidTweak),
        _ => panic!("a secp256k1 error is the cause"),
    }
}

#[test]
fn cipher_invalid_length_message() {
    let e = WalletError::SymmetricCipherError(SymmetricCipherError::InvalidLength);
    assert_eq!(e.to_string(), "Cipher error: invalid length");
    assert_eq!(e.description(), "invalid length");
    assert!(e.cause().is_none());
}

#[test]
fn cipher_invalid_padding_message() {
    let e = WalletError::SymmetricCipherError(SymmetricCipherError::InvalidPadding);
    assert_eq!(e.to_string(), "Cipher error: invalid padding");
    assert_eq!(e.description(), "invalid padding");
    assert!(e.cause().is_none());
}

#[test]
fn cipher_kind_texts() {
    assert_eq!(CipherErrorKind::InvalidLength.as_str(), "invalid length");
    assert_eq!(CipherErrorKind::InvalidPadding.as_str(), "invalid padding");
}

#[test]
fn render_puts_the_tag_before_the_inner_text() {
    let io = WalletError::IO(io::Error::from(io::ErrorKind::Other));
    assert_eq!(io.render("disk full"), "IO error: disk full");
    let kd = WalletError::KeyDerivation(bip32::Error::InvalidChildNumberFormat);
    assert_eq!(kd.render("x"), "BIP32 error: x");
    let secp = WalletError::SecpError(secp256k1::Error::InvalidMessage);
    assert_eq!(secp.render("y"), "Secp256k1 error: y");
    let cipher = WalletError::SymmetricCipherError(SymmetricCipherError::InvalidLength);
    assert_eq!(cipher.render("z"), "Cipher error: z");
    assert_eq!(cipher.render(""), "Cipher error: ");
}

#[test]
fn render_ignores_the_inner_text_where_nothing_is_wrapped() {
    assert_eq!(WalletError::Passphrase.render("ignored"), "wrong passphrase");
    assert_eq!(WalletError::Network.render("ignored"), "wrong network");
    assert_eq!(WalletError::Unsupported("a").render("ignored"), "Unsupported: a");
    assert_eq!(WalletError::Mnemonic("b").render("ignored"), "Mnemonic: b");
}

#[test]
fn message_keeps_non_ascii_text() {
    let e = WalletError::Unsupported("clé privée");
    assert_eq!(e.to_string(), "Unsupported: clé privée");
    assert_eq!(e.description(), "clé privée");
}
