//! The TLS material of the stream listeners: the certificate chain and the
//! private key, read from PEM.
//!
//! The caller reads the files. Taking the PEM apart belongs to
//! `rustls-pemfile`; what is made of its result is decided here.

use vstd::prelude::*;

verus! {

/// Why the TLS material cannot be used.
#[derive(Clone, Copy, PartialEq, Eq, Debug)]
pub enum TlsError {
    /// The text is not well-formed PEM.
    InvalidPem,
    /// The text holds no PKCS #8 private key.
    NoPrivateKey,
}

/// The contents of each item of `items`.
pub open spec fn contents(items: Seq<Vec<u8>>) -> Seq<Seq<u8>> {
    items.map_values(|item: Vec<u8>| item@)
}

/// The certificates that the PEM reader finds in `pem`, each in DER, in the
/// order of the text; `None` where it rejects the text.
pub uninterp spec fn pem_certificates(pem: Seq<u8>) -> Option<Seq<Seq<u8>>>;

/// The PKCS #8 private keys that the PEM reader finds in `pem`, each in DER,
/// in the order of the text; `None` where it rejects the text.
pub uninterp spec fn pem_private_keys(pem: Seq<u8>) -> Option<Seq<Seq<u8>>>;

/// `rustls_pemfile::certs` on the bytes of `pem`. The result is the one that
/// [`pem_certificates`] names.
#[verifier::external_body]
fn read_certs(pem: &[u8]) -> (certs: Option<Vec<Vec<u8>>>)
    ensures
        certs is Some <==> pem_certificates(pem@) is Some,
        certs matches Some(found) ==> pem_certificates(pem@) == Some(contents(found@)),
{
    let mut reader = pem;
    rustls_pemfile::certs(&mut reader).ok()
}

/// `rustls_pemfile::pkcs8_private_keys` on the bytes of `pem`. The result is
/// the one that [`pem_private_keys`] names.
#[verifier::external_body]
fn read_private_keys(pem: &[u8]) -> (keys: Option<Vec<Vec<u8>>>)
    ensures
        keys is Some <==> pem_private_keys(pem@) is Some,
        keys matches Some(found) ==> pem_private_keys(pem@) == Some(contents(found@)),
{
    let mut reader = pem;
    rustls_pemfile::pkcs8_private_keys(&mut reader).ok()
}

/// The key that a listener uses, given the keys that the PEM reader found:
/// the first one.
pub open spec fn chosen_key(keys: Option<Seq<Seq<u8>>>) -> Result<Seq<u8>, TlsError> {
    match keys {
        None => Err(TlsError::InvalidPem),
        Some(found) => if found.len() == 0 {
            Err(TlsError::NoPrivateKey)
        } else {
            Ok(found[0])
        },
    }
}

/// Picks the key that a listener uses among those that were found.
pub fn first_key(keys: &Vec<Vec<u8>>) -> (key: Result<Vec<u8>, TlsError>)
    ensures
        key is Ok <==> keys@.len() > 0,
        key matches Ok(der) ==> der@ == keys@[0]@,
        key matches Err(error) ==> error == TlsError::NoPrivateKey,
{
    if keys.len() == 0 {
        Err(TlsError::NoPrivateKey)
    } else {
        Ok(keys[0].clone())
    }
}

/// Reads the certificate chain from the text of a PEM file. A text without
/// certificates gives an empty chain.
pub fn load_certs(pem: &[u8]) -> (chain: Result<Vec<Vec<u8>>, TlsError>)
    ensures
        chain is Ok <==> pem_certificates(pem@) is Some,
        chain matches Ok(certs) ==> pem_certificates(pem@) == Some(contents(certs@)),
        chain matches Err(error) ==> error == TlsError::InvalidPem,
{
    match read_certs(pem) {
        Some(certs) => Ok(certs),
        None => Err(TlsError::InvalidPem),
    }
}

/// Reads the private key from the text of a PEM file: the first PKCS #8 key
/// in it.
pub fn load_private_key(pem: &[u8]) -> (key: Result<Vec<u8>, TlsError>)
    ensures
        key is Ok <==> chosen_key(pem_private_keys(pem@)) is Ok,
        key matches Ok(der) ==> chosen_key(pem_private_keys(pem@)) == Ok::<Seq<u8>, TlsError>(der@),
        key matches Err(error) ==> chosen_key(pem_private_keys(pem@)) == Err::<Seq<u8>, TlsError>(error),
{
    match read_private_keys(pem) {
        Some(keys) => first_key(&keys),
        None => Err(TlsError::InvalidPem),
    }
}

} // verus!
