use vstd::prelude::*;

verus! {

/// An uncompressed P-256 public key: the 32-byte x and y coordinates, as
/// carried in a COSE ECDH-ES+HKDF-256 key.
pub struct EcdhEsHkdf256PublicKey {
    pub x: Vec<u8>,
    pub y: Vec<u8>,
}

} // verus!
