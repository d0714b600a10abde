//! Fixed-width byte values that a header holds or is checked against: names,
//! signing keys and signatures.

use vstd::prelude::*;

verus! {

/// Number of bytes in a name.
pub const XOR_NAME_LEN: usize = 64;

/// Number of bytes in a public signing key.
pub const PUBLIC_KEY_LEN: usize = 32;

/// Number of bytes in a secret signing key.
pub const SECRET_KEY_LEN: usize = 64;

/// Number of bytes in a detached signature.
pub const SIGNATURE_LEN: usize = 64;

/// A 512-bit identifier of a node or of a piece of content.
#[derive(Clone, Copy, Debug, PartialEq, Eq, PartialOrd, Ord, Hash)]
pub struct XorName(pub [u8; XOR_NAME_LEN]);

/// The public half of a signing key pair.
#[derive(Clone, Copy, Debug, PartialEq, Eq, PartialOrd, Ord, Hash)]
pub struct PublicKey(pub [u8; PUBLIC_KEY_LEN]);

/// The secret half of a signing key pair.
#[derive(PartialEq, Eq)]
pub struct SecretKey(pub [u8; SECRET_KEY_LEN]);

/// A detached signature.
#[derive(Clone, Copy, Debug, PartialEq, Eq, Hash)]
pub struct Signature(pub [u8; SIGNATURE_LEN]);

impl View for XorName {
    type V = Seq<u8>;

    open spec fn view(&self) -> Seq<u8> {
        self.0@
    }
}

impl View for PublicKey {
    type V = Seq<u8>;

    open spec fn view(&self) -> Seq<u8> {
        self.0@
    }
}

impl View for SecretKey {
    type V = Seq<u8>;

    open spec fn view(&self) -> Seq<u8> {
        self.0@
    }
}

impl Clone for SecretKey {
    fn clone(&self) -> (copy: SecretKey)
        ensures
            copy == *self,
    {
        SecretKey(self.0)
    }
}

impl View for Signature {
    type V = Seq<u8>;

    open spec fn view(&self) -> Seq<u8> {
        self.0@
    }
}

} // verus!
