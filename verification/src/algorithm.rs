use vstd::prelude::*;

verus! {

/// The keyed-hash function a credential is bound to.
#[derive(Clone, Copy, Debug, PartialEq, Eq, Structural)]
pub enum Algorithm {
    Sha1,
    Sha256,
    Sha512,
}

/// Whether a credential is driven by a counter or by the clock.
#[derive(Clone, Copy, Debug, PartialEq, Eq, Structural)]
pub enum Kind {
    Hotp,
    Totp,
}

/// The keyed-hash operations a backend has to offer.
#[derive(Clone, Copy, Debug, PartialEq, Eq, Structural)]
pub enum Mac {
    HmacSha1,
    HmacSha256,
}

impl Algorithm {
    /// Length in bytes of the digest that the algorithm's keyed hash yields.
    pub open spec fn digest_size(self) -> nat {
        match self {
            Algorithm::Sha1 => 20,
            Algorithm::Sha256 => 32,
            Algorithm::Sha512 => 64,
        }
    }
}

} // verus!
