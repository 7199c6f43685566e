use vstd::prelude::*;
use crate::algorithm::{Algorithm, Kind};
use crate::command;
use crate::short_data::{short_data_bytes, short_data_from_slice, ShortData, SHORT_DATA_CAPACITY};

verus! {

/// A credential as it is stored.
#[derive(Clone, Debug, Eq, PartialEq)]
pub struct Credential {
    pub label: ShortData,
    pub kind: Kind,
    pub algorithm: Algorithm,
    pub digits: u8,
    /// The key of the keyed hash. A client may hand over the secret hashed
    /// or padded with zero bytes; either way the keyed hash is the same.
    pub secret: ShortData,
    pub touch_required: bool,
    pub counter: Option<u32>,
}

impl Credential {
    /// Whether `self` holds what `source` carries.
    pub open spec fn holds(&self, source: &command::Credential) -> bool {
        &&& short_data_bytes(self.label) == source.label@
        &&& self.kind == source.kind
        &&& self.algorithm == source.algorithm
        &&& self.digits == source.digits
        &&& short_data_bytes(self.secret) == source.secret@
        &&& self.touch_required == source.touch_required
        &&& self.counter == source.counter
    }

    /// Copies a credential out of a command. Fails where the label or the
    /// secret is longer than `SHORT_DATA_CAPACITY`.
    pub fn try_from(credential: &command::Credential) -> (result: Result<Self, ()>)
        ensures
            result is Ok <==> credential.label@.len() <= SHORT_DATA_CAPACITY
                && credential.secret@.len() <= SHORT_DATA_CAPACITY,
            result matches Ok(stored) ==> stored.holds(credential),
    {
        let label = match short_data_from_slice(credential.label) {
            Ok(label) => label,
            Err(_) => {
                return Err(());
            },
        };
        let secret = match short_data_from_slice(credential.secret) {
            Ok(secret) => secret,
            Err(_) => {
                return Err(());
            },
        };
        Ok(
            Credential {
                label,
                kind: credential.kind,
                algorithm: credential.algorithm,
                digits: credential.digits,
                secret,
                touch_required: credential.touch_required,
                counter: credential.counter,
            },
        )
    }
}

} // verus!
