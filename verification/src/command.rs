use vstd::prelude::*;
use crate::algorithm::{Algorithm, Kind};

verus! {

/// A credential as a command carries it: label and secret still lie in the
/// command's own bytes.
#[derive(Clone, Copy, Debug, PartialEq, Eq)]
pub struct Credential<'a> {
    pub label: &'a [u8],
    pub kind: Kind,
    pub algorithm: Algorithm,
    pub digits: u8,
    pub secret: &'a [u8],
    pub touch_required: bool,
    pub counter: Option<u32>,
}

} // verus!
