//! What a scheduler asks of the lights.
use vstd::prelude::*;

verus! {

/// Switch the light at ring position `index` on or off.
#[derive(Clone, Copy, Debug, PartialEq, Eq, Structural)]
pub struct LedCommand {
    pub index: u8,
    pub on: bool,
}

} // verus!
