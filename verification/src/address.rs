//! Account addresses.
//!
//! An address is held as its textual strkey (for example `G...`). The Stellar
//! zero address is the sentinel that every contract refuses as a parameter.
use vstd::prelude::*;

verus! {

/// The Stellar zero/default address.
pub const ZERO_ADDRESS: &'static str = "GAAAAAAAAAAAAAAAAAAAAAAAAAAAAAAAAAAAAAAAAAAAAAAAAAAAAWHF";

/// Whether `addr` is the zero address.
pub open spec fn spec_is_zero_address(addr: Seq<char>) -> bool {
    addr == ZERO_ADDRESS@
}

/// Returns whether `addr` is the zero address.
pub fn is_zero_address(addr: &String) -> (r: bool)
    ensures
        r == spec_is_zero_address(addr@),
{
    let zero = ZERO_ADDRESS.to_owned();
    *addr == zero
}

} // verus!
