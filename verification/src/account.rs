//! Caller identities.

use vstd::prelude::*;

verus! {

/// The identity of a caller, as the hosting environment supplies it: 32
/// opaque bytes. The library never interprets or validates them.
#[derive(Clone, Copy, Debug, PartialEq, Eq, PartialOrd, Ord, Hash)]
pub struct AccountId(pub [u8; 32]);

impl View for AccountId {
    type V = Seq<u8>;

    open spec fn view(&self) -> Seq<u8> {
        self.0@
    }
}

} // verus!
