//! Identities and addressed message envelopes.

use vstd::prelude::*;

verus! {

/// Stable numeric key that addresses one live object.
pub type IdType = u32;

/// A value tagged with the identity of its sender.
#[derive(Clone)]
pub struct SentFrom<T: Clone> {
    pub origin_id: IdType,
    pub data: T,
}

/// Routing envelope: a tagged value and the identity it is addressed to.
#[derive(Clone)]
pub struct SendTo<T: Clone> {
    pub destination_id: IdType,
    pub from: SentFrom<T>,
}

} // verus!
