//! What everything that goes out to the receiver has in common.

use vstd::prelude::*;

verus! {

/// A message that can be written out for the receiver.
pub trait Message {
    /// The bytes of the message as they travel, without the closing check
    /// value.
    spec fn wire(&self) -> Seq<u8>;

    /// Writes the message out as it travels, without the closing check value.
    fn serialize(&self) -> (raw: Vec<u8>)
        ensures
            raw@ == self.wire(),
    ;
}

} // verus!
