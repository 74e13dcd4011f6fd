//! Text that goes to the engine as a C string.

use vstd::prelude::*;
use vstd::string::*;

verus! {

/// The bytes hold no zero, so they can be handed over with a zero behind
/// them.
pub open spec fn zero_free(bytes: Seq<u8>) -> bool {
    forall|i: int| 0 <= i < bytes.len() ==> bytes[i] != 0
}

/// Whether `text` can go to the engine as a C string.
pub fn is_c_string(text: &str) -> (r: bool)
    ensures
        r == zero_free(text.spec_bytes()),
{
    let bytes = text.as_bytes();
    let mut i: usize = 0;
    while i < bytes.len()
        invariant
            i <= bytes@.len(),
            bytes@ == text.spec_bytes(),
            forall|j: int| 0 <= j < i ==> bytes@[j] != 0,
        decreases bytes@.len() - i,
    {
        if bytes[i] == 0 {
            assert(text.spec_bytes()[i as int] == 0);
            return false;
        }
        i += 1;
    }
    true
}

} // verus!
