//! Serialization strategies. The library names them; the encoding itself is
//! done around the library, where the values' serde implementations live.

use vstd::prelude::*;

verus! {

/// Serialization with bincode.
pub struct Bincode;

impl Clone for Bincode {
    fn clone(&self) -> (r: Bincode) {
        Bincode
    }
}

impl Default for Bincode {
    fn default() -> (r: Bincode) {
        Bincode
    }
}

} // verus!
