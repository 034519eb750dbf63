//! The author's name.

use vstd::prelude::*;

verus! {

/// Returns the name `David`.
pub fn my_name() -> (name: String)
    ensures
        name@ == "David"@,
{
    "David".to_string()
}

} // verus!
