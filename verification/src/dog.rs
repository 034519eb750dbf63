//! A dog: a record of breed and age, with the one thing it can say.

use vstd::prelude::*;

verus! {

/// A dog of some breed and age. The age is in whole years and cannot be
/// negative.
pub struct Dog {
    pub breed: String,
    pub age: u32,
}

impl Dog {
    /// What any dog says, whatever its breed and age.
    pub open spec fn bark_text() -> Seq<char> {
        "bark!"@
    }

    /// The dog barks: returns the line `bark!`, without a line ending.
    pub fn bark(&self) -> (sound: String)
        ensures
            sound@ == Self::bark_text(),
    {
        "bark!".to_string()
    }
}

} // verus!
