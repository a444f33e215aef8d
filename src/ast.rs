use vstd::prelude::*;

use crate::location::InputLocation;

verus! {

/// The value that a leaf of the syntax tree holds.
pub trait Value: Sized {
    type Item;

    spec fn item(&self) -> Self::Item;

    fn value(self) -> (r: Self::Item)
        ensures
            r == self.item(),
    ;

    fn value_ref(&self) -> (r: &Self::Item)
        ensures
            *r == self.item(),
    ;
}

/// Where in the source a value was read.
pub trait Location {
    spec fn loc(&self) -> InputLocation;

    fn location(&self) -> (r: &InputLocation)
        ensures
            *r == self.loc(),
    ;
}

} // verus!
