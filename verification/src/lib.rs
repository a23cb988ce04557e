//! A trait that attaches a constant, human-readable label to a type (not an
//! instance), together with the decision logic of a generator that derives the
//! trait implementation from an annotation attached to the type declaration.

use vstd::prelude::*;

pub mod derive;

verus! {

/// Define a compile-time string label for your type.
///
/// The label describes the type as a concept, not any particular value of it:
/// it is fixed when the implementation is written and never changes.
pub trait Label {
    /// The label your type should have. It's completely static.
    const LABEL: &'static str;

    /// Convenience accessor: returns the type's label from any instance,
    /// so callers with a value in hand need not name the type.
    fn type_label(&self) -> (r: &'static str)
        ensures
            r@ == Self::LABEL@,
    {
        Self::LABEL
    }
}

/// The contract, not the implementing mechanism, determines what a caller
/// sees: whichever way a type came by its `Label` implementation, retrieving
/// the label through the trait yields exactly that type's constant.
pub fn label_of<T: Label>(x: &T) -> (r: &'static str)
    ensures
        r@ == T::LABEL@,
{
    x.type_label()
}

} // verus!
