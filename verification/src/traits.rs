//! The contract that a category set fulfils.

use vstd::prelude::*;

verus! {

/// A closed, finite set of categories, each with a one-byte discriminant and
/// a textual prefix.
///
/// The discriminants of a set are distinct, and `from_discriminant` is the
/// inverse of `discriminant`: it recovers every category from its own byte
/// and answers `None` to every other byte. Identifiers rely on this. An
/// implementation that Verus verifies proves it; of any other, such as the
/// output of a derive, it is taken on trust.
pub trait UuidType: Copy + Clone + Eq + PartialEq + core::fmt::Debug + Sized {
    /// The byte that `discriminant` returns for this category. A verified
    /// implementation gives it a body of its own.
    open spec fn discriminant_spec(&self) -> u8 {
        arbitrary()
    }

    /// The text that `prefix` returns for this category. A verified
    /// implementation gives it a body of its own.
    open spec fn prefix_spec(&self) -> Seq<char> {
        arbitrary()
    }

    /// Returns the byte assigned to this category. No other category of the
    /// set has the same byte.
    fn discriminant(&self) -> (d: u8)
        ensures
            d == self.discriminant_spec(),
            forall|other: Self| #[trigger] other.discriminant_spec() == d ==> other == *self,
    ;

    /// Returns the category with the given discriminant, and `None` where no
    /// category has it. So every category is recovered from its own
    /// discriminant.
    fn from_discriminant(value: u8) -> (r: Option<Self>)
        ensures
            forall|t: Self| #[trigger] t.discriminant_spec() == value ==> r == Some(t),
            (forall|t: Self| #[trigger] t.discriminant_spec() != value) ==> r is None,
    ;

    /// Returns the textual prefix of this category.
    fn prefix(&self) -> (p: &'static str)
        ensures
            p@ == self.prefix_spec(),
    ;
}

} // verus!
