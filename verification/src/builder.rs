use vstd::prelude::*;

use crate::value::{Val, ValView};

verus! {

/// The contract every statement builder satisfies: render the statement text
/// and extract the ordered bound values. Both operations are read-only and
/// fully determined by the builder's state, so they may be called any number
/// of times, in any order, and always return the same results.
pub trait SqlBuilder {
    /// The statement text this builder's state renders to.
    spec fn sql_model(&self) -> Seq<char>;

    /// The ordered values this builder's state binds; the i-th of them
    /// belongs to the i-th positional placeholder of the statement text.
    spec fn vals_model(&self) -> Seq<ValView>;

    /// Renders the statement text.
    fn sql(&self) -> (r: String)
        ensures
            r@ == self.sql_model(),
    ;

    /// Extracts the ordered bound values.
    fn vals(&self) -> (r: Vec<Val>)
        ensures
            r.deep_view() == self.vals_model(),
    ;
}

} // verus!
