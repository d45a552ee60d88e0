//! Symbol browsing over the loaded environment. Browsing is not implemented
//! yet: every selection renders to the empty text.

use vstd::prelude::*;

use crate::image::core_::Tag;
use crate::image::mu::Mu;

verus! {

/// Browsing capability over a loaded environment.
pub trait Browser {
    /// The rendering of a browsed selection.
    fn browse(&self, form: Tag) -> (r: String)
        ensures
            r@ == Seq::<char>::empty(),
    ;
}

impl Browser for Mu {
    fn browse(&self, _form: Tag) -> (r: String) {
        String::new()
    }
}

} // verus!
