//! The standalone listener's session bundle. Inspection is not implemented
//! yet: every form renders to the empty text.

use vstd::prelude::*;

use crate::image::core_::Tag;
use crate::image::env_::Env_;
use crate::image::repl::{run_listener, Cycle, Repl, Transcript};

verus! {

/// The standalone listener's session: the bootstrap bundle it drives the
/// listener over.
pub struct Inspector {
    pub env: Env_,
}

impl Inspector {
    /// Wraps a bootstrap bundle.
    pub fn new(env: Env_) -> (r: Inspector)
        ensures
            r.env == env,
    {
        Inspector { env }
    }

    /// The rendering of an inspected form.
    pub fn inspect(&self, _form: Tag) -> (r: String)
        ensures
            r@ == Seq::<char>::empty(),
    {
        String::new()
    }
}

impl Repl for Inspector {
    fn listener(&self, eof_value: Tag, script: &Vec<Cycle>) -> (r: Transcript) {
        run_listener(eof_value, script)
    }
}

} // verus!
