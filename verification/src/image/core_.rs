//! The model of values crossing the runtime boundary, and the facade's
//! capability surface.
//!
//! The runtime hands back opaque form handles and structured exceptions. A
//! handle is modelled by [`Tag`]; an exception by [`Exception`], whose texts
//! are the renderings the runtime produced for it. The facade converts every
//! exception to its rendered text: callers above it can only observe text,
//! never branch on the structure — a deliberate loss.

use vstd::prelude::*;

use crate::image::mu::Mu;

verus! {

/// An opaque handle to a runtime value (a form). The runtime alone gives
/// these out; the library only carries them.
#[derive(Clone, Copy, PartialEq, Eq, Structural, Debug)]
pub struct Tag {
    pub handle: u64,
}

/// An opaque handle to a runtime environment, exclusively owned by the
/// bootstrap result for the process's lifetime.
#[derive(Clone, Copy, PartialEq, Eq, Structural, Debug)]
pub struct EnvHandle {
    pub id: u64,
}

/// The condition kind an exception carries. End of input is distinguished:
/// the listener's read step treats it as fatal.
#[derive(Debug)]
pub enum Condition {
    Eof,
    Other(String),
}

/// A structured exception as it crosses out of the runtime. `source` and
/// `object` hold the runtime's readably-escaped renderings of the source
/// expression and the offending object; `rendered` holds the runtime's
/// rendering of the exception as a whole.
#[derive(Debug)]
pub struct Exception {
    pub source: String,
    pub condition: Condition,
    pub object: String,
    pub rendered: String,
}

/// How the facade flattens a structured outcome to text: a value passes
/// through, an exception leaves only its rendered text.
pub open spec fn flattened_to(outcome: Result<Tag, Exception>, r: Result<Tag, String>) -> bool {
    match outcome {
        Ok(t) => r matches Ok(t2) && t2 == t,
        Err(e) => r matches Err(s) && s@ == e.rendered@,
    }
}

/// How the facade reports a load: the runtime's success flag passes through,
/// an exception leaves only its rendered text.
pub open spec fn load_flattened_to(outcome: Result<bool, Exception>, r: Result<bool, String>) -> bool {
    match outcome {
        Ok(flag) => r matches Ok(b) && b == flag,
        Err(e) => r matches Err(s) && s@ == e.rendered@,
    }
}

/// Read-then-compile-then-eval with a short circuit at the first exception.
/// Each argument is the outcome the runtime reported for its step, the
/// compile step applied to the read result and the eval step to the compile
/// result.
pub open spec fn short_circuit(
    read: Result<Tag, Exception>,
    compile: Result<Tag, Exception>,
    eval: Result<Tag, Exception>,
) -> Result<Tag, Exception> {
    if read is Err {
        read
    } else if compile is Err {
        compile
    } else {
        eval
    }
}

/// The facade's capability surface over the runtime's primitives. Each method
/// takes the outcome the runtime reported and converts it to the caller-facing
/// form, rendering exceptions to text.
pub trait Core {
    /// Reports a load: the success flag passes through, an exception becomes
    /// its text.
    fn load(&self, outcome: Result<bool, Exception>) -> (r: Result<bool, String>)
        ensures
            load_flattened_to(outcome, r),
    ;

    /// Read-then-compile-then-eval with short circuit: the first exception's
    /// rendered text is the result.
    fn eval_string(
        &self,
        read: Result<Tag, Exception>,
        compile: Result<Tag, Exception>,
        eval: Result<Tag, Exception>,
    ) -> (r: Result<Tag, String>)
        ensures
            flattened_to(short_circuit(read, compile, eval), r),
    ;

    /// The read step's outcome, exceptions rendered to text.
    fn read(&self, outcome: Result<Tag, Exception>) -> (r: Result<Tag, String>)
        ensures
            flattened_to(outcome, r),
    ;

    /// The compile step's outcome, exceptions rendered to text.
    fn compile(&self, outcome: Result<Tag, Exception>) -> (r: Result<Tag, String>)
        ensures
            flattened_to(outcome, r),
    ;

    /// The eval step's outcome, exceptions rendered to text.
    fn eval(&self, outcome: Result<Tag, Exception>) -> (r: Result<Tag, String>)
        ensures
            flattened_to(outcome, r),
    ;
}

impl Core for Mu {
    fn load(&self, outcome: Result<bool, Exception>) -> (r: Result<bool, String>) {
        Mu::load(self, outcome)
    }

    fn eval_string(
        &self,
        read: Result<Tag, Exception>,
        compile: Result<Tag, Exception>,
        eval: Result<Tag, Exception>,
    ) -> (r: Result<Tag, String>) {
        Mu::eval_string(self, read, compile, eval)
    }

    fn read(&self, outcome: Result<Tag, Exception>) -> (r: Result<Tag, String>) {
        Mu::read(self, outcome)
    }

    fn compile(&self, outcome: Result<Tag, Exception>) -> (r: Result<Tag, String>) {
        Mu::compile(self, outcome)
    }

    fn eval(&self, outcome: Result<Tag, Exception>) -> (r: Result<Tag, String>) {
        Mu::eval(self, outcome)
    }
}

} // verus!
