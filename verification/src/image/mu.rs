//! The facade over the runtime for the editor front end: configuration
//! passthrough and the read/compile/eval/load capability surface, with every
//! structured exception rendered to text at this boundary.

use vstd::prelude::*;

use crate::config::{map_ok_at, map_opt_ok_at, map_spec, opt_matches, value_at, Config, ConfigOpt};
use crate::image::core_::{flattened_to, load_flattened_to, short_circuit, Exception, Tag};
use crate::image::env_::Env_;

verus! {

/// The facade: the bootstrap bundle, borrowed by every capability call.
pub struct Mu {
    pub env: Env_,
}

/// Law: evaluating a text is read-then-compile-then-eval with a short
/// circuit. Whatever flattens the short-circuited outcome equals composing
/// the three individually flattened steps, stopping at the first error: a
/// malformed text yields exactly the read exception's rendered text, a text
/// that fails during evaluation exactly the eval exception's.
pub proof fn lemma_eval_string_short_circuit(
    read: Result<Tag, Exception>,
    compile: Result<Tag, Exception>,
    eval: Result<Tag, Exception>,
    r1: Result<Tag, String>,
    r2: Result<Tag, String>,
    r3: Result<Tag, String>,
    r: Result<Tag, String>,
)
    requires
        flattened_to(read, r1),
        flattened_to(compile, r2),
        flattened_to(eval, r3),
        flattened_to(short_circuit(read, compile, eval), r),
    ensures
        match (if r1 is Err {
            r1
        } else if r2 is Err {
            r2
        } else {
            r3
        }) {
            Ok(t) => r matches Ok(t2) && t2 == t,
            Err(s) => r matches Err(s2) && s2@ == s@,
        },
{
}

impl Mu {
    /// Wraps a bootstrap bundle.
    pub fn new(env: Env_) -> (r: Mu)
        ensures
            r.env == env,
    {
        Mu { env }
    }

    /// Looks the key up in the resolved configuration.
    pub fn map_config(&self, name: &str) -> (r: Option<String>)
        requires
            map_ok_at(self.env.config, name@),
        ensures
            match r {
                Some(s) => map_spec(self.env.config, name@) matches Some(t) && s@ == t,
                None => map_spec(self.env.config, name@) is None,
            },
    {
        self.env.config.map(name)
    }

    /// Converts the value at the key to the option model.
    pub fn map_config_opt(&self, name: &str) -> (r: Option<ConfigOpt>)
        requires
            map_opt_ok_at(self.env.config, name@),
        ensures
            match self.env.config {
                Config::Json(tree) => r matches Some(o) && opt_matches(
                    value_at(tree, name@),
                    o,
                ),
                Config::Absent => r is None,
            },
    {
        self.env.config.map_opt(name)
    }

    /// Reports a load: the runtime's success flag passes through, an
    /// exception leaves only its rendered text.
    pub fn load(&self, outcome: Result<bool, Exception>) -> (r: Result<bool, String>)
        ensures
            load_flattened_to(outcome, r),
    {
        match outcome {
            Ok(flag) => Ok(flag),
            Err(e) => Err(e.rendered),
        }
    }

    /// Read-then-compile-then-eval with a short circuit: the first step that
    /// raised decides the result, as its rendered text. Each argument is the
    /// outcome the runtime reported for its step — the compile step applied
    /// to the read result, the eval step to the compile result.
    pub fn eval_string(
        &self,
        read: Result<Tag, Exception>,
        compile: Result<Tag, Exception>,
        eval: Result<Tag, Exception>,
    ) -> (r: Result<Tag, String>)
        ensures
            flattened_to(short_circuit(read, compile, eval), r),
    {
        match read {
            Err(e) => Err(e.rendered),
            Ok(_) => match compile {
                Err(e) => Err(e.rendered),
                Ok(_) => match eval {
                    Err(e) => Err(e.rendered),
                    Ok(t) => Ok(t),
                },
            },
        }
    }

    /// The read step's outcome, exceptions rendered to text.
    pub fn read(&self, outcome: Result<Tag, Exception>) -> (r: Result<Tag, String>)
        ensures
            flattened_to(outcome, r),
    {
        match outcome {
            Ok(t) => Ok(t),
            Err(e) => Err(e.rendered),
        }
    }

    /// The compile step's outcome, exceptions rendered to text.
    pub fn compile(&self, outcome: Result<Tag, Exception>) -> (r: Result<Tag, String>)
        ensures
            flattened_to(outcome, r),
    {
        match outcome {
            Ok(t) => Ok(t),
            Err(e) => Err(e.rendered),
        }
    }

    /// The eval step's outcome, exceptions rendered to text.
    pub fn eval(&self, outcome: Result<Tag, Exception>) -> (r: Result<Tag, String>)
        ensures
            flattened_to(outcome, r),
    {
        match outcome {
            Ok(t) => Ok(t),
            Err(e) => Err(e.rendered),
        }
    }
}

} // verus!
