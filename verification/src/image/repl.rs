//! The interactive listener protocol.
//!
//! The loop is `PROMPT → READ → (EOF-as-value | EVAL-USER-FORM | READ-FAILED)
//! → PROMPT`, with two structurally different end-of-input behaviors that
//! must both be preserved: reading the sentinel value succeeds and returns it
//! gracefully, while the read operation raising the end-of-input condition
//! terminates the process abruptly. The driver performs the blocking runtime
//! calls and hands their outcomes in; every decision and every written line
//! is computed here.

use vstd::prelude::*;

use crate::config::str_eq;
use crate::image::core_::{Condition, Exception, Tag};
use crate::image::mu::Mu;

verus! {

/// The one-time session setup: the expression whose value is the cooperative
/// end-of-input sentinel, the flush operation, the namespace-dependent
/// read-and-compile operation, and the prompt.
pub struct ListenerSetup {
    pub eof_expr: String,
    pub flush_expr: String,
    pub read_expr: String,
    pub prompt: String,
}

/// Builds the session setup for a namespace: the base namespace reads with
/// the base grammar, any higher tier with the tier grammar, and the prompt is
/// the namespace label followed by `> `.
pub fn listener_setup(ns: &str) -> (r: ListenerSetup)
    ensures
        r.eof_expr@ == "'%eof%"@,
        r.flush_expr@ == "(mu:flush mu:*standard-output*)"@,
        ns@ == "mu"@ ==> r.read_expr@ == "(mu:compile (mu:read mu:*standard-input* () '%eof%))"@,
        ns@ != "mu"@ ==> r.read_expr@
            == "(core:compile (core:read mu:*standard-input* () '%eof%))"@,
        r.prompt@ == ns@ + "> "@,
{
    let read_expr = if str_eq(ns, "mu") {
        String::from_str("(mu:compile (mu:read mu:*standard-input* () '%eof%))")
    } else {
        String::from_str("(core:compile (core:read mu:*standard-input* () '%eof%))")
    };
    let mut prompt = String::from_str(ns);
    prompt.append("> ");
    ListenerSetup {
        eof_expr: String::from_str("'%eof%"),
        flush_expr: String::from_str("(mu:flush mu:*standard-output*)"),
        read_expr,
        prompt,
    }
}

/// What the read-and-compile step reported: a form (with the runtime's
/// value-equality verdict against the sentinel), or a raised exception.
#[derive(Debug)]
pub enum ReadOutcome {
    Value { form: Tag, is_sentinel: bool },
    Raised(Exception),
}

/// What evaluating a user form reported: the readably-escaped rendering of
/// its value, or a raised exception.
#[derive(Debug)]
pub enum EvalOutcome {
    Value { printed: String },
    Raised(Exception),
}

/// The decision after the read step.
#[derive(Debug)]
pub enum ReadStep {
    /// The sentinel value was read: the loop terminates gracefully.
    ReturnSentinel,
    /// A user form was read: evaluate it.
    Evaluate(Tag),
    /// The read step raised the end-of-input condition: the process
    /// terminates immediately, with status zero.
    ExitProcess,
    /// The read step raised some other condition: report the line on the
    /// error stream and prompt again.
    Recover(String),
}

/// The decision after evaluating a user form; neither is fatal.
#[derive(Debug)]
pub enum EvalStep {
    /// Write the rendering and a newline to standard output.
    Output(String),
    /// Report the line on the error stream.
    Recover(String),
}

/// The text a condition kind renders to.
pub open spec fn condition_text_spec(c: Condition) -> Seq<char> {
    match c {
        Condition::Eof => "Eof"@,
        Condition::Other(s) => s@,
    }
}

/// The error-stream line for an exception raised by evaluating a user form.
pub open spec fn eval_report_spec(e: Exception) -> Seq<char> {
    "exception raised by "@ + e.source@ + ", "@ + condition_text_spec(e.condition)
        + " condition on "@ + e.object@
}

/// The error-stream line for a non-fatal exception raised by the read step.
pub open spec fn read_report_spec(e: Exception) -> Seq<char> {
    "reader exception raised by "@ + e.source@ + ", "@ + condition_text_spec(e.condition)
        + " condition on "@ + e.object@
}

/// Renders a condition kind.
pub fn condition_text(c: &Condition) -> (r: String)
    ensures
        r@ == condition_text_spec(*c),
{
    match c {
        Condition::Eof => String::from_str("Eof"),
        Condition::Other(s) => s.clone(),
    }
}

/// Renders the error-stream line for an exception raised by evaluation.
pub fn render_eval_report(e: &Exception) -> (r: String)
    ensures
        r@ == eval_report_spec(*e),
{
    let mut line = String::from_str("exception raised by ");
    line.append(e.source.as_str());
    line.append(", ");
    let cond = condition_text(&e.condition);
    line.append(cond.as_str());
    line.append(" condition on ");
    line.append(e.object.as_str());
    line
}

/// Renders the error-stream line for a non-fatal exception raised by the
/// read step.
pub fn render_read_report(e: &Exception) -> (r: String)
    ensures
        r@ == read_report_spec(*e),
{
    let mut line = String::from_str("reader exception raised by ");
    line.append(e.source.as_str());
    line.append(", ");
    let cond = condition_text(&e.condition);
    line.append(cond.as_str());
    line.append(" condition on ");
    line.append(e.object.as_str());
    line
}

/// Decides what follows the read step: the sentinel value terminates
/// gracefully; a user form is evaluated next; a raised end-of-input condition
/// terminates the process; any other raised condition is reported and the
/// loop goes on.
pub fn on_read(outcome: ReadOutcome) -> (r: ReadStep)
    ensures
        match outcome {
            ReadOutcome::Value { form, is_sentinel } => if is_sentinel {
                r is ReturnSentinel
            } else {
                r matches ReadStep::Evaluate(f) && f == form
            },
            ReadOutcome::Raised(e) => if e.condition is Eof {
                r is ExitProcess
            } else {
                r matches ReadStep::Recover(line) && line@ == read_report_spec(e)
            },
        },
{
    match outcome {
        ReadOutcome::Value { form, is_sentinel } => {
            if is_sentinel {
                ReadStep::ReturnSentinel
            } else {
                ReadStep::Evaluate(form)
            }
        },
        ReadOutcome::Raised(e) => match e.condition {
            Condition::Eof => ReadStep::ExitProcess,
            Condition::Other(_) => ReadStep::Recover(render_read_report(&e)),
        },
    }
}

/// Decides what follows evaluating a user form: its rendering goes to
/// standard output; a raised exception is reported and the loop goes on —
/// even an end-of-input condition is not fatal here.
pub fn on_eval(outcome: EvalOutcome) -> (r: EvalStep)
    ensures
        match outcome {
            EvalOutcome::Value { printed } => r matches EvalStep::Output(line) && line@
                == printed@,
            EvalOutcome::Raised(e) => r matches EvalStep::Recover(line) && line@
                == eval_report_spec(e),
        },
{
    match outcome {
        EvalOutcome::Value { printed } => EvalStep::Output(printed),
        EvalOutcome::Raised(e) => EvalStep::Recover(render_eval_report(&e)),
    }
}

/// One full prompt/read cycle as the driver observed it: the read step
/// yielded the sentinel, or a user form together with its evaluation outcome,
/// or raised.
#[derive(Debug)]
pub enum Cycle {
    Sentinel,
    Form(Tag, EvalOutcome),
    ReadRaised(Exception),
}

/// How the listener ended: the graceful sentinel return, the abrupt process
/// exit, or the driver's script ran out with the loop still going.
#[derive(Debug)]
pub enum ListenerEnd {
    Sentinel(Tag),
    ProcessExit,
    OutOfScript,
}

/// Everything the listener wrote and how it ended. Each cycle writes the
/// prompt once before its read, so `prompts` counts the cycles begun.
#[derive(Debug)]
pub struct Transcript {
    pub prompts: usize,
    pub stdout_lines: Vec<String>,
    pub stderr_lines: Vec<String>,
    pub end: ListenerEnd,
}

/// A cycle on which the loop stops: the sentinel value, or a raised
/// end-of-input condition.
pub open spec fn cycle_stops(c: Cycle) -> bool {
    ||| c is Sentinel
    ||| (c matches Cycle::ReadRaised(e) && e.condition is Eof)
}

/// The position of the first stopping cycle, if any.
pub open spec fn stop_index(script: Seq<Cycle>) -> Option<int>
    decreases script.len(),
{
    if script.len() == 0 {
        None
    } else if cycle_stops(script[0]) {
        Some(0)
    } else {
        match stop_index(script.drop_first()) {
            Some(i) => Some(i + 1),
            None => None,
        }
    }
}

/// The cycles the listener works through before it stops.
pub open spec fn processed(script: Seq<Cycle>) -> Seq<Cycle> {
    match stop_index(script) {
        Some(k) => script.subrange(0, k),
        None => script,
    }
}

/// How many prompts the listener writes: one per cycle begun, the stopping
/// cycle included.
pub open spec fn prompts_spec(script: Seq<Cycle>) -> int {
    match stop_index(script) {
        Some(k) => k + 1,
        None => script.len() as int,
    }
}

/// How the listener ends on a script.
pub open spec fn end_spec(script: Seq<Cycle>, eof_value: Tag) -> ListenerEnd {
    match stop_index(script) {
        Some(k) => if script[k] is Sentinel {
            ListenerEnd::Sentinel(eof_value)
        } else {
            ListenerEnd::ProcessExit
        },
        None => ListenerEnd::OutOfScript,
    }
}

/// The standard-output lines of a run of cycles: one rendering per
/// successfully evaluated user form, in order.
pub open spec fn stdout_of(cycles: Seq<Cycle>) -> Seq<Seq<char>>
    decreases cycles.len(),
{
    if cycles.len() == 0 {
        Seq::empty()
    } else {
        stdout_of(cycles.drop_last()) + (match cycles.last() {
            Cycle::Form(_, EvalOutcome::Value { printed }) => seq![printed@],
            _ => Seq::<Seq<char>>::empty(),
        })
    }
}

/// The error-stream lines of a run of cycles: one report per exception that
/// was recovered from, in order.
pub open spec fn stderr_of(cycles: Seq<Cycle>) -> Seq<Seq<char>>
    decreases cycles.len(),
{
    if cycles.len() == 0 {
        Seq::empty()
    } else {
        stderr_of(cycles.drop_last()) + (match cycles.last() {
            Cycle::Form(_, EvalOutcome::Raised(e)) => seq![eval_report_spec(e)],
            Cycle::ReadRaised(e) => if e.condition is Eof {
                Seq::<Seq<char>>::empty()
            } else {
                seq![read_report_spec(e)]
            },
            _ => Seq::<Seq<char>>::empty(),
        })
    }
}

/// The owned lines hold exactly these texts, in order.
pub open spec fn lines_match(lines: Seq<String>, texts: Seq<Seq<char>>) -> bool {
    lines.len() == texts.len() && (forall|i: int|
        0 <= i < lines.len() ==> #[trigger] lines[i]@ == texts[i])
}

proof fn lemma_stop_index_at(script: Seq<Cycle>, k: int)
    requires
        0 <= k < script.len(),
        forall|j: int| 0 <= j < k ==> !cycle_stops(#[trigger] script[j]),
        cycle_stops(script[k]),
    ensures
        stop_index(script) == Some(k),
    decreases k,
{
    if k > 0 {
        lemma_stop_index_at(script.drop_first(), k - 1);
    }
}

proof fn lemma_stop_index_absent(script: Seq<Cycle>)
    requires
        forall|j: int| 0 <= j < script.len() ==> !cycle_stops(#[trigger] script[j]),
    ensures
        stop_index(script) is None,
    decreases script.len(),
{
    if script.len() > 0 {
        lemma_stop_index_absent(script.drop_first());
    }
}

/// Law (graceful end of input): a session whose first read yields the
/// sentinel value ends at once with the sentinel as its result, after the one
/// prompt already written — no further prompt/read cycle happens and nothing
/// is written.
pub proof fn lemma_sentinel_returns_immediately(script: Seq<Cycle>, eof_value: Tag)
    requires
        script.len() > 0,
        script[0] is Sentinel,
    ensures
        prompts_spec(script) == 1,
        end_spec(script, eof_value) == ListenerEnd::Sentinel(eof_value),
        stdout_of(processed(script)) =~~= Seq::<Seq<char>>::empty(),
        stderr_of(processed(script)) =~~= Seq::<Seq<char>>::empty(),
{
    assert(stop_index(script) == Some(0int));
    assert(processed(script) =~= Seq::<Cycle>::empty());
}

/// Law (abrupt end of input): a session whose first read raises the
/// end-of-input condition terminates the process at once — no further prompt
/// is written and nothing is reported.
pub proof fn lemma_end_of_input_exits_immediately(script: Seq<Cycle>, eof_value: Tag, e: Exception)
    requires
        script.len() > 0,
        script[0] == Cycle::ReadRaised(e),
        e.condition is Eof,
    ensures
        prompts_spec(script) == 1,
        end_spec(script, eof_value) == ListenerEnd::ProcessExit,
        stdout_of(processed(script)) =~~= Seq::<Seq<char>>::empty(),
        stderr_of(processed(script)) =~~= Seq::<Seq<char>>::empty(),
{
    assert(stop_index(script) == Some(0int));
    assert(processed(script) =~= Seq::<Cycle>::empty());
}

/// Runs the listener loop over the cycles the driver observed: each cycle is
/// one prompt and one read; the sentinel value returns gracefully, a raised
/// end-of-input condition exits the process, everything else is written or
/// reported and the loop goes on.
#[verifier::loop_isolation(false)]
pub fn run_listener(eof_value: Tag, script: &Vec<Cycle>) -> (r: Transcript)
    ensures
        r.prompts == prompts_spec(script@),
        r.end == end_spec(script@, eof_value),
        lines_match(r.stdout_lines@, stdout_of(processed(script@))),
        lines_match(r.stderr_lines@, stderr_of(processed(script@))),
{
    let mut stdout_lines: Vec<String> = Vec::new();
    let mut stderr_lines: Vec<String> = Vec::new();
    let mut i: usize = 0;
    while i < script.len()
        invariant
            0 <= i <= script@.len(),
            forall|j: int| 0 <= j < i ==> !cycle_stops(#[trigger] script@[j]),
            lines_match(stdout_lines@, stdout_of(script@.subrange(0, i as int))),
            lines_match(stderr_lines@, stderr_of(script@.subrange(0, i as int))),
        decreases script@.len() - i,
    {
        match &script[i] {
            Cycle::Sentinel => {
                proof {
                    lemma_stop_index_at(script@, i as int);
                }
                return Transcript {
                    prompts: i + 1,
                    stdout_lines,
                    stderr_lines,
                    end: ListenerEnd::Sentinel(eof_value),
                };
            },
            Cycle::Form(_, outcome) => {
                match outcome {
                    EvalOutcome::Value { printed } => {
                        stdout_lines.push(printed.clone());
                    },
                    EvalOutcome::Raised(e) => {
                        stderr_lines.push(render_eval_report(e));
                    },
                }
            },
            Cycle::ReadRaised(e) => {
                match &e.condition {
                    Condition::Eof => {
                        proof {
                            lemma_stop_index_at(script@, i as int);
                        }
                        return Transcript {
                            prompts: i + 1,
                            stdout_lines,
                            stderr_lines,
                            end: ListenerEnd::ProcessExit,
                        };
                    },
                    Condition::Other(_) => {
                        stderr_lines.push(render_read_report(e));
                    },
                }
            },
        }
        proof {
            assert(script@.subrange(0, i + 1).drop_last() =~= script@.subrange(0, i as int));
            assert(script@.subrange(0, i + 1).last() == script@[i as int]);
        }
        i = i + 1;
    }
    proof {
        lemma_stop_index_absent(script@);
        assert(script@.subrange(0, script@.len() as int) =~= script@);
    }
    Transcript { prompts: i, stdout_lines, stderr_lines, end: ListenerEnd::OutOfScript }
}

/// The listener as a capability of the facade.
pub trait Repl {
    /// Drives the listener loop over the observed cycles.
    fn listener(&self, eof_value: Tag, script: &Vec<Cycle>) -> (r: Transcript)
        ensures
            r.prompts == prompts_spec(script@),
            r.end == end_spec(script@, eof_value),
            lines_match(r.stdout_lines@, stdout_of(processed(script@))),
            lines_match(r.stderr_lines@, stderr_of(processed(script@))),
    ;
}

impl Repl for Mu {
    fn listener(&self, eof_value: Tag, script: &Vec<Cycle>) -> (r: Transcript) {
        run_listener(eof_value, script)
    }
}

} // verus!
