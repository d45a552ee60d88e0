//! Session bootstrap: turning a resolved configuration into a strictly
//! ordered plan — environment overlay, namespace tier, the tier's image-load
//! sequence, and an optional run-control script — and the fail-fast rules for
//! executing the plan. Any failure while executing the plan is fatal: a
//! partially initialized environment is unsafe to expose, so the driver exits
//! with the diagnostic these functions hand it.

use vstd::prelude::*;

use crate::config::{map_ok_at, map_spec, str_eq, Config};
use crate::image::core_::EnvHandle;

verus! {

/// The bootstrap result: the environment handle bundled with the resolved
/// configuration and the resolved namespace label, shared for the process's
/// lifetime by the listener and the status line.
pub struct Env_ {
    pub env: EnvHandle,
    pub config: Config,
    pub ns: String,
}

impl Env_ {
    /// Bundles a constructed environment with what it was constructed from.
    pub fn new(env: EnvHandle, config: Config, ns: String) -> (r: Env_)
        ensures
            r.env == env,
            r.config == config,
            r.ns == ns,
    {
        Env_ { env, config, ns }
    }
}

/// A strictly ordered bootstrap plan.
#[derive(Debug)]
pub struct BootPlan {
    /// The overlay string the environment is constructed with, when the
    /// `config` key holds one.
    pub overlay: Option<String>,
    /// The resolved namespace label.
    pub ns: String,
    /// The image filenames to load, in order; loading halts at the first
    /// failure.
    pub images: Vec<String>,
    /// The run-control source to load after the images, when the `rc` key
    /// names one.
    pub rc: Option<String>,
}

/// Whether an optional owned string holds exactly an optional text.
pub open spec fn opt_string_is(s: Option<String>, t: Option<Seq<char>>) -> bool {
    match (s, t) {
        (Some(a), Some(b)) => a@ == b,
        (None, None) => true,
        _ => false,
    }
}

/// The namespace the configuration selects; `mu` when none is configured.
pub open spec fn namespace_of(config: Config) -> Seq<char> {
    match map_spec(config, "namespace"@) {
        Some(ns) => ns,
        None => "mu"@,
    }
}

/// The fixed, non-cumulative image sequence of each namespace tier, or none
/// for an unrecognized namespace.
pub open spec fn images_for(ns: Seq<char>) -> Option<Seq<Seq<char>>> {
    if ns == "mu"@ {
        Some(Seq::<Seq<char>>::empty())
    } else if ns == "core"@ {
        Some(seq!["core.sys"@])
    } else if ns == "common"@ {
        Some(seq!["core.sys"@, "common.fasl"@])
    } else if ns == "prelude"@ {
        Some(seq!["core.sys"@, "prelude.fasl"@])
    } else {
        None
    }
}

/// Law: the four recognized namespaces load exactly their fixed image
/// sequences, in order, and only those four are recognized.
pub proof fn lemma_namespace_image_sequences(ns: Seq<char>)
    ensures
        images_for("mu"@) == Some(Seq::<Seq<char>>::empty()),
        images_for("core"@) matches Some(s) && s =~~= seq!["core.sys"@],
        images_for("common"@) matches Some(s) && s =~~= seq!["core.sys"@, "common.fasl"@],
        images_for("prelude"@) matches Some(s) && s =~~= seq!["core.sys"@, "prelude.fasl"@],
        ns != "mu"@ && ns != "core"@ && ns != "common"@ && ns != "prelude"@ ==> images_for(ns)
            is None,
{
    reveal_strlit("mu");
    reveal_strlit("core");
    reveal_strlit("common");
    reveal_strlit("prelude");
    assert("mu"@.len() == 2);
    assert("core"@.len() == 4);
    assert("common"@.len() == 6);
    assert("prelude"@.len() == 7);
}

/// Law: a configured namespace outside the four tiers has no image sequence,
/// so [`bootstrap_plan`] yields its fatal diagnostic and no plan — the
/// process terminates before any environment handle is returned.
pub proof fn lemma_unrecognized_namespace_is_fatal(config: Config, ns: Seq<char>)
    requires
        map_spec(config, "namespace"@) == Some(ns),
        ns != "mu"@,
        ns != "core"@,
        ns != "common"@,
        ns != "prelude"@,
    ensures
        images_for(namespace_of(config)) is None,
{
}

/// Computes the bootstrap plan. An unrecognized namespace yields the fatal
/// diagnostic naming it: the driver must exit with a non-zero status without
/// constructing an environment.
pub fn bootstrap_plan(config: &Config) -> (r: Result<BootPlan, String>)
    requires
        map_ok_at(*config, "config"@),
        map_ok_at(*config, "namespace"@),
        map_ok_at(*config, "rc"@),
    ensures
        match r {
            Ok(plan) => {
                &&& images_for(namespace_of(*config)) matches Some(imgs) && plan.images@.len()
                    == imgs.len() && (forall|i: int|
                    0 <= i < imgs.len() ==> #[trigger] plan.images@[i]@ == imgs[i])
                &&& plan.ns@ == namespace_of(*config)
                &&& opt_string_is(plan.overlay, map_spec(*config, "config"@))
                &&& opt_string_is(plan.rc, map_spec(*config, "rc"@))
            },
            Err(diag) => {
                &&& images_for(namespace_of(*config)) is None
                &&& diag@ == "listener: unrecognized namespace: "@ + namespace_of(*config)
            },
        },
{
    let overlay = config.map("config");
    let rc = config.map("rc");
    let ns: String = match config.map("namespace") {
        Some(value) => value,
        None => String::from_str("mu"),
    };
    let mut images: Vec<String> = Vec::new();
    if str_eq(ns.as_str(), "mu") {
        Ok(BootPlan { overlay, ns, images, rc })
    } else if str_eq(ns.as_str(), "core") {
        images.push(String::from_str("core.sys"));
        Ok(BootPlan { overlay, ns, images, rc })
    } else if str_eq(ns.as_str(), "common") {
        images.push(String::from_str("core.sys"));
        images.push(String::from_str("common.fasl"));
        Ok(BootPlan { overlay, ns, images, rc })
    } else if str_eq(ns.as_str(), "prelude") {
        images.push(String::from_str("core.sys"));
        images.push(String::from_str("prelude.fasl"));
        Ok(BootPlan { overlay, ns, images, rc })
    } else {
        let mut diag = String::from_str("listener: unrecognized namespace: ");
        diag.append(ns.as_str());
        Err(diag)
    }
}

/// The fixed directory images are resolved from: an environment assumption,
/// not user-configurable.
pub fn image_path(name: &str) -> (r: String)
    ensures
        r@ == "/opt/mu/lib/"@ + name@,
{
    let mut path = String::from_str("/opt/mu/lib/");
    path.append(name);
    path
}

/// What the driver observed for one image or run-control load: the runtime's
/// success flag, or the rendered text of the exception it raised.
#[derive(Debug)]
pub enum LoadOutcome {
    Loaded(bool),
    Raised(String),
}

/// A load outcome that lets the bootstrap go on.
pub open spec fn load_ok(outcome: LoadOutcome) -> bool {
    outcome matches LoadOutcome::Loaded(true)
}

/// The fatal diagnostic a failed image load owes, if any.
pub open spec fn load_diag_spec(name: Seq<char>, outcome: LoadOutcome) -> Option<Seq<char>> {
    match outcome {
        LoadOutcome::Loaded(flag) => if flag {
            None
        } else {
            Some("listener: can't load "@ + name)
        },
        LoadOutcome::Raised(e) => Some(
            "listener: exception while loading "@ + name + ": "@ + e@,
        ),
    }
}

/// Judges one image load: nothing to do on success, else the fatal diagnostic
/// naming the failing image.
pub fn load_sys_decision(name: &str, outcome: &LoadOutcome) -> (r: Option<String>)
    ensures
        match r {
            Some(diag) => load_diag_spec(name@, *outcome) matches Some(d) && diag@ == d,
            None => load_diag_spec(name@, *outcome) is None,
        },
{
    match outcome {
        LoadOutcome::Loaded(flag) => {
            if *flag {
                None
            } else {
                let mut diag = String::from_str("listener: can't load ");
                diag.append(name);
                Some(diag)
            }
        },
        LoadOutcome::Raised(e) => {
            let mut diag = String::from_str("listener: exception while loading ");
            diag.append(name);
            diag.append(": ");
            diag.append(e.as_str());
            Some(diag)
        },
    }
}

/// The fatal diagnostic a failed run-control load owes, if any: like an
/// image load, any failure — a false success flag or a raised exception — is
/// fatal.
pub open spec fn rc_diag_spec(rc: Seq<char>, outcome: LoadOutcome) -> Option<Seq<char>> {
    match outcome {
        LoadOutcome::Loaded(flag) => if flag {
            None
        } else {
            Some("core-cli: can't load rc file "@ + rc)
        },
        LoadOutcome::Raised(e) => Some("core-cli: can't load rc file "@ + rc + ": "@ + e@),
    }
}

/// Judges the run-control load: nothing to do on success, else the fatal
/// diagnostic naming the run-control source.
pub fn rc_decision(rc: &str, outcome: &LoadOutcome) -> (r: Option<String>)
    ensures
        match r {
            Some(diag) => rc_diag_spec(rc@, *outcome) matches Some(d) && diag@ == d,
            None => rc_diag_spec(rc@, *outcome) is None,
        },
{
    match outcome {
        LoadOutcome::Loaded(flag) => {
            if *flag {
                None
            } else {
                let mut diag = String::from_str("core-cli: can't load rc file ");
                diag.append(rc);
                Some(diag)
            }
        },
        LoadOutcome::Raised(e) => {
            let mut diag = String::from_str("core-cli: can't load rc file ");
            diag.append(rc);
            diag.append(": ");
            diag.append(e.as_str());
            Some(diag)
        },
    }
}

/// The first failing position among the load outcomes, if any.
pub open spec fn first_failure(outcomes: Seq<LoadOutcome>) -> Option<int>
    decreases outcomes.len(),
{
    if outcomes.len() == 0 {
        None
    } else if !load_ok(outcomes[0]) {
        Some(0)
    } else {
        match first_failure(outcomes.drop_first()) {
            Some(i) => Some(i + 1),
            None => None,
        }
    }
}

/// How executing the image sequence ended: all images loaded, or loading
/// halted at the first failure after `attempted` load calls, with the fatal
/// diagnostic.
#[derive(Debug)]
pub enum ImageRun {
    Completed,
    Fatal { attempted: usize, diagnostic: String },
}

proof fn lemma_first_failure_at(outcomes: Seq<LoadOutcome>, k: int)
    requires
        0 <= k < outcomes.len(),
        forall|j: int| 0 <= j < k ==> load_ok(#[trigger] outcomes[j]),
        !load_ok(outcomes[k]),
    ensures
        first_failure(outcomes) == Some(k),
    decreases k,
{
    if k > 0 {
        lemma_first_failure_at(outcomes.drop_first(), k - 1);
    }
}

proof fn lemma_first_failure_absent(outcomes: Seq<LoadOutcome>)
    requires
        forall|j: int| 0 <= j < outcomes.len() ==> load_ok(#[trigger] outcomes[j]),
    ensures
        first_failure(outcomes) is None,
    decreases outcomes.len(),
{
    if outcomes.len() > 0 {
        lemma_first_failure_absent(outcomes.drop_first());
    }
}

/// Replays the image loads the driver performed against the planned sequence:
/// loading proceeds in order and halts at the first outcome that is not a
/// successful load, which is fatal with its diagnostic. `outcomes[i]` is what
/// the driver observed for `images[i]`.
#[verifier::loop_isolation(false)]
pub fn run_image_loads(images: &Vec<String>, outcomes: &Vec<LoadOutcome>) -> (r: ImageRun)
    requires
        images@.len() == outcomes@.len(),
    ensures
        match first_failure(outcomes@) {
            Some(k) => r matches ImageRun::Fatal { attempted, diagnostic } && attempted == k + 1
                && (load_diag_spec(images@[k]@, outcomes@[k]) matches Some(d) && diagnostic@
                == d),
            None => r is Completed,
        },
{
    let mut i: usize = 0;
    while i < images.len()
        invariant
            0 <= i <= images@.len(),
            forall|j: int| 0 <= j < i ==> load_ok(#[trigger] outcomes@[j]),
        decreases images@.len() - i,
    {
        match load_sys_decision(images[i].as_str(), &outcomes[i]) {
            Some(diagnostic) => {
                proof {
                    lemma_first_failure_at(outcomes@, i as int);
                }
                return ImageRun::Fatal { attempted: i + 1, diagnostic };
            },
            None => {
                i = i + 1;
            },
        }
    }
    proof {
        lemma_first_failure_absent(outcomes@);
    }
    ImageRun::Completed
}

} // verus!
