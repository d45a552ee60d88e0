//! The status line: a derived, read-only summary of the loaded environment.
//!
//! It always carries the runtime's version. When a namespace is configured it
//! also carries that namespace's module version, obtained by evaluating a
//! fixed introspection expression, and one fragment per entry of the
//! configuration's `modules` array, in order; with no namespace configured it
//! carries the disabled-browsing notice instead and no module fragments, even
//! when `modules` is present. The driver evaluates the planned queries against
//! the runtime and hands the version texts back for assembly.

use vstd::prelude::*;

use crate::config::{map_ok_at, map_spec, value_at, Config};
use crate::json_data::JsonData;

verus! {

/// The assembled status line.
pub struct StatusLine {
    pub mu_version: String,
    pub core_version: String,
    pub module_versions: String,
}

/// The fixed introspection expression for the configured namespace's module
/// version.
pub fn core_version_query() -> (r: String)
    ensures
        r@ == "(mu:cdr (core:assq 'version core:%sys-def))"@,
{
    String::from_str("(mu:cdr (core:assq 'version core:%sys-def))")
}

/// The per-module introspection expression for a module namespace prefix.
pub open spec fn module_query_spec(prefix: Seq<char>) -> Seq<char> {
    "(mu:cdr (core:assq 'version "@ + prefix + ":%sys-def))"@
}

/// Builds the per-module introspection expression.
pub fn module_query(prefix: &str) -> (r: String)
    ensures
        r@ == module_query_spec(prefix@),
{
    let mut q = String::from_str("(mu:cdr (core:assq 'version ");
    q.append(prefix);
    q.append(":%sys-def))");
    q
}

/// Strips a module entry's fixed five-character image suffix (`.fasl`),
/// leaving its namespace prefix.
pub fn module_prefix(entry: &str) -> (r: String)
    requires
        entry@.len() >= 5,
    ensures
        r@ == entry@.subrange(0, entry@.len() - 5),
{
    let len = entry.unicode_len();
    let stripped = entry.substring_char(0, len - 5);
    stripped.to_owned()
}

/// A text leaf's characters.
pub open spec fn text_of(value: JsonData) -> Seq<char> {
    match value {
        JsonData::Text(s) => s@,
        _ => Seq::empty(),
    }
}

/// The admissible shapes of the `modules` value: missing, or an array whose
/// entries are all texts long enough to carry the five-character suffix.
/// Anything else is a contract violation.
pub open spec fn modules_value_ok(value: JsonData) -> bool {
    match value {
        JsonData::Null => true,
        JsonData::Array(elems) => forall|i: int|
            0 <= i < elems@.len() ==> ((#[trigger] elems@[i]) matches JsonData::Text(s) && s@.len()
                >= 5),
        _ => false,
    }
}

/// The admissible inputs of [`status_queries`] as far as `modules` goes.
pub open spec fn modules_ok_at(config: Config) -> bool {
    match config {
        Config::Json(tree) => modules_value_ok(value_at(tree, "modules"@)),
        Config::Absent => true,
    }
}

/// The configured module entries, in order; empty when none are configured.
pub open spec fn module_entries_spec(config: Config) -> Seq<Seq<char>> {
    match config {
        Config::Json(tree) => match value_at(tree, "modules"@) {
            JsonData::Array(elems) => Seq::new(elems@.len(), |i: int| text_of(elems@[i])),
            _ => Seq::empty(),
        },
        Config::Absent => Seq::empty(),
    }
}

/// An entry's namespace prefix: the entry without its five-character suffix.
pub open spec fn prefix_spec(entry: Seq<char>) -> Seq<char> {
    entry.subrange(0, entry.len() - 5)
}

/// One planned per-module introspection: the module's namespace prefix and
/// the expression to evaluate for its version.
pub struct ModuleQuery {
    pub prefix: String,
    pub query: String,
}

/// The status line's query plan: what to ask the runtime. With no namespace
/// configured nothing is asked — browsing is disabled and the module entries
/// are not consulted.
pub struct StatusPlan {
    pub ns: Option<String>,
    pub core_query: Option<String>,
    pub modules: Vec<ModuleQuery>,
}

/// Plans the introspection queries for the status line.
#[verifier::loop_isolation(false)]
pub fn status_queries(config: &Config) -> (r: StatusPlan)
    requires
        map_ok_at(*config, "namespace"@),
        modules_ok_at(*config),
    ensures
        match map_spec(*config, "namespace"@) {
            Some(ns) => {
                &&& r.ns matches Some(n) && n@ == ns
                &&& r.core_query matches Some(q) && q@
                    == "(mu:cdr (core:assq 'version core:%sys-def))"@
                &&& r.modules@.len() == module_entries_spec(*config).len()
                &&& forall|i: int|
                    0 <= i < r.modules@.len() ==> (#[trigger] r.modules@[i]).prefix@
                        == prefix_spec(module_entries_spec(*config)[i]) && r.modules@[i].query@
                        == module_query_spec(prefix_spec(module_entries_spec(*config)[i]))
            },
            None => r.ns is None && r.core_query is None && r.modules@.len() == 0,
        },
{
    let ns = config.map("namespace");
    if ns.is_none() {
        return StatusPlan { ns: None, core_query: None, modules: Vec::new() };
    }
    let mut modules: Vec<ModuleQuery> = Vec::new();
    match config {
        Config::Absent => {
            proof {
                assert(false);
            }
        },
        Config::Json(tree) => {
            match crate::config::find_value(tree, "modules") {
                None => {},
                Some(value) => match value {
                    JsonData::Null => {},
                    JsonData::Array(elems) => {
                        let mut i: usize = 0;
                        while i < elems.len()
                            invariant
                                0 <= i <= elems@.len(),
                                modules@.len() == i,
                                forall|j: int|
                                    0 <= j < i ==> (#[trigger] modules@[j]).prefix@ == prefix_spec(
                                        text_of(elems@[j]),
                                    ) && modules@[j].query@ == module_query_spec(
                                        prefix_spec(text_of(elems@[j])),
                                    ),
                            decreases elems@.len() - i,
                        {
                            match &elems[i] {
                                JsonData::Text(s) => {
                                    let prefix = module_prefix(s.as_str());
                                    let query = module_query(prefix.as_str());
                                    modules.push(ModuleQuery { prefix, query });
                                },
                                _ => {
                                    proof {
                                        assert(false);
                                    }
                                },
                            }
                            i = i + 1;
                        }
                    },
                    _ => {
                        proof {
                            assert(false);
                        }
                    },
                },
            }
        },
    }
    StatusPlan { ns, core_query: Some(core_version_query()), modules }
}

/// Whether [`status_queries`] may be asked: the `modules` value is missing,
/// or an array of texts each long enough to carry the five-character suffix.
#[verifier::loop_isolation(false)]
pub fn modules_ok(config: &Config) -> (r: bool)
    ensures
        r == modules_ok_at(*config),
{
    match config {
        Config::Absent => true,
        Config::Json(tree) => match crate::config::find_value(tree, "modules") {
            None => true,
            Some(value) => match value {
                JsonData::Null => true,
                JsonData::Array(elems) => {
                    let mut i: usize = 0;
                    let mut ok: bool = true;
                    while i < elems.len() && ok
                        invariant
                            0 <= i <= elems@.len(),
                            ok == forall|j: int|
                                0 <= j < i ==> ((#[trigger] elems@[j]) matches JsonData::Text(s)
                                    && s@.len() >= 5),
                        decreases elems@.len() - i,
                    {
                        ok = match &elems[i] {
                            JsonData::Text(s) => s.as_str().unicode_len() >= 5,
                            _ => false,
                        };
                        i = i + 1;
                    }
                    ok
                },
                _ => false,
            },
        },
    }
}

/// The per-module fragments, in order: `, <module> <version>` for each pair.
pub open spec fn fragments_spec(mods: Seq<(String, String)>) -> Seq<char>
    decreases mods.len(),
{
    if mods.len() == 0 {
        Seq::empty()
    } else {
        fragments_spec(mods.drop_last()) + ", "@ + mods.last().0@ + " "@ + mods.last().1@
    }
}

/// Law: two module entries yield exactly their two fragments, in entry order.
pub proof fn lemma_two_module_fragments(a: (String, String), b: (String, String))
    ensures
        fragments_spec(seq![a, b]) =~= ", "@ + a.0@ + " "@ + a.1@ + ", "@ + b.0@ + " "@ + b.1@,
{
    reveal_with_fuel(fragments_spec, 3);
    assert(seq![a, b].drop_last() =~= seq![a]);
    assert(seq![a].drop_last() =~= Seq::<(String, String)>::empty());
    assert(seq![a, b].last() == b);
    assert(seq![a].last() == a);
    assert(fragments_spec(Seq::<(String, String)>::empty()) =~= Seq::<char>::empty());
    assert(fragments_spec(seq![a]) =~= ", "@ + a.0@ + " "@ + a.1@);
    assert(fragments_spec(seq![a, b]) == fragments_spec(seq![a]) + ", "@ + b.0@ + " "@ + b.1@);
}

/// The disabled-browsing notice.
pub fn browsing_disabled_notice() -> (r: String)
    ensures
        r@ == "core.sys not loaded, browsing is disabled"@,
{
    String::from_str("core.sys not loaded, browsing is disabled")
}

/// The status line's text: the runtime version, the namespace fragment or
/// notice, and the module fragments.
pub open spec fn content_spec(line: StatusLine) -> Seq<char> {
    "mu "@ + line.mu_version@ + ", "@ + line.core_version@ + line.module_versions@
}

/// Law: a status line assembled with no namespace configured shows the
/// runtime version and the disabled-browsing notice, and nothing else — in
/// particular, no per-module version fragment, however many modules are
/// configured.
pub proof fn lemma_no_namespace_disables_browsing(line: StatusLine, mu_version: Seq<char>)
    requires
        line.mu_version@ == mu_version,
        line.core_version@ == "core.sys not loaded, browsing is disabled"@,
        line.module_versions@ == Seq::<char>::empty(),
    ensures
        content_spec(line) =~= "mu "@ + mu_version + ", "@
            + "core.sys not loaded, browsing is disabled"@,
{
}

impl StatusLine {
    /// The status line's text.
    pub fn content(&self) -> (r: String)
        ensures
            r@ == content_spec(*self),
    {
        let mut line = String::from_str("mu ");
        line.append(self.mu_version.as_str());
        line.append(", ");
        line.append(self.core_version.as_str());
        line.append(self.module_versions.as_str());
        line
    }

    /// Assembles the status line from the runtime's answers: the namespace's
    /// version fragment when one is configured, the disabled-browsing notice
    /// otherwise — in which case the module pairs are not consulted and no
    /// fragment is appended.
    #[verifier::loop_isolation(false)]
    pub fn new(
        mu_version: &str,
        ns: Option<&str>,
        ns_version: &str,
        modules: &Vec<(String, String)>,
    ) -> (r: StatusLine)
        ensures
            r.mu_version@ == mu_version@,
            match ns {
                Some(n) => r.core_version@ == n@ + " "@ + ns_version@,
                None => r.core_version@ == "core.sys not loaded, browsing is disabled"@,
            },
            ns is Some ==> r.module_versions@ == fragments_spec(modules@),
            ns is None ==> r.module_versions@ == Seq::<char>::empty(),
    {
        match ns {
            None => StatusLine {
                mu_version: String::from_str(mu_version),
                core_version: browsing_disabled_notice(),
                module_versions: String::new(),
            },
            Some(n) => {
                let mut core_version = String::from_str(n);
                core_version.append(" ");
                core_version.append(ns_version);
                let mut module_versions = String::new();
                let mut i: usize = 0;
                while i < modules.len()
                    invariant
                        0 <= i <= modules@.len(),
                        module_versions@ == fragments_spec(modules@.subrange(0, i as int)),
                    decreases modules@.len() - i,
                {
                    module_versions.append(", ");
                    module_versions.append(modules[i].0.as_str());
                    module_versions.append(" ");
                    module_versions.append(modules[i].1.as_str());
                    proof {
                        assert(modules@.subrange(0, i + 1).drop_last() =~= modules@.subrange(
                            0,
                            i as int,
                        ));
                        assert(modules@.subrange(0, i + 1).last() == modules@[i as int]);
                    }
                    i = i + 1;
                }
                proof {
                    assert(modules@.subrange(0, modules@.len() as int) =~= modules@);
                }
                StatusLine { mu_version: String::from_str(mu_version), core_version, module_versions }
            },
        }
    }
}

} // verus!
