use vstd::prelude::*;
use vstd::string::*;
use crate::agent::{opt_view, spec_agent_path, spec_bootstrap_report, spec_resolve, AgentDecision};
use crate::error::OpenTelemetryInjectorError;
use crate::text::same_text;

verus! {

/// The environment variable that the JVM reads at startup for extra flags.
pub open spec fn spec_target_variable() -> Seq<char> {
    "JAVA_TOOL_OPTIONS"@
}

/// The agent flag for `agent`, followed by a space and `original` when
/// `original` is not empty.
pub open spec fn spec_injected(original: Seq<char>, agent: Seq<char>) -> Seq<char> {
    if original.len() == 0 {
        "-javaagent:"@ + agent
    } else {
        "-javaagent:"@ + agent + " "@ + original
    }
}

/// The value of an optional original value, with "not set" read as empty.
pub open spec fn spec_or_empty(original: Option<&str>) -> Seq<char> {
    match original {
        Some(s) => s@,
        None => Seq::empty(),
    }
}

/// Prepends the agent flag for `otel_javaagent_path` to `original_value`,
/// leaving the original value verbatim after a single space.
pub fn append_java_agent(original_value: &str, otel_javaagent_path: &str) -> (r: String)
    ensures
        r@ == spec_injected(original_value@, otel_javaagent_path@),
{
    let mut result = String::from_str("-javaagent:");
    result.append(otel_javaagent_path);
    if !original_value.is_empty() {
        result.append(" ");
        result.append(original_value);
    }
    result
}

/// The decisions of the one-time bootstrap, published once to every caller
/// and read-only afterwards.
#[derive(Debug, Clone, PartialEq, Eq)]
pub struct ProcessContext {
    debug_enabled: bool,
    agent_decision: AgentDecision,
}

impl ProcessContext {
    pub closed spec fn spec_debug_enabled(&self) -> bool {
        self.debug_enabled
    }

    pub closed spec fn spec_agent_decision(&self) -> AgentDecision {
        self.agent_decision
    }

    pub fn new(debug_enabled: bool, agent_decision: AgentDecision) -> (r: ProcessContext)
        ensures
            r.spec_debug_enabled() == debug_enabled,
            r.spec_agent_decision() == agent_decision,
    {
        ProcessContext { debug_enabled, agent_decision }
    }

    pub fn debug_enabled(&self) -> (r: bool)
        ensures
            r == self.spec_debug_enabled(),
    {
        self.debug_enabled
    }

    pub fn agent_decision(&self) -> (r: &AgentDecision)
        ensures
            *r == self.spec_agent_decision(),
    {
        &self.agent_decision
    }
}

/// What an intercepted lookup hands back to the host process.
#[derive(Debug, Clone, PartialEq, Eq)]
pub enum Lookup {
    /// Whatever the platform's own lookup returned, untouched (also "not set").
    Unchanged,
    /// A newly built value, to be handed over for the rest of the process.
    Replaced(String),
}

impl View for Lookup {
    /// `None` for a value passed through, `Some` for a new one.
    type V = Option<Seq<char>>;

    open spec fn view(&self) -> Option<Seq<char>> {
        match self {
            Lookup::Unchanged => None,
            Lookup::Replaced(value) => Some(value@),
        }
    }
}

/// The outcome of looking up `name`, with `original` the value that the
/// platform's lookup returned ("not set" read as empty), under `decision`:
/// `None` to pass the original through, `Some` for the new value.
pub open spec fn spec_intercept(decision: AgentDecision, name: Seq<char>, original: Seq<char>) -> Option<Seq<char>> {
    if name != spec_target_variable() {
        None
    } else {
        match decision {
            AgentDecision::Ready(path) => Some(spec_injected(original, path@)),
            _ => None,
        }
    }
}

/// Decides what the lookup of `name` returns, given the published context and
/// the value that the platform's own lookup returned (`None`: not set).
/// Every name but the target variable passes through untouched, whatever the
/// context holds. A lookup has no other effect: what the bootstrap has to
/// report is reported once, by `bootstrap_report`.
pub fn intercept(context: &ProcessContext, name: &str, original: Option<&str>) -> (r: Lookup)
    ensures
        r@ == spec_intercept(context.spec_agent_decision(), name@, spec_or_empty(original)),
        name@ != spec_target_variable() ==> r is Unchanged,
{
    proof {
        reveal_strlit("JAVA_TOOL_OPTIONS");
    }
    if !same_text(name, "JAVA_TOOL_OPTIONS") {
        return Lookup::Unchanged;
    }
    match context.agent_decision() {
        AgentDecision::Ready(path) => {
            let current: &str = match original {
                Some(v) => v,
                None => "",
            };
            proof {
                reveal_strlit("");
            }
            Lookup::Replaced(append_java_agent(current, path.as_str()))
        },
        _ => Lookup::Unchanged,
    }
}

/// Every name but the target variable passes through untouched, whatever the
/// decision and the original value.
pub proof fn lemma_other_names_pass_through(
    decision: AgentDecision,
    name: Seq<char>,
    original: Seq<char>,
)
    requires
        name != spec_target_variable(),
    ensures
        spec_intercept(decision, name, original) is None,
{
}

/// Without a configuration, the target variable keeps its original value
/// (and stays unset when it was unset), whatever the file system says.
pub proof fn lemma_no_configuration_passes_through(
    agent_path: Option<String>,
    openable: bool,
    name: Seq<char>,
    original: Seq<char>,
)
    requires
        opt_view(agent_path) == spec_agent_path(None),
    ensures
        spec_resolve(agent_path, openable) is Unconfigured,
        spec_intercept(spec_resolve(agent_path, openable), name, original) is None,
        spec_bootstrap_report(spec_resolve(agent_path, openable)) is None,
{
}

/// An agent path that cannot be opened leaves the target variable as it was,
/// and is reported exactly once, by the bootstrap, naming the path.
pub proof fn lemma_missing_agent_passes_through(
    agent_path: String,
    name: Seq<char>,
    original: Seq<char>,
)
    ensures
        spec_intercept(spec_resolve(Some(agent_path), false), name, original) is None,
        spec_bootstrap_report(spec_resolve(Some(agent_path), false)) == Some(
            OpenTelemetryInjectorError::JavaAgentNotFound(agent_path),
        ),
{
}

/// Lookups of one name that see the same published context and the same
/// original value all return the same result, however many threads make them.
pub proof fn lemma_lookups_agree(
    context: ProcessContext,
    name: Seq<char>,
    original: Seq<char>,
    first: Lookup,
    second: Lookup,
)
    requires
        first@ == spec_intercept(context.spec_agent_decision(), name, original),
        second@ == spec_intercept(context.spec_agent_decision(), name, original),
    ensures
        first@ == second@,
{
}

} // verus!
