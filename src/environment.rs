use vstd::prelude::*;
use vstd::string::*;
use crate::agent::opt_view;
use crate::text::same_text;

verus! {

/// The variable through which the dynamic loader is told what to preload.
pub open spec fn spec_preload_variable() -> Seq<char> {
    "LD_PRELOAD"@
}

/// The variable that turns on debug logging when it reads `true`.
pub open spec fn spec_debug_variable() -> Seq<char> {
    "OPENTELEMETRY_INJECTOR_DEBUG"@
}

/// The variable that names the configuration file directly.
pub open spec fn spec_configuration_variable() -> Seq<char> {
    "OPENTELEMETRY_INJECTOR_CONFIGURATION"@
}

/// The value of `key` in an environment snapshot; a later entry of the same
/// name overrides an earlier one.
pub open spec fn spec_lookup(vars: Seq<(String, String)>, key: Seq<char>) -> Option<Seq<char>>
    decreases vars.len(),
{
    if vars.len() == 0 {
        None
    } else if vars.last().0@ == key {
        Some(vars.last().1@)
    } else {
        spec_lookup(vars.drop_last(), key)
    }
}

/// What the bootstrap reads from the process environment.
#[derive(Debug, Clone, PartialEq, Eq)]
pub struct EnvironmentSettings {
    /// The preload list, taken whole as the path of this library.
    pub preload: Option<String>,
    /// Whether debug logging is asked for.
    pub debug_enabled: bool,
    /// The configuration file named explicitly, if any.
    pub configuration_override: Option<String>,
}

/// Reads the settings out of a snapshot of the environment, as name and value
/// pairs. The debug flag is on only when its variable parses as the boolean
/// `true`; any other value, or none, leaves it off.
pub fn read_environment(vars: &Vec<(String, String)>) -> (r: EnvironmentSettings)
    ensures
        opt_view(r.preload) == spec_lookup(vars@, spec_preload_variable()),
        opt_view(r.configuration_override) == spec_lookup(vars@, spec_configuration_variable()),
        r.debug_enabled == (spec_lookup(vars@, spec_debug_variable()) == Some("true"@)),
{
    let mut preload: Option<String> = None;
    let mut configuration_override: Option<String> = None;
    let mut debug_enabled = false;
    let mut i: usize = 0;
    while i < vars.len()
        invariant
            i <= vars@.len(),
            opt_view(preload) == spec_lookup(vars@.subrange(0, i as int), spec_preload_variable()),
            opt_view(configuration_override) == spec_lookup(
                vars@.subrange(0, i as int),
                spec_configuration_variable(),
            ),
            debug_enabled == (spec_lookup(vars@.subrange(0, i as int), spec_debug_variable())
                == Some("true"@)),
        decreases vars@.len() - i,
    {
        proof {
            reveal_strlit("LD_PRELOAD");
            reveal_strlit("OPENTELEMETRY_INJECTOR_DEBUG");
            reveal_strlit("OPENTELEMETRY_INJECTOR_CONFIGURATION");
            reveal_strlit("true");
            assert(spec_preload_variable().len() != spec_debug_variable().len());
            assert(spec_preload_variable().len() != spec_configuration_variable().len());
            assert(spec_debug_variable().len() != spec_configuration_variable().len());
        }
        let ghost prefix = vars@.subrange(0, i + 1);
        assert(prefix.drop_last() == vars@.subrange(0, i as int));
        assert(prefix.last() == vars@[i as int]);
        let name: &str = vars[i].0.as_str();
        let value: &str = vars[i].1.as_str();
        if same_text(name, "LD_PRELOAD") {
            preload = Some(String::from_str(value));
        } else if same_text(name, "OPENTELEMETRY_INJECTOR_DEBUG") {
            debug_enabled = same_text(value, "true");
        } else if same_text(name, "OPENTELEMETRY_INJECTOR_CONFIGURATION") {
            configuration_override = Some(String::from_str(value));
        }
        i = i + 1;
    }
    assert(vars@.subrange(0, vars@.len() as int) == vars@);
    EnvironmentSettings { preload, debug_enabled, configuration_override }
}

} // verus!
