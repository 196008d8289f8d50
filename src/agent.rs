use vstd::prelude::*;
use crate::error::OpenTelemetryInjectorError;

verus! {

/// The `[jvm]` table of the configuration file.
#[derive(Debug, Clone, PartialEq, Eq)]
pub struct JvmConfiguration {
    /// Path of the Java agent to inject, if one is configured.
    pub agent_path: Option<String>,
}

/// The parsed configuration file: `{ jvm?: { agent_path?: string } }`.
#[derive(Debug, Clone, PartialEq, Eq)]
pub struct Configuration {
    pub jvm: Option<JvmConfiguration>,
}

/// What the one-time resolution of the configured agent path decided.
#[derive(Debug, Clone, PartialEq, Eq)]
pub enum AgentDecision {
    /// No agent path was supplied; nothing is injected and nothing is reported.
    Unconfigured,
    /// An agent path was supplied, but the file could not be opened.
    Misconfigured(String),
    /// An agent path was supplied and the file could be opened.
    Ready(String),
}

/// The agent path that a configuration names, if any.
pub open spec fn spec_agent_path(config: Option<Configuration>) -> Option<Seq<char>> {
    match config {
        Some(c) => match c.jvm {
            Some(jvm) => match jvm.agent_path {
                Some(path) => Some(path@),
                None => None,
            },
            None => None,
        },
        None => None,
    }
}

/// The view of an optional string.
pub open spec fn opt_view(s: Option<String>) -> Option<Seq<char>> {
    match s {
        Some(v) => Some(v@),
        None => None,
    }
}

/// The agent path to check for existence: the `jvm.agent_path` entry of the
/// configuration, if the configuration was read and holds one.
pub fn configured_agent_path(config: &Option<Configuration>) -> (r: Option<String>)
    ensures
        opt_view(r) == spec_agent_path(*config),
{
    match config {
        Some(c) => match &c.jvm {
            Some(jvm) => match &jvm.agent_path {
                Some(path) => Some(path.clone()),
                None => None,
            },
            None => None,
        },
        None => None,
    }
}

/// The decision for a configured agent path and whether its file could be
/// opened.
pub open spec fn spec_resolve(agent_path: Option<String>, openable: bool) -> AgentDecision {
    match agent_path {
        Some(path) => if openable {
            AgentDecision::Ready(path)
        } else {
            AgentDecision::Misconfigured(path)
        },
        None => AgentDecision::Unconfigured,
    }
}

/// What the bootstrap reports at error severity: only an agent path that was
/// configured but cannot be opened. An absent agent path is silent.
pub open spec fn spec_bootstrap_report(decision: AgentDecision) -> Option<OpenTelemetryInjectorError> {
    match decision {
        AgentDecision::Misconfigured(path) => Some(OpenTelemetryInjectorError::JavaAgentNotFound(path)),
        _ => None,
    }
}

/// The error to log once, when the decision is made; lookups report nothing.
pub fn bootstrap_report(decision: &AgentDecision) -> (r: Option<OpenTelemetryInjectorError>)
    ensures
        r == spec_bootstrap_report(*decision),
{
    match decision {
        AgentDecision::Misconfigured(path) => Some(
            OpenTelemetryInjectorError::JavaAgentNotFound(path.clone()),
        ),
        _ => None,
    }
}

/// Turns the configured agent path, and whether the file at that path could be
/// opened, into the decision that all later lookups use. `openable` is only
/// consulted when a path is configured.
pub fn resolve_agent(agent_path: Option<String>, openable: bool) -> (r: AgentDecision)
    ensures
        r == spec_resolve(agent_path, openable),
        agent_path is None ==> r is Unconfigured,
        agent_path is Some && openable ==> r == AgentDecision::Ready(agent_path->0),
        agent_path is Some && !openable ==> r == AgentDecision::Misconfigured(agent_path->0),
{
    match agent_path {
        Some(path) => {
            if openable {
                AgentDecision::Ready(path)
            } else {
                AgentDecision::Misconfigured(path)
            }
        },
        None => AgentDecision::Unconfigured,
    }
}

} // verus!
