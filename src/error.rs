use vstd::prelude::*;
use vstd::string::*;

verus! {

/// Why no agent flag can be injected.
#[derive(Debug, Clone, PartialEq, Eq)]
pub enum OpenTelemetryInjectorError {
    /// No agent path is available from the configuration.
    JavaAgentNotSet,
    /// An agent path was configured, but the file at that path cannot be opened.
    JavaAgentNotFound(String),
}

impl OpenTelemetryInjectorError {
    /// The human-readable description of the error, as it is written to the log.
    pub open spec fn spec_message(&self) -> Seq<char> {
        match self {
            OpenTelemetryInjectorError::JavaAgentNotSet =>
                "'jvm.agent_path' is not set in the configuration"@,
            OpenTelemetryInjectorError::JavaAgentNotFound(path) =>
                "the configured JVM agent path '"@ + path@ + "' cannot be opened"@,
        }
    }

    pub fn message(&self) -> (r: String)
        ensures
            r@ == self.spec_message(),
    {
        match self {
            OpenTelemetryInjectorError::JavaAgentNotSet => {
                String::from_str("'jvm.agent_path' is not set in the configuration")
            },
            OpenTelemetryInjectorError::JavaAgentNotFound(path) => {
                let mut r = String::from_str("the configured JVM agent path '");
                r.append(path.as_str());
                r.append("' cannot be opened");
                r
            },
        }
    }
}

} // verus!
