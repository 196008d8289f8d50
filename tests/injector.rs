use opentelemetry_injector::agent::{bootstrap_report, configured_agent_path, resolve_agent, AgentDecision, Configuration, JvmConfiguration};
use opentelemetry_injector::environment::{read_environment, EnvironmentSettings};
use opentelemetry_injector::error::OpenTelemetryInjectorError;
use opentelemetry_injector::inject::{append_java_agent, intercept, Lookup, ProcessContext};
use opentelemetry_injector::locator::{configuration_path, directory_prefix};

fn ready(path: &str) -> ProcessContext {
    ProcessContext::new(false, AgentDecision::Ready(path.to_string()))
}

fn env(pairs: &[(&str, &str)]) -> Vec<(String, String)> {
    pairs.iter().map(|(k, v)| (k.to_string(), v.to_string())).collect()
}

fn settings(preload: Option<&str>, configuration_override: Option<&str>) -> EnvironmentSettings {
    EnvironmentSettings {
        preload: preload.map(|s| s.to_string()),
        debug_enabled: false,
        configuration_override: configuration_override.map(|s| s.to_string()),
    }
}

#[test]
fn append_without_original_value() {
    assert_eq!(append_java_agent("", "/opt/agent.jar"), "-javaagent:/opt/agent.jar");
}

#[test]
fn append_keeps_original_value_verbatim() {
    assert_eq!(
        append_java_agent("  -Xmx1g   -Dfoo=Bar ", "/opt/agent.jar"),
        "-javaagent:/opt/agent.jar   -Xmx1g   -Dfoo=Bar "
    );
}

#[test]
fn other_variables_pass_through() {
    let contexts = vec![
        ready("/valid/agent.jar"),
        ProcessContext::new(true, AgentDecision::Misconfigured("/missing.jar".to_string())),
        ProcessContext::new(false, AgentDecision::Unconfigured),
    ];
    for context in &contexts {
        for original in [None, Some(""), Some("value")] {
            for name in ["PATH", "JAVA_TOOL_OPTIONS_X", "java_tool_options", ""] {
                assert_eq!(intercept(context, name, original), Lookup::Unchanged);
            }
        }
    }
}

#[test]
fn unconfigured_returns_original() {
    let context = ProcessContext::new(false, AgentDecision::Unconfigured);
    for original in [None, Some("-Xmx1g")] {
        assert_eq!(intercept(&context, "JAVA_TOOL_OPTIONS", original), Lookup::Unchanged);
    }
    assert_eq!(bootstrap_report(context.agent_decision()), None);
}

#[test]
fn missing_configuration_file_leaves_value_unchanged() {
    let agent = configured_agent_path(&None);
    assert_eq!(agent, None);
    let decision = resolve_agent(agent, true);
    assert_eq!(decision, AgentDecision::Unconfigured);
    assert_eq!(bootstrap_report(&decision), None);
    let context = ProcessContext::new(false, decision);
    assert_eq!(intercept(&context, "JAVA_TOOL_OPTIONS", Some("-Xmx1g")), Lookup::Unchanged);
    assert_eq!(intercept(&context, "JAVA_TOOL_OPTIONS", None), Lookup::Unchanged);
}

#[test]
fn ready_agent_without_original() {
    let r = intercept(&ready("/valid/agent.jar"), "JAVA_TOOL_OPTIONS", None);
    assert_eq!(r, Lookup::Replaced("-javaagent:/valid/agent.jar".to_string()));
}

#[test]
fn ready_agent_with_empty_original() {
    let r = intercept(&ready("/valid/agent.jar"), "JAVA_TOOL_OPTIONS", Some(""));
    assert_eq!(r, Lookup::Replaced("-javaagent:/valid/agent.jar".to_string()));
}

#[test]
fn ready_agent_with_original() {
    let r = intercept(&ready("/valid/agent.jar"), "JAVA_TOOL_OPTIONS", Some("-Xmx1g"));
    assert_eq!(r, Lookup::Replaced("-javaagent:/valid/agent.jar -Xmx1g".to_string()));
    assert_eq!(bootstrap_report(&AgentDecision::Ready("/valid/agent.jar".to_string())), None);
}

#[test]
fn misconfigured_agent_reports_once_and_passes_through() {
    let decision = resolve_agent(Some("/nonexistent/agent.jar".to_string()), false);
    assert_eq!(decision, AgentDecision::Misconfigured("/nonexistent/agent.jar".to_string()));
    // The bootstrap runs once and reports once; lookups report nothing.
    let mut reports = Vec::new();
    reports.extend(bootstrap_report(&decision));
    let context = ProcessContext::new(false, decision);
    for original in [Some("-Xmx1g"), None, Some("-Xmx1g")] {
        let r = intercept(&context, "JAVA_TOOL_OPTIONS", original);
        assert_eq!(r, Lookup::Unchanged);
    }
    assert_eq!(reports.len(), 1);
    assert_eq!(
        reports[0],
        OpenTelemetryInjectorError::JavaAgentNotFound("/nonexistent/agent.jar".to_string())
    );
    assert_eq!(
        reports[0].message(),
        "the configured JVM agent path '/nonexistent/agent.jar' cannot be opened"
    );
}

#[test]
fn same_context_gives_identical_results() {
    let context = ready("/valid/agent.jar");
    let first = intercept(&context, "JAVA_TOOL_OPTIONS", Some("-Xmx1g"));
    for _ in 0..8 {
        assert_eq!(intercept(&context, "JAVA_TOOL_OPTIONS", Some("-Xmx1g")), first);
    }
}

#[test]
fn not_set_message() {
    assert_eq!(
        OpenTelemetryInjectorError::JavaAgentNotSet.message(),
        "'jvm.agent_path' is not set in the configuration"
    );
}

#[test]
fn resolve_agent_cases() {
    assert_eq!(resolve_agent(None, false), AgentDecision::Unconfigured);
    assert_eq!(resolve_agent(None, true), AgentDecision::Unconfigured);
    assert_eq!(resolve_agent(Some("/a.jar".to_string()), true), AgentDecision::Ready("/a.jar".to_string()));
    assert_eq!(
        resolve_agent(Some("/a.jar".to_string()), false),
        AgentDecision::Misconfigured("/a.jar".to_string())
    );
}

#[test]
fn configured_agent_path_cases() {
    assert_eq!(configured_agent_path(&Some(Configuration { jvm: None })), None);
    let no_path = Configuration { jvm: Some(JvmConfiguration { agent_path: None }) };
    assert_eq!(configured_agent_path(&Some(no_path)), None);
    let with_path = Configuration {
        jvm: Some(JvmConfiguration { agent_path: Some("/valid/agent.jar".to_string()) }),
    };
    assert_eq!(configured_agent_path(&Some(with_path)), Some("/valid/agent.jar".to_string()));
}

#[test]
fn environment_is_read() {
    let s = read_environment(&env(&[
        ("HOME", "/root"),
        ("LD_PRELOAD", "/opt/injector/libinjector.so"),
        ("OPENTELEMETRY_INJECTOR_DEBUG", "true"),
        ("OPENTELEMETRY_INJECTOR_CONFIGURATION", "/tmp/c.toml"),
    ]));
    assert_eq!(s.preload, Some("/opt/injector/libinjector.so".to_string()));
    assert!(s.debug_enabled);
    assert_eq!(s.configuration_override, Some("/tmp/c.toml".to_string()));
}

#[test]
fn empty_environment() {
    let s = read_environment(&Vec::new());
    assert_eq!(s, settings(None, None));
}

#[test]
fn debug_flag_needs_exact_true() {
    for value in ["TRUE", "True", "1", "yes", " true", "", "false"] {
        let s = read_environment(&env(&[("OPENTELEMETRY_INJECTOR_DEBUG", value)]));
        assert!(!s.debug_enabled, "{value}");
    }
}

#[test]
fn later_entry_wins() {
    let s = read_environment(&env(&[
        ("LD_PRELOAD", "/first/lib.so"),
        ("OPENTELEMETRY_INJECTOR_DEBUG", "true"),
        ("LD_PRELOAD", "/second/lib.so"),
        ("OPENTELEMETRY_INJECTOR_DEBUG", "no"),
    ]));
    assert_eq!(s.preload, Some("/second/lib.so".to_string()));
    assert!(!s.debug_enabled);
}

#[test]
fn override_path_takes_precedence() {
    let s = settings(Some("/opt/injector/libinjector.so"), Some("/custom/injector.toml"));
    assert_eq!(configuration_path(&s), "/custom/injector.toml");
}

#[test]
fn path_derived_from_preload() {
    let s = settings(Some("/opt/injector/libinjector.so"), None);
    assert_eq!(
        configuration_path(&s),
        "/opt/injector/etc/opentelemetry/injector/configuration.toml"
    );
}

#[test]
fn default_path_without_variables() {
    assert_eq!(
        configuration_path(&settings(None, None)),
        "/etc/opentelemetry/injector/configuration.toml"
    );
}

#[test]
fn library_in_root_directory() {
    let s = settings(Some("/libinjector.so"), None);
    assert_eq!(configuration_path(&s), "/etc/opentelemetry/injector/configuration.toml");
}

#[test]
fn library_without_directory() {
    let s = settings(Some("libinjector.so"), None);
    assert_eq!(configuration_path(&s), "etc/opentelemetry/injector/configuration.toml");
}

#[test]
fn preload_with_several_entries_is_taken_whole() {
    let s = settings(Some("/a/liba.so /b/libinjector.so"), None);
    assert_eq!(
        configuration_path(&s),
        "/a/liba.so /b/etc/opentelemetry/injector/configuration.toml"
    );
}

#[test]
fn directory_prefix_cases() {
    assert_eq!(directory_prefix(""), "");
    assert_eq!(directory_prefix("lib.so"), "");
    assert_eq!(directory_prefix("/"), "/");
    assert_eq!(directory_prefix("/usr/lib/x.so"), "/usr/lib/");
    assert_eq!(directory_prefix("/usr/lib/"), "/usr/lib/");
}

#[test]
fn context_accessors() {
    let c = ProcessContext::new(true, AgentDecision::Ready("/a.jar".to_string()));
    assert!(c.debug_enabled());
    assert_eq!(c.agent_decision(), &AgentDecision::Ready("/a.jar".to_string()));
}
