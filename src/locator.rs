use vstd::prelude::*;
use vstd::string::*;
use crate::agent::opt_view;
use crate::environment::EnvironmentSettings;

verus! {

/// Where the configuration file lies relative to the directory of this library.
pub open spec fn spec_relative_configuration() -> Seq<char> {
    "etc/opentelemetry/injector/configuration.toml"@
}

/// The configuration file used when neither an explicit path nor a preload
/// entry is known.
pub open spec fn spec_default_configuration() -> Seq<char> {
    "/etc/opentelemetry/injector/configuration.toml"@
}

/// The directory part of a path, with its trailing `/`: everything up to and
/// including the last `/`, or nothing when the path holds no `/`.
pub open spec fn spec_directory_prefix(path: Seq<char>) -> Seq<char>
    decreases path.len(),
{
    if path.len() == 0 {
        path
    } else if path.last() == '/' {
        path
    } else {
        spec_directory_prefix(path.drop_last())
    }
}

/// The configuration file, by precedence: the explicit path; else the file
/// under the directory of the preloaded library; else the default.
pub open spec fn spec_configuration_path(
    configuration_override: Option<Seq<char>>,
    preload: Option<Seq<char>>,
) -> Seq<char> {
    match configuration_override {
        Some(path) => path,
        None => match preload {
            Some(library) => spec_directory_prefix(library) + spec_relative_configuration(),
            None => spec_default_configuration(),
        },
    }
}

/// Precedence of the configuration file: an explicit path is used verbatim,
/// whatever the preload entry would give; without one, the file under the
/// preloaded library's directory; without either, the fixed default.
pub proof fn lemma_configuration_precedence(
    configuration_override: Option<Seq<char>>,
    preload: Option<Seq<char>>,
)
    ensures
        configuration_override is Some ==> spec_configuration_path(configuration_override, preload)
            == configuration_override->0,
        configuration_override is None && preload is Some ==> spec_configuration_path(
            configuration_override,
            preload,
        ) == spec_directory_prefix(preload->0) + spec_relative_configuration(),
        configuration_override is None && preload is None ==> spec_configuration_path(
            configuration_override,
            preload,
        ) == spec_default_configuration(),
{
}

/// The directory part of `path`, with its trailing `/`.
pub fn directory_prefix(path: &str) -> (r: String)
    ensures
        r@ == spec_directory_prefix(path@),
{
    let n: usize = path.unicode_len();
    let mut k: usize = n;
    assert(path@.subrange(0, n as int) == path@);
    while k > 0 && path.get_char(k - 1) != '/'
        invariant
            n == path@.len(),
            k <= n,
            spec_directory_prefix(path@) == spec_directory_prefix(path@.subrange(0, k as int)),
        decreases k,
    {
        let ghost head = path@.subrange(0, k as int);
        assert(head.drop_last() == path@.subrange(0, k - 1));
        assert(head.last() == path@[k - 1]);
        k = k - 1;
    }
    String::from_str(path.substring_char(0, k))
}

/// Computes which configuration file to read. No file is touched.
pub fn configuration_path(settings: &EnvironmentSettings) -> (r: String)
    ensures
        r@ == spec_configuration_path(
            opt_view(settings.configuration_override),
            opt_view(settings.preload),
        ),
        settings.configuration_override is Some ==> r@ == (
        settings.configuration_override->0)@,
        settings.configuration_override is None && settings.preload is Some ==> r@
            == spec_directory_prefix((settings.preload->0)@) + spec_relative_configuration(),
        settings.configuration_override is None && settings.preload is None ==> r@
            == spec_default_configuration(),
{
    match &settings.configuration_override {
        Some(path) => path.clone(),
        None => match &settings.preload {
            Some(library) => {
                let mut r = directory_prefix(library.as_str());
                r.append("etc/opentelemetry/injector/configuration.toml");
                r
            },
            None => String::from_str("/etc/opentelemetry/injector/configuration.toml"),
        },
    }
}

} // verus!
