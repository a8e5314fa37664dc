//! Notification configuration and the rule that fixes its mode.

use vstd::prelude::*;
use crate::text::{distinct_names, ends_with, pairs_view, str_ends_with};

verus! {

/// Settings of the notification endpoint.
///
/// A stateless endpoint (its URL ends in `/notify`) takes the target URLs
/// with every request, from `stateless_urls`. A stateful endpoint (such as
/// `/notify/example`) knows its targets, and `stateless_urls` stays empty.
/// `headers` maps header names to values: no name stands in it twice. They
/// are sent along with every notification, in this order.
#[derive(Clone, Debug, PartialEq, Eq)]
pub struct Apprise {
    pub headers: Vec<(String, String)>,
    pub url: String,
    pub stateless_urls: Option<String>,
}

/// The relay's settings: the address it listens on and the endpoint it
/// forwards to.
#[derive(Clone, Debug, PartialEq, Eq)]
pub struct Config {
    pub addr: String,
    pub apprise: Apprise,
}

/// How the endpoint learns where a notification goes.
#[derive(Clone, Copy, Debug, PartialEq, Eq, Structural)]
pub enum Mode {
    Stateful,
    Stateless,
}

/// Why a configuration is refused.
#[derive(Clone, Copy, Debug, PartialEq, Eq, Structural)]
pub enum ConfigError {
    /// The endpoint is stateless and no target URLs are configured, or only
    /// an empty string of them.
    MissingStatelessTargets,
    /// A header name is configured twice.
    RepeatedHeader,
}

/// What validation changed without refusing the configuration.
#[derive(Clone, Copy, Debug, PartialEq, Eq, Structural)]
pub enum ConfigWarning {
    /// Target URLs were configured for a stateful endpoint and were dropped.
    StatelessTargetsIgnored,
}

/// A configuration that passed validation, with the warning it raised.
#[derive(Clone, Debug, PartialEq, Eq)]
pub struct Validated {
    pub config: Config,
    pub warning: Option<ConfigWarning>,
}

/// The path segment that marks a stateless endpoint.
pub open spec fn stateless_suffix() -> Seq<char> {
    seq!['/', 'n', 'o', 't', 'i', 'f', 'y']
}

/// The URL addresses the stateless route.
pub open spec fn is_stateless_url(url: Seq<char>) -> bool {
    ends_with(url, stateless_suffix())
}

/// Target URLs are there to send: a string, and not the empty one.
pub open spec fn has_targets(stateless_urls: Option<String>) -> bool {
    stateless_urls matches Some(urls) && urls@.len() > 0
}

/// `cfg` with its target URLs taken out.
pub open spec fn without_targets(cfg: Config) -> Config {
    Config {
        addr: cfg.addr,
        apprise: Apprise {
            headers: cfg.apprise.headers,
            url: cfg.apprise.url,
            stateless_urls: None,
        },
    }
}

/// The validated form of `cfg`, or the reason it has none. A stateless
/// endpoint needs target URLs, and an empty string of them counts as none. A
/// stateful endpoint loses whatever target URLs it was given. No header name
/// may repeat.
pub open spec fn validate_spec(cfg: Config) -> Result<Validated, ConfigError> {
    if is_stateless_url(cfg.apprise.url@) && !has_targets(cfg.apprise.stateless_urls) {
        Err(ConfigError::MissingStatelessTargets)
    } else if !distinct_names(pairs_view(cfg.apprise.headers@)) {
        Err(ConfigError::RepeatedHeader)
    } else if !is_stateless_url(cfg.apprise.url@) && cfg.apprise.stateless_urls is Some {
        Ok(
            Validated {
                config: without_targets(cfg),
                warning: Some(ConfigWarning::StatelessTargetsIgnored),
            },
        )
    } else {
        Ok(Validated { config: cfg, warning: None })
    }
}

/// Whether no name stands twice among the headers.
fn names_distinct(headers: &Vec<(String, String)>) -> (r: bool)
    ensures
        r == distinct_names(pairs_view(headers@)),
{
    let ghost view = pairs_view(headers@);
    let mut j: usize = 0;
    while j < headers.len()
        invariant
            j <= headers.len(),
            view == pairs_view(headers@),
            forall|a: int, b: int| 0 <= a < b < j ==> (#[trigger] view[a]).0 != (#[trigger] view[b]).0,
        decreases headers.len() - j,
    {
        let mut i: usize = 0;
        while i < j
            invariant
                i <= j < headers.len(),
                view == pairs_view(headers@),
                forall|a: int, b: int|
                    0 <= a < b < j ==> (#[trigger] view[a]).0 != (#[trigger] view[b]).0,
                forall|a: int| 0 <= a < i ==> (#[trigger] view[a]).0 != view[j as int].0,
            decreases j - i,
        {
            if headers[i].0 == headers[j].0 {
                assert(view[i as int].0 == view[j as int].0);
                return false;
            }
            i += 1;
        }
        j += 1;
    }
    true
}

/// Whether `url` addresses the stateless route.
pub fn is_stateless_endpoint(url: &str) -> (r: bool)
    ensures
        r == is_stateless_url(url@),
{
    proof {
        reveal_strlit("/notify");
        assert("/notify"@ =~= stateless_suffix());
    }
    str_ends_with(url, "/notify")
}

impl ConfigError {
    pub open spec fn message_spec(self) -> Seq<char> {
        match self {
            ConfigError::MissingStatelessTargets =>
                "apprise.stateless_urls must be set when using a stateless endpoint"@,
            ConfigError::RepeatedHeader => "apprise.headers names a header twice"@,
        }
    }

    /// The refusal in words, for whoever starts the relay.
    pub fn message(&self) -> (r: String)
        ensures
            r@ == self.message_spec(),
    {
        match self {
            ConfigError::MissingStatelessTargets => String::from_str(
                "apprise.stateless_urls must be set when using a stateless endpoint",
            ),
            ConfigError::RepeatedHeader => String::from_str("apprise.headers names a header twice"),
        }
    }
}

impl ConfigWarning {
    /// The warning in words, for the log.
    pub fn message(&self) -> (r: String)
        ensures
            r@ == "apprise.stateless_urls ignored when using a stateful endpoint"@,
    {
        match self {
            ConfigWarning::StatelessTargetsIgnored => String::from_str(
                "apprise.stateless_urls ignored when using a stateful endpoint",
            ),
        }
    }
}

impl Config {
    /// Exactly one mode holds: either the endpoint is stateless and target
    /// URLs are present and not empty, or it is stateful and there are none.
    /// The headers are a mapping: no name stands twice.
    pub open spec fn wf(self) -> bool {
        &&& is_stateless_url(self.apprise.url@) <==> self.apprise.stateless_urls is Some
        &&& self.apprise.stateless_urls matches Some(urls) ==> urls@.len() > 0
        &&& distinct_names(pairs_view(self.apprise.headers@))
    }

    /// Stateless exactly when target URLs are stored.
    pub open spec fn mode_spec(self) -> Mode {
        if self.apprise.stateless_urls is Some {
            Mode::Stateless
        } else {
            Mode::Stateful
        }
    }

    /// The mode that validation fixed. It is read off the stored target
    /// URLs; the endpoint URL is not looked at again.
    pub fn mode(&self) -> (r: Mode)
        ensures
            r == self.mode_spec(),
            self.wf() ==> (r == Mode::Stateless <==> is_stateless_url(self.apprise.url@)),
    {
        if self.apprise.stateless_urls.is_some() {
            Mode::Stateless
        } else {
            Mode::Stateful
        }
    }

    /// Builds the configuration from the values that were read and settles
    /// its mode, as `validate` does.
    pub fn load(
        addr: String,
        url: String,
        headers: Vec<(String, String)>,
        stateless_urls: Option<String>,
    ) -> (r: Result<Validated, ConfigError>)
        ensures
            r == validate_spec(Config { addr, apprise: Apprise { headers, url, stateless_urls } }),
            r matches Ok(v) ==> v.config.wf(),
    {
        Config { addr, apprise: Apprise { headers, url, stateless_urls } }.validate()
    }

    /// Settles the mode of a configuration that was just read.
    ///
    /// A stateless endpoint without target URLs, or with an empty string of
    /// them, is refused, and so is a header name that repeats. Target URLs
    /// given for a stateful endpoint are dropped, and the result carries a
    /// warning. Everything else is kept as it is.
    pub fn validate(self) -> (r: Result<Validated, ConfigError>)
        ensures
            r == validate_spec(self),
            r matches Ok(v) ==> v.config.wf(),
    {
        let stateless = is_stateless_endpoint(self.apprise.url.as_str());
        let targets = match &self.apprise.stateless_urls {
            Some(urls) => !urls.as_str().is_empty(),
            None => false,
        };
        if stateless && !targets {
            return Err(ConfigError::MissingStatelessTargets);
        }
        if !names_distinct(&self.apprise.headers) {
            return Err(ConfigError::RepeatedHeader);
        }
        if !stateless && self.apprise.stateless_urls.is_some() {
            let Config { addr, apprise } = self;
            let Apprise { headers, url, stateless_urls: _ } = apprise;
            return Ok(
                Validated {
                    config: Config { addr, apprise: Apprise { headers, url, stateless_urls: None } },
                    warning: Some(ConfigWarning::StatelessTargetsIgnored),
                },
            );
        }
        Ok(Validated { config: self, warning: None })
    }
}

/// A stateless endpoint with target URLs that are not empty is accepted
/// unchanged, and its mode is stateless.
pub proof fn lemma_stateless_with_targets_accepted(cfg: Config)
    requires
        is_stateless_url(cfg.apprise.url@),
        has_targets(cfg.apprise.stateless_urls),
        distinct_names(pairs_view(cfg.apprise.headers@)),
    ensures
        validate_spec(cfg) == Ok::<Validated, ConfigError>(Validated { config: cfg, warning: None }),
        validate_spec(cfg)->Ok_0.config.mode_spec() == Mode::Stateless,
        cfg.wf(),
{
}

/// A stateless endpoint without target URLs is refused, whatever else the
/// configuration holds; so is one with an empty string of them.
pub proof fn lemma_stateless_without_targets_refused(cfg: Config)
    requires
        is_stateless_url(cfg.apprise.url@),
        !has_targets(cfg.apprise.stateless_urls),
    ensures
        validate_spec(cfg) == Err::<Validated, ConfigError>(ConfigError::MissingStatelessTargets),
{
}

/// Target URLs given for a stateful endpoint are dropped with a warning, and
/// the mode is stateful.
pub proof fn lemma_stateful_targets_dropped(cfg: Config)
    requires
        !is_stateless_url(cfg.apprise.url@),
        cfg.apprise.stateless_urls is Some,
        distinct_names(pairs_view(cfg.apprise.headers@)),
    ensures
        validate_spec(cfg) == Ok::<Validated, ConfigError>(
            Validated {
                config: without_targets(cfg),
                warning: Some(ConfigWarning::StatelessTargetsIgnored),
            },
        ),
        without_targets(cfg).apprise.stateless_urls is None,
        without_targets(cfg).mode_spec() == Mode::Stateful,
        without_targets(cfg).wf(),
{
}

/// Validation refuses or settles: whatever it accepts is well formed, and a
/// well-formed configuration is accepted as it is.
pub proof fn lemma_validated_is_well_formed(cfg: Config)
    ensures
        validate_spec(cfg) matches Ok(v) ==> v.config.wf(),
        cfg.wf() ==> validate_spec(cfg) == Ok::<Validated, ConfigError>(
            Validated { config: cfg, warning: None },
        ),
{
}

} // verus!
