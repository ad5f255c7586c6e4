use vstd::prelude::*;
use std::time::Duration;
use chromiumoxide::browser::{BrowserConfig, BrowserConfigBuilder};
use crate::error::PinterestLoginError;

verus! {

#[verifier::external_type_specification]
#[verifier::external_body]
pub struct ExBrowserConfig(BrowserConfig);

#[verifier::external_type_specification]
#[verifier::external_body]
pub struct ExBrowserConfigBuilder(BrowserConfigBuilder);

/// The duration of `ms` milliseconds, as `Duration::from_millis` gives it.
pub uninterp spec fn millis_duration(ms: u64) -> Duration;

/// Whether a builder asks for a visible browser window.
pub uninterp spec fn builder_has_head(b: BrowserConfigBuilder) -> bool;

/// The request timeout a builder holds.
pub uninterp spec fn builder_request_timeout(b: BrowserConfigBuilder) -> Duration;

/// The launch timeout a builder holds.
pub uninterp spec fn builder_launch_timeout(b: BrowserConfigBuilder) -> Duration;

/// Whether a configuration launches a browser with a visible window.
pub uninterp spec fn config_has_head(c: BrowserConfig) -> bool;

/// The request timeout of a configuration.
pub uninterp spec fn config_request_timeout(c: BrowserConfig) -> Duration;

/// The launch timeout of a configuration.
pub uninterp spec fn config_launch_timeout(c: BrowserConfig) -> Duration;

/// The driver's request timeout when none is set: 30 000 ms.
pub open spec fn driver_request_timeout() -> Duration {
    millis_duration(30_000)
}

/// The driver's launch timeout when none is set: 20 000 ms.
pub open spec fn driver_launch_timeout() -> Duration {
    millis_duration(20_000)
}

/// Relies on chromiumoxide's `BrowserConfig::builder`: the default builder,
/// headless, with `Duration::from_millis(REQUEST_TIMEOUT)` (30 000) and
/// `Duration::from_millis(LAUNCH_TIMEOUT)` (20 000) as its timeouts.
pub assume_specification[ BrowserConfig::builder ]() -> (r: BrowserConfigBuilder)
    ensures
        !builder_has_head(r),
        builder_request_timeout(r) == millis_duration(30_000),
        builder_launch_timeout(r) == millis_duration(20_000),
;

/// Relies on chromiumoxide's `BrowserConfigBuilder::with_head`: sets the
/// headless mode to false and leaves the rest.
pub assume_specification[ BrowserConfigBuilder::with_head ](b: BrowserConfigBuilder) -> (r: BrowserConfigBuilder)
    ensures
        builder_has_head(r),
        builder_request_timeout(r) == builder_request_timeout(b),
        builder_launch_timeout(r) == builder_launch_timeout(b),
;

/// Relies on chromiumoxide's `BrowserConfigBuilder::request_timeout`: sets
/// the request timeout and leaves the rest.
pub assume_specification[ BrowserConfigBuilder::request_timeout ](
    b: BrowserConfigBuilder,
    timeout: Duration,
) -> (r: BrowserConfigBuilder)
    ensures
        builder_request_timeout(r) == timeout,
        builder_has_head(r) == builder_has_head(b),
        builder_launch_timeout(r) == builder_launch_timeout(b),
;

/// Relies on chromiumoxide's `BrowserConfigBuilder::launch_timeout`: sets
/// the launch timeout and leaves the rest.
pub assume_specification[ BrowserConfigBuilder::launch_timeout ](
    b: BrowserConfigBuilder,
    timeout: Duration,
) -> (r: BrowserConfigBuilder)
    ensures
        builder_launch_timeout(r) == timeout,
        builder_has_head(r) == builder_has_head(b),
        builder_request_timeout(r) == builder_request_timeout(b),
;

/// Relies on chromiumoxide's `BrowserConfigBuilder::build`: the
/// configuration with the builder's headless mode and timeouts, or the
/// driver's message when it rejects the builder (for instance when no browser
/// executable is found). The outcome depends on the machine.
pub assume_specification[ BrowserConfigBuilder::build ](b: BrowserConfigBuilder) -> (r: Result<BrowserConfig, String>)
    ensures
        r matches Ok(c) ==> config_has_head(c) == builder_has_head(b),
        r matches Ok(c) ==> config_request_timeout(c) == builder_request_timeout(b),
        r matches Ok(c) ==> config_launch_timeout(c) == builder_launch_timeout(b),
;

/// What a configuration built from these settings holds: a visible window
/// exactly when not headless, and each given timeout or else the driver's.
pub open spec fn config_matches(
    c: BrowserConfig,
    headless: bool,
    request_timeout: Option<Duration>,
    launch_timeout: Option<Duration>,
) -> bool {
    &&& config_has_head(c) == !headless
    &&& config_request_timeout(c) == match request_timeout {
        Some(t) => t,
        None => driver_request_timeout(),
    }
    &&& config_launch_timeout(c) == match launch_timeout {
        Some(t) => t,
        None => driver_launch_timeout(),
    }
}

/// How a browser session is to be launched. A timeout that is `None` leaves
/// the driver's default in place.
pub struct DefaultBrowserConfigBuilder {
    pub headless: bool,
    pub request_timeout: Option<Duration>,
    pub launch_timeout: Option<Duration>,
}

impl DefaultBrowserConfigBuilder {
    /// A session configuration from its three settings.
    pub fn new(headless: bool, request_timeout: Option<Duration>, launch_timeout: Option<Duration>) -> (r: Self)
        ensures
            r.headless == headless,
            r.request_timeout == request_timeout,
            r.launch_timeout == launch_timeout,
    {
        DefaultBrowserConfigBuilder { headless, request_timeout, launch_timeout }
    }

    /// The driver's configuration for these settings.
    pub fn build_browser_config(&self) -> (r: Result<BrowserConfig, PinterestLoginError>)
        ensures
            r matches Ok(c) ==> config_matches(c, self.headless, self.request_timeout, self.launch_timeout),
            r matches Err(e) ==> e is BrowserConfigBuildError,
    {
        build_browser_config(self.headless, self.request_timeout, self.launch_timeout)
    }
}

/// The outcome of the driver's build as the library's result: the
/// configuration, or `BrowserConfigBuildError` with the driver's message
/// unchanged.
pub fn config_from_build(built: Result<BrowserConfig, String>) -> (r: Result<BrowserConfig, PinterestLoginError>)
    ensures
        built matches Ok(c) ==> r == Ok::<BrowserConfig, PinterestLoginError>(c),
        built matches Err(m) ==> r == Err::<BrowserConfig, PinterestLoginError>(
            PinterestLoginError::BrowserConfigBuildError(m),
        ),
{
    match built {
        Ok(config) => Ok(config),
        Err(message) => Err(PinterestLoginError::BrowserConfigBuildError(message)),
    }
}

/// Builds the driver's configuration: with a visible window unless
/// `headless`, and each timeout that is given, the driver's default for the
/// others. A refusal of the driver comes back as `BrowserConfigBuildError`
/// with the driver's message (see `config_from_build`).
pub fn build_browser_config(
    headless: bool,
    request_timeout: Option<Duration>,
    launch_timeout: Option<Duration>,
) -> (r: Result<BrowserConfig, PinterestLoginError>)
    ensures
        r matches Ok(c) ==> config_matches(c, headless, request_timeout, launch_timeout),
        r matches Err(e) ==> e is BrowserConfigBuildError,
{
    let mut builder = if headless {
        BrowserConfig::builder()
    } else {
        BrowserConfig::builder().with_head()
    };
    if let Some(timeout) = request_timeout {
        builder = builder.request_timeout(timeout);
    }
    if let Some(timeout) = launch_timeout {
        builder = builder.launch_timeout(timeout);
    }
    config_from_build(builder.build())
}

} // verus!
