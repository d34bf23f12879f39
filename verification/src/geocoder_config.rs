//! The options of the geocoder: how each is read from its textual setting,
//! what it defaults to, and how a batch size selects the way the local
//! resolver is run.

use crate::geocode_result::{copy_opt_text, opt_text};
use crate::text::{
    ascii_lowercase, ascii_lowercase_of, clamped, integer_of, parse_clamped, parse_usize,
    parsed_usize, str_eq, trim, trimmed,
};
use vstd::prelude::*;

verus! {

/// Batch size from which `auto` goes to the daemon, unless configured.
pub const DEFAULT_DAEMON_THRESHOLD: usize = 100;

/// Addresses per remote request, unless configured.
pub const DEFAULT_BATCH_SIZE: usize = 100;

/// The most addresses a remote request may carry.
pub const MAX_BATCH_SIZE: usize = 10000;

/// How the local resolver is run.
#[derive(Debug, Clone, Copy, PartialEq, Eq, Structural)]
pub enum GeocodeMode {
    /// One spawned process per call.
    OneShot,
    /// A long-lived resolver behind a local endpoint.
    Daemon,
    /// By batch size: the daemon for large batches, else one-shot first.
    Auto,
}

/// A setting that makes a call impossible to carry out as configured.
#[derive(Debug, Clone, PartialEq, Eq)]
pub enum ConfigError {
    /// The mode setting names none of `oneshot`, `daemon`, `auto`.
    InvalidMode { value: String },
    /// The remote service is asked for and no credential is set.
    MissingCredential,
    /// The remote service is asked for and the credential is blank.
    EmptyCredential,
}

impl ConfigError {
    /// The text of the error.
    pub open spec fn text(self) -> Seq<char> {
        match self {
            ConfigError::InvalidMode { value } => "Invalid SPATIA_GEOCODER_MODE '"@ + value@
                + "'. Expected one of: oneshot, daemon, auto"@,
            ConfigError::MissingCredential => "SPATIA_GEOCODIO_API_KEY env var is not set"@,
            ConfigError::EmptyCredential => "SPATIA_GEOCODIO_API_KEY env var is empty"@,
        }
    }

    /// The text of the error.
    pub fn message(&self) -> (r: String)
        ensures
            r@ == self.text(),
    {
        match self {
            ConfigError::InvalidMode { value } => {
                let mut r = "Invalid SPATIA_GEOCODER_MODE '".to_owned();
                r.append(value.as_str());
                r.append("'. Expected one of: oneshot, daemon, auto");
                r
            },
            ConfigError::MissingCredential => "SPATIA_GEOCODIO_API_KEY env var is not set".to_owned(),
            ConfigError::EmptyCredential => "SPATIA_GEOCODIO_API_KEY env var is empty".to_owned(),
        }
    }
}

/// The mode that a normalised name stands for.
pub open spec fn mode_named(name: Seq<char>) -> Option<GeocodeMode> {
    if name == "oneshot"@ {
        Some(GeocodeMode::OneShot)
    } else if name == "daemon"@ {
        Some(GeocodeMode::Daemon)
    } else if name == "auto"@ {
        Some(GeocodeMode::Auto)
    } else {
        None
    }
}

/// The mode that a setting stands for: surrounding whitespace and ASCII
/// letter case do not count.
pub open spec fn mode_of(value: Seq<char>) -> Option<GeocodeMode> {
    mode_named(ascii_lowercase_of(trimmed(value)))
}

/// Reads a mode setting. Anything but `oneshot`, `daemon` or `auto` is
/// rejected with an error that quotes the setting.
pub fn parse_mode(value: &str) -> (r: Result<GeocodeMode, ConfigError>)
    ensures
        mode_of(value@) matches Some(m) ==> r == Ok::<GeocodeMode, ConfigError>(m),
        mode_of(value@) is None ==> (r matches Err(ConfigError::InvalidMode { value: v }) && v@
            == value@),
{
    let t = trim(value);
    let name = ascii_lowercase(t.as_str());
    if str_eq(name.as_str(), "oneshot") {
        Ok(GeocodeMode::OneShot)
    } else if str_eq(name.as_str(), "daemon") {
        Ok(GeocodeMode::Daemon)
    } else if str_eq(name.as_str(), "auto") {
        Ok(GeocodeMode::Auto)
    } else {
        Err(ConfigError::InvalidMode { value: value.to_owned() })
    }
}

impl std::str::FromStr for GeocodeMode {
    type Err = ConfigError;

    fn from_str(value: &str) -> (r: Result<GeocodeMode, ConfigError>)
        ensures
            mode_of(value@) matches Some(m) ==> r == Ok::<GeocodeMode, ConfigError>(m),
            mode_of(value@) is None ==> (r matches Err(ConfigError::InvalidMode { value: v }) && v@
                == value@),
    {
        parse_mode(value)
    }
}

/// The positive number that a setting denotes, or `default` where the
/// setting is absent, is no number, or is zero.
pub open spec fn positive_or(setting: Option<Seq<char>>, default: usize) -> usize {
    match setting {
        Some(t) => match parsed_usize(t) {
            Some(n) => if n > 0 {
                n
            } else {
                default
            },
            None => default,
        },
        None => default,
    }
}

/// The batch-size cutoff that a setting denotes.
pub open spec fn threshold_of(setting: Option<Seq<char>>) -> usize {
    positive_or(setting, DEFAULT_DAEMON_THRESHOLD)
}

/// The remote chunk size that a setting denotes. A setting that denotes an
/// integer gives that integer brought into the range from 1 to the maximum:
/// zero and every negative number give 1, every number above the maximum
/// gives the maximum. A setting that is absent or denotes no integer gives
/// the default.
pub open spec fn batch_size_of(setting: Option<Seq<char>>) -> usize {
    match setting {
        Some(t) => match integer_of(t) {
            Some(n) => clamped(n, 1, MAX_BATCH_SIZE as int) as usize,
            None => DEFAULT_BATCH_SIZE,
        },
        None => DEFAULT_BATCH_SIZE,
    }
}

/// Reads a positive number from an optional setting.
pub fn positive_setting(setting: &Option<String>, default: usize) -> (r: usize)
    ensures
        r == positive_or(opt_text(*setting), default),
{
    match setting {
        Some(t) => match parse_usize(t.as_str()) {
            Some(n) => if n > 0 {
                n
            } else {
                default
            },
            None => default,
        },
        None => default,
    }
}

/// The batch-size cutoff for `auto`: the setting where it is a positive
/// number, else the default.
pub fn daemon_threshold(setting: &Option<String>) -> (r: usize)
    ensures
        r == threshold_of(opt_text(*setting)),
        r > 0,
{
    positive_setting(setting, DEFAULT_DAEMON_THRESHOLD)
}

/// The remote chunk size: the setting brought into the range from 1 to the
/// maximum where it denotes an integer, else the default.
pub fn remote_batch_size(setting: &Option<String>) -> (r: usize)
    ensures
        r == batch_size_of(opt_text(*setting)),
        1 <= r <= MAX_BATCH_SIZE,
{
    match setting {
        Some(t) => match parse_clamped(t.as_str(), 1, MAX_BATCH_SIZE) {
            Some(n) => n,
            None => DEFAULT_BATCH_SIZE,
        },
        None => DEFAULT_BATCH_SIZE,
    }
}

/// Whether a batch of `batch_size` addresses reaches the cutoff for the
/// daemon.
pub fn should_use_daemon(batch_size: usize, threshold: usize) -> (r: bool)
    ensures
        r == (batch_size >= threshold),
{
    batch_size >= threshold
}

/// The ways a batch may be handed to the local resolver.
#[derive(Debug, Clone, Copy, PartialEq, Eq, Structural)]
pub enum LocalPlan {
    /// One-shot, and nothing after it.
    OneShotOnly,
    /// The daemon, directly.
    DaemonOnly,
    /// One-shot first; the daemon only if that attempt fails.
    OneShotThenDaemon,
}

/// The plan that a mode, a batch size and a cutoff select.
pub open spec fn plan_of(mode: GeocodeMode, batch_size: usize, threshold: usize) -> LocalPlan {
    match mode {
        GeocodeMode::OneShot => LocalPlan::OneShotOnly,
        GeocodeMode::Daemon => LocalPlan::DaemonOnly,
        GeocodeMode::Auto => if batch_size >= threshold {
            LocalPlan::DaemonOnly
        } else {
            LocalPlan::OneShotThenDaemon
        },
    }
}

/// Selects how a batch is handed to the local resolver.
pub fn select_plan(mode: GeocodeMode, batch_size: usize, threshold: usize) -> (r: LocalPlan)
    ensures
        r == plan_of(mode, batch_size, threshold),
{
    match mode {
        GeocodeMode::OneShot => LocalPlan::OneShotOnly,
        GeocodeMode::Daemon => LocalPlan::DaemonOnly,
        GeocodeMode::Auto => if should_use_daemon(batch_size, threshold) {
            LocalPlan::DaemonOnly
        } else {
            LocalPlan::OneShotThenDaemon
        },
    }
}

/// Where the daemon listens.
pub const DEFAULT_GEOCODER_URL: &'static str = "http://127.0.0.1:7788";

/// Where the remote service is reached unless configured otherwise.
pub const GEOCODIO_BASE_URL: &'static str = "https://api.geocodio.com/v1.7";

/// The options as they are found, each a text or absent:
/// `SPATIA_GEOCODER_MODE`, `SPATIA_GEOCODER_DAEMON_THRESHOLD`,
/// `SPATIA_GEOCODER_BIN`, `SPATIA_GEOCODER_PYTHON`,
/// `SPATIA_GEOCODIO_API_KEY`, `SPATIA_GEOCODIO_BATCH_SIZE` and
/// `SPATIA_GEOCODIO_BASE_URL`.
#[derive(Debug, Clone, PartialEq, Eq)]
pub struct GeocoderSettings {
    pub mode: Option<String>,
    pub daemon_threshold: Option<String>,
    pub geocoder_bin: Option<String>,
    pub geocoder_python: Option<String>,
    pub api_key: Option<String>,
    pub batch_size: Option<String>,
    pub base_url: Option<String>,
}

/// The mathematical content of a [`GeocoderConfig`].
pub struct ConfigModel {
    pub mode: GeocodeMode,
    pub daemon_threshold: usize,
    pub geocoder_bin: Option<Seq<char>>,
    pub geocoder_python: Option<Seq<char>>,
    pub api_key: Option<Seq<char>>,
    pub batch_size: usize,
    pub geocodio_base_url: Seq<char>,
    pub daemon_url: Seq<char>,
}

impl ConfigModel {
    /// The cutoff is positive and the chunk size is within its bounds.
    pub open spec fn wf(self) -> bool {
        self.daemon_threshold > 0 && 1 <= self.batch_size <= MAX_BATCH_SIZE
    }

    /// The options that `settings` denote, where the mode is `mode`.
    pub open spec fn of(
        mode: GeocodeMode,
        daemon_threshold: Option<Seq<char>>,
        geocoder_bin: Option<Seq<char>>,
        geocoder_python: Option<Seq<char>>,
        api_key: Option<Seq<char>>,
        batch_size: Option<Seq<char>>,
        base_url: Option<Seq<char>>,
    ) -> ConfigModel {
        ConfigModel {
            mode,
            daemon_threshold: threshold_of(daemon_threshold),
            geocoder_bin,
            geocoder_python,
            api_key,
            batch_size: batch_size_of(batch_size),
            geocodio_base_url: match base_url {
                Some(url) => url,
                None => GEOCODIO_BASE_URL@,
            },
            daemon_url: DEFAULT_GEOCODER_URL@,
        }
    }
}

/// The options of one call, each with its value in force.
#[derive(Debug, Clone, PartialEq, Eq)]
pub struct GeocoderConfig {
    /// How the local resolver is run; `auto` unless set.
    pub mode: GeocodeMode,
    /// The batch size from which `auto` goes to the daemon; positive.
    pub daemon_threshold: usize,
    /// The resolver executable or script, where one is set.
    pub geocoder_bin: Option<String>,
    /// The interpreter for a resolver script, where one is set.
    pub geocoder_python: Option<String>,
    /// The credential of the remote service, where one is set.
    pub api_key: Option<String>,
    /// The most addresses in one remote request; from 1 to 10000.
    pub batch_size: usize,
    /// Where the remote service is reached.
    pub geocodio_base_url: String,
    /// Where the daemon listens.
    pub daemon_url: String,
}

impl View for GeocoderConfig {
    type V = ConfigModel;

    open spec fn view(&self) -> ConfigModel {
        ConfigModel {
            mode: self.mode,
            daemon_threshold: self.daemon_threshold,
            geocoder_bin: opt_text(self.geocoder_bin),
            geocoder_python: opt_text(self.geocoder_python),
            api_key: opt_text(self.api_key),
            batch_size: self.batch_size,
            geocodio_base_url: self.geocodio_base_url@,
            daemon_url: self.daemon_url@,
        }
    }
}

impl GeocoderConfig {
    /// Whether the options are in order: a positive cutoff and a chunk size
    /// within its bounds.
    pub fn is_valid(&self) -> (r: bool)
        ensures
            r == self@.wf(),
    {
        self.daemon_threshold > 0 && 1 <= self.batch_size && self.batch_size <= MAX_BATCH_SIZE
    }

    /// Reads the options. A mode that is set must name a mode, else the
    /// call is refused; without one the mode is `auto`. Every other option
    /// falls back to its default where it is absent or unusable.
    pub fn from_settings(settings: &GeocoderSettings) -> (r: Result<GeocoderConfig, ConfigError>)
        ensures
            match r {
                Ok(config) => config@.wf() && config@ == ConfigModel::of(
                    match opt_text(settings.mode) {
                        Some(value) => mode_of(value)->0,
                        None => GeocodeMode::Auto,
                    },
                    opt_text(settings.daemon_threshold),
                    opt_text(settings.geocoder_bin),
                    opt_text(settings.geocoder_python),
                    opt_text(settings.api_key),
                    opt_text(settings.batch_size),
                    opt_text(settings.base_url),
                ) && (opt_text(settings.mode) matches Some(value) ==> mode_of(value) is Some),
                Err(e) => opt_text(settings.mode) matches Some(value) && mode_of(value) is None
                    && (e matches ConfigError::InvalidMode { value: v } && v@ == value),
            },
    {
        let mode = match &settings.mode {
            Some(value) => match parse_mode(value.as_str()) {
                Ok(mode) => mode,
                Err(e) => {
                    return Err(e);
                },
            },
            None => GeocodeMode::Auto,
        };
        Ok(
            GeocoderConfig {
                mode,
                daemon_threshold: daemon_threshold(&settings.daemon_threshold),
                geocoder_bin: copy_opt_text(&settings.geocoder_bin),
                geocoder_python: copy_opt_text(&settings.geocoder_python),
                api_key: copy_opt_text(&settings.api_key),
                batch_size: remote_batch_size(&settings.batch_size),
                geocodio_base_url: match &settings.base_url {
                    Some(url) => url.clone(),
                    None => GEOCODIO_BASE_URL.to_owned(),
                },
                daemon_url: DEFAULT_GEOCODER_URL.to_owned(),
            },
        )
    }
}

/// The setting that names the mode.
pub const MODE_SETTING: &'static str = "SPATIA_GEOCODER_MODE";

/// The setting that holds the batch-size cutoff for `auto`.
pub const DAEMON_THRESHOLD_SETTING: &'static str = "SPATIA_GEOCODER_DAEMON_THRESHOLD";

/// The setting that holds the path of the resolver executable or script.
pub const GEOCODER_BIN_SETTING: &'static str = "SPATIA_GEOCODER_BIN";

/// The setting that holds the path of the interpreter for a script.
pub const GEOCODER_PYTHON_SETTING: &'static str = "SPATIA_GEOCODER_PYTHON";

/// The setting that holds the credential of the remote service.
pub const API_KEY_SETTING: &'static str = "SPATIA_GEOCODIO_API_KEY";

/// The setting that holds the chunk size of remote requests.
pub const BATCH_SIZE_SETTING: &'static str = "SPATIA_GEOCODIO_BATCH_SIZE";

/// The setting that holds the address of the remote service.
pub const BASE_URL_SETTING: &'static str = "SPATIA_GEOCODIO_BASE_URL";

} // verus!
