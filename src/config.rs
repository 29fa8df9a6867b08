//! Configuration: general settings and each service's client settings.
use vstd::prelude::*;
use crate::http::concat2;
use crate::json::same_text;
use crate::oauth::OutputMode;

verus! {

/// `s` in upper case, as `str::to_uppercase` writes it.
pub uninterp spec fn uppercase_of(s: Seq<char>) -> Seq<char>;

/// Relies on `str::to_uppercase`.
#[verifier::external_body]
fn uppercase(s: &str) -> (r: String)
    ensures
        r@ == uppercase_of(s@),
{
    s.to_uppercase()
}

#[derive(Clone, Copy, Debug, PartialEq, Eq, Structural)]
pub enum OutputFormat {
    JSON,
    HUMAN,
}

/// `JSON` in any case names the JSON format; every other name the human one.
pub open spec fn output_format_named(name: Seq<char>) -> OutputFormat {
    if uppercase_of(name) == "JSON"@ {
        OutputFormat::JSON
    } else {
        OutputFormat::HUMAN
    }
}

impl OutputFormat {
    /// Raw provider responses are echoed in JSON output only.
    pub fn output_mode(&self) -> (r: OutputMode)
        ensures
            r == (if *self == OutputFormat::JSON { OutputMode::Verbose } else { OutputMode::Quiet }),
    {
        match self {
            OutputFormat::JSON => OutputMode::Verbose,
            OutputFormat::HUMAN => OutputMode::Quiet,
        }
    }
}

impl<'a> From<&'a str> for OutputFormat {
    fn from(format: &'a str) -> (r: Self)
        ensures
            r == output_format_named(format@),
    {
        let upper = uppercase(format);
        if same_text(upper.as_str(), "JSON") {
            OutputFormat::JSON
        } else {
            OutputFormat::HUMAN
        }
    }
}

impl<'a> vstd::std_specs::convert::FromSpecImpl<&'a str> for OutputFormat {
    open spec fn obeys_from_spec() -> bool {
        true
    }

    open spec fn from_spec(v: &'a str) -> Self {
        output_format_named(v@)
    }
}

/// How much is printed, from most to least.
#[derive(Clone, Copy, Debug, PartialEq, Eq, Structural)]
pub enum Verbosity {
    VERBOSE,
    NORMAL,
    QUIET,
}

impl Verbosity {
    pub open spec fn rank(self) -> int {
        match self {
            Verbosity::VERBOSE => 1,
            Verbosity::NORMAL => 2,
            Verbosity::QUIET => 3,
        }
    }

    pub fn level(&self) -> (r: u8)
        ensures
            r as int == self.rank(),
    {
        match self {
            Verbosity::VERBOSE => 1,
            Verbosity::NORMAL => 2,
            Verbosity::QUIET => 3,
        }
    }
}

/// A message of level `message` is printed under the configured `verbosity`
/// when its level is at least as high.
pub fn is_relevant(message: Verbosity, verbosity: Verbosity) -> (r: bool)
    ensures
        r == (message.rank() >= verbosity.rank()),
{
    message.level() >= verbosity.level()
}

pub struct GeneralConfig {
    pub cache_dir: String,
    pub output_format: OutputFormat,
    pub verbosity: Verbosity,
}

pub struct CenterDeviceConfig {
    pub client_id: String,
    pub client_secret: String,
    pub refresh_token: Option<String>,
    pub access_token: Option<String>,
    pub api_base_url: String,
}

/// The API host when the configuration names none.
pub fn default_api_base_url() -> (r: String)
    ensures
        r@ == "centerdevice.de"@,
{
    "centerdevice.de".to_owned()
}

pub struct PocketConfig {
    pub consumer_key: String,
    pub access_token: Option<String>,
}

pub struct SlackConfig {
    pub client_id: String,
    pub client_secret: String,
    pub access_token: Option<String>,
}

pub struct Config {
    pub general: GeneralConfig,
    pub centerdevice: CenterDeviceConfig,
    pub pocket: PocketConfig,
    pub slack: SlackConfig,
}

/// Where a module keeps one kind of cached data: `<module>.<name>.toml` in the cache directory.
pub struct Cache {
    cache_dir: String,
    filename: String,
}

impl Cache {
    pub closed spec fn dir(&self) -> Seq<char> {
        self.cache_dir@
    }

    pub closed spec fn file(&self) -> Seq<char> {
        self.filename@
    }

    pub fn new(config: &Config, module_name: &str, cache_name: &str) -> (r: Cache)
        ensures
            r.dir() == config.general.cache_dir@,
            r.file() == module_name@ + "."@ + cache_name@ + ".toml"@,
    {
        let mut filename = concat2(module_name, ".");
        filename.append(cache_name);
        filename.append(".toml");
        Cache { cache_dir: config.general.cache_dir.clone(), filename }
    }

    pub fn cache_dir(&self) -> (r: &str)
        ensures
            r@ == self.dir(),
    {
        self.cache_dir.as_str()
    }

    pub fn filename(&self) -> (r: &str)
        ensures
            r@ == self.file(),
    {
        self.filename.as_str()
    }
}

} // verus!
