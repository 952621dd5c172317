//! The static settings: where the server binds, which backend it drives,
//! and how its HTTP client and its logging are set up.

use vstd::prelude::*;
use vstd::string::*;
use crate::providers::ProviderError;

verus! {

/// Where the server binds.
#[derive(Clone, Debug)]
pub struct ServerConfig {
    pub host: String,
    pub port: u16,
}

/// The parameters of the HTTP client of an adapter.
#[derive(Clone, Copy, Debug, PartialEq, Eq, Structural)]
pub struct HttpConfigSchema {
    pub timeout_secs: u64,
    pub connect_timeout_secs: u64,
    pub max_retries: u32,
    pub retry_backoff_ms: u64,
    pub keep_alive_secs: Option<u64>,
    pub max_idle_connections: Option<usize>,
}

/// The backend that the gateway drives, with its own parameters.
#[derive(Clone, Debug)]
pub enum InferenceProvider {
    LMStudio,
    /// Reserved: no adapter serves it.
    Triton { model_version: String },
    OpenAI { api_key: String, organization_id: Option<String> },
    Mock { responses_dir: String },
}

/// What all backends share, and the backend that is selected.
#[derive(Clone, Debug)]
pub struct InferenceConfig {
    pub base_url: String,
    pub default_model: String,
    /// The models that a request may name; every model where there is no
    /// list.
    pub allowed_models: Option<Vec<String>>,
    pub timeout_secs: u64,
    pub http: Option<HttpConfigSchema>,
    pub provider: InferenceProvider,
}

/// How a log line is laid out.
#[derive(Clone, Copy, Debug, PartialEq, Eq, Structural)]
pub enum LogFormat {
    Json,
    Pretty,
    Compact,
}

/// Where log lines go.
#[derive(Clone, Copy, Debug, PartialEq, Eq, Structural)]
pub enum LogOutput {
    Stdout,
    File,
    Both,
}

/// When a log file is followed by a new one.
#[derive(Clone, Copy, Debug, PartialEq, Eq, Structural)]
pub enum RotationPolicy {
    Daily,
    Hourly,
    Size,
}

/// The files that log lines go to.
#[derive(Clone, Debug)]
pub struct FileLoggingConfig {
    pub directory: String,
    pub prefix: String,
    pub max_file_size_mb: u64,
    pub max_files: u32,
    pub rotation_policy: RotationPolicy,
}

/// The settings of the logging.
#[derive(Clone, Debug)]
pub struct LoggingConfig {
    pub level: String,
    pub format: LogFormat,
    pub output: LogOutput,
    pub file: Option<FileLoggingConfig>,
}

/// All settings of the gateway.
#[derive(Clone, Debug)]
pub struct Settings {
    pub server: ServerConfig,
    pub inference: InferenceConfig,
    pub logging: LoggingConfig,
}

/// The time the making of a connection may take where none is set.
pub fn default_connect_timeout_secs() -> (r: u64)
    ensures
        r == 30,
{
    30
}

/// The number of tries after the first where none is set.
pub fn default_max_retries() -> (r: u32)
    ensures
        r == 3,
{
    3
}

/// The pause before the second try where none is set.
pub fn default_retry_backoff_ms() -> (r: u64)
    ensures
        r == 250,
{
    250
}

/// The time an idle connection is kept where none is set.
pub fn default_keep_alive_secs() -> (r: Option<u64>)
    ensures
        r == Some(60u64),
{
    Some(60)
}

/// The number of idle connections kept for a host where none is set.
pub fn default_max_idle_connections() -> (r: Option<usize>)
    ensures
        r == Some(10usize),
{
    Some(10)
}

/// The model of a request that names none, where none is set.
pub fn default_model() -> (r: String)
    ensures
        r@ == "gpt-oss-20b"@,
{
    String::from_str("gpt-oss-20b")
}

/// The address the server binds to where none is set.
pub fn default_host() -> (r: String)
    ensures
        r@ == "127.0.0.1"@,
{
    String::from_str("127.0.0.1")
}

/// The port the server binds to where none is set.
pub fn default_port() -> (r: u16)
    ensures
        r == 3000,
{
    3000
}

/// The time a whole call may take where none is set.
pub fn default_timeout_secs() -> (r: u64)
    ensures
        r == 60,
{
    60
}

/// Where log lines go where nothing is set.
pub fn default_log_output() -> (r: LogOutput)
    ensures
        r == LogOutput::Stdout,
{
    LogOutput::Stdout
}

/// The level of the logging where none is set.
pub fn default_log_level() -> (r: String)
    ensures
        r@ == "info"@,
{
    String::from_str("info")
}

/// The layout of a log line where none is set.
pub fn default_log_format() -> (r: LogFormat)
    ensures
        r == LogFormat::Pretty,
{
    LogFormat::Pretty
}

/// The directory of the log files where none is set.
pub fn default_log_directory() -> (r: String)
    ensures
        r@ == "./logs"@,
{
    String::from_str("./logs")
}

/// The prefix of the names of the log files where none is set.
pub fn default_log_file_prefix() -> (r: String)
    ensures
        r@ == "app"@,
{
    String::from_str("app")
}

/// The size a log file may reach where none is set.
pub fn default_log_file_max_size_mb() -> (r: u64)
    ensures
        r == 10,
{
    10
}

/// The number of log files kept where none is set.
pub fn default_log_file_max_files() -> (r: u32)
    ensures
        r == 10,
{
    10
}

/// When a log file is followed by a new one where nothing is set.
pub fn default_rotation_policy() -> (r: RotationPolicy)
    ensures
        r == RotationPolicy::Daily,
{
    RotationPolicy::Daily
}

impl HttpConfigSchema {
    /// The settings of a client whose configuration names none.
    pub open spec fn standard() -> HttpConfigSchema {
        HttpConfigSchema {
            timeout_secs: 60,
            connect_timeout_secs: 30,
            max_retries: 3,
            retry_backoff_ms: 250,
            keep_alive_secs: Some(60),
            max_idle_connections: Some(10),
        }
    }

    /// The settings that an adapter falls back to where the configuration
    /// has no section for the client.
    pub open spec fn fallback() -> HttpConfigSchema {
        HttpConfigSchema {
            timeout_secs: 30,
            connect_timeout_secs: 10,
            max_retries: 3,
            retry_backoff_ms: 100,
            keep_alive_secs: Some(30),
            max_idle_connections: Some(10),
        }
    }

    /// The time a whole call may take, in seconds.
    pub fn timeout(&self) -> (r: u64)
        ensures
            r == self.timeout_secs,
    {
        self.timeout_secs
    }

    /// The time the making of a connection may take, in seconds.
    pub fn connect_timeout(&self) -> (r: u64)
        ensures
            r == self.connect_timeout_secs,
    {
        self.connect_timeout_secs
    }

    /// The time an idle connection is kept, in seconds.
    pub fn keep_alive(&self) -> (r: Option<u64>)
        ensures
            r == self.keep_alive_secs,
    {
        self.keep_alive_secs
    }

    /// The settings for the client of an adapter.
    pub fn for_adapter(configured: Option<HttpConfigSchema>) -> (r: HttpConfigSchema)
        ensures
            r == (match configured {
                Some(c) => c,
                None => HttpConfigSchema::fallback(),
            }),
    {
        match configured {
            Some(c) => c,
            None => HttpConfigSchema {
                timeout_secs: 30,
                connect_timeout_secs: 10,
                max_retries: 3,
                retry_backoff_ms: 100,
                keep_alive_secs: Some(30),
                max_idle_connections: Some(10),
            },
        }
    }
}

impl Default for HttpConfigSchema {
    fn default() -> (r: HttpConfigSchema)
        ensures
            r == HttpConfigSchema::standard(),
    {
        HttpConfigSchema {
            timeout_secs: default_timeout_secs(),
            connect_timeout_secs: default_connect_timeout_secs(),
            max_retries: default_max_retries(),
            retry_backoff_ms: default_retry_backoff_ms(),
            keep_alive_secs: default_keep_alive_secs(),
            max_idle_connections: default_max_idle_connections(),
        }
    }
}

impl InferenceConfig {
    /// The name of the backend that the configuration selects.
    pub open spec fn spec_provider_name(self) -> Seq<char> {
        match self.provider {
            InferenceProvider::LMStudio => "lmstudio"@,
            InferenceProvider::Triton { .. } => "triton"@,
            InferenceProvider::OpenAI { .. } => "openai"@,
            InferenceProvider::Mock { .. } => "mock"@,
        }
    }

    /// The name of the backend that the configuration selects.
    pub fn provider_name(&self) -> (r: &'static str)
        ensures
            r@ == self.spec_provider_name(),
    {
        match &self.provider {
            InferenceProvider::LMStudio => "lmstudio",
            InferenceProvider::Triton { .. } => "triton",
            InferenceProvider::OpenAI { .. } => "openai",
            InferenceProvider::Mock { .. } => "mock",
        }
    }

    /// Whether the backend takes a key: the hosted API does.
    pub fn requires_auth(&self) -> (r: bool)
        ensures
            r == (self.provider is OpenAI),
    {
        match &self.provider {
            InferenceProvider::OpenAI { .. } => true,
            _ => false,
        }
    }
}

} // verus!
