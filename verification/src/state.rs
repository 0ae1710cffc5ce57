use vstd::prelude::*;

use crate::config::{
    law_boolean_words,
    bool_setting, credentials_location, credentials_path, env_bool, ConfigError, ConfigProblem,
    EnvSetting, EnvValue, Environment, EnvironmentView,
};
use crate::text::{ascii_lowered, strip_trailing_slashes, trim, trimmed, without_trailing_slashes};

verus! {

/// `reqwest::Client`, held opaque.
#[verifier::external_type_specification]
#[verifier::external_body]
pub struct ExClient(reqwest::Client);

/// `reqwest::Error`, held opaque.
#[verifier::external_type_specification]
#[verifier::external_body]
pub struct ExReqwestError(reqwest::Error);

/// An HTTP client together with the settings it was built with.
pub struct HttpClient {
    client: reqwest::Client,
    timeout_secs: u64,
    user_agent: String,
}

/// Builds the HTTP client: calls `reqwest::Client::builder`, sets the
/// request timeout and the `User-Agent` header, and calls
/// `reqwest::ClientBuilder::build`; a built client is returned with the
/// timeout and `User-Agent` it was given. The contract claims only that
/// these recorded settings are the arguments; whether the client can be
/// built depends on the machine (TLS back end, system configuration), and
/// nothing is claimed of that.
#[verifier::external_body]
fn build_http_client(timeout_secs: u64, user_agent: &str) -> (built: Result<HttpClient, reqwest::Error>)
    ensures
        built matches Ok(c) ==> c.timeout_secs == timeout_secs && c.user_agent@ == user_agent@,
{
    let builder = reqwest::Client::builder()
        .timeout(std::time::Duration::from_secs(timeout_secs))
        .user_agent(user_agent.to_owned());
    match builder.build() {
        Ok(client) => Ok(HttpClient { client, timeout_secs, user_agent: user_agent.to_owned() }),
        Err(error) => Err(error),
    }
}

/// The ElevenLabs API used unless `VOXTYPE_ELEVENLABS_API_BASE` says otherwise.
pub const DEFAULT_API_BASE: &'static str = "https://api.elevenlabs.io";

/// The model used unless `VOXTYPE_ELEVENLABS_MODEL` says otherwise.
pub const DEFAULT_MODEL: &'static str = "scribe_v2";

/// The timeout, in seconds, of each request to ElevenLabs.
pub const UPSTREAM_TIMEOUT_SECS: u64 = 120;

/// The `User-Agent` the adapter sends upstream.
pub const USER_AGENT: &'static str = "voxtype-elevenlabs-adapter/0.1.0";

/// The shared state of the adapter: the HTTP client and its settings.
pub struct AdapterState {
    client: HttpClient,
    credentials_path: String,
    api_base: String,
    model: String,
    no_verbatim: bool,
}

/// The settings of an [`AdapterState`].
pub struct StateView {
    pub credentials_path: Seq<char>,
    pub api_base: Seq<char>,
    pub model: Seq<char>,
    pub no_verbatim: bool,
    pub timeout_secs: u64,
    pub user_agent: Seq<char>,
}

impl View for AdapterState {
    type V = StateView;

    closed spec fn view(&self) -> StateView {
        StateView {
            credentials_path: self.credentials_path@,
            api_base: self.api_base@,
            model: self.model@,
            no_verbatim: self.no_verbatim,
            timeout_secs: self.client.timeout_secs,
            user_agent: self.client.user_agent@,
        }
    }
}

/// The value of a text variable, or `default` when it is not usable.
pub open spec fn text_setting(value: EnvSetting, default: Seq<char>) -> Seq<char> {
    match value {
        EnvSetting::Value(v) => v,
        _ => default,
    }
}

/// The settings the environment gives, or the problem with it. The key
/// file location is resolved first, then the boolean switch.
pub open spec fn settings_from(env: EnvironmentView) -> Result<StateView, ConfigProblem> {
    match credentials_location(env) {
        Err(p) => Err(p),
        Ok(path) => match bool_setting("VOXTYPE_ELEVENLABS_NO_VERBATIM"@, env.no_verbatim, false) {
            Err(p) => Err(p),
            Ok(no_verbatim) => Ok(
                StateView {
                    credentials_path: path,
                    api_base: without_trailing_slashes(text_setting(env.api_base, DEFAULT_API_BASE@)),
                    model: text_setting(env.model, DEFAULT_MODEL@),
                    no_verbatim,
                    timeout_secs: UPSTREAM_TIMEOUT_SECS,
                    user_agent: USER_AGENT@,
                },
            ),
        },
    }
}

/// The settings the environment gives: the key file is where
/// `credentials_path` says (so `VOXTYPE_ELEVENLABS_CREDENTIALS`, when set,
/// is used as it is); `no_verbatim` is what the boolean variable
/// `VOXTYPE_ELEVENLABS_NO_VERBATIM` says, off when unset; the API base and
/// model are the variables' values, or the ElevenLabs API and `scribe_v2`.
/// The environment is refused exactly when the key file has no location
/// or the boolean variable is not a boolean word.
pub proof fn law_settings_follow_environment(env: EnvironmentView)
    ensures
        credentials_location(env) matches Err(p) ==> settings_from(env) == Err::<StateView, ConfigProblem>(p),
        credentials_location(env) is Ok ==> (bool_setting("VOXTYPE_ELEVENLABS_NO_VERBATIM"@, env.no_verbatim, false)
            matches Err(p) ==> settings_from(env) == Err::<StateView, ConfigProblem>(p)),
        (credentials_location(env) is Ok && bool_setting("VOXTYPE_ELEVENLABS_NO_VERBATIM"@, env.no_verbatim, false)
            is Ok) ==> (settings_from(env) is Ok),
        settings_from(env) matches Ok(v) ==> credentials_location(env) == Ok::<Seq<char>, ConfigProblem>(
            v.credentials_path,
        ),
        settings_from(env) matches Ok(v) ==> (env.credentials matches EnvSetting::Value(p) ==> v.credentials_path
            == p),
        settings_from(env) matches Ok(v) ==> bool_setting("VOXTYPE_ELEVENLABS_NO_VERBATIM"@, env.no_verbatim, false)
            == Ok::<bool, ConfigProblem>(v.no_verbatim),
        settings_from(env) matches Ok(v) ==> ((env.no_verbatim is Unset) ==> !v.no_verbatim),
        settings_from(env) matches Ok(v) ==> (env.no_verbatim matches EnvSetting::Value(w) ==> ((ascii_lowered(w)
            == "0"@ || ascii_lowered(w) == "false"@ || ascii_lowered(w) == "no"@ || ascii_lowered(w) == "off"@)
            ==> !v.no_verbatim)),
        settings_from(env) matches Ok(v) ==> (env.no_verbatim matches EnvSetting::Value(w) ==> ((ascii_lowered(w)
            == "1"@ || ascii_lowered(w) == "true"@ || ascii_lowered(w) == "yes"@ || ascii_lowered(w) == "on"@)
            ==> v.no_verbatim)),
        settings_from(env) matches Ok(v) ==> (env.model matches EnvSetting::Value(m) ==> v.model == m),
        settings_from(env) matches Ok(v) ==> (!(env.model is Value) ==> v.model == "scribe_v2"@),
        settings_from(env) matches Ok(v) ==> (env.api_base matches EnvSetting::Value(b) ==> v.api_base
            == without_trailing_slashes(b)),
        settings_from(env) matches Ok(v) ==> (!(env.api_base is Value) ==> v.api_base
            == "https://api.elevenlabs.io"@),
{
    law_boolean_words("VOXTYPE_ELEVENLABS_NO_VERBATIM"@, env.no_verbatim, false);
    if !(env.api_base is Value) {
        reveal_strlit("https://api.elevenlabs.io");
        assert(without_trailing_slashes("https://api.elevenlabs.io"@) == "https://api.elevenlabs.io"@);
    }
}

/// Why no API key could be had.
#[derive(Debug)]
pub enum ApiKeyError {
    /// The key file could not be read.
    NotConfigured { path: String },
    /// The key file holds only white space.
    EmptyFile,
}

/// The model of an [`ApiKeyError`].
pub enum ApiKeyProblem {
    NotConfigured(Seq<char>),
    EmptyFile,
}

impl View for ApiKeyError {
    type V = ApiKeyProblem;

    open spec fn view(&self) -> ApiKeyProblem {
        match self {
            ApiKeyError::NotConfigured { path } => ApiKeyProblem::NotConfigured(path@),
            ApiKeyError::EmptyFile => ApiKeyProblem::EmptyFile,
        }
    }
}

/// The text shown when no API key could be had.
pub open spec fn api_key_problem_text(p: ApiKeyProblem) -> Seq<char> {
    match p {
        ApiKeyProblem::NotConfigured(path) => "ElevenLabs API key is not configured; run `voxtype-elevenlabs-adapter set-key` (expected "@
            + path + ")"@,
        ApiKeyProblem::EmptyFile => "ElevenLabs API key file is empty; run `voxtype-elevenlabs-adapter set-key`"@,
    }
}

impl ApiKeyError {
    /// The text shown for this error.
    pub fn message(&self) -> (text: String)
        ensures
            text@ == api_key_problem_text(self@),
    {
        match self {
            ApiKeyError::NotConfigured { path } => {
                let mut text = String::from_str(
                    "ElevenLabs API key is not configured; run `voxtype-elevenlabs-adapter set-key` (expected ",
                );
                text.append(path.as_str());
                text.append(")");
                text
            },
            ApiKeyError::EmptyFile => String::from_str(
                "ElevenLabs API key file is empty; run `voxtype-elevenlabs-adapter set-key`",
            ),
        }
    }
}

/// The key that `ELEVENLABS_API_KEY` gives: its trimmed value, unless that
/// is empty or the variable is unusable.
pub open spec fn key_from_env(value: EnvSetting) -> Option<Seq<char>> {
    match value {
        EnvSetting::Value(v) => if trimmed(v).len() > 0 {
            Some(trimmed(v))
        } else {
            None
        },
        _ => None,
    }
}

/// The key that the key file gives (`None`: it could not be read).
pub open spec fn key_from_file(path: Seq<char>, contents: Option<Seq<char>>) -> Result<
    Seq<char>,
    ApiKeyProblem,
> {
    match contents {
        None => Err(ApiKeyProblem::NotConfigured(path)),
        Some(text) => if trimmed(text).len() > 0 {
            Ok(trimmed(text))
        } else {
            Err(ApiKeyProblem::EmptyFile)
        },
    }
}

/// The key `ELEVENLABS_API_KEY` gives, which takes precedence over the key
/// file; `None` means the key file must be read.
pub fn api_key_from_env(value: &EnvValue) -> (key: Option<String>)
    ensures
        match key_from_env(value@) {
            Some(k) => key matches Some(s) && s@ == k,
            None => key is None,
        },
{
    match value {
        EnvValue::Value(v) => {
            let key = trim(v.as_str());
            if key.as_str().unicode_len() > 0 {
                Some(key)
            } else {
                None
            }
        },
        _ => None,
    }
}

/// The health report of the adapter.
pub struct HealthResponse {
    pub status: &'static str,
    pub configured: bool,
    pub model: String,
}

impl AdapterState {
    /// The API base URL never ends in `/`, so endpoint paths join it with a
    /// single slash.
    #[verifier::type_invariant]
    spec fn api_base_unslashed(self) -> bool {
        self.api_base@.len() == 0 || self.api_base@.last() != '/'
    }

    /// Creates the state: builds the HTTP client with a 120-second request
    /// timeout and the adapter's `User-Agent`, and drops the trailing `/`
    /// characters of `api_base`.
    pub fn new(credentials_path: String, api_base: String, model: String, no_verbatim: bool) -> (r:
        Result<Self, ConfigError>)
        ensures
            r matches Ok(state) ==> state@ == (StateView {
                credentials_path: credentials_path@,
                api_base: without_trailing_slashes(api_base@),
                model: model@,
                no_verbatim,
                timeout_secs: UPSTREAM_TIMEOUT_SECS,
                user_agent: USER_AGENT@,
            }),
            r matches Err(e) ==> e@ == ConfigProblem::HttpClient,
    {
        let client = match build_http_client(UPSTREAM_TIMEOUT_SECS, USER_AGENT) {
            Ok(client) => client,
            Err(_) => {
                return Err(ConfigError::HttpClient);
            },
        };
        let api_base = strip_trailing_slashes(api_base.as_str());
        Ok(AdapterState { client, credentials_path, api_base, model, no_verbatim })
    }

    /// Creates the state from the environment's settings.
    pub fn from_environment(env: &Environment) -> (r: Result<Self, ConfigError>)
        ensures
            match settings_from(env@) {
                Err(p) => r matches Err(e) && e@ == p,
                Ok(settings) => match r {
                    Ok(state) => state@ == settings,
                    Err(e) => e@ == ConfigProblem::HttpClient,
                },
            },
    {
        let credentials_path = credentials_path(env)?;
        let api_base = match &env.api_base {
            EnvValue::Value(v) => v.clone(),
            _ => String::from_str(DEFAULT_API_BASE),
        };
        let model = match &env.model {
            EnvValue::Value(v) => v.clone(),
            _ => String::from_str(DEFAULT_MODEL),
        };
        let no_verbatim = match env_bool("VOXTYPE_ELEVENLABS_NO_VERBATIM", &env.no_verbatim, false) {
            Ok(b) => b,
            Err(e) => {
                return Err(e);
            },
        };
        Self::new(credentials_path, api_base, model, no_verbatim)
    }

    /// The HTTP client this state holds: the one built when the state was
    /// created.
    pub closed spec fn http_client(&self) -> reqwest::Client {
        self.client.client
    }

    /// The HTTP client for requests to ElevenLabs.
    pub fn client(&self) -> (client: &reqwest::Client)
        ensures
            *client == self.http_client(),
    {
        &self.client.client
    }

    /// Where the API key file is.
    pub fn credentials_path(&self) -> (path: &str)
        ensures
            path@ == self@.credentials_path,
    {
        self.credentials_path.as_str()
    }

    /// The ElevenLabs API base URL, without a trailing `/`.
    pub fn api_base(&self) -> (base: &str)
        ensures
            base@ == self@.api_base,
            base@.len() == 0 || base@.last() != '/',
    {
        proof {
            use_type_invariant(self);
        }
        self.api_base.as_str()
    }

    /// The ElevenLabs model to use.
    pub fn model(&self) -> (model: &str)
        ensures
            model@ == self@.model,
    {
        self.model.as_str()
    }

    /// Whether ElevenLabs is asked to drop fillers and false starts.
    pub fn no_verbatim(&self) -> (b: bool)
        ensures
            b == self@.no_verbatim,
    {
        self.no_verbatim
    }

    /// The key that the key file gives, from its contents (`None`: the file
    /// could not be read).
    pub fn api_key_from_file(&self, contents: Option<String>) -> (key: Result<String, ApiKeyError>)
        ensures
            match key_from_file(self@.credentials_path, contents.deep_view()) {
                Ok(k) => key matches Ok(s) && s@ == k,
                Err(p) => key matches Err(e) && e@ == p,
            },
    {
        match contents {
            None => Err(ApiKeyError::NotConfigured { path: self.credentials_path.clone() }),
            Some(text) => {
                let key = trim(text.as_str());
                if key.as_str().unicode_len() > 0 {
                    Ok(key)
                } else {
                    Err(ApiKeyError::EmptyFile)
                }
            },
        }
    }

    /// The health report: the adapter is up, whether a key is configured,
    /// and the model in use.
    pub fn health(&self, configured: bool) -> (report: HealthResponse)
        ensures
            report.status@ == "ok"@,
            report.configured == configured,
            report.model@ == self@.model,
    {
        HealthResponse { status: "ok", configured, model: self.model.clone() }
    }
}

} // verus!
