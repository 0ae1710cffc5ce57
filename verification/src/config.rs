use vstd::prelude::*;

use crate::text::{ascii_lowered, chars_of, same_chars, to_ascii_lower};

verus! {

/// What the process environment holds for one variable (`std::env::var`).
#[derive(Debug)]
pub enum EnvValue {
    /// The variable is not set.
    Unset,
    /// The variable is set but not valid Unicode; the text is the debug
    /// rendering of its raw value.
    NotUnicode(String),
    /// The variable is set to this text.
    Value(String),
}

/// The model of an [`EnvValue`].
pub enum EnvSetting {
    Unset,
    NotUnicode(Seq<char>),
    Value(Seq<char>),
}

impl View for EnvValue {
    type V = EnvSetting;

    open spec fn view(&self) -> EnvSetting {
        match self {
            EnvValue::Unset => EnvSetting::Unset,
            EnvValue::NotUnicode(raw) => EnvSetting::NotUnicode(raw@),
            EnvValue::Value(value) => EnvSetting::Value(value@),
        }
    }
}

/// The environment variables that configure the adapter.
pub struct Environment {
    /// `VOXTYPE_ELEVENLABS_CREDENTIALS`
    pub credentials: EnvValue,
    /// `XDG_CONFIG_HOME`
    pub xdg_config_home: EnvValue,
    /// `HOME`
    pub home: EnvValue,
    /// `VOXTYPE_ELEVENLABS_API_BASE`
    pub api_base: EnvValue,
    /// `VOXTYPE_ELEVENLABS_MODEL`
    pub model: EnvValue,
    /// `VOXTYPE_ELEVENLABS_NO_VERBATIM`
    pub no_verbatim: EnvValue,
}

/// The model of an [`Environment`].
pub struct EnvironmentView {
    pub credentials: EnvSetting,
    pub xdg_config_home: EnvSetting,
    pub home: EnvSetting,
    pub api_base: EnvSetting,
    pub model: EnvSetting,
    pub no_verbatim: EnvSetting,
}

impl View for Environment {
    type V = EnvironmentView;

    open spec fn view(&self) -> EnvironmentView {
        EnvironmentView {
            credentials: self.credentials@,
            xdg_config_home: self.xdg_config_home@,
            home: self.home@,
            api_base: self.api_base@,
            model: self.model@,
            no_verbatim: self.no_verbatim@,
        }
    }
}

/// Why the adapter could not be configured.
#[derive(Debug)]
pub enum ConfigError {
    /// Neither the credentials variables nor `HOME` give a key file location.
    HomeNotSet,
    /// A boolean variable holds something other than a boolean word.
    InvalidBool { name: String },
    /// A variable is set but not valid Unicode.
    NotUnicode { raw: String },
    /// The HTTP client could not be created.
    HttpClient,
}

/// The model of a [`ConfigError`].
pub enum ConfigProblem {
    HomeNotSet,
    InvalidBool(Seq<char>),
    NotUnicode(Seq<char>),
    HttpClient,
}

impl View for ConfigError {
    type V = ConfigProblem;

    open spec fn view(&self) -> ConfigProblem {
        match self {
            ConfigError::HomeNotSet => ConfigProblem::HomeNotSet,
            ConfigError::InvalidBool { name } => ConfigProblem::InvalidBool(name@),
            ConfigError::NotUnicode { raw } => ConfigProblem::NotUnicode(raw@),
            ConfigError::HttpClient => ConfigProblem::HttpClient,
        }
    }
}

/// The text shown for a configuration problem.
pub open spec fn config_problem_text(p: ConfigProblem) -> Seq<char> {
    match p {
        ConfigProblem::HomeNotSet => "HOME is not set"@,
        ConfigProblem::InvalidBool(name) => name + " must be true or false"@,
        ConfigProblem::NotUnicode(raw) => "environment variable was not valid unicode: "@ + raw,
        ConfigProblem::HttpClient => "failed to create HTTP client"@,
    }
}

impl ConfigError {
    /// The text shown for this error.
    pub fn message(&self) -> (text: String)
        ensures
            text@ == config_problem_text(self@),
    {
        match self {
            ConfigError::HomeNotSet => String::from_str("HOME is not set"),
            ConfigError::InvalidBool { name } => {
                let mut text = name.clone();
                text.append(" must be true or false");
                text
            },
            ConfigError::NotUnicode { raw } => {
                let mut text = String::from_str("environment variable was not valid unicode: ");
                text.append(raw.as_str());
                text
            },
            ConfigError::HttpClient => String::from_str("failed to create HTTP client"),
        }
    }
}

/// The words that switch a boolean variable on, once lowercased.
pub open spec fn is_true_word(w: Seq<char>) -> bool {
    w == "1"@ || w == "true"@ || w == "yes"@ || w == "on"@
}

/// The words that switch a boolean variable off, once lowercased.
pub open spec fn is_false_word(w: Seq<char>) -> bool {
    w == "0"@ || w == "false"@ || w == "no"@ || w == "off"@
}

/// The value of a boolean variable: the default when unset; `1`, `true`,
/// `yes`, `on` or `0`, `false`, `no`, `off`, in any ASCII case; anything
/// else is an error naming the variable.
pub open spec fn bool_setting(name: Seq<char>, value: EnvSetting, default: bool) -> Result<
    bool,
    ConfigProblem,
> {
    match value {
        EnvSetting::Unset => Ok(default),
        EnvSetting::NotUnicode(raw) => Err(ConfigProblem::NotUnicode(raw)),
        EnvSetting::Value(v) => if is_true_word(ascii_lowered(v)) {
            Ok(true)
        } else if is_false_word(ascii_lowered(v)) {
            Ok(false)
        } else {
            Err(ConfigProblem::InvalidBool(name))
        },
    }
}

/// Whether `word` is one of `words`.
fn is_one_of(word: &Vec<char>, words: &[&str]) -> (found: bool)
    ensures
        found == exists|i: int| 0 <= i < words@.len() && word@ == (#[trigger] words@[i])@,
{
    let mut i: usize = 0;
    while i < words.len()
        invariant
            i <= words@.len(),
            forall|j: int| 0 <= j < i ==> word@ != (#[trigger] words@[j])@,
        decreases words.len() - i,
    {
        let candidate = chars_of(words[i]);
        if same_chars(word, &candidate) {
            return true;
        }
        i = i + 1;
    }
    false
}

/// A boolean variable is on for `1`, `true`, `yes`, `on` and off for `0`,
/// `false`, `no`, `off`, in any ASCII case; unset it takes the default; any
/// other value is refused, naming the variable.
pub proof fn law_boolean_words(name: Seq<char>, value: EnvSetting, default: bool)
    ensures
        value is Unset ==> bool_setting(name, value, default) == Ok::<bool, ConfigProblem>(default),
        value matches EnvSetting::Value(w) ==> ((ascii_lowered(w) == "1"@ || ascii_lowered(w) == "true"@
            || ascii_lowered(w) == "yes"@ || ascii_lowered(w) == "on"@) ==> bool_setting(name, value, default)
            == Ok::<bool, ConfigProblem>(true)),
        value matches EnvSetting::Value(w) ==> ((ascii_lowered(w) == "0"@ || ascii_lowered(w) == "false"@
            || ascii_lowered(w) == "no"@ || ascii_lowered(w) == "off"@) ==> bool_setting(name, value, default)
            == Ok::<bool, ConfigProblem>(false)),
        value matches EnvSetting::Value(w) ==> (!(ascii_lowered(w) == "1"@ || ascii_lowered(w) == "true"@
            || ascii_lowered(w) == "yes"@ || ascii_lowered(w) == "on"@ || ascii_lowered(w) == "0"@
            || ascii_lowered(w) == "false"@ || ascii_lowered(w) == "no"@ || ascii_lowered(w) == "off"@)
            ==> bool_setting(name, value, default) == Err::<bool, ConfigProblem>(ConfigProblem::InvalidBool(name))),
{
    reveal_strlit("1");
    reveal_strlit("true");
    reveal_strlit("yes");
    reveal_strlit("on");
    reveal_strlit("0");
    reveal_strlit("false");
    reveal_strlit("no");
    reveal_strlit("off");
    assert("0"@[0] != "1"@[0]);
    assert("no"@[0] != "on"@[0]);
    assert("off"@[0] != "yes"@[0]);
    assert(!is_true_word("0"@));
    assert("false"@.len() == 5);
    assert("true"@.len() == 4);
    assert("false"@ != "1"@ && "false"@ != "true"@ && "false"@ != "yes"@ && "false"@ != "on"@);
    assert(!is_true_word("false"@));
    assert(!is_true_word("no"@));
    assert("off"@.len() == 3);
    assert("off"@ != "1"@ && "off"@ != "true"@ && "off"@ != "on"@);
    assert("off"@ != "yes"@);
    assert(!is_true_word("off"@));
}

/// Reads a boolean setting (`env_bool`).
pub fn env_bool(name: &str, value: &EnvValue, default: bool) -> (r: Result<bool, ConfigError>)
    ensures
        match bool_setting(name@, value@, default) {
            Ok(b) => r == Ok::<bool, ConfigError>(b),
            Err(p) => r matches Err(e) && e@ == p,
        },
{
    match value {
        EnvValue::Unset => Ok(default),
        EnvValue::NotUnicode(raw) => Err(ConfigError::NotUnicode { raw: raw.clone() }),
        EnvValue::Value(v) => {
            let lower = to_ascii_lower(&chars_of(v.as_str()));
            let true_words = ["1", "true", "yes", "on"];
            let false_words = ["0", "false", "no", "off"];
            let is_true = is_one_of(&lower, &true_words);
            let is_false = is_one_of(&lower, &false_words);
            assert(is_true == is_true_word(lower@)) by {
                if is_true_word(lower@) {
                    if lower@ == "1"@ { assert(true_words@[0]@ == "1"@); }
                    if lower@ == "true"@ { assert(true_words@[1]@ == "true"@); }
                    if lower@ == "yes"@ { assert(true_words@[2]@ == "yes"@); }
                    if lower@ == "on"@ { assert(true_words@[3]@ == "on"@); }
                }
            }
            assert(is_false == is_false_word(lower@)) by {
                if is_false_word(lower@) {
                    if lower@ == "0"@ { assert(false_words@[0]@ == "0"@); }
                    if lower@ == "false"@ { assert(false_words@[1]@ == "false"@); }
                    if lower@ == "no"@ { assert(false_words@[2]@ == "no"@); }
                    if lower@ == "off"@ { assert(false_words@[3]@ == "off"@); }
                }
            }
            if is_true {
                Ok(true)
            } else if is_false {
                Ok(false)
            } else {
                Err(ConfigError::InvalidBool { name: String::from_str(name) })
            }
        },
    }
}


/// `base` joined with the path `comp` (`PathBuf::join` on Unix): an absolute
/// `comp` replaces `base`; otherwise a `/` is put between them unless `base`
/// is empty or already ends in one.
pub open spec fn path_joined(base: Seq<char>, comp: Seq<char>) -> Seq<char> {
    if comp.len() > 0 && comp[0] == '/' {
        comp
    } else if base.len() == 0 || base.last() == '/' {
        base + comp
    } else {
        base + seq!['/'] + comp
    }
}

/// `base` joined with the path `comp` (`PathBuf::join` on Unix).
pub fn join_path(base: &str, comp: &str) -> (joined: String)
    ensures
        joined@ == path_joined(base@, comp@),
{
    let b = chars_of(base);
    let c = chars_of(comp);
    if c.len() > 0 && c[0] == '/' {
        return String::from_str(comp);
    }
    let mut out = String::from_str(base);
    if b.len() > 0 && b[b.len() - 1] != '/' {
        out.append("/");
        proof {
            reveal_strlit("/");
        }
        assert(out@ =~= base@ + seq!['/']);
    }
    out.append(comp);
    out
}

/// The directory under the configuration home that holds the key file.
pub open spec fn config_dir_name() -> Seq<char> {
    "voxtype-elevenlabs-adapter"@
}

/// The name of the key file.
pub open spec fn key_file_name() -> Seq<char> {
    "api-key"@
}

/// Where the API key file is: `VOXTYPE_ELEVENLABS_CREDENTIALS` when set;
/// otherwise `voxtype-elevenlabs-adapter/api-key` under `XDG_CONFIG_HOME`,
/// or under `$HOME/.config`; without `HOME` there is no location.
pub open spec fn credentials_location(env: EnvironmentView) -> Result<Seq<char>, ConfigProblem> {
    match env.credentials {
        EnvSetting::Value(path) => Ok(path),
        _ => {
            let config_home = match env.xdg_config_home {
                EnvSetting::Value(path) => Some(path),
                _ => match env.home {
                    EnvSetting::Value(home) => Some(path_joined(home, ".config"@)),
                    _ => None,
                },
            };
            match config_home {
                Some(dir) => Ok(path_joined(path_joined(dir, config_dir_name()), key_file_name())),
                None => Err(ConfigProblem::HomeNotSet),
            }
        },
    }
}

/// Where the API key file is (`credentials_path`).
pub fn credentials_path(env: &Environment) -> (r: Result<String, ConfigError>)
    ensures
        match credentials_location(env@) {
            Ok(path) => r matches Ok(p) && p@ == path,
            Err(problem) => r matches Err(e) && e@ == problem,
        },
{
    if let EnvValue::Value(path) = &env.credentials {
        return Ok(path.clone());
    }
    let config_home = match &env.xdg_config_home {
        EnvValue::Value(path) => path.clone(),
        _ => match &env.home {
            EnvValue::Value(home) => join_path(home.as_str(), ".config"),
            _ => {
                return Err(ConfigError::HomeNotSet);
            },
        },
    };
    let dir = join_path(config_home.as_str(), "voxtype-elevenlabs-adapter");
    Ok(join_path(dir.as_str(), "api-key"))
}

} // verus!
