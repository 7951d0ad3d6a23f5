//! Provider settings, the built-in defaults, and where the configuration files live.
use vstd::prelude::*;
use vstd::string::*;

use crate::model::Api;

verus! {

/// How to reach one provider.
#[derive(Debug, Clone, PartialEq, Eq)]
pub struct ApiConfig {
    pub api_key: Option<String>,
    pub url: String,
    pub api_key_command: Option<String>,
    pub default_model: Option<String>,
    pub version: Option<String>,
    pub timeout_seconds: Option<u32>,
}

/// Where the key of a provider comes from.
#[derive(Debug, Clone, PartialEq, Eq)]
pub enum Credential {
    /// The key itself.
    Key(String),
    /// A shell command whose trimmed output is the key.
    Command(String),
    /// No key is configured.
    Missing,
}

/// The timeout of a request when the settings give none.
pub const DEFAULT_TIMEOUT_SECONDS: u32 = 180;

pub fn default_timeout_seconds() -> (r: Option<u32>)
    ensures
        r == Some(DEFAULT_TIMEOUT_SECONDS),
{
    Some(DEFAULT_TIMEOUT_SECONDS)
}

/// The settings of a provider that only gives its url and default model.
pub open spec fn plain_config(
    c: ApiConfig,
    url: Seq<char>,
    model: Seq<char>,
    timeout: Option<u32>,
) -> bool {
    &&& c.api_key is None
    &&& c.api_key_command is None
    &&& c.url@ == url
    &&& c.default_model matches Some(m) && m@ == model
    &&& c.version is None
    &&& c.timeout_seconds == timeout
}

/// The built-in settings of each provider.
pub open spec fn builtin_config(api: Api, c: ApiConfig) -> bool {
    match api {
        Api::Ollama => plain_config(c, "http://localhost:11434/api/chat"@, "phi3"@, Some(180)),
        Api::Openai => plain_config(
            c,
            "https://api.openai.com/v1/chat/completions"@,
            "gpt-4"@,
            None,
        ),
        Api::AzureOpenai => plain_config(
            c,
            "https://your-azure-endpoint.azure.com/openai/deployments/your-deployment-id/chat/completions?api-version=2024-06-01"@,
            "gpt-4o"@,
            None,
        ),
        Api::Mistral => plain_config(
            c,
            "https://api.mistral.ai/v1/chat/completions"@,
            "mistral-medium"@,
            None,
        ),
        Api::Groq => plain_config(
            c,
            "https://api.groq.com/openai/v1/chat/completions"@,
            "llama3-70b-8192"@,
            None,
        ),
        Api::Anthropic => {
            &&& c.api_key is None
            &&& c.api_key_command is None
            &&& c.url@ == "https://api.anthropic.com/v1/messages"@
            &&& c.default_model is None
            &&& c.version matches Some(v) && v@ == "2023-06-01"@
            &&& c.timeout_seconds is None
        },
        Api::Cerebras => plain_config(
            c,
            "https://api.cerebras.ai/v1/chat/completions"@,
            "llama3.1-70b"@,
            None,
        ),
        Api::AnotherApiForTests => false,
    }
}

fn plain(url: &str, model: &str, timeout: Option<u32>) -> (r: ApiConfig)
    ensures
        plain_config(r, url@, model@, timeout),
{
    ApiConfig {
        api_key: None,
        url: String::from_str(url),
        api_key_command: None,
        default_model: Some(String::from_str(model)),
        version: None,
        timeout_seconds: timeout,
    }
}

impl ApiConfig {
    pub fn ollama() -> (r: ApiConfig)
        ensures
            builtin_config(Api::Ollama, r),
    {
        plain("http://localhost:11434/api/chat", "phi3", Some(DEFAULT_TIMEOUT_SECONDS))
    }

    pub fn openai() -> (r: ApiConfig)
        ensures
            builtin_config(Api::Openai, r),
    {
        plain("https://api.openai.com/v1/chat/completions", "gpt-4", None)
    }

    pub fn azureopenai() -> (r: ApiConfig)
        ensures
            builtin_config(Api::AzureOpenai, r),
    {
        plain(
            "https://your-azure-endpoint.azure.com/openai/deployments/your-deployment-id/chat/completions?api-version=2024-06-01",
            "gpt-4o",
            None,
        )
    }

    pub fn mistral() -> (r: ApiConfig)
        ensures
            builtin_config(Api::Mistral, r),
    {
        plain("https://api.mistral.ai/v1/chat/completions", "mistral-medium", None)
    }

    pub fn groq() -> (r: ApiConfig)
        ensures
            builtin_config(Api::Groq, r),
    {
        plain("https://api.groq.com/openai/v1/chat/completions", "llama3-70b-8192", None)
    }

    /// The Anthropic settings. No default model is built in: the prompt or the
    /// settings file names the model.
    pub fn anthropic() -> (r: ApiConfig)
        ensures
            builtin_config(Api::Anthropic, r),
    {
        ApiConfig {
            api_key: None,
            url: String::from_str("https://api.anthropic.com/v1/messages"),
            api_key_command: None,
            default_model: None,
            version: Some(String::from_str("2023-06-01")),
            timeout_seconds: None,
        }
    }

    pub fn cerebras() -> (r: ApiConfig)
        ensures
            builtin_config(Api::Cerebras, r),
    {
        plain("https://api.cerebras.ai/v1/chat/completions", "llama3.1-70b", None)
    }

    /// The OpenAI settings with the given key.
    pub fn default_with_api_key(api_key: Option<String>) -> (r: ApiConfig)
        ensures
            r.api_key == api_key,
            r.api_key_command is None,
            r.url@ == "https://api.openai.com/v1/chat/completions"@,
            r.default_model matches Some(m) && m@ == "gpt-4"@,
            r.version is None,
            r.timeout_seconds is None,
    {
        let mut c = ApiConfig::openai();
        c.api_key = api_key;
        c
    }

    /// The built-in settings of `api`; the test-only api has none.
    pub fn for_api(api: Api) -> (r: Option<ApiConfig>)
        ensures
            r is None <==> api == Api::AnotherApiForTests,
            r matches Some(c) ==> builtin_config(api, c),
    {
        match api {
            Api::AnotherApiForTests => None,
            Api::Ollama => Some(ApiConfig::ollama()),
            Api::Openai => Some(ApiConfig::openai()),
            Api::AzureOpenai => Some(ApiConfig::azureopenai()),
            Api::Mistral => Some(ApiConfig::mistral()),
            Api::Groq => Some(ApiConfig::groq()),
            Api::Anthropic => Some(ApiConfig::anthropic()),
            Api::Cerebras => Some(ApiConfig::cerebras()),
        }
    }

    /// Where the key comes from: the key itself first, then the command.
    pub fn credential(&self) -> (r: Credential)
        ensures
            self.api_key matches Some(k) ==> r == Credential::Key(k),
            self.api_key is None ==> (self.api_key_command matches Some(c) ==> r
                == Credential::Command(c)),
            self.api_key is None && self.api_key_command is None ==> r == Credential::Missing,
    {
        match &self.api_key {
            Some(k) => Credential::Key(k.clone()),
            None => match &self.api_key_command {
                Some(c) => Credential::Command(c.clone()),
                None => Credential::Missing,
            },
        }
    }
}

impl Default for ApiConfig {
    /// The Ollama settings.
    fn default() -> (r: ApiConfig)
        ensures
            builtin_config(Api::Ollama, r),
    {
        ApiConfig::ollama()
    }
}

pub const API_KEYS_FILE: &'static str = ".api_configs.toml";

pub const PROMPT_FILE: &'static str = "prompts.toml";

pub const CONVERSATION_FILE: &'static str = "conversation.toml";

pub const CONVERSATIONS_PATH: &'static str = "saved_conversations";

pub const VOICE_CONFIG_FILE: &'static str = "voice.toml";

pub const DEFAULT_CONFIG_PATH: &'static str = ".config/smartcat/";

/// `name` under the directory `dir`, with one separator between them.
pub open spec fn join_path(dir: Seq<char>, name: Seq<char>) -> Seq<char> {
    if dir.len() == 0 || dir.last() == '/' {
        dir + name
    } else {
        dir + seq!['/'] + name
    }
}

/// `name` under the directory `dir`, as `Path::join` writes it for a relative name.
pub fn join(dir: &str, name: &str) -> (r: String)
    ensures
        r@ == join_path(dir@, name@),
{
    let n = dir.unicode_len();
    let mut r = String::from_str(dir);
    if n > 0 && dir.get_char(n - 1) != '/' {
        crate::text::push_char(&mut r, '/');
    }
    r.append(name);
    r
}

/// The configuration directory: the custom one when it is set, else the default one
/// under the home directory; none when neither is known.
pub fn resolve_config_path(custom: Option<String>, home: Option<String>) -> (r: Option<String>)
    ensures
        custom matches Some(c) ==> r == Some(c),
        custom is None ==> match home {
            Some(h) => r matches Some(p) && p@ == join_path(h@, DEFAULT_CONFIG_PATH@),
            None => r is None,
        },
{
    match custom {
        Some(c) => Some(c),
        None => match home {
            Some(h) => Some(join(h.as_str(), DEFAULT_CONFIG_PATH)),
            None => None,
        },
    }
}

pub fn api_keys_path(config_dir: &str) -> (r: String)
    ensures
        r@ == join_path(config_dir@, API_KEYS_FILE@),
{
    join(config_dir, API_KEYS_FILE)
}

pub fn prompts_path(config_dir: &str) -> (r: String)
    ensures
        r@ == join_path(config_dir@, PROMPT_FILE@),
{
    join(config_dir, PROMPT_FILE)
}

pub fn conversation_file_path(config_dir: &str) -> (r: String)
    ensures
        r@ == join_path(config_dir@, CONVERSATION_FILE@),
{
    join(config_dir, CONVERSATION_FILE)
}

/// The directory of the named conversations.
pub fn conversations_path(config_dir: &str) -> (r: String)
    ensures
        r@ == join_path(config_dir@, CONVERSATIONS_PATH@),
{
    join(config_dir, CONVERSATIONS_PATH)
}

/// The file of the conversation called `name`.
pub fn named_conversation_path(config_dir: &str, name: &str) -> (r: String)
    ensures
        r@ == join_path(join_path(config_dir@, CONVERSATIONS_PATH@), name@ + ".toml"@),
{
    let dir = conversations_path(config_dir);
    let mut file = String::from_str(name);
    file.append(".toml");
    join(dir.as_str(), file.as_str())
}

pub fn voice_config_path(config_dir: &str) -> (r: String)
    ensures
        r@ == join_path(config_dir@, VOICE_CONFIG_FILE@),
{
    join(config_dir, VOICE_CONFIG_FILE)
}

} // verus!
