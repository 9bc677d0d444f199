//! The KIE model provider: credentials, request parameters, and the reading of
//! responses. Sending requests is left to the caller.

use vstd::prelude::*;
use vstd::string::*;
use crate::text::{concat3, decimal, decimal_string};
use secrecy::ExposeSecret;
use secrecy::SecretString;

verus! {

/// An API key, held in a `secrecy::SecretString`: the text is wiped from memory
/// when the key is dropped, and is not shown by `Debug`.
#[verifier::external_body]
pub struct ApiKey {
    secret: SecretString,
}

/// The text of an API key.
pub uninterp spec fn secret_text(key: ApiKey) -> Seq<char>;

/// `SecretString::from` on a `String`: the secret holds the given text.
#[verifier::external_body]
fn seal(text: String) -> (key: ApiKey)
    ensures
        secret_text(key) == text@,
{
    ApiKey { secret: SecretString::from(text) }
}

/// `ExposeSecret::expose_secret` on a `SecretString`: the text of the secret.
#[verifier::external_body]
fn unseal(key: &ApiKey) -> (text: &str)
    ensures
        text@ == secret_text(*key),
{
    key.secret.expose_secret()
}

impl ApiKey {
    /// A key with the given text.
    pub fn new(text: String) -> (key: ApiKey)
        ensures
            secret_text(key) == text@,
    {
        seal(text)
    }

    /// The text of the key, for the one place that sends it.
    pub fn expose(&self) -> (text: &str)
        ensures
            text@ == secret_text(*self),
    {
        unseal(self)
    }
}

/// The provider's name in messages.
pub const PROVIDER_NAME: &'static str = "KIE";

/// The provider's type in configuration.
pub const PROVIDER_TYPE: &'static str = "kie";

/// The base of the provider's endpoints.
pub const KIE_API_BASE: &'static str = "https://api.kie.ai";

/// Where a provider finds its API key, as configured.
pub enum Credential {
    /// The key itself.
    Static(ApiKey),
    /// The name under which each request supplies the key.
    Dynamic(String),
    /// No key is configured.
    Missing,
    /// A first choice, and a second for when the first is not to be had.
    WithFallback { default: Box<Credential>, fallback: Box<Credential> },
    /// A location that this provider does not take a key from.
    Unsupported,
}

/// Where the KIE provider finds its API key.
pub enum KIECredentials {
    /// The key itself.
    Static(ApiKey),
    /// The name under which each request supplies the key.
    Dynamic(String),
    /// No key is configured.
    Unset,
    /// A first choice, and a second for when the first is not to be had.
    WithFallback { default: Box<KIECredentials>, fallback: Box<KIECredentials> },
}

/// What can go wrong at the provider.
#[derive(Debug)]
pub enum ProviderError {
    /// The configuration is not usable.
    Config { message: String },
    /// No API key is to be had.
    ApiKeyMissing { provider_name: String, message: String },
    /// The request URL cannot be built.
    InvalidBaseUrl { message: String },
    /// The server's answer is not usable.
    InferenceServer {
        message: String,
        raw_request: Option<String>,
        raw_response: Option<String>,
        provider_type: String,
    },
    /// The provider does not run batch inference.
    UnsupportedModelProviderForBatchInference { provider_type: String },
}

/// The keys that a request supplies, each under its name.
pub struct InferenceCredentials {
    /// The entries, each a name with its key.
    pub entries: Vec<(String, ApiKey)>,
}

impl InferenceCredentials {
    /// The position of the first entry named `name` at or after `from`, or the
    /// number of entries if there is none.
    pub open spec fn position(&self, name: Seq<char>, from: int) -> int
        decreases self.entries@.len() - from,
    {
        if from < 0 || from >= self.entries@.len() {
            self.entries@.len() as int
        } else if self.entries@[from].0@ == name {
            from
        } else {
            self.position(name, from + 1)
        }
    }

    /// The key supplied under `name`: that of the first entry so named.
    pub open spec fn spec_get(&self, name: Seq<char>) -> Option<ApiKey> {
        let at = self.position(name, 0);
        if at < self.entries@.len() {
            Some(self.entries@[at].1)
        } else {
            None
        }
    }

    /// The key supplied under `name`, if there is one.
    pub fn get(&self, name: &String) -> (key: Option<&ApiKey>)
        ensures
            match key {
                Some(k) => self.spec_get(name@) == Some(*k),
                None => self.spec_get(name@) is None,
            },
    {
        let n: usize = self.entries.len();
        let mut i: usize = 0;
        while i < n
            invariant
                n == self.entries@.len(),
                0 <= i <= n,
                self.position(name@, 0) == self.position(name@, i as int),
            decreases n - i,
        {
            if self.entries[i].0 == *name {
                return Some(&self.entries[i].1);
            }
            i = i + 1;
        }
        None
    }
}

/// Whether the configured location is one that the KIE provider takes a key
/// from: every location but an unsupported one, at every depth.
pub open spec fn convertible(credentials: Credential) -> bool
    decreases credentials,
{
    match credentials {
        Credential::Static(_) => true,
        Credential::Dynamic(_) => true,
        Credential::Missing => true,
        Credential::WithFallback { default, fallback } => convertible(*default) && convertible(
            *fallback,
        ),
        Credential::Unsupported => false,
    }
}

/// The KIE credentials that a convertible location stands for.
pub open spec fn converted(credentials: Credential) -> KIECredentials
    decreases credentials,
{
    match credentials {
        Credential::Static(key) => KIECredentials::Static(key),
        Credential::Dynamic(name) => KIECredentials::Dynamic(name),
        Credential::Missing => KIECredentials::Unset,
        Credential::WithFallback { default, fallback } => KIECredentials::WithFallback {
            default: Box::new(converted(*default)),
            fallback: Box::new(converted(*fallback)),
        },
        Credential::Unsupported => KIECredentials::Unset,
    }
}

impl KIECredentials {
    /// The key that these credentials give with the keys supplied by a request:
    /// a static key itself; a dynamic key if the request supplies it; of a
    /// pair, what the first choice gives, or else what the second gives.
    pub open spec fn spec_api_key(&self, keys: &InferenceCredentials) -> Option<ApiKey>
        decreases *self,
    {
        match *self {
            KIECredentials::Static(key) => Some(key),
            KIECredentials::Dynamic(name) => keys.spec_get(name@),
            KIECredentials::Unset => None,
            KIECredentials::WithFallback { default, fallback } => match default.spec_api_key(keys) {
                Some(key) => Some(key),
                None => fallback.spec_api_key(keys),
            },
        }
    }

    /// What is reported where no key is to be had: the message of the last
    /// choice that was tried.
    pub open spec fn missing_message(&self) -> Seq<char>
        decreases *self,
    {
        match *self {
            KIECredentials::Static(_) => Seq::empty(),
            KIECredentials::Dynamic(name) => "Dynamic api key `"@ + name@ + "` is missing"@,
            KIECredentials::Unset => "No credentials are set"@,
            KIECredentials::WithFallback { default, fallback } => fallback.missing_message(),
        }
    }

    /// The KIE credentials for a configured location. A location that the
    /// provider does not take a key from is a configuration error.
    pub fn try_from(credentials: Credential) -> (result: Result<KIECredentials, ProviderError>)
        ensures
            match result {
                Ok(k) => convertible(credentials) && k == converted(credentials),
                Err(ProviderError::Config { message }) => !convertible(credentials) && message@
                    == "Invalid api_key_location for KIE provider"@,
                Err(_) => false,
            },
        decreases credentials,
    {
        match credentials {
            Credential::Static(key) => Ok(KIECredentials::Static(key)),
            Credential::Dynamic(key_name) => Ok(KIECredentials::Dynamic(key_name)),
            Credential::Missing => Ok(KIECredentials::Unset),
            Credential::WithFallback { default, fallback } => {
                let first = match KIECredentials::try_from(*default) {
                    Ok(k) => k,
                    Err(e) => {
                        return Err(e);
                    },
                };
                let second = match KIECredentials::try_from(*fallback) {
                    Ok(k) => k,
                    Err(e) => {
                        return Err(e);
                    },
                };
                Ok(
                    KIECredentials::WithFallback {
                        default: Box::new(first),
                        fallback: Box::new(second),
                    },
                )
            },
            Credential::Unsupported => Err(
                ProviderError::Config {
                    message: String::from_str("Invalid api_key_location for KIE provider"),
                },
            ),
        }
    }

    /// The API key to use with the keys that the request supplies.
    pub fn get_api_key<'a>(&'a self, dynamic_api_keys: &'a InferenceCredentials) -> (result: Result<
        &'a ApiKey,
        ProviderError,
    >)
        ensures
            match result {
                Ok(key) => self.spec_api_key(dynamic_api_keys) == Some(*key),
                Err(ProviderError::ApiKeyMissing { provider_name, message }) => {
                    &&& self.spec_api_key(dynamic_api_keys) is None
                    &&& provider_name@ == PROVIDER_NAME@
                    &&& message@ == self.missing_message()
                },
                Err(_) => false,
            },
        decreases *self,
    {
        match self {
            KIECredentials::Static(api_key) => Ok(api_key),
            KIECredentials::Dynamic(key_name) => match dynamic_api_keys.get(key_name) {
                Some(key) => Ok(key),
                None => Err(
                    ProviderError::ApiKeyMissing {
                        provider_name: String::from_str(PROVIDER_NAME),
                        message: concat3("Dynamic api key `", key_name.as_str(), "` is missing"),
                    },
                ),
            },
            KIECredentials::WithFallback { default, fallback } => {
                match default.get_api_key(dynamic_api_keys) {
                    Ok(key) => Ok(key),
                    Err(_) => fallback.get_api_key(dynamic_api_keys),
                }
            },
            KIECredentials::Unset => Err(
                ProviderError::ApiKeyMissing {
                    provider_name: String::from_str(PROVIDER_NAME),
                    message: String::from_str("No credentials are set"),
                },
            ),
        }
    }
}

/// What `url::Url::parse` makes of a text: the serialization of the URL, or
/// the message of the parse error.
pub uninterp spec fn parsed_url(text: Seq<char>) -> Result<Seq<char>, Seq<char>>;

/// `url::Url::parse`, with the URL handed on as its serialization and the
/// error as its message.
#[verifier::external_body]
fn parse_url(text: &str) -> (result: Result<String, String>)
    ensures
        match result {
            Ok(url) => parsed_url(text@) == Ok::<Seq<char>, Seq<char>>(url@),
            Err(message) => parsed_url(text@) == Err::<Seq<char>, Seq<char>>(message@),
        },
{
    match url::Url::parse(text) {
        Ok(url) => Ok(String::from(url)),
        Err(e) => Err(e.to_string()),
    }
}

/// The text of the chat endpoint of the model `model_name`.
pub open spec fn chat_url_text(model_name: Seq<char>) -> Seq<char> {
    KIE_API_BASE@ + "/"@ + model_name + "/v1/chat/completions"@
}

/// The text of the chat endpoint of the model `model_name`.
pub fn chat_completions_url(model_name: &str) -> (text: String)
    ensures
        text@ == chat_url_text(model_name@),
{
    String::from_str(KIE_API_BASE).concat("/").concat(model_name).concat("/v1/chat/completions")
}

/// The request URL, from what the parser made of its text: the URL, or the
/// error that says why there is none.
pub fn url_outcome(parsed: Result<String, String>) -> (result: Result<String, ProviderError>)
    ensures
        match (parsed, result) {
            (Ok(url), Ok(same)) => same == url,
            (Err(reason), Err(ProviderError::InvalidBaseUrl { message })) => message@
                == "Failed to construct KIE chat URL: "@ + reason@,
            _ => false,
        },
{
    match parsed {
        Ok(url) => Ok(url),
        Err(reason) => Err(
            ProviderError::InvalidBaseUrl {
                message: String::from_str("Failed to construct KIE chat URL: ").concat(
                    reason.as_str(),
                ),
            },
        ),
    }
}

/// A model served by KIE.
pub struct KIEProvider {
    model_name: String,
    credentials: KIECredentials,
}

impl KIEProvider {
    /// The name of the model, in contracts.
    pub closed spec fn spec_model_name(&self) -> Seq<char> {
        self.model_name@
    }

    /// The credentials, in contracts.
    pub closed spec fn spec_credentials(&self) -> KIECredentials {
        self.credentials
    }

    /// A provider for the model `model_name`.
    pub fn new(model_name: String, credentials: KIECredentials) -> (provider: KIEProvider)
        ensures
            provider.spec_model_name() == model_name@,
            provider.spec_credentials() == credentials,
    {
        KIEProvider { model_name, credentials }
    }

    /// The name of the model.
    pub fn model_name(&self) -> (name: &str)
        ensures
            name@ == self.spec_model_name(),
    {
        self.model_name.as_str()
    }

    /// The URL of the chat endpoint of this model, parsed and serialized anew.
    pub fn request_url(&self) -> (result: Result<String, ProviderError>)
        ensures
            match (parsed_url(chat_url_text(self.spec_model_name())), result) {
                (Ok(url), Ok(found)) => found@ == url,
                (Err(reason), Err(ProviderError::InvalidBaseUrl { message })) => message@
                    == "Failed to construct KIE chat URL: "@ + reason,
                _ => false,
            },
    {
        let text = chat_completions_url(self.model_name.as_str());
        url_outcome(parse_url(text.as_str()))
    }

    /// The API key for a request that supplies `dynamic_api_keys`.
    pub fn api_key<'a>(&'a self, dynamic_api_keys: &'a InferenceCredentials) -> (result: Result<
        &'a ApiKey,
        ProviderError,
    >)
        ensures
            match result {
                Ok(key) => self.spec_credentials().spec_api_key(dynamic_api_keys) == Some(*key),
                Err(ProviderError::ApiKeyMissing { provider_name, message }) => {
                    &&& self.spec_credentials().spec_api_key(dynamic_api_keys) is None
                    &&& provider_name@ == PROVIDER_NAME@
                    &&& message@ == self.spec_credentials().missing_message()
                },
                Err(_) => false,
            },
    {
        self.credentials.get_api_key(dynamic_api_keys)
    }

    /// The answer to a request for batch inference: the provider has none.
    pub fn batch_unsupported() -> (error: ProviderError)
        ensures
            match error {
                ProviderError::UnsupportedModelProviderForBatchInference { provider_type } =>
                    provider_type@ == PROVIDER_TYPE@,
                _ => false,
            },
    {
        ProviderError::UnsupportedModelProviderForBatchInference {
            provider_type: String::from_str(PROVIDER_TYPE),
        }
    }
}

/// Whether the model is asked for JSON.
#[derive(Debug, Clone, Copy, PartialEq, Eq, Structural)]
pub enum ModelInferenceRequestJsonMode {
    /// Plain text.
    Off,
    /// JSON.
    On,
    /// JSON that follows a schema.
    Strict,
}

/// The response format that KIE is asked for.
#[derive(Debug, Clone, Copy, PartialEq, Eq, Structural)]
pub enum KIEResponseFormat {
    /// Plain text.
    Text,
    /// A JSON object.
    JsonObject,
}

impl KIEResponseFormat {
    /// The response format for a JSON mode. KIE has no strict mode: it is
    /// served as plain JSON.
    pub fn new(json_mode: ModelInferenceRequestJsonMode) -> (format: KIEResponseFormat)
        ensures
            format == (match json_mode {
                ModelInferenceRequestJsonMode::Off => KIEResponseFormat::Text,
                ModelInferenceRequestJsonMode::On => KIEResponseFormat::JsonObject,
                ModelInferenceRequestJsonMode::Strict => KIEResponseFormat::JsonObject,
            }),
    {
        match json_mode {
            ModelInferenceRequestJsonMode::Off => KIEResponseFormat::Text,
            ModelInferenceRequestJsonMode::On | ModelInferenceRequestJsonMode::Strict => {
                KIEResponseFormat::JsonObject
            },
        }
    }
}

impl Default for KIEResponseFormat {
    fn default() -> (format: KIEResponseFormat)
        ensures
            format == KIEResponseFormat::Text,
    {
        KIEResponseFormat::Text
    }
}

/// The inference parameters that a request may carry.
#[derive(Debug)]
pub struct ChatCompletionInferenceParamsV2 {
    /// How much the model should reason.
    pub reasoning_effort: Option<String>,
    /// The service tier; KIE has none.
    pub service_tier: Option<String>,
    /// The budget of thinking tokens; KIE has none.
    pub thinking_budget_tokens: Option<i32>,
    /// The verbosity; KIE has none.
    pub verbosity: Option<String>,
}

/// Whether usage is reported with a stream.
#[derive(Debug, Clone, Copy, PartialEq, Eq, Structural)]
pub struct StreamOptions {
    /// Whether the last chunk carries the usage.
    pub include_usage: bool,
}

/// What of an inference request the KIE request is built from. The sampling
/// parameters are 32-bit floats, carried as their bit patterns.
#[derive(Debug)]
pub struct ModelInferenceRequest {
    pub temperature: Option<u32>,
    pub max_tokens: Option<u32>,
    pub seed: Option<u32>,
    pub top_p: Option<u32>,
    pub presence_penalty: Option<u32>,
    pub frequency_penalty: Option<u32>,
    pub stream: bool,
    pub json_mode: ModelInferenceRequestJsonMode,
    pub stop_sequences: Option<Vec<String>>,
    pub inference_params_v2: ChatCompletionInferenceParamsV2,
}

/// The parameters of a request to KIE. The messages and tools of the request
/// are added where it is sent.
#[derive(Debug)]
pub struct KIERequest {
    pub model: String,
    pub temperature: Option<u32>,
    pub max_tokens: Option<u32>,
    pub seed: Option<u32>,
    pub top_p: Option<u32>,
    pub stop: Option<Vec<String>>,
    pub presence_penalty: Option<u32>,
    pub frequency_penalty: Option<u32>,
    pub stream: bool,
    pub stream_options: Option<StreamOptions>,
    pub response_format: Option<KIEResponseFormat>,
    pub include_thoughts: Option<bool>,
    pub reasoning_effort: Option<String>,
}

/// The reasoning effort that KIE is asked for: KIE knows `low` and `high`, and
/// everything but `low` is served as `high`.
pub open spec fn normalized_effort(effort: Seq<char>) -> Seq<char> {
    if effort == "low"@ {
        "low"@
    } else {
        "high"@
    }
}

/// The reasoning effort of a request with the given inference parameters that
/// had the effort `before`.
pub open spec fn effort_after(
    before: Option<String>,
    params: &ChatCompletionInferenceParamsV2,
) -> Option<Seq<char>> {
    match params.reasoning_effort {
        Some(effort) => Some(normalized_effort(effort@)),
        None => match before {
            Some(kept) => Some(kept@),
            None => None,
        },
    }
}

/// Applies the inference parameters to the request: a given reasoning effort
/// replaces the request's, normalized. The other inference parameters are not
/// known to KIE and change nothing.
pub fn apply_inference_params(request: &mut KIERequest, inference_params: &ChatCompletionInferenceParamsV2)
    ensures
        match effort_after(old(request).reasoning_effort, inference_params) {
            Some(effort) => final(request).reasoning_effort is Some && final(request).reasoning_effort->0@ == effort,
            None => final(request).reasoning_effort is None,
        },
        final(request).model == old(request).model,
        final(request).temperature == old(request).temperature,
        final(request).max_tokens == old(request).max_tokens,
        final(request).seed == old(request).seed,
        final(request).top_p == old(request).top_p,
        final(request).stop == old(request).stop,
        final(request).presence_penalty == old(request).presence_penalty,
        final(request).frequency_penalty == old(request).frequency_penalty,
        final(request).stream == old(request).stream,
        final(request).stream_options == old(request).stream_options,
        final(request).response_format == old(request).response_format,
        final(request).include_thoughts == old(request).include_thoughts,
{
    match &inference_params.reasoning_effort {
        Some(effort) => {
            let low = String::from_str("low");
            let normalized = if *effort == low {
                low
            } else {
                String::from_str("high")
            };
            request.reasoning_effort = Some(normalized);
        },
        None => {},
    }
}

/// A copy of the stop sequences.
fn copy_stop(stop: &Option<Vec<String>>) -> (copy: Option<Vec<String>>)
    ensures
        match (*stop, copy) {
            (Some(a), Some(b)) => crate::names::texts(a@) == crate::names::texts(b@),
            (None, None) => true,
            _ => false,
        },
{
    match stop {
        Some(list) => Some(crate::names::copy_names(list)),
        None => None,
    }
}

impl KIERequest {
    /// The parameters of the request to KIE for the inference request
    /// `request` to the model `model`. Usage is asked for with a stream, the
    /// thoughts of the model are asked for, and the reasoning effort is `high`
    /// unless the inference parameters say otherwise.
    pub fn new(model: &str, request: &ModelInferenceRequest) -> (built: KIERequest)
        ensures
            built.model@ == model@,
            built.temperature == request.temperature,
            built.max_tokens == request.max_tokens,
            built.seed == request.seed,
            built.top_p == request.top_p,
            built.presence_penalty == request.presence_penalty,
            built.frequency_penalty == request.frequency_penalty,
            built.stream == request.stream,
            match (request.stop_sequences, built.stop) {
                (Some(a), Some(b)) => crate::names::texts(a@) == crate::names::texts(b@),
                (None, None) => true,
                _ => false,
            },
            built.stream_options == (if request.stream {
                Some(StreamOptions { include_usage: true })
            } else {
                None
            }),
            built.response_format == Some(
                match request.json_mode {
                    ModelInferenceRequestJsonMode::Off => KIEResponseFormat::Text,
                    _ => KIEResponseFormat::JsonObject,
                },
            ),
            built.include_thoughts == Some(true),
            built.reasoning_effort is Some,
            built.reasoning_effort->0@ == (match request.inference_params_v2.reasoning_effort {
                Some(effort) => normalized_effort(effort@),
                None => "high"@,
            }),
    {
        let stream_options = if request.stream {
            Some(StreamOptions { include_usage: true })
        } else {
            None
        };
        let response_format = KIEResponseFormat::new(request.json_mode);
        let mut kie_request = KIERequest {
            model: String::from_str(model),
            temperature: request.temperature,
            max_tokens: request.max_tokens,
            seed: request.seed,
            top_p: request.top_p,
            stop: copy_stop(&request.stop_sequences),
            presence_penalty: request.presence_penalty,
            frequency_penalty: request.frequency_penalty,
            stream: request.stream,
            stream_options,
            response_format: Some(response_format),
            include_thoughts: Some(true),
            reasoning_effort: Some(String::from_str("high")),
        };
        apply_inference_params(&mut kie_request, &request.inference_params_v2);
        kie_request
    }
}

/// Whether a message of the event stream ends the stream.
pub fn is_stream_end(data: &str) -> (done: bool)
    ensures
        done == (data@ == "[DONE]"@),
{
    let marker = String::from_str("[DONE]");
    let text = String::from_str(data);
    text == marker
}

/// Why the model stopped.
#[derive(Debug, Clone, Copy, PartialEq, Eq, Structural)]
pub enum FinishReason {
    Stop,
    Length,
    ContentFilter,
    ToolCalls,
    FunctionCall,
    Unknown,
}

/// The token counts of a response.
#[derive(Debug, Clone, Copy, PartialEq, Eq, Structural)]
pub struct Usage {
    /// The tokens of the prompt, where known.
    pub input_tokens: Option<u32>,
    /// The tokens of the completion, where known.
    pub output_tokens: Option<u32>,
}

/// A call of a tool that the model asks for.
#[derive(Debug)]
pub struct ToolCall {
    pub id: String,
    pub name: String,
    pub arguments: String,
}

/// The message of one choice of a response.
#[derive(Debug)]
pub struct KIEResponseMessage {
    pub content: Option<String>,
    pub reasoning_content: Option<String>,
    pub tool_calls: Option<Vec<ToolCall>>,
}

/// One choice of a response.
#[derive(Debug)]
pub struct KIEResponseChoice {
    pub index: u8,
    pub message: KIEResponseMessage,
    pub finish_reason: Option<FinishReason>,
}

/// A response of KIE to a chat request.
#[derive(Debug)]
pub struct KIEResponse {
    pub choices: Vec<KIEResponseChoice>,
    pub usage: Usage,
}

/// A thought of the model.
#[derive(Debug)]
pub struct Thought {
    pub text: Option<String>,
    pub signature: Option<String>,
    pub provider_type: Option<String>,
}

/// One block of the content of a response.
#[derive(Debug)]
pub enum ContentBlockOutput {
    Thought(Thought),
    Text(String),
    ToolCall(ToolCall),
}

/// What a content block says: its kind and its texts.
pub enum Block {
    /// A thought of the provider `kie`, with its text.
    Thought(Seq<char>),
    /// A text.
    Text(Seq<char>),
    /// A tool call: its identifier, the tool's name, the arguments.
    ToolCall(Seq<char>, Seq<char>, Seq<char>),
    /// A thought that is not the plain thought of this provider.
    Other,
}

impl View for ContentBlockOutput {
    type V = Block;

    open spec fn view(&self) -> Block {
        match *self {
            ContentBlockOutput::Thought(t) => if t.text is Some && t.signature is None
                && t.provider_type is Some && t.provider_type->0@ == PROVIDER_TYPE@ {
                Block::Thought(t.text->0@)
            } else {
                Block::Other
            },
            ContentBlockOutput::Text(text) => Block::Text(text@),
            ContentBlockOutput::ToolCall(call) => Block::ToolCall(call.id@, call.name@, call.arguments@),
        }
    }
}

/// What the blocks say, in order.
pub open spec fn block_views(blocks: Seq<ContentBlockOutput>) -> Seq<Block> {
    Seq::new(blocks.len(), |i: int| blocks[i]@)
}

/// The blocks of the tool calls `calls`, in order.
pub open spec fn call_blocks(calls: Seq<ToolCall>) -> Seq<Block> {
    Seq::new(calls.len(), |i: int| Block::ToolCall(calls[i].id@, calls[i].name@, calls[i].arguments@))
}

/// The blocks of a message: the reasoning as a thought, then the content as a
/// text, then the tool calls, each where it is present.
pub open spec fn message_blocks(message: KIEResponseMessage) -> Seq<Block> {
    let thought = match message.reasoning_content {
        Some(reasoning) => seq![Block::Thought(reasoning@)],
        None => Seq::<Block>::empty(),
    };
    let text = match message.content {
        Some(content) => seq![Block::Text(content@)],
        None => Seq::<Block>::empty(),
    };
    let calls = match message.tool_calls {
        Some(calls) => call_blocks(calls@),
        None => Seq::<Block>::empty(),
    };
    thought + text + calls
}

/// The blocks of the messages of the choices, one message after the other.
pub open spec fn response_blocks(choices: Seq<KIEResponseChoice>) -> Seq<Block>
    decreases choices.len(),
{
    if choices.len() == 0 {
        Seq::empty()
    } else {
        response_blocks(choices.drop_last()) + message_blocks(choices.last().message)
    }
}

/// Appends the blocks of `message` to `blocks`.
pub fn push_message_blocks(blocks: &mut Vec<ContentBlockOutput>, message: &KIEResponseMessage)
    ensures
        block_views(final(blocks)@) == block_views(old(blocks)@) + message_blocks(*message),
{
    let ghost start = block_views(blocks@);
    match &message.reasoning_content {
        Some(reasoning) => {
            let ghost prior = blocks@;
            blocks.push(
                ContentBlockOutput::Thought(
                    Thought {
                        text: Some(reasoning.clone()),
                        signature: None,
                        provider_type: Some(String::from_str(PROVIDER_TYPE)),
                    },
                ),
            );
            assert(block_views(blocks@) =~= block_views(prior).push(Block::Thought(reasoning@)));
        },
        None => {},
    }
    let ghost after_thought = block_views(blocks@);
    match &message.content {
        Some(content) => {
            let ghost prior = blocks@;
            blocks.push(ContentBlockOutput::Text(content.clone()));
            assert(block_views(blocks@) =~= block_views(prior).push(Block::Text(content@)));
        },
        None => {},
    }
    let ghost after_text = block_views(blocks@);
    match &message.tool_calls {
        Some(calls) => {
            let n: usize = calls.len();
            let mut i: usize = 0;
            while i < n
                invariant
                    n == calls@.len(),
                    0 <= i <= n,
                    block_views(blocks@) =~= after_text + call_blocks(calls@).subrange(0, i as int),
                decreases n - i,
            {
                let ghost prior = blocks@;
                let call = &calls[i];
                blocks.push(
                    ContentBlockOutput::ToolCall(
                        ToolCall {
                            id: call.id.clone(),
                            name: call.name.clone(),
                            arguments: call.arguments.clone(),
                        },
                    ),
                );
                assert(block_views(blocks@) =~= block_views(prior).push(
                    Block::ToolCall(call.id@, call.name@, call.arguments@),
                ));
                assert(call_blocks(calls@).subrange(0, i + 1) =~= call_blocks(calls@).subrange(
                    0,
                    i as int,
                ).push(call_blocks(calls@)[i as int]));
                i = i + 1;
            }
            assert(call_blocks(calls@).subrange(0, n as int) =~= call_blocks(calls@));
        },
        None => {},
    }
    assert(block_views(blocks@) =~= start + message_blocks(*message));
}

/// The content blocks of all choices of a response.
pub fn extract_content_blocks_from_kie_response(response: &KIEResponse) -> (blocks: Vec<
    ContentBlockOutput,
>)
    ensures
        block_views(blocks@) == response_blocks(response.choices@),
{
    let mut content_blocks: Vec<ContentBlockOutput> = Vec::new();
    let n: usize = response.choices.len();
    let mut i: usize = 0;
    assert(block_views(content_blocks@) =~= response_blocks(response.choices@.subrange(0, 0)));
    while i < n
        invariant
            n == response.choices@.len(),
            0 <= i <= n,
            block_views(content_blocks@) == response_blocks(response.choices@.subrange(0, i as int)),
        decreases n - i,
    {
        proof {
            let next = response.choices@.subrange(0, i + 1);
            assert(next.drop_last() =~= response.choices@.subrange(0, i as int));
            assert(next.last() == response.choices@[i as int]);
        }
        push_message_blocks(&mut content_blocks, &response.choices[i].message);
        i = i + 1;
    }
    assert(response.choices@.subrange(0, n as int) =~= response.choices@);
    content_blocks
}

/// What the provider hands on of a response.
#[derive(Debug)]
pub struct ProviderInferenceResponse {
    pub output: Vec<ContentBlockOutput>,
    pub raw_request: String,
    pub raw_response: String,
    pub usage: Usage,
    pub finish_reason: Option<FinishReason>,
}

/// The message for a response with `count` choices where one is expected.
pub open spec fn choices_message(count: nat) -> Seq<char> {
    "Response has invalid number of choices "@ + decimal(count) + ", Expected 1"@
}

/// Reads a response of KIE. It must hold exactly one choice; the blocks of
/// that choice's message, its finish reason and the usage are handed on with
/// the raw texts. Any other number of choices is an error of the server.
pub fn provider_response(response: &KIEResponse, raw_request: String, raw_response: String) -> (result:
    Result<ProviderInferenceResponse, ProviderError>)
    ensures
        match result {
            Ok(out) => {
                &&& response.choices@.len() == 1
                &&& block_views(out.output@) == message_blocks(response.choices@[0].message)
                &&& out.finish_reason == response.choices@[0].finish_reason
                &&& out.usage == response.usage
                &&& out.raw_request == raw_request
                &&& out.raw_response == raw_response
            },
            Err(
                ProviderError::InferenceServer {
                    message,
                    raw_request: request,
                    raw_response: answer,
                    provider_type,
                },
            ) => {
                &&& response.choices@.len() != 1
                &&& message@ == choices_message(response.choices@.len())
                &&& request == Some(raw_request)
                &&& answer == Some(raw_response)
                &&& provider_type@ == PROVIDER_TYPE@
            },
            Err(_) => false,
        },
{
    if response.choices.len() != 1 {
        let count = decimal_string(response.choices.len());
        return Err(
            ProviderError::InferenceServer {
                message: concat3(
                    "Response has invalid number of choices ",
                    count.as_str(),
                    ", Expected 1",
                ),
                raw_request: Some(raw_request),
                raw_response: Some(raw_response),
                provider_type: String::from_str(PROVIDER_TYPE),
            },
        );
    }
    let choice = &response.choices[0];
    let mut output: Vec<ContentBlockOutput> = Vec::new();
    assert(block_views(output@) =~= Seq::<Block>::empty());
    push_message_blocks(&mut output, &choice.message);
    assert(block_views(output@) =~= message_blocks(choice.message));
    Ok(
        ProviderInferenceResponse {
            output,
            raw_request,
            raw_response,
            usage: response.usage,
            finish_reason: choice.finish_reason,
        },
    )
}

/// What a message of a stream adds to one choice.
#[derive(Debug)]
pub struct KIEStreamDelta {
    pub content: Option<String>,
    pub reasoning_content: Option<String>,
    pub tool_calls: Option<Vec<ToolCall>>,
}

/// One choice of a chunk of a stream.
#[derive(Debug)]
pub struct KIEChatChunkChoice {
    pub delta: KIEStreamDelta,
    pub finish_reason: Option<FinishReason>,
}

/// One chunk of a stream.
#[derive(Debug)]
pub struct KIEChatChunk {
    pub choices: Vec<KIEChatChunkChoice>,
    pub usage: Option<Usage>,
}

/// One block of the content of a chunk.
#[derive(Debug)]
pub enum ContentBlockChunk {
    Text { text: String, id: String },
    Thought { text: Option<String>, id: String, provider_type: Option<String> },
}

/// What a block of a chunk says.
pub enum ChunkBlock {
    /// A text under the identifier `0`.
    Text(Seq<char>),
    /// A thought of the provider `kie` under the identifier `0`.
    Thought(Seq<char>),
    /// Any other block.
    Other,
}

impl View for ContentBlockChunk {
    type V = ChunkBlock;

    open spec fn view(&self) -> ChunkBlock {
        match *self {
            ContentBlockChunk::Text { text, id } => if id@ == "0"@ {
                ChunkBlock::Text(text@)
            } else {
                ChunkBlock::Other
            },
            ContentBlockChunk::Thought { text, id, provider_type } => if id@ == "0"@ && text is Some
                && provider_type is Some && provider_type->0@ == PROVIDER_TYPE@ {
                ChunkBlock::Thought(text->0@)
            } else {
                ChunkBlock::Other
            },
        }
    }
}

/// What the blocks of a chunk say, in order.
pub open spec fn chunk_views(blocks: Seq<ContentBlockChunk>) -> Seq<ChunkBlock> {
    Seq::new(blocks.len(), |i: int| blocks[i]@)
}

/// The blocks that a delta gives: its content as a text, then its reasoning
/// as a thought, each where it is present. Tool calls are not streamed.
pub open spec fn delta_blocks(delta: KIEStreamDelta) -> Seq<ChunkBlock> {
    let text = match delta.content {
        Some(content) => seq![ChunkBlock::Text(content@)],
        None => Seq::<ChunkBlock>::empty(),
    };
    let thought = match delta.reasoning_content {
        Some(reasoning) => seq![ChunkBlock::Thought(reasoning@)],
        None => Seq::<ChunkBlock>::empty(),
    };
    text + thought
}

/// What the provider hands on of a chunk.
#[derive(Debug)]
pub struct ProviderInferenceResponseChunk {
    pub content: Vec<ContentBlockChunk>,
    pub usage: Option<Usage>,
    pub raw_response: String,
    pub latency_millis: u64,
    pub finish_reason: Option<FinishReason>,
}

/// Reads one chunk of a stream. A chunk holds at most one choice; more are an
/// error of the server, reported with the chunk's own text `serialized`. The
/// blocks of the choice's delta and its finish reason are handed on with the
/// usage, the raw message and the latency; a chunk without a choice gives no
/// block and no finish reason.
pub fn kie_to_tensorzero_chunk(
    raw_message: String,
    chunk: &KIEChatChunk,
    serialized: String,
    latency_millis: u64,
) -> (result: Result<ProviderInferenceResponseChunk, ProviderError>)
    ensures
        match result {
            Ok(out) => {
                &&& chunk.choices@.len() <= 1
                &&& chunk_views(out.content@) == (if chunk.choices@.len() == 1 {
                    delta_blocks(chunk.choices@[0].delta)
                } else {
                    Seq::<ChunkBlock>::empty()
                })
                &&& out.finish_reason == (if chunk.choices@.len() == 1 {
                    chunk.choices@[0].finish_reason
                } else {
                    None
                })
                &&& out.usage == chunk.usage
                &&& out.raw_response == raw_message
                &&& out.latency_millis == latency_millis
            },
            Err(
                ProviderError::InferenceServer { message, raw_request, raw_response, provider_type },
            ) => {
                &&& chunk.choices@.len() > 1
                &&& message@ == "Response has invalid number of choices. Expected 1."@
                &&& raw_request is None
                &&& raw_response == Some(serialized)
                &&& provider_type@ == PROVIDER_TYPE@
            },
            Err(_) => false,
        },
{
    if chunk.choices.len() > 1 {
        return Err(
            ProviderError::InferenceServer {
                message: String::from_str("Response has invalid number of choices. Expected 1."),
                raw_request: None,
                raw_response: Some(serialized),
                provider_type: String::from_str(PROVIDER_TYPE),
            },
        );
    }
    let mut content: Vec<ContentBlockChunk> = Vec::new();
    let mut finish_reason: Option<FinishReason> = None;
    assert(chunk_views(content@) =~= Seq::<ChunkBlock>::empty());
    if chunk.choices.len() == 1 {
        let choice = &chunk.choices[0];
        finish_reason = choice.finish_reason;
        match &choice.delta.content {
            Some(text) => {
                let ghost prior = content@;
                content.push(ContentBlockChunk::Text { text: text.clone(), id: String::from_str("0") });
                assert(chunk_views(content@) =~= chunk_views(prior).push(ChunkBlock::Text(text@)));
            },
            None => {},
        }
        match &choice.delta.reasoning_content {
            Some(reasoning) => {
                let ghost prior = content@;
                content.push(
                    ContentBlockChunk::Thought {
                        text: Some(reasoning.clone()),
                        id: String::from_str("0"),
                        provider_type: Some(String::from_str(PROVIDER_TYPE)),
                    },
                );
                assert(chunk_views(content@) =~= chunk_views(prior).push(
                    ChunkBlock::Thought(reasoning@),
                ));
            },
            None => {},
        }
        assert(chunk_views(content@) =~= delta_blocks(choice.delta));
    }
    Ok(
        ProviderInferenceResponseChunk {
            content,
            usage: chunk.usage,
            raw_response: raw_message,
            latency_millis,
            finish_reason,
        },
    )
}

} // verus!
