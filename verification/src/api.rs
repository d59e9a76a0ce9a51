//! The requests to the transcription and chat services, as plain values: which
//! URL, which credentials, which model, and how a reply is read.
use vstd::prelude::*;
use vstd::string::*;

use crate::prompt::{build_system_prompt, system_prompt};
use crate::text::{trim_end_class, trim_end_str, CharClass};

verus! {

/// The API settings that the settings window pushes, one field per setting.
/// `None` stands for a setting that is absent or not of the expected type.
pub struct ApiConfig {
    /// `provider`: "azure" selects Azure OpenAI, anything else OpenAI.
    pub provider: Option<String>,
    /// `openai.apiKey`.
    pub openai_api_key: Option<String>,
    /// `openai.whisperModel`.
    pub openai_whisper_model: Option<String>,
    /// `openai.gptModel`.
    pub openai_gpt_model: Option<String>,
    /// `openai.baseUrl`.
    pub openai_base_url: Option<String>,
    /// `azure.endpoint`.
    pub azure_endpoint: Option<String>,
    /// `azure.apiKey`.
    pub azure_api_key: Option<String>,
    /// `azure.whisperDeployment`.
    pub azure_whisper_deployment: Option<String>,
    /// `azure.gptDeployment`.
    pub azure_gpt_deployment: Option<String>,
    /// `azure.apiVersion`.
    pub azure_api_version: Option<String>,
    /// `smartKeywords.enabled`.
    pub smart_keywords_enabled: Option<bool>,
}

/// The characters of `o`, or `default` where it is `None`.
pub open spec fn or_default(o: Option<String>, default: Seq<char>) -> Seq<char> {
    match o {
        Some(s) => s@,
        None => default,
    }
}

fn string_or(o: &Option<String>, default: &str) -> (r: String)
    ensures
        r@ == or_default(*o, default@),
{
    match o {
        Some(s) => s.clone(),
        None => String::from_str(default),
    }
}

/// Whether the settings select Azure OpenAI.
pub open spec fn uses_azure(c: ApiConfig) -> bool {
    c.provider matches Some(p) && p@ == "azure"@
}

/// Whether smart keywords are on; they are off unless the setting says `true`.
pub open spec fn smart_keywords_on(c: ApiConfig) -> bool {
    c.smart_keywords_enabled == Some(true)
}

/// The OpenAI key: the configured one, else the one from the environment.
pub open spec fn openai_key(c: ApiConfig, env_key: Option<String>) -> Option<Seq<char>> {
    match c.openai_api_key {
        Some(k) => Some(k@),
        None => match env_key {
            Some(k) => Some(k@),
            None => None,
        },
    }
}

/// The OpenAI base URL without trailing slashes.
pub open spec fn openai_base(c: ApiConfig) -> Seq<char> {
    trim_end_class(or_default(c.openai_base_url, "https://api.openai.com"@), CharClass::Slash)
}

/// The Azure API version.
pub open spec fn azure_version(c: ApiConfig) -> Seq<char> {
    or_default(c.azure_api_version, "2024-02-01"@)
}

/// The URL of an Azure deployment's `path`.
pub open spec fn azure_url(endpoint: Seq<char>, deployment: Seq<char>, path: Seq<char>, version: Seq<char>) -> Seq<char> {
    trim_end_class(endpoint, CharClass::Slash) + "/openai/deployments/"@ + deployment + path
        + "?api-version="@ + version
}

/// How a request proves who sends it.
pub enum Credential {
    /// An `Authorization: Bearer` header.
    Bearer(String),
    /// An `api-key` header.
    ApiKeyHeader(String),
}

/// A credential, with its key as characters.
pub enum CredentialModel {
    Bearer(Seq<char>),
    ApiKeyHeader(Seq<char>),
}

impl View for Credential {
    type V = CredentialModel;

    open spec fn view(&self) -> CredentialModel {
        match self {
            Credential::Bearer(k) => CredentialModel::Bearer(k@),
            Credential::ApiKeyHeader(k) => CredentialModel::ApiKeyHeader(k@),
        }
    }
}

/// Why a request cannot be made.
#[derive(Clone, Copy, PartialEq, Eq, Debug)]
pub enum RequestError {
    OpenAiKeyMissing,
    AzureEndpointMissing,
    AzureKeyMissing,
}

/// What a request is for.
#[derive(Clone, Copy, PartialEq, Eq, Debug)]
pub enum Purpose {
    Transcription,
    Rewrite,
}

pub open spec fn request_error_text(e: RequestError, purpose: Purpose) -> Seq<char> {
    match e {
        RequestError::OpenAiKeyMissing => match purpose {
            Purpose::Transcription => "OpenAI API key not configured. Add it in Settings → API."@,
            Purpose::Rewrite => "OpenAI API key not configured"@,
        },
        RequestError::AzureEndpointMissing => "Azure endpoint not configured"@,
        RequestError::AzureKeyMissing => "Azure API key not configured"@,
    }
}

impl RequestError {
    /// The message shown for this error in a request for `purpose`.
    pub fn message(&self, purpose: Purpose) -> (r: String)
        ensures
            r@ == request_error_text(*self, purpose),
    {
        match self {
            RequestError::OpenAiKeyMissing => match purpose {
                Purpose::Transcription => String::from_str(
                    "OpenAI API key not configured. Add it in Settings → API.",
                ),
                Purpose::Rewrite => String::from_str("OpenAI API key not configured"),
            },
            RequestError::AzureEndpointMissing => String::from_str("Azure endpoint not configured"),
            RequestError::AzureKeyMissing => String::from_str("Azure API key not configured"),
        }
    }
}

/// A request to a service: where it goes, how it is signed, and the model that is
/// named in its body, if any.
pub struct ServiceRequest {
    pub url: String,
    pub credential: Credential,
    pub model: Option<String>,
}

/// The URL, credential and model of a request that must come out of the settings.
pub open spec fn request_is(r: ServiceRequest, url: Seq<char>, credential: CredentialModel, model: Option<Seq<char>>) -> bool {
    &&& r.url@ == url
    &&& r.credential@ == credential
    &&& match model {
        Some(m) => r.model matches Some(rm) && rm@ == m,
        None => r.model is None,
    }
}

/// Which request the settings make for `purpose`, or why there is none: the URL,
/// the credential and the model named in the body.
pub open spec fn request_plan(c: ApiConfig, env_key: Option<String>, purpose: Purpose) -> Result<
    (Seq<char>, CredentialModel, Option<Seq<char>>),
    RequestError,
> {
    if uses_azure(c) {
        match c.azure_endpoint {
            None => Err(RequestError::AzureEndpointMissing),
            Some(endpoint) => match c.azure_api_key {
                None => Err(RequestError::AzureKeyMissing),
                Some(key) => {
                    let (deployment, path) = match purpose {
                        Purpose::Transcription => (
                            or_default(c.azure_whisper_deployment, "whisper"@),
                            "/audio/transcriptions"@,
                        ),
                        Purpose::Rewrite => (
                            or_default(c.azure_gpt_deployment, "gpt-4o-mini"@),
                            "/chat/completions"@,
                        ),
                    };
                    Ok(
                        (
                            azure_url(endpoint@, deployment, path, azure_version(c)),
                            CredentialModel::ApiKeyHeader(key@),
                            None,
                        ),
                    )
                },
            },
        }
    } else {
        match openai_key(c, env_key) {
            None => Err(RequestError::OpenAiKeyMissing),
            Some(key) => match purpose {
                Purpose::Transcription => Ok(
                    (
                        openai_base(c) + "/v1/audio/transcriptions"@,
                        CredentialModel::Bearer(key),
                        Some(or_default(c.openai_whisper_model, "whisper-1"@)),
                    ),
                ),
                Purpose::Rewrite => Ok(
                    (
                        openai_base(c) + "/v1/chat/completions"@,
                        CredentialModel::Bearer(key),
                        Some(or_default(c.openai_gpt_model, "gpt-4o-mini"@)),
                    ),
                ),
            },
        }
    }
}

/// A request that the settings make.
pub open spec fn request_matches(r: Result<ServiceRequest, RequestError>, plan: Result<(Seq<char>, CredentialModel, Option<Seq<char>>), RequestError>) -> bool {
    match plan {
        Err(e) => r == Err::<ServiceRequest, RequestError>(e),
        Ok((url, credential, model)) => r matches Ok(req) && request_is(req, url, credential, model),
    }
}

fn is_azure_provider(c: &ApiConfig) -> (b: bool)
    ensures
        b == uses_azure(*c),
{
    match &c.provider {
        Some(p) => crate::text::str_eq(p.as_str(), "azure"),
        None => false,
    }
}

impl ApiConfig {
    /// Whether smart keywords are on.
    pub fn smart_keywords(&self) -> (b: bool)
        ensures
            b == smart_keywords_on(*self),
    {
        match self.smart_keywords_enabled {
            Some(b) => b,
            None => false,
        }
    }

    /// Whether Azure OpenAI is selected.
    pub fn is_azure(&self) -> (b: bool)
        ensures
            b == uses_azure(*self),
    {
        is_azure_provider(self)
    }
}

/// The request that the settings make for `purpose`; `env_key` is the OpenAI key
/// from the environment, used where none is configured.
pub fn plan_request(config: &ApiConfig, env_key: Option<String>, purpose: Purpose) -> (r: Result<
    ServiceRequest,
    RequestError,
>)
    ensures
        request_matches(r, request_plan(*config, env_key, purpose)),
{
    if is_azure_provider(config) {
        let endpoint = match &config.azure_endpoint {
            None => return Err(RequestError::AzureEndpointMissing),
            Some(e) => e,
        };
        let key = match &config.azure_api_key {
            None => return Err(RequestError::AzureKeyMissing),
            Some(k) => k,
        };
        let (deployment, path) = match purpose {
            Purpose::Transcription => (
                string_or(&config.azure_whisper_deployment, "whisper"),
                "/audio/transcriptions",
            ),
            Purpose::Rewrite => (
                string_or(&config.azure_gpt_deployment, "gpt-4o-mini"),
                "/chat/completions",
            ),
        };
        let version = string_or(&config.azure_api_version, "2024-02-01");
        let mut url = trim_end_str(endpoint.as_str(), CharClass::Slash);
        url.append("/openai/deployments/");
        url.append(deployment.as_str());
        url.append(path);
        url.append("?api-version=");
        url.append(version.as_str());
        Ok(ServiceRequest { url, credential: Credential::ApiKeyHeader(key.clone()), model: None })
    } else {
        let key = match &config.openai_api_key {
            Some(k) => k.clone(),
            None => match env_key {
                Some(k) => k,
                None => return Err(RequestError::OpenAiKeyMissing),
            },
        };
        let base = string_or(&config.openai_base_url, "https://api.openai.com");
        let mut url = trim_end_str(base.as_str(), CharClass::Slash);
        let model = match purpose {
            Purpose::Transcription => {
                url.append("/v1/audio/transcriptions");
                string_or(&config.openai_whisper_model, "whisper-1")
            },
            Purpose::Rewrite => {
                url.append("/v1/chat/completions");
                string_or(&config.openai_gpt_model, "gpt-4o-mini")
            },
        };
        Ok(ServiceRequest { url, credential: Credential::Bearer(key), model: Some(model) })
    }
}

/// A rewrite request: the service request, the system prompt and the text to rewrite.
pub struct ChatRequest {
    pub request: ServiceRequest,
    pub system_prompt: String,
    pub user_text: String,
}

/// The rewrite request for `text` and `action`, in the format named, if any.
pub fn plan_rephrase(
    config: &ApiConfig,
    env_key: Option<String>,
    text: &str,
    action: &str,
    format: Option<&str>,
) -> (r: Result<ChatRequest, RequestError>)
    ensures
        match request_plan(*config, env_key, Purpose::Rewrite) {
            Err(e) => r matches Err(re) && re == e,
            Ok((url, credential, model)) => r matches Ok(cr) && {
                &&& request_is(cr.request, url, credential, model)
                &&& cr.user_text@ == text@
                &&& cr.system_prompt@ == system_prompt(
                    action@,
                    match format {
                        Some(f) => Some(f@),
                        None => None,
                    },
                )
            },
        },
{
    let request = match plan_request(config, env_key, Purpose::Rewrite) {
        Ok(r) => r,
        Err(e) => return Err(e),
    };
    let system_prompt = build_system_prompt(action, format);
    Ok(ChatRequest { request, system_prompt, user_text: String::from_str(text) })
}

/// Transcription and rewrite go to the same provider with the same key: where
/// the settings allow both requests, they carry the same credential, and where
/// they allow neither, for the same reason.
pub proof fn lemma_one_provider_for_both(c: ApiConfig, env_key: Option<String>)
    ensures
        request_plan(c, env_key, Purpose::Transcription) is Ok <==> request_plan(
            c,
            env_key,
            Purpose::Rewrite,
        ) is Ok,
        request_plan(c, env_key, Purpose::Transcription) matches Ok(t) ==> (request_plan(
            c,
            env_key,
            Purpose::Rewrite,
        ) matches Ok(r) && t.1 == r.1),
        request_plan(c, env_key, Purpose::Transcription) matches Err(e) ==> request_plan(
            c,
            env_key,
            Purpose::Rewrite,
        ) == Err::<(Seq<char>, CredentialModel, Option<Seq<char>>), RequestError>(e),
{
}

/// Azure requests are signed with the Azure key in an `api-key` header and name no
/// model; OpenAI requests carry a bearer key and name a model.
pub proof fn lemma_credential_by_provider(c: ApiConfig, env_key: Option<String>, p: Purpose)
    ensures
        request_plan(c, env_key, p) matches Ok(r) ==> (if uses_azure(c) {
            &&& c.azure_api_key matches Some(k) && r.1 == CredentialModel::ApiKeyHeader(k@)
            &&& r.2 is None
        } else {
            &&& r.1 is Bearer
            &&& r.2 is Some
        }),
{
}

/// Where Azure is selected and set up, a transcription goes to the configured
/// Whisper deployment ("whisper" where none is set) and a rewrite to the
/// configured GPT deployment ("gpt-4o-mini" where none is set), each under the
/// endpoint without its trailing slashes and with the API version
/// ("2024-02-01" where none is set).
pub proof fn lemma_azure_urls(c: ApiConfig, env_key: Option<String>)
    requires
        uses_azure(c),
        c.azure_endpoint is Some,
        c.azure_api_key is Some,
    ensures
        ({
            let base = match c.azure_endpoint {
                Some(e) => trim_end_class(e@, CharClass::Slash),
                None => Seq::<char>::empty(),
            };
            let version = match c.azure_api_version {
                Some(v) => v@,
                None => "2024-02-01"@,
            };
            let whisper = match c.azure_whisper_deployment {
                Some(d) => d@,
                None => "whisper"@,
            };
            let gpt = match c.azure_gpt_deployment {
                Some(d) => d@,
                None => "gpt-4o-mini"@,
            };
            &&& request_plan(c, env_key, Purpose::Transcription) matches Ok(r) && r.0 == base
                + "/openai/deployments/"@ + whisper + "/audio/transcriptions?api-version="@
                + version
            &&& request_plan(c, env_key, Purpose::Rewrite) matches Ok(r) && r.0 == base
                + "/openai/deployments/"@ + gpt + "/chat/completions?api-version="@ + version
        }),
{
    reveal_strlit("/audio/transcriptions");
    reveal_strlit("/chat/completions");
    reveal_strlit("?api-version=");
    reveal_strlit("/audio/transcriptions?api-version=");
    reveal_strlit("/chat/completions?api-version=");
    let a = "/audio/transcriptions"@ + "?api-version="@;
    assert(a =~= "/audio/transcriptions?api-version="@);
    let b = "/chat/completions"@ + "?api-version="@;
    assert(b =~= "/chat/completions?api-version="@);
    let base = trim_end_class(c.azure_endpoint->0@, CharClass::Slash);
    let v = azure_version(c);
    let w = or_default(c.azure_whisper_deployment, "whisper"@);
    let g = or_default(c.azure_gpt_deployment, "gpt-4o-mini"@);
    let pre = base + "/openai/deployments/"@;
    assert(pre + w + "/audio/transcriptions"@ + "?api-version="@ + v =~= pre + w + a + v);
    assert(pre + g + "/chat/completions"@ + "?api-version="@ + v =~= pre + g + b + v);
}

/// Each request depends only on its own settings: the transcription request does
/// not change with the GPT deployment or model, and the rewrite request does not
/// change with the Whisper deployment or model.
pub proof fn lemma_requests_use_their_own_model(c: ApiConfig, env_key: Option<String>, d: Option<String>)
    ensures
        request_plan(ApiConfig { azure_gpt_deployment: d, ..c }, env_key, Purpose::Transcription)
            == request_plan(c, env_key, Purpose::Transcription),
        request_plan(ApiConfig { openai_gpt_model: d, ..c }, env_key, Purpose::Transcription)
            == request_plan(c, env_key, Purpose::Transcription),
        request_plan(ApiConfig { azure_whisper_deployment: d, ..c }, env_key, Purpose::Rewrite)
            == request_plan(c, env_key, Purpose::Rewrite),
        request_plan(ApiConfig { openai_whisper_model: d, ..c }, env_key, Purpose::Rewrite)
            == request_plan(c, env_key, Purpose::Rewrite),
{
}

/// Where OpenAI is selected and a key is found, a transcription goes to the base
/// URL's "/v1/audio/transcriptions" naming the Whisper model ("whisper-1" where
/// none is set), and a rewrite to "/v1/chat/completions" naming the GPT model
/// ("gpt-4o-mini" where none is set), both signed with that key as a bearer token.
pub proof fn lemma_openai_requests(c: ApiConfig, env_key: Option<String>)
    requires
        !uses_azure(c),
        openai_key(c, env_key) is Some,
    ensures
        ({
            let base = trim_end_class(
                match c.openai_base_url {
                    Some(u) => u@,
                    None => "https://api.openai.com"@,
                },
                CharClass::Slash,
            );
            let key = match c.openai_api_key {
                Some(k) => k@,
                None => env_key->0@,
            };
            &&& request_plan(c, env_key, Purpose::Transcription) == Ok::<
                (Seq<char>, CredentialModel, Option<Seq<char>>),
                RequestError,
            >(
                (
                    base + "/v1/audio/transcriptions"@,
                    CredentialModel::Bearer(key),
                    Some(
                        match c.openai_whisper_model {
                            Some(m) => m@,
                            None => "whisper-1"@,
                        },
                    ),
                ),
            )
            &&& request_plan(c, env_key, Purpose::Rewrite) == Ok::<
                (Seq<char>, CredentialModel, Option<Seq<char>>),
                RequestError,
            >(
                (
                    base + "/v1/chat/completions"@,
                    CredentialModel::Bearer(key),
                    Some(
                        match c.openai_gpt_model {
                            Some(m) => m@,
                            None => "gpt-4o-mini"@,
                        },
                    ),
                ),
            )
        }),
{
}

/// A request is refused exactly where a setting it needs is missing: Azure
/// without an endpoint, then Azure without a key, and OpenAI with neither a
/// configured key nor one from the environment; both purposes alike.
pub proof fn lemma_request_refusals(c: ApiConfig, env_key: Option<String>, p: Purpose)
    ensures
        uses_azure(c) && c.azure_endpoint is None ==> request_plan(c, env_key, p) == Err::<
            (Seq<char>, CredentialModel, Option<Seq<char>>),
            RequestError,
        >(RequestError::AzureEndpointMissing),
        uses_azure(c) && c.azure_endpoint is Some && c.azure_api_key is None ==> request_plan(
            c,
            env_key,
            p,
        ) == Err::<(Seq<char>, CredentialModel, Option<Seq<char>>), RequestError>(
            RequestError::AzureKeyMissing,
        ),
        !uses_azure(c) && c.openai_api_key is None && env_key is None ==> request_plan(
            c,
            env_key,
            p,
        ) == Err::<(Seq<char>, CredentialModel, Option<Seq<char>>), RequestError>(
            RequestError::OpenAiKeyMissing,
        ),
        (uses_azure(c) && c.azure_endpoint is Some && c.azure_api_key is Some) || (!uses_azure(c)
            && (c.openai_api_key is Some || env_key is Some)) ==> request_plan(c, env_key, p) is Ok,
{
}

// ── Replies ──────────────────────────────────────────────────────────────────
/// Which service a reply comes from.
#[derive(Clone, Copy, PartialEq, Eq, Debug)]
pub enum Service {
    OpenAiTranscription,
    AzureTranscription,
    OpenAiChat,
    AzureChat,
}

/// Why a reply holds no text.
pub enum ReplyError {
    /// The status was not a success; the message is shown as "`label` `status`: `message`".
    Status { label: String, message: String },
    /// The reply lacked its text.
    Missing { message: String },
}

pub open spec fn status_label(s: Service) -> Seq<char> {
    match s {
        Service::OpenAiTranscription => "OpenAI API error"@,
        Service::AzureTranscription => "Azure API error"@,
        Service::OpenAiChat => "OpenAI GPT error"@,
        Service::AzureChat => "Azure GPT error"@,
    }
}

pub open spec fn unknown_error_text(s: Service) -> Seq<char> {
    match s {
        Service::OpenAiTranscription | Service::AzureTranscription => "Unknown API error"@,
        _ => "Unknown GPT API error"@,
    }
}

pub open spec fn missing_text(s: Service) -> Seq<char> {
    match s {
        Service::OpenAiTranscription => "No text field in API response"@,
        Service::AzureTranscription => "No text field in Azure response"@,
        Service::OpenAiChat => "No content in GPT response"@,
        Service::AzureChat => "No content in Azure GPT response"@,
    }
}

/// Reads a reply: `status_ok` says whether the status was a success, `content`
/// is the reply's text field (`text`, or the first choice's message content) and
/// `error_message` its `error.message`, where those are strings.
pub fn read_reply(
    service: Service,
    status_ok: bool,
    content: Option<String>,
    error_message: Option<String>,
) -> (r: Result<String, ReplyError>)
    ensures
        !status_ok ==> (r matches Err(ReplyError::Status { label, message }) && label@
            == status_label(service) && message@ == or_default(
            error_message,
            unknown_error_text(service),
        )),
        status_ok && content is None ==> (r matches Err(ReplyError::Missing { message })
            && message@ == missing_text(service)),
        status_ok && content is Some ==> (r matches Ok(t) && Some(t) == content),
{
    if !status_ok {
        let label = match service {
            Service::OpenAiTranscription => String::from_str("OpenAI API error"),
            Service::AzureTranscription => String::from_str("Azure API error"),
            Service::OpenAiChat => String::from_str("OpenAI GPT error"),
            Service::AzureChat => String::from_str("Azure GPT error"),
        };
        let unknown = match service {
            Service::OpenAiTranscription | Service::AzureTranscription => "Unknown API error",
            _ => "Unknown GPT API error",
        };
        let message = string_or(&error_message, unknown);
        return Err(ReplyError::Status { label, message });
    }
    match content {
        Some(t) => Ok(t),
        None => {
            let message = match service {
                Service::OpenAiTranscription => String::from_str("No text field in API response"),
                Service::AzureTranscription => String::from_str("No text field in Azure response"),
                Service::OpenAiChat => String::from_str("No content in GPT response"),
                Service::AzureChat => String::from_str("No content in Azure GPT response"),
            };
            Err(ReplyError::Missing { message })
        },
    }
}

} // verus!
