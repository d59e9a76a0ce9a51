use wisper::api::{
    plan_rephrase, plan_request, read_reply, ApiConfig, Credential, Purpose, ReplyError,
    RequestError, Service,
};

fn config() -> ApiConfig {
    ApiConfig {
        provider: None,
        openai_api_key: None,
        openai_whisper_model: None,
        openai_gpt_model: None,
        openai_base_url: None,
        azure_endpoint: None,
        azure_api_key: None,
        azure_whisper_deployment: None,
        azure_gpt_deployment: None,
        azure_api_version: None,
        smart_keywords_enabled: None,
    }
}

fn s(x: &str) -> Option<String> {
    Some(x.to_string())
}

#[test]
fn openai_transcription_defaults() {
    let mut c = config();
    c.openai_api_key = s("sk-1");
    let r = plan_request(&c, None, Purpose::Transcription).ok().unwrap();
    assert_eq!(r.url, "https://api.openai.com/v1/audio/transcriptions");
    assert!(matches!(r.credential, Credential::Bearer(ref k) if k == "sk-1"));
    assert_eq!(r.model.as_deref(), Some("whisper-1"));
}

#[test]
fn openai_base_url_loses_trailing_slashes() {
    let mut c = config();
    c.provider = s("openai");
    c.openai_api_key = s("k");
    c.openai_base_url = s("http://localhost:8080//");
    c.openai_gpt_model = s("gpt-4o");
    let r = plan_request(&c, None, Purpose::Rewrite).ok().unwrap();
    assert_eq!(r.url, "http://localhost:8080/v1/chat/completions");
    assert_eq!(r.model.as_deref(), Some("gpt-4o"));
}

#[test]
fn openai_key_from_environment() {
    let c = config();
    let r = plan_request(&c, s("env-key"), Purpose::Transcription).ok().unwrap();
    assert!(matches!(r.credential, Credential::Bearer(ref k) if k == "env-key"));
    let mut c = config();
    c.openai_api_key = s("configured");
    let r = plan_request(&c, s("env-key"), Purpose::Transcription).ok().unwrap();
    assert!(matches!(r.credential, Credential::Bearer(ref k) if k == "configured"));
}

#[test]
fn openai_key_missing() {
    let e = plan_request(&config(), None, Purpose::Transcription).err().unwrap();
    assert_eq!(e, RequestError::OpenAiKeyMissing);
    assert_eq!(
        e.message(Purpose::Transcription),
        "OpenAI API key not configured. Add it in Settings → API."
    );
    assert_eq!(e.message(Purpose::Rewrite), "OpenAI API key not configured");
}

#[test]
fn azure_requests() {
    let mut c = config();
    c.provider = s("azure");
    c.openai_api_key = s("ignored");
    assert_eq!(
        plan_request(&c, None, Purpose::Transcription).err().unwrap(),
        RequestError::AzureEndpointMissing
    );
    c.azure_endpoint = s("https://res.openai.azure.com/");
    let e = plan_request(&c, None, Purpose::Rewrite).err().unwrap();
    assert_eq!(e, RequestError::AzureKeyMissing);
    assert_eq!(e.message(Purpose::Rewrite), "Azure API key not configured");
    c.azure_api_key = s("az");
    let r = plan_request(&c, None, Purpose::Transcription).ok().unwrap();
    assert_eq!(
        r.url,
        "https://res.openai.azure.com/openai/deployments/whisper/audio/transcriptions?api-version=2024-02-01"
    );
    assert!(matches!(r.credential, Credential::ApiKeyHeader(ref k) if k == "az"));
    assert!(r.model.is_none());
    c.azure_gpt_deployment = s("gpt4");
    c.azure_api_version = s("2025-01-01");
    let r = plan_request(&c, None, Purpose::Rewrite).ok().unwrap();
    assert_eq!(
        r.url,
        "https://res.openai.azure.com/openai/deployments/gpt4/chat/completions?api-version=2025-01-01"
    );
    assert_eq!(
        RequestError::AzureEndpointMissing.message(Purpose::Transcription),
        "Azure endpoint not configured"
    );
}

#[test]
fn provider_other_than_azure_is_openai() {
    let mut c = config();
    c.provider = s("Azure");
    c.openai_api_key = s("k");
    assert!(!c.is_azure());
    assert!(plan_request(&c, None, Purpose::Transcription).is_ok());
}

#[test]
fn smart_keywords_flag() {
    let mut c = config();
    assert!(!c.smart_keywords());
    c.smart_keywords_enabled = Some(false);
    assert!(!c.smart_keywords());
    c.smart_keywords_enabled = Some(true);
    assert!(c.smart_keywords());
}

#[test]
fn rephrase_request_carries_prompt_and_text() {
    let mut c = config();
    c.openai_api_key = s("k");
    let r = plan_rephrase(&c, None, "Hello there", "rephrase", None).ok().unwrap();
    assert_eq!(r.user_text, "Hello there");
    assert_eq!(r.system_prompt, wisper::prompt::build_system_prompt("rephrase", None));
    assert_eq!(r.request.url, "https://api.openai.com/v1/chat/completions");
    assert_eq!(r.request.model.as_deref(), Some("gpt-4o-mini"));
    assert!(plan_rephrase(&config(), None, "x", "rephrase", None).is_err());
}

#[test]
fn replies() {
    match read_reply(Service::OpenAiTranscription, true, s("hi"), None) {
        Ok(t) => assert_eq!(t, "hi"),
        Err(_) => panic!(),
    }
    match read_reply(Service::AzureTranscription, false, s("hi"), None) {
        Err(ReplyError::Status { label, message }) => {
            assert_eq!(label, "Azure API error");
            assert_eq!(message, "Unknown API error");
        }
        _ => panic!(),
    }
    match read_reply(Service::OpenAiChat, false, None, s("quota")) {
        Err(ReplyError::Status { label, message }) => {
            assert_eq!(label, "OpenAI GPT error");
            assert_eq!(message, "quota");
        }
        _ => panic!(),
    }
    match read_reply(Service::AzureChat, false, None, None) {
        Err(ReplyError::Status { message, .. }) => assert_eq!(message, "Unknown GPT API error"),
        _ => panic!(),
    }
    let missing = [
        (Service::OpenAiTranscription, "No text field in API response"),
        (Service::AzureTranscription, "No text field in Azure response"),
        (Service::OpenAiChat, "No content in GPT response"),
        (Service::AzureChat, "No content in Azure GPT response"),
    ];
    for (svc, text) in missing {
        match read_reply(svc, true, None, s("ignored")) {
            Err(ReplyError::Missing { message }) => assert_eq!(message, text),
            _ => panic!(),
        }
    }
}

#[test]
fn transcription_and_rewrite_share_provider_and_key() {
    let mut c = config();
    c.openai_api_key = s("k1");
    let t = plan_request(&c, None, Purpose::Transcription).ok().unwrap();
    let r = plan_request(&c, None, Purpose::Rewrite).ok().unwrap();
    assert!(matches!((t.credential, r.credential), (Credential::Bearer(a), Credential::Bearer(b)) if a == b));
    c.provider = s("azure");
    assert_eq!(
        plan_request(&c, None, Purpose::Transcription).err(),
        plan_request(&c, None, Purpose::Rewrite).err()
    );
}
