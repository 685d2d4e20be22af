//! The cloud brain: Groq's free tier first, OpenAI as the paid fallback.
//!
//! Both providers speak the OpenAI-compatible chat schema. What travels is
//! the transcript plus the caller's retrieval context, never anything else;
//! the key travels only in the authorization header. The request goes out
//! and the reply comes back around this module: here the request is built
//! and the reply interpreted.
use crate::text::{
    chars_contain, chars_of, has_infix, is_blank, joined, spec_unicode_lowercase, trim_text,
    trimmed, unicode_lowercase,
};
use vstd::prelude::*;

verus! {

/// The cloud provider a request goes to.
#[derive(Debug, Clone, Copy, PartialEq, Eq, Structural)]
pub enum CloudProviderKind {
    Groq,
    OpenAi,
}

impl CloudProviderKind {
    pub open spec fn spec_endpoint(self) -> Seq<char> {
        match self {
            CloudProviderKind::Groq => "https://api.groq.com/openai/v1/chat/completions"@,
            CloudProviderKind::OpenAi => "https://api.openai.com/v1/chat/completions"@,
        }
    }

    pub open spec fn spec_model(self) -> Seq<char> {
        match self {
            CloudProviderKind::Groq => "llama-3.3-70b-versatile"@,
            CloudProviderKind::OpenAi => "gpt-4o-mini"@,
        }
    }

    pub open spec fn spec_name(self) -> Seq<char> {
        match self {
            CloudProviderKind::Groq => "groq"@,
            CloudProviderKind::OpenAi => "openai"@,
        }
    }

    /// The OpenAI-compatible chat completion endpoint of the provider.
    pub fn chat_endpoint(&self) -> (r: &'static str)
        ensures
            r@ == self.spec_endpoint(),
    {
        match self {
            CloudProviderKind::Groq => "https://api.groq.com/openai/v1/chat/completions",
            CloudProviderKind::OpenAi => "https://api.openai.com/v1/chat/completions",
        }
    }

    /// The model requested from the provider.
    pub fn default_model(&self) -> (r: &'static str)
        ensures
            r@ == self.spec_model(),
    {
        match self {
            CloudProviderKind::Groq => "llama-3.3-70b-versatile",
            CloudProviderKind::OpenAi => "gpt-4o-mini",
        }
    }

    /// The lower-case name the overlay shows for the provider.
    pub fn name(&self) -> (r: &'static str)
        ensures
            r@ == self.spec_name(),
    {
        match self {
            CloudProviderKind::Groq => "groq",
            CloudProviderKind::OpenAi => "openai",
        }
    }
}

/// The two providers use distinct endpoints and models.
pub proof fn lemma_providers_are_distinct()
    ensures
        CloudProviderKind::Groq.spec_endpoint() != CloudProviderKind::OpenAi.spec_endpoint(),
        CloudProviderKind::Groq.spec_model() != CloudProviderKind::OpenAi.spec_model(),
{
    reveal_strlit("https://api.groq.com/openai/v1/chat/completions");
    reveal_strlit("https://api.openai.com/v1/chat/completions");
    reveal_strlit("llama-3.3-70b-versatile");
    reveal_strlit("gpt-4o-mini");
    assert(CloudProviderKind::Groq.spec_endpoint()[12] != CloudProviderKind::OpenAi.spec_endpoint()[12]);
    assert(CloudProviderKind::Groq.spec_model().len() != CloudProviderKind::OpenAi.spec_model().len());
}

/// Errors raised by the cloud brain.
#[derive(Debug)]
pub enum CloudBrainError {
    /// No usable key, or the provider rejected it.
    NoKey(String),
    Network(String),
    Generation(String),
}

impl CloudBrainError {
    /// The displayed text of the error.
    pub open spec fn spec_message(self) -> Seq<char> {
        match self {
            CloudBrainError::NoKey(d) => "no cloud key configured: "@ + d@,
            CloudBrainError::Network(d) => "cloud network failure: "@ + d@,
            CloudBrainError::Generation(d) => "cloud generation failed: "@ + d@,
        }
    }

    /// The displayed text of the error.
    pub fn message(&self) -> (r: String)
        ensures
            r@ == self.spec_message(),
    {
        match self {
            CloudBrainError::NoKey(d) => joined("no cloud key configured: ", d.as_str()),
            CloudBrainError::Network(d) => joined("cloud network failure: ", d.as_str()),
            CloudBrainError::Generation(d) => joined("cloud generation failed: ", d.as_str()),
        }
    }
}

/// The system prompt of the cloud tier.
pub const CLOUD_SYSTEM_PROMPT: &'static str = "You are Cortex, the cloud reasoning half of Aura, a privacy-first personal assistant whose long-term memory never leaves the user's machine. The context you receive is already local retrieval results — never query or reference anything beyond it. Answer briefly and directly (under 120 words). You never claim to have performed destructive actions; you describe intended actions only.";

/// A system prompt extended with the retrieval context, when there is any.
pub open spec fn prompt_with_context(prompt: Seq<char>, context: Seq<char>) -> Seq<char> {
    if is_blank(context) {
        prompt
    } else {
        prompt + ("\n\nRelevant local context: "@ + context)
    }
}

/// Extends a system prompt with the retrieval context, when there is any.
pub fn system_content(prompt: &str, context: &str) -> (r: String)
    ensures
        r@ == prompt_with_context(prompt@, context@),
{
    let trimmed_context = trim_text(context);
    if trimmed_context.as_str().is_empty() {
        String::from_str(prompt)
    } else {
        let tail = joined("\n\nRelevant local context: ", context);
        joined(prompt, tail.as_str())
    }
}

/// Everything one cloud chat request carries: the endpoint, the model,
/// the authorization header value, the system message and the user's
/// transcript.
#[derive(Debug, Clone)]
pub struct CloudChatRequest {
    pub endpoint: &'static str,
    pub model: &'static str,
    pub authorization: String,
    pub system_content: String,
    pub user_content: String,
}

/// Builds the chat request for a provider. A blank key is refused before
/// anything is sent.
pub fn chat_request(provider: CloudProviderKind, api_key: &str, transcript: &str, context: &str) -> (r:
    Result<CloudChatRequest, CloudBrainError>)
    ensures
        is_blank(api_key@) ==> (r matches Err(CloudBrainError::NoKey(m)) && m@
            == "configure a cloud API key in the settings before using the cloud brain"@),
        !is_blank(api_key@) ==> (r matches Ok(request) && request.endpoint@
            == provider.spec_endpoint() && request.model@ == provider.spec_model()
            && request.authorization@ == "Bearer "@ + api_key@ && request.system_content@
            == prompt_with_context(CLOUD_SYSTEM_PROMPT@, context@) && request.user_content@
            == transcript@),
{
    let trimmed_key = trim_text(api_key);
    if trimmed_key.as_str().is_empty() {
        return Err(
            CloudBrainError::NoKey(
                String::from_str(
                    "configure a cloud API key in the settings before using the cloud brain",
                ),
            ),
        );
    }
    Ok(
        CloudChatRequest {
            endpoint: provider.chat_endpoint(),
            model: provider.default_model(),
            authorization: joined("Bearer ", api_key),
            system_content: system_content(CLOUD_SYSTEM_PROMPT, context),
            user_content: String::from_str(transcript),
        },
    )
}

/// The provider's error message says the key was refused.
pub open spec fn is_auth_failure(message: Seq<char>) -> bool {
    ||| has_infix(message, "401"@)
    ||| has_infix(message, "403"@)
    ||| has_infix(spec_unicode_lowercase(message), "authentication"@)
    ||| has_infix(spec_unicode_lowercase(message), "invalid_api"@)
}

/// Interprets a decoded chat reply: the provider's error message, if it
/// reported one, and the content of the first choice, if any. An
/// authentication error means the key was rejected; an empty reply is a
/// generation failure.
pub fn interpret_chat_reply(error_message: Option<String>, first_content: Option<String>) -> (r:
    Result<String, CloudBrainError>)
    ensures
        match error_message {
            Some(m) => if is_auth_failure(m@) {
                r matches Err(CloudBrainError::NoKey(d)) && d@ == "the API key was rejected: "@
                    + m@
            } else {
                r matches Err(CloudBrainError::Generation(d)) && d@ == m@
            },
            None => {
                let content = match first_content {
                    Some(c) => trimmed(c@),
                    None => Seq::<char>::empty(),
                };
                if content.len() == 0 {
                    r matches Err(CloudBrainError::Generation(d)) && d@
                        == "the cloud model returned an empty reply"@
                } else {
                    r matches Ok(reply) && reply@ == content
                }
            },
        },
{
    if let Some(message) = error_message {
        let chars = chars_of(message.as_str());
        let lower = unicode_lowercase(message.as_str());
        let lower_chars = chars_of(lower.as_str());
        let code_401 = chars_of("401");
        let code_403 = chars_of("403");
        let authentication = chars_of("authentication");
        let invalid_api = chars_of("invalid_api");
        let is_auth = chars_contain(chars.as_slice(), code_401.as_slice()) || chars_contain(
            chars.as_slice(),
            code_403.as_slice(),
        ) || chars_contain(lower_chars.as_slice(), authentication.as_slice()) || chars_contain(
            lower_chars.as_slice(),
            invalid_api.as_slice(),
        );
        if is_auth {
            return Err(
                CloudBrainError::NoKey(joined("the API key was rejected: ", message.as_str())),
            );
        }
        return Err(CloudBrainError::Generation(message));
    }
    let content = match first_content {
        Some(c) => trim_text(c.as_str()),
        None => String::new(),
    };
    if content.as_str().is_empty() {
        return Err(
            CloudBrainError::Generation(String::from_str("the cloud model returned an empty reply")),
        );
    }
    Ok(content)
}

} // verus!
