//! The remote and local model services, as configuration. Talking to a
//! service is the caller's business; what is asked of which address is
//! decided here.

use vstd::prelude::*;
use crate::errors::{AppError, AppResult, ErrorKind};
use crate::text::{
    decimal_digits, is_prefix, join2, join3, push_decimal, push_text, starts_with, str_eq,
    trim_trailing_slashes, without_trailing_slashes,
};

verus! {

/// A model service and what is needed to reach it.
#[derive(Debug, Clone)]
pub enum AIProvider {
    OpenAI { api_key: String, organization: Option<String> },
    Anthropic { api_key: String },
    GoogleGemini { api_key: String },
    AzureOpenAI { api_key: String, endpoint: String, deployment_name: String, api_version: String },
    LMStudio { base_url: String },
    Ollama { base_url: String },
    OpenAICompatible { base_url: String, api_key: Option<String> },
}

/// One message of a chat.
#[derive(Debug, Clone)]
pub struct ChatMessage {
    pub role: String,
    pub content: String,
}

/// The answer of a model service.
#[derive(Debug, Clone)]
pub struct AIResponse {
    pub content: String,
    pub model: String,
    pub tokens_used: Option<i32>,
}

/// The port on which LM Studio listens unless told otherwise.
pub const DEFAULT_LM_STUDIO_PORT: u16 = 1234;

/// The port on which Ollama listens unless told otherwise.
pub const DEFAULT_OLLAMA_PORT: u16 = 11434;

/// The version of the Azure interface used unless told otherwise.
pub const DEFAULT_AZURE_API_VERSION: &'static str = "2024-02-15-preview";

/// The address of a service on this machine.
pub open spec fn local_url(port: u16) -> Seq<char> {
    "http://localhost:"@ + decimal_digits(port as nat)
}

fn local_base_url(port: u16) -> (url: String)
    ensures
        url@ == local_url(port),
{
    let mut url = String::from_str("http://localhost:");
    push_decimal(&mut url, port as u128);
    url
}

impl AIProvider {
    /// The OpenAI service.
    pub fn openai(api_key: String, organization: Option<String>) -> (p: Self)
        ensures
            p matches AIProvider::OpenAI { api_key: k, organization: o } && k == api_key && o
                == organization,
    {
        AIProvider::OpenAI { api_key, organization }
    }

    /// The Anthropic service.
    pub fn anthropic(api_key: String) -> (p: Self)
        ensures
            p matches AIProvider::Anthropic { api_key: k } && k == api_key,
    {
        AIProvider::Anthropic { api_key }
    }

    /// The Google Gemini service.
    pub fn google_gemini(api_key: String) -> (p: Self)
        ensures
            p matches AIProvider::GoogleGemini { api_key: k } && k == api_key,
    {
        AIProvider::GoogleGemini { api_key }
    }

    /// An Azure deployment; the interface version defaults to
    /// `2024-02-15-preview`.
    pub fn azure_openai(
        api_key: String,
        endpoint: String,
        deployment_name: String,
        api_version: Option<String>,
    ) -> (p: Self)
        ensures
            p matches AIProvider::AzureOpenAI {
                api_key: k,
                endpoint: e,
                deployment_name: d,
                api_version: v,
            } && k == api_key && e == endpoint && d == deployment_name && v@ == (match api_version {
                Some(version) => version@,
                None => DEFAULT_AZURE_API_VERSION@,
            }),
    {
        let version = match api_version {
            Some(version) => version,
            None => String::from_str(DEFAULT_AZURE_API_VERSION),
        };
        AIProvider::AzureOpenAI { api_key, endpoint, deployment_name, api_version: version }
    }

    /// LM Studio on this machine; the port defaults to 1234.
    pub fn lm_studio(port: Option<u16>) -> (p: Self)
        ensures
            p matches AIProvider::LMStudio { base_url } && base_url@ == local_url(
                match port {
                    Some(n) => n,
                    None => DEFAULT_LM_STUDIO_PORT,
                },
            ),
    {
        let port: u16 = match port {
            Some(n) => n,
            None => DEFAULT_LM_STUDIO_PORT,
        };
        AIProvider::LMStudio { base_url: local_base_url(port) }
    }

    /// Ollama on this machine; the port defaults to 11434.
    pub fn ollama(port: Option<u16>) -> (p: Self)
        ensures
            p matches AIProvider::Ollama { base_url } && base_url@ == local_url(
                match port {
                    Some(n) => n,
                    None => DEFAULT_OLLAMA_PORT,
                },
            ),
    {
        let port: u16 = match port {
            Some(n) => n,
            None => DEFAULT_OLLAMA_PORT,
        };
        AIProvider::Ollama { base_url: local_base_url(port) }
    }

    /// Any service that speaks the OpenAI interface.
    pub fn openai_compatible(base_url: String, api_key: Option<String>) -> (p: Self)
        ensures
            p matches AIProvider::OpenAICompatible { base_url: u, api_key: k } && u == base_url
                && k == api_key,
    {
        AIProvider::OpenAICompatible { base_url, api_key }
    }

    /// The address that is asked to find out whether the service is there.
    pub open spec fn spec_availability_url(&self) -> Seq<char> {
        match self {
            AIProvider::OpenAI { .. } => "https://api.openai.com/v1/models"@,
            AIProvider::Anthropic { .. } => "https://api.anthropic.com/v1/messages"@,
            AIProvider::GoogleGemini { api_key } =>
                "https://generativelanguage.googleapis.com/v1beta/models?key="@ + api_key@,
            AIProvider::AzureOpenAI { endpoint, .. } => endpoint@,
            AIProvider::LMStudio { base_url } => base_url@ + "/v1/models"@,
            AIProvider::Ollama { base_url } => base_url@ + "/api/tags"@,
            AIProvider::OpenAICompatible { base_url, .. } => base_url@ + "/v1/models"@,
        }
    }

    /// The address that is asked to find out whether the service is there.
    pub fn availability_url(&self) -> (url: String)
        ensures
            url@ == self.spec_availability_url(),
    {
        match self {
            AIProvider::OpenAI { .. } => String::from_str("https://api.openai.com/v1/models"),
            AIProvider::Anthropic { .. } => String::from_str(
                "https://api.anthropic.com/v1/messages",
            ),
            AIProvider::GoogleGemini { api_key } => join2(
                "https://generativelanguage.googleapis.com/v1beta/models?key=",
                api_key.as_str(),
            ),
            AIProvider::AzureOpenAI { endpoint, .. } => endpoint.clone(),
            AIProvider::LMStudio { base_url } => join2(base_url.as_str(), "/v1/models"),
            AIProvider::Ollama { base_url } => join2(base_url.as_str(), "/api/tags"),
            AIProvider::OpenAICompatible { base_url, .. } => join2(base_url.as_str(), "/v1/models"),
        }
    }

    /// Whether any answer from the availability address counts as "there".
    /// For Anthropic and Azure it does; the other services must answer with
    /// success.
    pub fn available_when_reachable(&self) -> (yes: bool)
        ensures
            yes == (self is Anthropic || self is AzureOpenAI),
    {
        match self {
            AIProvider::Anthropic { .. } => true,
            AIProvider::AzureOpenAI { .. } => true,
            _ => false,
        }
    }

    /// The models of the service where they are known without asking it:
    /// an Azure deployment serves the one model it was deployed for. `None`
    /// for the services that must be asked.
    pub fn known_models(&self) -> (models: Option<Vec<String>>)
        ensures
            match self {
                AIProvider::AzureOpenAI { deployment_name, .. } => models matches Some(list)
                    && crate::config::texts(list@) == seq![deployment_name@],
                _ => models is None,
            },
    {
        match self {
            AIProvider::AzureOpenAI { deployment_name, .. } => {
                let mut list: Vec<String> = Vec::new();
                list.push(deployment_name.clone());
                assert(crate::config::texts(list@) =~= seq![deployment_name@]);
                Some(list)
            },
            _ => None,
        }
    }
}

/// The name under which a service offers an entry of its list of models,
/// or `None` for an entry that it does not offer. OpenAI offers the entries
/// that begin with `gpt-`. Gemini lists a model as `models/` followed by its
/// name, and offers the name. Every other service offers each entry as it
/// stands.
pub open spec fn offered_as(provider: AIProvider, entry: Seq<char>) -> Option<Seq<char>> {
    match provider {
        AIProvider::OpenAI { .. } => if is_prefix("gpt-"@, entry) {
            Some(entry)
        } else {
            None
        },
        AIProvider::GoogleGemini { .. } => if is_prefix("models/"@, entry) {
            Some(entry.skip(7))
        } else {
            None
        },
        _ => Some(entry),
    }
}

/// The names under which a service offers the entries of its list, in the
/// order of the list.
pub open spec fn offered_names(provider: AIProvider, entries: Seq<String>) -> Seq<Seq<char>>
    decreases entries.len(),
{
    if entries.len() == 0 {
        Seq::empty()
    } else {
        match offered_as(provider, entries.last()@) {
            Some(name) => offered_names(provider, entries.drop_last()).push(name),
            None => offered_names(provider, entries.drop_last()),
        }
    }
}

impl AIProvider {
    /// Where the names stand in the list of models that the service
    /// answers with: the field that holds the list, and the field of an
    /// entry that holds its name.
    pub fn model_list_fields(&self) -> (fields: (&'static str, &'static str))
        ensures
            self is GoogleGemini || self is Ollama ==> fields.0@ == "models"@ && fields.1@
                == "name"@,
            !(self is GoogleGemini || self is Ollama) ==> fields.0@ == "data"@ && fields.1@
                == "id"@,
    {
        match self {
            AIProvider::GoogleGemini { .. } => ("models", "name"),
            AIProvider::Ollama { .. } => ("models", "name"),
            _ => ("data", "id"),
        }
    }

    /// The name under which the service offers an entry of its list, if it
    /// offers it.
    pub fn offered(&self, entry: &str) -> (name: Option<String>)
        ensures
            match offered_as(*self, entry@) {
                Some(text) => name matches Some(n) && n@ == text,
                None => name is None,
            },
    {
        match self {
            AIProvider::OpenAI { .. } => {
                if starts_with(entry, "gpt-") {
                    Some(String::from_str(entry))
                } else {
                    None
                }
            },
            AIProvider::GoogleGemini { .. } => {
                if starts_with(entry, "models/") {
                    proof {
                        reveal_strlit("models/");
                    }
                    let name = entry.substring_char(7, entry.unicode_len());
                    assert(name@ =~= entry@.skip(7));
                    Some(String::from_str(name))
                } else {
                    None
                }
            },
            _ => Some(String::from_str(entry)),
        }
    }

    /// The names under which the service offers the entries of its list,
    /// in the order of the list.
    pub fn offered_models(&self, entries: &Vec<String>) -> (names: Vec<String>)
        ensures
            crate::config::texts(names@) == offered_names(*self, entries@),
    {
        let mut names: Vec<String> = Vec::new();
        let mut i: usize = 0;
        assert(entries@.subrange(0, 0) =~= Seq::<String>::empty());
        assert(crate::config::texts(names@) =~= Seq::<Seq<char>>::empty());
        while i < entries.len()
            invariant
                i <= entries.len(),
                crate::config::texts(names@) == offered_names(*self, entries@.subrange(0, i as int)),
            decreases entries.len() - i,
        {
            let ghost before = crate::config::texts(names@);
            proof {
                let next = entries@.subrange(0, i + 1);
                assert(next.drop_last() =~= entries@.subrange(0, i as int));
                assert(next.last() == entries@[i as int]);
            }
            match self.offered(entries[i].as_str()) {
                Some(name) => {
                    names.push(name);
                    assert(crate::config::texts(names@) =~= before.push(name@));
                },
                None => {},
            }
            i += 1;
        }
        assert(entries@.subrange(0, i as int) =~= entries@);
        names
    }
}

/// The name of a provider in the texts of its failures; the services that
/// merely speak the OpenAI interface have none.
pub open spec fn failure_label(provider: AIProvider) -> Seq<char> {
    match provider {
        AIProvider::OpenAI { .. } => "OpenAI API "@,
        AIProvider::Anthropic { .. } => "Anthropic API "@,
        AIProvider::GoogleGemini { .. } => "Gemini API "@,
        AIProvider::AzureOpenAI { .. } => "Azure OpenAI API "@,
        AIProvider::LMStudio { .. } => "API "@,
        AIProvider::Ollama { .. } => "Ollama "@,
        AIProvider::OpenAICompatible { .. } => "API "@,
    }
}

/// The name of a provider in the text that reports an answer of the wrong
/// shape.
pub open spec fn format_label(provider: AIProvider) -> Seq<char> {
    match provider {
        AIProvider::OpenAI { .. } => "OpenAI "@,
        AIProvider::Anthropic { .. } => "Anthropic "@,
        AIProvider::GoogleGemini { .. } => "Gemini "@,
        AIProvider::AzureOpenAI { .. } => "Azure OpenAI "@,
        AIProvider::LMStudio { .. } => ""@,
        AIProvider::Ollama { .. } => "Ollama "@,
        AIProvider::OpenAICompatible { .. } => ""@,
    }
}

/// A header of a request: name and value.
pub struct Header {
    pub name: String,
    pub value: String,
}

/// The plain content of each header of a sequence.
pub open spec fn header_views(headers: Seq<Header>) -> Seq<(Seq<char>, Seq<char>)> {
    Seq::new(headers.len(), |i: int| (headers[i].name@, headers[i].value@))
}

/// The messages that are not the system's, in order.
pub open spec fn without_system(messages: Seq<ChatMessage>) -> Seq<ChatMessage>
    decreases messages.len(),
{
    if messages.len() == 0 {
        Seq::empty()
    } else if messages.last().role@ == "system"@ {
        without_system(messages.drop_last())
    } else {
        without_system(messages.drop_last()).push(messages.last())
    }
}

/// The content of the last message of the system, if there is one.
pub open spec fn last_system(messages: Seq<ChatMessage>) -> Option<String>
    decreases messages.len(),
{
    if messages.len() == 0 {
        None
    } else if messages.last().role@ == "system"@ {
        Some(messages.last().content)
    } else {
        last_system(messages.drop_last())
    }
}

/// Splits a chat for a service that takes the system's instruction apart
/// from the chat: the last message of the system, and the other messages in
/// order.
pub fn split_system(messages: &Vec<ChatMessage>) -> (parts: (Option<String>, Vec<ChatMessage>))
    ensures
        parts.0 == last_system(messages@),
        parts.1@ == without_system(messages@),
{
    let mut system: Option<String> = None;
    let mut rest: Vec<ChatMessage> = Vec::new();
    let mut i: usize = 0;
    while i < messages.len()
        invariant
            i <= messages.len(),
            system == last_system(messages@.take(i as int)),
            rest@ == without_system(messages@.take(i as int)),
        decreases messages.len() - i,
    {
        proof {
            let next = messages@.take(i + 1);
            assert(next.drop_last() =~= messages@.take(i as int));
            assert(next.last() == messages@[i as int]);
        }
        if str_eq(messages[i].role.as_str(), "system") {
            system = Some(messages[i].content.clone());
        } else {
            rest.push(
                ChatMessage { role: messages[i].role.clone(), content: messages[i].content.clone() },
            );
        }
        i += 1;
    }
    assert(messages@.take(i as int) =~= messages@);
    (system, rest)
}

/// The role under which the Gemini service knows a role: the assistant is
/// its `model`, everyone else its `user`.
pub fn gemini_role(role: &str) -> (mapped: &'static str)
    ensures
        mapped@ == (if role@ == "assistant"@ {
            "model"@
        } else {
            "user"@
        }),
{
    if str_eq(role, "assistant") {
        "model"
    } else {
        "user"
    }
}

/// A count of tokens as the answer's type holds it; a count outside that
/// type is dropped.
pub fn token_count(total: Option<i64>) -> (count: Option<i32>)
    ensures
        count == (match total {
            Some(t) => if i32::MIN <= t <= i32::MAX {
                Some(t as i32)
            } else {
                None
            },
            None => None,
        }),
{
    match total {
        Some(t) => {
            if t >= -2147483648 && t <= 2147483647 {
                Some(t as i32)
            } else {
                None
            }
        },
        None => None,
    }
}

/// The tokens of an answer that reports what went in and what came out:
/// their sum, if both are reported and the sum fits.
pub fn summed_tokens(input: Option<i64>, output: Option<i64>) -> (count: Option<i32>)
    ensures
        count == (match (input, output) {
            (Some(i), Some(o)) => if i32::MIN <= i + o <= i32::MAX {
                Some((i + o) as i32)
            } else {
                None
            },
            _ => None,
        }),
{
    match (input, output) {
        (Some(i), Some(o)) => match i.checked_add(o) {
            Some(sum) => token_count(Some(sum)),
            None => None,
        },
        _ => None,
    }
}

impl AIProvider {
    /// The address to which a chat is sent.
    pub open spec fn spec_chat_url(&self, model: Seq<char>) -> Seq<char> {
        match self {
            AIProvider::OpenAI { .. } => "https://api.openai.com/v1/chat/completions"@,
            AIProvider::Anthropic { .. } => "https://api.anthropic.com/v1/messages"@,
            AIProvider::GoogleGemini { api_key } =>
                "https://generativelanguage.googleapis.com/v1beta/models/"@ + model
                    + ":generateContent?key="@ + api_key@,
            AIProvider::AzureOpenAI { endpoint, deployment_name, api_version, .. } =>
                without_trailing_slashes(endpoint@) + "/openai/deployments/"@ + deployment_name@
                    + "/chat/completions?api-version="@ + api_version@,
            AIProvider::LMStudio { base_url } => base_url@ + "/v1/chat/completions"@,
            AIProvider::Ollama { base_url } => base_url@ + "/api/chat"@,
            AIProvider::OpenAICompatible { base_url, .. } => base_url@ + "/v1/chat/completions"@,
        }
    }

    /// The address to which a chat with the given model is sent.
    pub fn chat_url(&self, model: &str) -> (url: String)
        ensures
            url@ == self.spec_chat_url(model@),
    {
        match self {
            AIProvider::OpenAI { .. } => String::from_str(
                "https://api.openai.com/v1/chat/completions",
            ),
            AIProvider::Anthropic { .. } => String::from_str(
                "https://api.anthropic.com/v1/messages",
            ),
            AIProvider::GoogleGemini { api_key } => {
                let mut url = join3(
                    "https://generativelanguage.googleapis.com/v1beta/models/",
                    model,
                    ":generateContent?key=",
                );
                push_text(&mut url, api_key.as_str());
                url
            },
            AIProvider::AzureOpenAI { endpoint, deployment_name, api_version, .. } => {
                let mut url = join3(
                    trim_trailing_slashes(endpoint.as_str()),
                    "/openai/deployments/",
                    deployment_name.as_str(),
                );
                push_text(&mut url, "/chat/completions?api-version=");
                push_text(&mut url, api_version.as_str());
                url
            },
            AIProvider::LMStudio { base_url } => join2(base_url.as_str(), "/v1/chat/completions"),
            AIProvider::Ollama { base_url } => join2(base_url.as_str(), "/api/chat"),
            AIProvider::OpenAICompatible { base_url, .. } => join2(
                base_url.as_str(),
                "/v1/chat/completions",
            ),
        }
    }

    /// The headers that carry the credentials of a chat.
    pub open spec fn spec_chat_headers(&self) -> Seq<(Seq<char>, Seq<char>)> {
        match self {
            AIProvider::OpenAI { api_key, organization } => match organization {
                Some(org) => seq![
                    ("Authorization"@, "Bearer "@ + api_key@),
                    ("OpenAI-Organization"@, org@),
                ],
                None => seq![("Authorization"@, "Bearer "@ + api_key@)],
            },
            AIProvider::Anthropic { api_key } => seq![
                ("x-api-key"@, api_key@),
                ("anthropic-version"@, "2023-06-01"@),
            ],
            AIProvider::GoogleGemini { .. } => Seq::empty(),
            AIProvider::AzureOpenAI { api_key, .. } => seq![("api-key"@, api_key@)],
            AIProvider::LMStudio { .. } => Seq::empty(),
            AIProvider::Ollama { .. } => Seq::empty(),
            AIProvider::OpenAICompatible { api_key, .. } => match api_key {
                Some(key) => seq![("Authorization"@, "Bearer "@ + key@)],
                None => Seq::empty(),
            },
        }
    }

    /// The headers that carry the credentials of a chat.
    pub fn chat_headers(&self) -> (headers: Vec<Header>)
        ensures
            header_views(headers@) == self.spec_chat_headers(),
    {
        let mut headers: Vec<Header> = Vec::new();
        match self {
            AIProvider::OpenAI { api_key, organization } => {
                headers.push(
                    Header {
                        name: String::from_str("Authorization"),
                        value: join2("Bearer ", api_key.as_str()),
                    },
                );
                match organization {
                    Some(org) => {
                        headers.push(
                            Header {
                                name: String::from_str("OpenAI-Organization"),
                                value: org.clone(),
                            },
                        );
                    },
                    None => {},
                }
            },
            AIProvider::Anthropic { api_key } => {
                headers.push(Header { name: String::from_str("x-api-key"), value: api_key.clone() });
                headers.push(
                    Header {
                        name: String::from_str("anthropic-version"),
                        value: String::from_str("2023-06-01"),
                    },
                );
            },
            AIProvider::AzureOpenAI { api_key, .. } => {
                headers.push(Header { name: String::from_str("api-key"), value: api_key.clone() });
            },
            AIProvider::OpenAICompatible { api_key, .. } => {
                match api_key {
                    Some(key) => {
                        headers.push(
                            Header {
                                name: String::from_str("Authorization"),
                                value: join2("Bearer ", key.as_str()),
                            },
                        );
                    },
                    None => {},
                }
            },
            _ => {},
        }
        assert(header_views(headers@) =~= self.spec_chat_headers());
        headers
    }

    /// The model that an answer is attributed to: the deployment for Azure,
    /// the requested model otherwise.
    pub fn answering_model(&self, requested: String) -> (model: String)
        ensures
            model@ == (match self {
                AIProvider::AzureOpenAI { deployment_name, .. } => deployment_name@,
                _ => requested@,
            }),
    {
        match self {
            AIProvider::AzureOpenAI { deployment_name, .. } => deployment_name.clone(),
            _ => requested,
        }
    }

    /// The error for a chat that the service answered without success.
    pub fn request_failure(&self, status: &str, error_text: &str) -> (e: AppError)
        ensures
            e.is(
                ErrorKind::Api,
                failure_label(*self) + "request failed with status "@ + status@ + ": "@
                    + error_text@,
            ),
    {
        let label = match self {
            AIProvider::OpenAI { .. } => "OpenAI API ",
            AIProvider::Anthropic { .. } => "Anthropic API ",
            AIProvider::GoogleGemini { .. } => "Gemini API ",
            AIProvider::AzureOpenAI { .. } => "Azure OpenAI API ",
            AIProvider::LMStudio { .. } => "API ",
            AIProvider::Ollama { .. } => "Ollama ",
            AIProvider::OpenAICompatible { .. } => "API ",
        };
        let mut message = join3(label, "request failed with status ", status);
        push_text(&mut message, ": ");
        push_text(&mut message, error_text);
        AppError::Api { message }
    }

    /// The answer of a chat from what was found in the service's reply: the
    /// text, and the tokens if the service counts them. A reply without
    /// text has the wrong shape.
    pub fn answer(&self, content: Option<String>, requested_model: String, tokens_used: Option<i32>) -> (r:
        AppResult<AIResponse>)
        ensures
            match content {
                Some(text) => r matches Ok(response) && response.content == text
                    && response.tokens_used == tokens_used && response.model@ == (match self {
                    AIProvider::AzureOpenAI { deployment_name, .. } => deployment_name@,
                    _ => requested_model@,
                }),
                None => r matches Err(e) && e.is(
                    ErrorKind::Api,
                    "Invalid "@ + format_label(*self) + "response format"@,
                ),
            },
    {
        match content {
            Some(text) => Ok(
                AIResponse {
                    content: text,
                    model: self.answering_model(requested_model),
                    tokens_used,
                },
            ),
            None => {
                let label = match self {
                    AIProvider::OpenAI { .. } => "OpenAI ",
                    AIProvider::Anthropic { .. } => "Anthropic ",
                    AIProvider::GoogleGemini { .. } => "Gemini ",
                    AIProvider::AzureOpenAI { .. } => "Azure OpenAI ",
                    AIProvider::LMStudio { .. } => "",
                    AIProvider::Ollama { .. } => "Ollama ",
                    AIProvider::OpenAICompatible { .. } => "",
                };
                let message = join3("Invalid ", label, "response format");
                Err(AppError::Api { message })
            },
        }
    }
}

} // verus!
