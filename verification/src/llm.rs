//! The model client: which endpoint a provider name selects, what a chat
//! request holds and how the completion is taken out of a response.

use vstd::prelude::*;
use serde_json::Value;
use crate::json::{Json, json_of, json_parse, parse_document, member, element, as_text, text_value,
    bool_value, array_value, empty_object, set_member};
use crate::text::{lowercased, to_lowercase, same_text};

verus! {

/// The two kinds of endpoint.
#[derive(Debug, Clone, Copy, PartialEq, Eq, Structural)]
pub enum Provider {
    /// The hosted API, which asks for a bearer credential.
    OpenAI,
    /// The local daemon, which asks for none.
    Ollama,
}

impl Provider {
    /// The provider that a lower-case name selects: the local daemon for
    /// "ollama", the hosted API for every other name.
    pub open spec fn named(lower: Seq<char>) -> Provider {
        if lower == "ollama"@ {
            Provider::Ollama
        } else {
            Provider::OpenAI
        }
    }

    /// The model used where none is asked for.
    pub open spec fn default_model(self) -> Seq<char> {
        match self {
            Provider::OpenAI => "gpt-4o"@,
            Provider::Ollama => "llama3"@,
        }
    }

    /// The address that requests are posted to.
    pub open spec fn endpoint(self) -> Seq<char> {
        match self {
            Provider::OpenAI => "https://api.openai.com/v1/chat/completions"@,
            Provider::Ollama => "http://localhost:11434/api/chat"@,
        }
    }

    /// The credential in use, given the one found in the environment.
    pub open spec fn credential(self, found: Option<Seq<char>>) -> Seq<char> {
        match self {
            Provider::OpenAI => match found {
                Some(k) => k,
                None => Seq::empty(),
            },
            Provider::Ollama => "ollama"@,
        }
    }

    /// The provider for a name that is already in lower case.
    pub fn from_name(lower: &str) -> (p: Provider)
        ensures
            p == Provider::named(lower@),
    {
        if same_text(lower, "ollama") {
            Provider::Ollama
        } else {
            Provider::OpenAI
        }
    }
}

/// A configured client, as a mathematical record.
pub ghost struct ClientView {
    pub provider: Provider,
    pub model: Seq<char>,
    pub api_key: Seq<char>,
    pub base_url: Seq<char>,
}

/// The configuration of one endpoint.
pub struct LLMClient {
    provider: Provider,
    model: String,
    api_key: String,
    base_url: String,
}

impl View for LLMClient {
    type V = ClientView;

    closed spec fn view(&self) -> ClientView {
        ClientView {
            provider: self.provider,
            model: self.model@,
            api_key: self.api_key@,
            base_url: self.base_url@,
        }
    }
}

/// What is to be posted for one chat call.
pub struct ChatRequest {
    /// The address to post to.
    pub url: String,
    /// The value of the `Authorization` header, where one is sent.
    pub authorization: Option<String>,
    /// The JSON body.
    pub body: Value,
}

/// Why a response yields no completion.
#[derive(Debug, PartialEq, Eq)]
pub enum ChatError {
    /// The endpoint answered with a status other than success; `body` is
    /// what it sent.
    Status { body: String },
    /// The response body is not a JSON document; `message` is what the
    /// JSON parser said of it.
    Malformed { message: String },
}

/// One entry of the `messages` array.
pub open spec fn message(role: Seq<char>, content: Seq<char>) -> Json {
    Json::Object(
        Map::empty().insert("role"@, Json::Text(role)).insert("content"@, Json::Text(content)),
    )
}

/// The body of a chat request: the model, the system and user messages, and
/// the provider's way of asking for JSON output (and, for the local daemon,
/// of switching streaming off).
pub open spec fn request_body(
    provider: Provider,
    model: Seq<char>,
    system: Seq<char>,
    user: Seq<char>,
) -> Json {
    let common = Map::empty().insert("model"@, Json::Text(model)).insert(
        "messages"@,
        Json::Array(seq![message("system"@, system), message("user"@, user)]),
    );
    match provider {
        Provider::OpenAI => Json::Object(
            common.insert(
                "response_format"@,
                Json::Object(Map::empty().insert("type"@, Json::Text("json_object"@))),
            ),
        ),
        Provider::Ollama => Json::Object(
            common.insert("format"@, Json::Text("json"@)).insert("stream"@, Json::Bool(false)),
        ),
    }
}

/// The `Authorization` header: "Bearer " and the credential for the hosted
/// API, none for the local daemon.
pub open spec fn authorization(provider: Provider, api_key: Seq<char>) -> Option<Seq<char>> {
    match provider {
        Provider::OpenAI => Some("Bearer "@ + api_key),
        Provider::Ollama => None,
    }
}

/// Where a response holds the completion.
pub open spec fn content_node(provider: Provider, doc: Json) -> Json {
    match provider {
        Provider::OpenAI => doc.member("choices"@).element(0).member("message"@).member(
            "content"@,
        ),
        Provider::Ollama => doc.member("message"@).member("content"@),
    }
}

/// The completion in a response: the string at the provider's place, or the
/// empty text where no string stands there.
pub open spec fn content_of(provider: Provider, doc: Json) -> Seq<char> {
    match content_node(provider, doc).text() {
        Some(s) => s,
        None => Seq::empty(),
    }
}

/// Takes the completion out of a response document.
pub fn extract_content(provider: Provider, doc: &Value) -> (r: String)
    ensures
        r@ == content_of(provider, json_of(*doc)),
        content_node(provider, json_of(*doc)).text() is None ==> r@.len() == 0,
{
    let node = match provider {
        Provider::OpenAI => member(member(element(member(doc, "choices"), 0), "message"), "content"),
        Provider::Ollama => member(member(doc, "message"), "content"),
    };
    match as_text(node) {
        Some(s) => String::from_str(s),
        None => String::new(),
    }
}

fn message_value(role: &str, content: &str) -> (r: Value)
    ensures
        json_of(r) == message(role@, content@),
{
    let mut m = empty_object();
    set_member(&mut m, "role", text_value(role));
    set_member(&mut m, "content", text_value(content));
    m
}

impl LLMClient {
    /// A client for the provider that `provider_str` names, whatever its
    /// case. `api_key` is the credential found in the environment, if any;
    /// only the hosted API uses it.
    pub fn new(provider_str: String, model: Option<String>, api_key: Option<String>) -> (c: LLMClient)
        ensures
            c@.provider == Provider::named(lowercased(provider_str@)),
            c@ == LLMClient::configured(
                c@.provider,
                match model { Some(m) => Some(m@), None => None },
                match api_key { Some(k) => Some(k@), None => None },
            ),
    {
        let lower = to_lowercase(provider_str.as_str());
        LLMClient::configure(Provider::from_name(lower.as_str()), model, api_key)
    }

    /// The configuration for a provider, a wish for a model and a credential
    /// found in the environment.
    pub open spec fn configured(
        provider: Provider,
        model: Option<Seq<char>>,
        api_key: Option<Seq<char>>,
    ) -> ClientView {
        ClientView {
            provider,
            model: match model {
                Some(m) => m,
                None => provider.default_model(),
            },
            api_key: provider.credential(api_key),
            base_url: provider.endpoint(),
        }
    }

    /// A client for a provider.
    pub fn configure(provider: Provider, model: Option<String>, api_key: Option<String>) -> (c: LLMClient)
        ensures
            c@ == LLMClient::configured(
                provider,
                match model { Some(m) => Some(m@), None => None },
                match api_key { Some(k) => Some(k@), None => None },
            ),
    {
        let (default_model, key, base_url) = match provider {
            Provider::OpenAI => (
                String::from_str("gpt-4o"),
                match api_key {
                    Some(k) => k,
                    None => String::new(),
                },
                String::from_str("https://api.openai.com/v1/chat/completions"),
            ),
            Provider::Ollama => (
                String::from_str("llama3"),
                String::from_str("ollama"),
                String::from_str("http://localhost:11434/api/chat"),
            ),
        };
        let model = match model {
            Some(m) => m,
            None => default_model,
        };
        LLMClient { provider, model, api_key: key, base_url }
    }

    /// The provider.
    pub fn provider(&self) -> (p: Provider)
        ensures
            p == self@.provider,
    {
        self.provider
    }

    /// The model's name.
    pub fn model(&self) -> (s: &str)
        ensures
            s@ == self@.model,
    {
        self.model.as_str()
    }

    /// The credential.
    pub fn api_key(&self) -> (s: &str)
        ensures
            s@ == self@.api_key,
    {
        self.api_key.as_str()
    }

    /// The address that requests are posted to.
    pub fn base_url(&self) -> (s: &str)
        ensures
            s@ == self@.base_url,
    {
        self.base_url.as_str()
    }

    /// The request for one chat call with a system prompt and a user text.
    pub fn request(&self, system: &str, user: &str) -> (r: ChatRequest)
        ensures
            r.url@ == self@.base_url,
            match r.authorization {
                Some(h) => authorization(self@.provider, self@.api_key) == Some(h@),
                None => authorization(self@.provider, self@.api_key) is None,
            },
            json_of(r.body) == request_body(self@.provider, self@.model, system@, user@),
    {
        let mut messages: Vec<Value> = Vec::new();
        messages.push(message_value("system", system));
        messages.push(message_value("user", user));
        let ghost expected = seq![message("system"@, system@), message("user"@, user@)];
        assert(messages@.map_values(|v: Value| json_of(v)) =~= expected);
        let mut body = empty_object();
        set_member(&mut body, "model", text_value(self.model.as_str()));
        set_member(&mut body, "messages", array_value(messages));
        let authorization = match self.provider {
            Provider::OpenAI => {
                let mut format = empty_object();
                set_member(&mut format, "type", text_value("json_object"));
                set_member(&mut body, "response_format", format);
                Some(String::from_str("Bearer ").concat(self.api_key.as_str()))
            },
            Provider::Ollama => {
                set_member(&mut body, "format", text_value("json"));
                set_member(&mut body, "stream", bool_value(false));
                None
            },
        };
        ChatRequest { url: self.base_url.clone(), authorization, body }
    }

    /// Reads a response: `success` tells whether its status was a success,
    /// `body` is its text as it arrived. A failure status is an error that
    /// carries the body; otherwise the body is parsed as JSON, which is an
    /// error where it is none, and the completion is taken out of the
    /// document.
    pub fn completion(&self, success: bool, body: &str) -> (r: Result<String, ChatError>)
        ensures
            match r {
                Ok(s) => success && json_parse(body@) is Ok && s@ == content_of(
                    self@.provider,
                    json_parse(body@)->Ok_0,
                ),
                Err(ChatError::Status { body: b }) => !success && b@ == body@,
                Err(ChatError::Malformed { message }) => success && json_parse(body@) == Err::<
                    Json,
                    Seq<char>,
                >(message@),
            },
    {
        if !success {
            return Err(ChatError::Status { body: String::from_str(body) });
        }
        match parse_document(body) {
            Ok(doc) => Ok(extract_content(self.provider, &doc)),
            Err(message) => Err(ChatError::Malformed { message }),
        }
    }
}

} // verus!
