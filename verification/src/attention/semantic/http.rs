//! The bounds of a provider's endpoint, request and completion.

use vstd::prelude::*;

use super::{SemanticConfig, SemanticError};
use crate::json::{Datum, Json};
use crate::runtime::RuntimePin;
use crate::text;

verus! {

/// The parts of a URL that an endpoint is judged by.
#[derive(Debug)]
pub struct UrlParts {
    pub scheme: String,
    pub username: String,
    pub password: bool,
    pub query: bool,
    pub fragment: bool,
    pub host: Option<String>,
}

/// Scheme, user name, whether there is a password, a query and a fragment, and
/// the host of the URL that a text writes, where it writes one.
pub uninterp spec fn url_of(value: Seq<char>) -> Option<
    (Seq<char>, Seq<char>, bool, bool, bool, Option<Seq<char>>),
>;

pub open spec fn parts_view(p: UrlParts) -> (Seq<char>, Seq<char>, bool, bool, bool, Option<
    Seq<char>,
>) {
    (
        p.scheme@,
        p.username@,
        p.password,
        p.query,
        p.fragment,
        match p.host {
            Some(host) => Some(host@),
            None => None,
        },
    )
}

/// `url::Url::parse`, with the parts of its result: they are a function of the
/// text.
#[verifier::external_body]
fn parse_url(value: &str) -> (r: Option<UrlParts>)
    ensures
        match r {
            Some(p) => url_of(value@) == Some(parts_view(p)),
            None => url_of(value@) is None,
        },
{
    let url = url::Url::parse(value).ok()?;
    Some(UrlParts {
        scheme: url.scheme().to_string(),
        username: url.username().to_string(),
        password: url.password().is_some(),
        query: url.query().is_some(),
        fragment: url.fragment().is_some(),
        host: url.host_str().map(|host| host.to_string()),
    })
}

/// A host that is this machine.
pub open spec fn is_loopback(host: Seq<char>) -> bool {
    host == "localhost"@ || host == "127.0.0.1"@ || host == "[::1]"@
}

/// An endpoint is reached over HTTPS, or over HTTP on this machine, and its URL
/// carries nothing but a host and a path.
pub open spec fn endpoint_allowed(
    scheme: Seq<char>,
    username: Seq<char>,
    password: bool,
    query: bool,
    fragment: bool,
    host: Option<Seq<char>>,
) -> bool {
    &&& scheme == "https"@ || scheme == "http"@ && (host matches Some(h) && is_loopback(h))
    &&& username.len() == 0
    &&& !password
    &&& !query
    &&& !fragment
    &&& host is Some
}

/// Why an endpoint is refused.
pub open spec fn endpoint_refused(value: Seq<char>) -> Option<SemanticError> {
    match url_of(value) {
        None => Some(SemanticError::InvalidUrl),
        Some((scheme, username, password, query, fragment, host)) => if text::utf8_len(value)
            <= 2048 && endpoint_allowed(scheme, username, password, query, fragment, host) {
            None
        } else {
            Some(SemanticError::InvalidEndpoint)
        },
    }
}

/// Whether the parts of a URL make an endpoint.
pub fn parts_allowed(p: &UrlParts) -> (r: bool)
    ensures
        r == endpoint_allowed(
            parts_view(*p).0,
            parts_view(*p).1,
            parts_view(*p).2,
            parts_view(*p).3,
            parts_view(*p).4,
            parts_view(*p).5,
        ),
{
    let local = match &p.host {
        Some(host) => text::same(host.as_str(), "localhost") || text::same(
            host.as_str(),
            "127.0.0.1",
        ) || text::same(host.as_str(), "[::1]"),
        None => false,
    };
    (text::same(p.scheme.as_str(), "https") || text::same(p.scheme.as_str(), "http") && local)
        && p.username.as_str().unicode_len() == 0 && !p.password && !p.query && !p.fragment
        && p.host.is_some()
}

/// Checks an endpoint.
pub fn endpoint(value: &str) -> (r: Result<(), SemanticError>)
    ensures
        match r {
            Ok(()) => endpoint_refused(value@) is None,
            Err(e) => endpoint_refused(value@) == Some(e),
        },
{
    let p = match parse_url(value) {
        Some(p) => p,
        None => return Err(SemanticError::InvalidUrl),
    };
    if text::byte_len(value) <= 2048 && parts_allowed(&p) {
        Ok(())
    } else {
        Err(SemanticError::InvalidEndpoint)
    }
}

// ---------------------------------------------------------------------------
// The provider's configuration
// ---------------------------------------------------------------------------

/// A provider, with the name of the variable that holds its secret.
#[derive(Debug)]
pub struct OpenAiWatchConfig {
    pub contract: SemanticConfig,
    pub api_key_env: String,
}

pub open spec fn is_variable_char(c: char) -> bool {
    'A' <= c <= 'Z' || '0' <= c <= '9' || c == '_'
}

/// The name of an environment variable.
pub open spec fn is_variable(s: Seq<char>) -> bool {
    &&& s.len() > 0
    &&& text::utf8_len(s) <= 128
    &&& forall|i: int| 0 <= i < s.len() ==> is_variable_char(#[trigger] s[i])
}

fn variable_valid(s: &str) -> (r: bool)
    ensures
        r == is_variable(s@),
{
    let v = text::chars_of(s);
    if v.len() == 0 || text::byte_len(s) > 128 {
        return false;
    }
    let mut i: usize = 0;
    while i < v.len()
        invariant
            i <= v.len(),
            v@ == s@,
            forall|k: int| 0 <= k < i ==> is_variable_char(#[trigger] s@[k]),
        decreases v.len() - i,
    {
        let c = v[i];
        if !(('A' <= c && c <= 'Z') || ('0' <= c && c <= '9') || c == '_') {
            assert(!is_variable_char(s@[i as int]));
            return false;
        }
        i = i + 1;
    }
    true
}

impl OpenAiWatchConfig {
    /// Why the provider is refused before its secret is looked for.
    pub open spec fn refused(self) -> Option<SemanticError> {
        match self.contract.refused() {
            Some(e) => Some(e),
            None => if is_variable(self.api_key_env@) {
                None
            } else {
                Some(SemanticError::InvalidSecretReference)
            },
        }
    }

    /// Checks the contract and the name of the secret.
    pub fn check(&self) -> (r: Result<(), SemanticError>)
        ensures
            match r {
                Ok(()) => self.refused() is None,
                Err(e) => self.refused() == Some(e),
            },
    {
        if let Err(e) = self.contract.validate() {
            return Err(e);
        }
        if !variable_valid(self.api_key_env.as_str()) {
            return Err(SemanticError::InvalidSecretReference);
        }
        Ok(())
    }

    /// The secret and the pin that a client is made of. A secret that is empty is
    /// none.
    pub fn resolve(&self, secret: Option<String>) -> (r: Result<
        (String, RuntimePin),
        SemanticError,
    >)
        ensures
            match r {
                Ok((token, pin)) => {
                    &&& self.refused() is None
                    &&& secret matches Some(s) && s@.len() > 0 && token@ == s@
                    &&& pin.id@ == super::FORMAT@
                    &&& crate::nexus::digest_of(self.contract.pinned_value()) == Some(
                        pin.digest@,
                    )
                },
                Err(SemanticError::SecretUnavailable) => self.refused() is None && !(secret
                    matches Some(s) && s@.len() > 0),
                Err(e) => self.refused() == Some(e),
            },
    {
        if let Err(e) = self.check() {
            return Err(e);
        }
        let token = match secret {
            Some(s) => if s.as_str().unicode_len() > 0 {
                s
            } else {
                return Err(SemanticError::SecretUnavailable);
            },
            None => return Err(SemanticError::SecretUnavailable),
        };
        match self.contract.pin() {
            Ok(pin) => Ok((token, pin)),
            Err(e) => Err(e),
        }
    }
}

// ---------------------------------------------------------------------------
// The exchange
// ---------------------------------------------------------------------------

/// The text of the one message that carries the material.
pub open spec fn material_text(request: Datum) -> Option<Seq<char>> {
    match request.at("messages"@) {
        Datum::Array(list) => if list.len() > 1 {
            list[1].text_at("content"@)
        } else {
            None
        },
        _ => None,
    }
}

/// The material that a request carries.
pub fn request_material(request: &Json) -> (r: Result<String, SemanticError>)
    ensures
        match (r, material_text(request@)) {
            (Ok(s), Some(t)) => s@ == t,
            (Err(e), None) => e == SemanticError::RequestMissing,
            _ => false,
        },
{
    let list = match request.get("messages") {
        Some(messages) => match messages.as_array() {
            Some(list) => list,
            None => return Err(SemanticError::RequestMissing),
        },
        None => return Err(SemanticError::RequestMissing),
    };
    if list.len() <= 1 {
        return Err(SemanticError::RequestMissing);
    }
    assert(crate::json::items_view(list@)[1] == list@[1]@);
    match list[1].text_at("content") {
        Some(s) => Ok(s.to_owned()),
        None => Err(SemanticError::RequestMissing),
    }
}

/// A client sends only what its own pin and its own model stand for: editing a
/// configuration cannot relabel a client.
pub fn check_client(request: &Json, material: &Json, model: &str, pin: &RuntimePin) -> (r: Result<
    (),
    SemanticError,
>)
    ensures
        r == if request@.at("model"@) == Datum::Text(model@) && material@.at("evaluator"@)
            == pin.value() {
            Ok::<(), SemanticError>(())
        } else {
            Err::<(), SemanticError>(SemanticError::ClientMismatch)
        },
{
    let own = match material.get("evaluator") {
        Some(evaluator) => {
            let expected = pin.to_json();
            proof {
                crate::nexus::two_texts_are_portable("id"@, pin.id@, "digest"@, pin.digest@);
                crate::nexus::alike_portable_is_equal(evaluator@, expected@, 100);
            }
            evaluator.same(&expected)
        },
        None => false,
    };
    if request.member_is("model", model) && own {
        Ok(())
    } else {
        Err(SemanticError::ClientMismatch)
    }
}

/// The most bytes of a response.
pub const MAX_RESPONSE_BYTES: u64 = 524_288;

/// Whether a response is read at all.
pub fn check_response(success: bool, length: Option<u64>) -> (r: Result<(), SemanticError>)
    ensures
        r == if success && !(length matches Some(n) && n > MAX_RESPONSE_BYTES) {
            Ok::<(), SemanticError>(())
        } else {
            Err::<(), SemanticError>(SemanticError::ResponseRejected)
        },
{
    let long = match length {
        Some(n) => n > MAX_RESPONSE_BYTES,
        None => false,
    };
    if success && !long {
        Ok(())
    } else {
        Err(SemanticError::ResponseRejected)
    }
}

/// The one choice of a response.
pub open spec fn only_choice(response: Datum) -> Option<Datum> {
    match response.at("choices"@) {
        Datum::Array(list) => if list.len() == 1 {
            Some(list[0])
        } else {
            None
        },
        _ => None,
    }
}

/// The response is that of the model, complete, and nothing but text.
pub open spec fn is_completion(response: Datum, model: Seq<char>) -> bool {
    &&& response.at("model"@) == Datum::Text(model)
    &&& only_choice(response) matches Some(choice) && {
        &&& choice.at("finish_reason"@) == Datum::Text("stop"@)
        &&& choice.at("message"@).at("role"@) == Datum::Text("assistant"@)
        &&& choice.at("message"@).at("tool_calls"@) is Null
        &&& choice.at("message"@).at("refusal"@) is Null
    }
}

/// Why a response holds no reply.
pub open spec fn completion_refused(response: Datum, model: Seq<char>) -> Option<SemanticError> {
    if !is_completion(response, model) {
        Some(SemanticError::CompletionMismatch)
    } else if only_choice(response)->0.at("message"@).text_at("content"@) is None {
        Some(SemanticError::ContentMissing)
    } else {
        None
    }
}

/// The reply that a response holds: one choice, by the right model, finished,
/// without tool calls and without a refusal.
pub fn read_completion(response: &Json, model: &str) -> (r: Result<String, SemanticError>)
    ensures
        match r {
            Ok(content) => completion_refused(response@, model@) is None && only_choice(
                response@,
            )->0.at("message"@).text_at("content"@) == Some(content@),
            Err(e) => completion_refused(response@, model@) == Some(e),
        },
{
    let list = match response.get("choices") {
        Some(choices) => match choices.as_array() {
            Some(list) => list,
            None => return Err(SemanticError::CompletionMismatch),
        },
        None => return Err(SemanticError::CompletionMismatch),
    };
    assert(response@.at("choices"@) == Datum::Array(crate::json::items_view(list@)));
    if list.len() != 1 || !response.member_is("model", model) {
        return Err(SemanticError::CompletionMismatch);
    }
    assert(crate::json::items_view(list@)[0] == list@[0]@);
    let choice = &list[0];
    if !choice.member_is("finish_reason", "stop") {
        return Err(SemanticError::CompletionMismatch);
    }
    match choice.get("message") {
        None => Err(SemanticError::CompletionMismatch),
        Some(message) => {
            if !message.member_is("role", "assistant") || message.has_value("tool_calls")
                || message.has_value("refusal") {
                return Err(SemanticError::CompletionMismatch);
            }
            match message.text_at("content") {
                Some(content) => Ok(content.to_owned()),
                None => Err(SemanticError::ContentMissing),
            }
        },
    }
}

} // verus!
