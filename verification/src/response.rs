//! Responses and the builders that make them.

use crate::error::{ErrorDetails, ErrorView};
use crate::json::{body_or_fallback, json_body, json_or_fallback};
use crate::text::{decimal, joined, push_decimal};
use crate::value::{entry_texts, ValueView};
use axum::http::StatusCode;
use vstd::prelude::*;

verus! {

/// The status that stands in for one that a transport would not know.
pub const INTERNAL_SERVER_ERROR: u16 = 500;

/// What a transport sends for an error: a status, a content type and a body.
#[derive(Debug)]
pub struct Response {
    pub status: u16,
    pub content_type: &'static str,
    pub body: String,
}

impl Response {
    /// The status of the response.
    pub fn status(&self) -> (r: u16)
        ensures
            r == self.status,
    {
        self.status
    }

    /// The content type of the body.
    pub fn content_type(&self) -> (r: &'static str)
        ensures
            r == self.content_type,
    {
        self.content_type
    }

    /// The body.
    pub fn body(&self) -> (r: &str)
        ensures
            r@ == self.body@,
    {
        self.body.as_str()
    }
}

/// Something that can make the body of a response, and say its content type,
/// from what an error says. A builder can be shown for debugging and shared
/// between threads.
pub trait ResponseBuilder: std::fmt::Debug + Send + Sync {
    /// The body and its content type for `error`.
    fn build(&self, error: &ErrorDetails<'_>) -> (String, &'static str);
}

impl<T: ResponseBuilder + ?Sized> ResponseBuilder for Box<T> {
    /// What the builder in the box builds.
    fn build(&self, error: &ErrorDetails<'_>) -> (r: (String, &'static str))
        ensures
            call_ensures(T::build, (&**self, error), r),
    {
        (**self).build(error)
    }
}

/// The slot for the default builder: empty at first, and filled at most once.
#[derive(Debug)]
pub struct BuilderRegistry<D> {
    builder: Option<D>,
}

impl<D> BuilderRegistry<D> {
    /// The default builder that the registry holds, where one has been set.
    pub closed spec fn held(&self) -> Option<D> {
        self.builder
    }
}

impl<D: ResponseBuilder> BuilderRegistry<D> {
    /// A registry without a default builder.
    pub fn new() -> (r: Self)
        ensures
            r.held() is None,
    {
        BuilderRegistry { builder: None }
    }

    /// The default builder, where one has been set.
    pub fn default_builder(&self) -> (r: Option<&D>)
        ensures
            match r {
                Some(builder) => self.held() == Some(*builder),
                None => self.held() is None,
            },
    {
        match &self.builder {
            Some(builder) => Some(builder),
            None => None,
        }
    }
}

/// What the slot holds after `builder` has been offered to it: what it held,
/// where it held something; otherwise `builder`.
pub open spec fn offered<D>(held: Option<D>, builder: D) -> Option<D> {
    match held {
        Some(first) => Some(first),
        None => Some(builder),
    }
}

/// Sets the default builder of the registry. Only the first call on a
/// registry has an effect: once a default builder is set, it stays.
pub fn set_default_response_builder<D: ResponseBuilder>(
    registry: &mut BuilderRegistry<D>,
    builder: D,
)
    ensures
        final(registry).held() == offered(old(registry).held(), builder),
{
    if registry.builder.is_none() {
        registry.builder = Some(builder);
    }
}

/// Once the slot holds a builder, offering another changes nothing: the
/// first builder set stays the default.
pub proof fn lemma_first_default_stays<D>(held: Option<D>, first: D, second: D)
    ensures
        offered(offered(held, first), second) == offered(held, first),
        offered(held, first) is Some,
        held is Some ==> offered(held, first) == held,
{
}

/// `StatusCode::from_u16` of the http crate, which axum hands on, and
/// `StatusCode::as_u16` on what it accepts: a number from 100 to 999 is a
/// status and comes back unchanged; any other number is refused.
#[verifier::external_body]
fn recognized_status(status: u16) -> (r: Option<u16>)
    ensures
        r == (if 100 <= status <= 999 {
            Some(status)
        } else {
            None::<u16>
        }),
{
    match StatusCode::from_u16(status) {
        Ok(code) => Some(code.as_u16()),
        Err(_) => None,
    }
}

/// The status that goes out for a stored one: the stored one where it is
/// from 100 to 999, else 500.
pub open spec fn recognized_or_internal(status: u16) -> u16 {
    if 100 <= status <= 999 {
        status
    } else {
        INTERNAL_SERVER_ERROR
    }
}

/// The status that goes out for a stored one.
pub fn status_or_internal(status: u16) -> (r: u16)
    ensures
        r == recognized_or_internal(status),
{
    match recognized_status(status) {
        Some(known) => known,
        None => INTERNAL_SERVER_ERROR,
    }
}

/// The parameters as they follow the message in plain text: nothing where
/// there are none, else ` (Parameters: {k1: v1, k2: v2})`.
pub open spec fn parameters_text(parameters: Option<Seq<(Seq<char>, ValueView)>>) -> Seq<char> {
    match parameters {
        Some(entries) => if entries.len() > 0 {
            " (Parameters: {"@ + joined(entry_texts(entries), ", "@) + "})"@
        } else {
            Seq::empty()
        },
        None => Seq::empty(),
    }
}

/// The plain text for an error: `Error <code>: <name> - <message>`, the
/// message with its arguments filled in, followed by the parameters where
/// there are any.
pub open spec fn plain_text_body(error: ErrorView) -> Seq<char> {
    "Error "@ + decimal(error.code as nat) + ": "@ + error.name + " - "@
        + error.formatted_message() + parameters_text(error.parameters)
}

/// The builder of plain text responses.
#[derive(Debug)]
pub struct PlainTextResponseBuilder;

impl Clone for PlainTextResponseBuilder {
    fn clone(&self) -> (r: Self)
        ensures
            r == *self,
    {
        PlainTextResponseBuilder
    }
}

impl PlainTextResponseBuilder {
    pub fn new() -> (r: Self)
        ensures
            r == PlainTextResponseBuilder,
    {
        PlainTextResponseBuilder
    }
}

impl Default for PlainTextResponseBuilder {
    fn default() -> (r: Self)
        ensures
            r == PlainTextResponseBuilder,
    {
        PlainTextResponseBuilder::new()
    }
}

impl ResponseBuilder for PlainTextResponseBuilder {
    /// The plain text for the error, as `text/plain`.
    fn build(&self, error: &ErrorDetails<'_>) -> (r: (String, &'static str))
        ensures
            r.0@ == plain_text_body(error@),
            r.1@ == "text/plain"@,
    {
        let mut text = String::new();
        text.append("Error ");
        push_decimal(&mut text, error.code as u64);
        text.append(": ");
        text.append(crate::error::cow_as_str(&error.name));
        text.append(" - ");
        let message = error.format_message();
        text.append(message.as_str());
        match &error.parameters {
            Some(map) => {
                if !map.is_empty() {
                    text.append(" (Parameters: {");
                    map.write_entries(&mut text);
                    text.append("})");
                }
            },
            None => {},
        }
        assert(text@ =~= plain_text_body(error@));
        (text, "text/plain")
    }
}

/// The builder of JSON responses.
#[derive(Debug)]
pub struct JsonResponseBuilder;

impl Clone for JsonResponseBuilder {
    fn clone(&self) -> (r: Self)
        ensures
            r == *self,
    {
        JsonResponseBuilder
    }
}

impl JsonResponseBuilder {
    pub fn new() -> (r: Self)
        ensures
            r == JsonResponseBuilder,
    {
        JsonResponseBuilder
    }
}

impl ResponseBuilder for JsonResponseBuilder {
    /// The JSON object for the error, as `application/json`. Were there no
    /// JSON text for the error, a small JSON object would say so in its
    /// place; every error has one.
    fn build(&self, error: &ErrorDetails<'_>) -> (r: (String, &'static str))
        ensures
            json_body(error@) == Some(r.0@),
            r.0@ == body_or_fallback(error.code, json_body(error@)),
            r.1@ == "application/json"@,
    {
        (json_or_fallback(error.code, error.to_json()), "application/json")
    }
}

} // verus!
