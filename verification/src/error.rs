//! The error record: what an error says, and the error itself with the
//! builder that may be attached to it.

use crate::response::{
    offered, plain_text_body, recognized_or_internal, BuilderRegistry, JsonResponseBuilder,
    PlainTextResponseBuilder, Response, ResponseBuilder,
};
use crate::text::{format_template, formatted};
use crate::value::{
    converted_pairs, pair_views, with_entries, with_entry, ParameterMap, ParameterValue, ValueView,
};
use std::borrow::Cow;
use vstd::prelude::*;

verus! {

/// What an error says: the data that a response is built from.
#[derive(Debug)]
pub struct ErrorDetails<'a> {
    /// A stable number for this kind of error.
    pub code: u32,
    /// A capitalized, symbolic name for this kind of error.
    pub name: Cow<'a, str>,
    /// The status for the transport. It is held as given; whether a transport
    /// knows it is looked at when a response is made.
    pub http_status: u16,
    /// The message, with `{0}`, `{1}`, ... where the arguments go.
    pub message: Cow<'a, str>,
    /// The arguments for the message, in order.
    pub arguments: Vec<String>,
    /// Free-form parameters by key, where any were given.
    pub parameters: Option<ParameterMap>,
}

/// What `ErrorDetails` holds.
pub struct ErrorView {
    pub code: u32,
    pub name: Seq<char>,
    pub http_status: u16,
    pub message: Seq<char>,
    pub arguments: Seq<Seq<char>>,
    pub parameters: Option<Seq<(Seq<char>, ValueView)>>,
}

impl<'a> View for ErrorDetails<'a> {
    type V = ErrorView;

    open spec fn view(&self) -> ErrorView {
        ErrorView {
            code: self.code,
            name: self.name@,
            http_status: self.http_status,
            message: self.message@,
            arguments: self.arguments.deep_view(),
            parameters: match self.parameters {
                Some(map) => Some(map@),
                None => None,
            },
        }
    }
}

impl ErrorView {
    /// The message with the arguments filled in.
    pub open spec fn formatted_message(self) -> Seq<char> {
        formatted(self.message, self.arguments)
    }

    /// The same error with one more argument at the end.
    pub open spec fn with_argument(self, value: Seq<char>) -> ErrorView {
        ErrorView { arguments: self.arguments.push(value), ..self }
    }

    /// The same error with each of `added` put in, one after the other.
    pub open spec fn with_parameters(self, added: Seq<(Seq<char>, ValueView)>) -> ErrorView {
        ErrorView {
            parameters: Some(
                with_entries(
                    match self.parameters {
                        Some(entries) => entries,
                        None => Seq::empty(),
                    },
                    added,
                ),
            ),
            ..self
        }
    }

    /// The same error with `value` put under `key`.
    pub open spec fn with_parameter(self, key: Seq<char>, value: ValueView) -> ErrorView {
        ErrorView {
            parameters: Some(
                with_entry(
                    match self.parameters {
                        Some(entries) => entries,
                        None => Seq::empty(),
                    },
                    key,
                    value,
                ),
            ),
            ..self
        }
    }
}

/// The string slice that a `Cow` holds or borrows.
pub fn cow_as_str<'b>(text: &'b Cow<'_, str>) -> (r: &'b str)
    ensures
        r@ == text@,
{
    match text {
        Cow::Borrowed(borrowed) => borrowed,
        Cow::Owned(owned) => owned.as_str(),
    }
}

impl<'a> ErrorDetails<'a> {
    /// The message with each argument filled in for its placeholder. A
    /// placeholder without an argument stays as it is, and an argument without
    /// a placeholder is not used.
    pub fn format_message(&self) -> (r: String)
        ensures
            r@ == self@.formatted_message(),
    {
        format_template(cow_as_str(&self.message), &self.arguments)
    }
}

/// A copy of the text that borrows where `text` borrows.
fn copy_cow<'a>(text: &Cow<'a, str>) -> (r: Cow<'a, str>)
    ensures
        r@ == text@,
{
    match text {
        Cow::Borrowed(borrowed) => Cow::Borrowed(*borrowed),
        Cow::Owned(owned) => Cow::Owned(owned.clone()),
    }
}

impl<'a> Clone for ErrorDetails<'a> {
    /// A deep copy: the result says the same.
    fn clone(&self) -> (r: Self)
        ensures
            r@ == self@,
    {
        let arguments = self.arguments.clone();
        let parameters = match &self.parameters {
            Some(map) => Some(map.clone()),
            None => None,
        };
        assert(arguments.deep_view() =~= self.arguments.deep_view());
        ErrorDetails {
            code: self.code,
            name: copy_cow(&self.name),
            http_status: self.http_status,
            message: copy_cow(&self.message),
            arguments,
            parameters,
        }
    }
}

/// An error of the service: what it says, and the builder for its response
/// where one was attached.
#[derive(Debug)]
pub struct ServiceError<'a, R = PlainTextResponseBuilder> {
    pub details: ErrorDetails<'a>,
    pub response_builder: Option<R>,
}

impl<'a> ServiceError<'a, PlainTextResponseBuilder> {
    /// An error with no arguments, no parameters and no builder attached. The
    /// name and the message are borrowed, not copied.
    pub fn new(code: u32, name: &'a str, status: u16, message: &'a str) -> (r: Self)
        ensures
            r.details@ == (ErrorView {
                code,
                name: name@,
                http_status: status,
                message: message@,
                arguments: Seq::empty(),
                parameters: None,
            }),
            r.response_builder is None,
    {
        let r = ServiceError {
            details: ErrorDetails {
                code,
                name: Cow::Borrowed(name),
                http_status: status,
                message: Cow::Borrowed(message),
                arguments: Vec::new(),
                parameters: None,
            },
            response_builder: None,
        };
        assert(r.details@.arguments =~= Seq::empty());
        r
    }
}

impl<'a, R> Clone for ServiceError<'a, R> {
    /// A deep copy of what the error says, without the builder: a copy never
    /// carries the builder of the error it was made from.
    fn clone(&self) -> (r: Self)
        ensures
            r.is_copy_of(*self),
    {
        ServiceError { details: self.details.clone(), response_builder: None }
    }
}

impl<'a, R> ServiceError<'a, R> {
    /// Whether this error is what a copy of `source` is: it says the same,
    /// and no builder is attached to it.
    pub open spec fn is_copy_of<S>(self, source: ServiceError<'a, S>) -> bool {
        self.details@ == source.details@ && self.response_builder is None
    }

    /// This error with `builder` attached.
    pub open spec fn attached<B>(self, builder: B) -> ServiceError<'a, B> {
        ServiceError { details: self.details, response_builder: Some(builder) }
    }
}

impl<'a, R: ResponseBuilder> ServiceError<'a, R> {
    /// Adds an argument for the message, after those already bound.
    pub fn bind<T: std::fmt::Display + ?Sized>(self, value: &T) -> (r: Self)
        ensures
            exists|text: String|
                #![trigger self.details@.with_argument(text@)]
                vstd::string::to_string_from_display_ensures::<T>(value, text) && r.details@
                    == self.details@.with_argument(text@),
            r.response_builder == self.response_builder,
    {
        let mut error = self;
        let text = value.to_string();
        let ghost bound = text;
        error.details.arguments.push(text);
        assert(error.details@.arguments =~= self.details@.arguments.push(bound@));
        assert(vstd::string::to_string_from_display_ensures::<T>(value, bound) && error.details@
            == self.details@.with_argument(bound@));
        error
    }

    /// Puts one parameter under its key, the key written as text and the
    /// value converted first. A value already under that key gives way to the
    /// new one.
    pub fn parameter<K: std::fmt::Display + ?Sized, V: Into<ParameterValue>>(
        self,
        key: &K,
        value: V,
    ) -> (r: Self)
        ensures
            exists|text: String, converted: ParameterValue|
                #![trigger self.details@.with_parameter(text@, converted@)]
                vstd::string::to_string_from_display_ensures::<K>(key, text) && call_ensures(
                    V::into,
                    (value,),
                    converted,
                ) && r.details@ == self.details@.with_parameter(text@, converted@),
            r.response_builder == self.response_builder,
    {
        let ServiceError { details, response_builder } = self;
        let ErrorDetails { code, name, http_status, message, arguments, parameters } = details;
        let mut map = match parameters {
            Some(map) => map,
            None => ParameterMap::new(),
        };
        let text = key.to_string();
        let converted: ParameterValue = value.into();
        let ghost under = text;
        let ghost put = converted;
        map.insert(text, converted);
        let r = ServiceError {
            details: ErrorDetails {
                code,
                name,
                http_status,
                message,
                arguments,
                parameters: Some(map),
            },
            response_builder,
        };
        assert(vstd::string::to_string_from_display_ensures::<K>(key, under) && call_ensures(
            V::into,
            (value,),
            put,
        ) && r.details@ == self.details@.with_parameter(under@, put@));
        r
    }

    /// Puts several parameters under their keys, one after the other, the key
    /// and the value of each converted first. Of two with one key, the later
    /// one gives the value.
    pub fn parameters<K: Into<String>, V: Into<ParameterValue>>(self, params: Vec<(K, V)>) -> (r:
        Self)
        ensures
            exists|converted: Seq<(String, ParameterValue)>|
                #![trigger pair_views(converted)]
                converted_pairs(params@, converted) && r.details@
                    == self.details@.with_parameters(pair_views(converted)),
            r.response_builder == self.response_builder,
    {
        let ServiceError { details, response_builder } = self;
        let ErrorDetails { code, name, http_status, message, arguments, parameters } = details;
        let mut map = match parameters {
            Some(map) => map,
            None => ParameterMap::new(),
        };
        map.extend_from(params);
        ServiceError {
            details: ErrorDetails {
                code,
                name,
                http_status,
                message,
                arguments,
                parameters: Some(map),
            },
            response_builder,
        }
    }

    /// Attaches a builder, in the place of any that was attached before.
    pub fn with_response_builder<B: ResponseBuilder>(self, builder: B) -> (r: ServiceError<'a, B>)
        ensures
            r == self.attached(builder),
    {
        ServiceError { details: self.details, response_builder: Some(builder) }
    }

    /// Whether `response` is a response that this error may be turned into
    /// while `registry` holds the default builder. The builder attached to
    /// the error decides; where there is none, the default builder of the
    /// registry; where there is none either, the plain text form.
    pub open spec fn responds_with<D: ResponseBuilder>(
        self,
        registry: BuilderRegistry<D>,
        response: Response,
    ) -> bool {
        &&& response.status == recognized_or_internal(self.details.http_status)
        &&& match self.response_builder {
            Some(builder) => call_ensures(
                R::build,
                (&builder, &self.details),
                (response.body, response.content_type),
            ),
            None => match registry.held() {
                Some(builder) => call_ensures(
                    D::build,
                    (&builder, &self.details),
                    (response.body, response.content_type),
                ),
                None => response.body@ == plain_text_body(self.details@) && response.content_type@
                    == "text/plain"@,
            },
        }
    }

    /// The response for this error: its status, or 500 where a transport
    /// would not know the status, and the body and content type made by the
    /// first of these that is there: the builder attached to the error, the
    /// default builder of the registry, the plain text form.
    pub fn into_response<D: ResponseBuilder>(self, registry: &BuilderRegistry<D>) -> (r: Response)
        ensures
            self.responds_with(*registry, r),
            100 <= r.status <= 999,
    {
        let status = crate::response::status_or_internal(self.details.http_status);
        let (body, content_type) = match &self.response_builder {
            Some(builder) => builder.build(&self.details),
            None => match registry.default_builder() {
                Some(builder) => builder.build(&self.details),
                None => PlainTextResponseBuilder::new().build(&self.details),
            },
        };
        Response { status, content_type, body }
    }
}

/// Putting several parameters in at once gives what putting them in one
/// after the other gives: one more pair at the end is one more parameter put
/// in last.
pub proof fn lemma_parameters_one_by_one(
    error: ErrorView,
    added: Seq<(Seq<char>, ValueView)>,
    key: Seq<char>,
    value: ValueView,
)
    ensures
        error.with_parameters(added.push((key, value))) == error.with_parameters(
            added,
        ).with_parameter(key, value),
        error.with_parameters(seq![(key, value)]) == error.with_parameter(key, value),
{
    reveal_with_fuel(with_entries, 2);
    assert(added.push((key, value)).drop_last() =~= added);
    assert(seq![(key, value)].drop_last() =~= Seq::<(Seq<char>, ValueView)>::empty());
}

/// A builder attached to an error decides the body and the content type of
/// its response, whatever default builder the registry holds.
pub proof fn lemma_attached_builder_decides<'a, R: ResponseBuilder, B: ResponseBuilder, D: ResponseBuilder>(
    error: ServiceError<'a, R>,
    builder: B,
    registry: BuilderRegistry<D>,
    response: Response,
)
    ensures
        error.attached(builder).responds_with(registry, response) <==> (response.status
            == recognized_or_internal(error.details.http_status) && call_ensures(
            B::build,
            (&builder, &error.details),
            (response.body, response.content_type),
        )),
{
}

/// A copy of an error does not respond through the builder that was
/// attached to the error it was made from: the default builder of the
/// registry decides, and the plain text form where the registry holds none.
pub proof fn lemma_copy_falls_through<'a, R: ResponseBuilder, B: ResponseBuilder, D: ResponseBuilder>(
    error: ServiceError<'a, R>,
    builder: B,
    copy: ServiceError<'a, B>,
    registry: BuilderRegistry<D>,
    response: Response,
)
    requires
        copy.is_copy_of(error.attached(builder)),
    ensures
        copy.details@ == error.details@,
        copy.responds_with(registry, response) <==> (response.status == recognized_or_internal(
            error.details.http_status,
        ) && match registry.held() {
            Some(default) => call_ensures(
                D::build,
                (&default, &copy.details),
                (response.body, response.content_type),
            ),
            None => response.body@ == plain_text_body(error.details@) && response.content_type@
                == "text/plain"@,
        }),
{
}

/// Once a registry holds a default builder, offering it another changes no
/// response: an error responds after the second offer as it did before.
pub proof fn lemma_second_default_changes_no_response<'a, R: ResponseBuilder, D: ResponseBuilder>(
    error: ServiceError<'a, R>,
    before: BuilderRegistry<D>,
    after: BuilderRegistry<D>,
    second: D,
    response: Response,
)
    requires
        before.held() is Some,
        after.held() == offered(before.held(), second),
    ensures
        after.held() == before.held(),
        error.responds_with(after, response) <==> error.responds_with(before, response),
{
}

/// Whether what the builder builds depends on nothing but what the error
/// says.
pub open spec fn builds_from_view<D: ResponseBuilder>(builder: D) -> bool {
    forall|
        first: ErrorDetails<'_>,
        second: ErrorDetails<'_>,
        built: (String, &'static str),
        again: (String, &'static str),
    |
        first@ == second@ && #[trigger] call_ensures(D::build, (&builder, &first), built)
            && #[trigger] call_ensures(D::build, (&builder, &second), again) ==> built.0@
            == again.0@ && built.1@ == again.1@
}

/// The plain text builder builds from nothing but what the error says.
pub proof fn lemma_plain_text_builds_from_view()
    ensures
        builds_from_view(PlainTextResponseBuilder),
{
}

/// The JSON builder builds from nothing but what the error says.
pub proof fn lemma_json_builds_from_view()
    ensures
        builds_from_view(JsonResponseBuilder),
{
}

/// A copy responds as the error it was made from would without its builder:
/// the two responses have one status, one body and one content type. This
/// holds where the default builder, if one is set, builds from nothing but
/// what the error says.
pub proof fn lemma_copy_responds_as_without_builder<'a, R: ResponseBuilder, B: ResponseBuilder, D: ResponseBuilder>(
    error: ServiceError<'a, R>,
    builder: B,
    copy: ServiceError<'a, B>,
    registry: BuilderRegistry<D>,
    from_copy: Response,
    from_bare: Response,
)
    requires
        copy.is_copy_of(error.attached(builder)),
        registry.held() matches Some(default) ==> builds_from_view(default),
        copy.responds_with(registry, from_copy),
        (ServiceError { details: error.details, response_builder: None::<R> }).responds_with(
            registry,
            from_bare,
        ),
    ensures
        from_copy.status == from_bare.status,
        from_copy.body@ == from_bare.body@,
        from_copy.content_type@ == from_bare.content_type@,
{
}

} // verus!
