//! Structured service errors: a typed error record with a code, a name, a
//! status, a templated message and free-form parameters, and the builders
//! that turn it into a response.
//!
//! An error is made with `ServiceError::new` and filled in with `bind`,
//! `parameter`, `parameters` and `with_response_builder`, each of which takes
//! the error and hands it back. `into_response` then gives the status, the
//! content type and the body to send: the builder attached to the error
//! decides, else the default builder of the registry, else plain text.
//!
//! - `text`: decimal numerals, joining, replacing, message templates
//! - `value`: parameter values and the map that holds them by key
//! - `convert`, `builders`, `equality`: making and comparing values
//! - `json`: the JSON text of values and errors
//! - `error`: the error record
//! - `response`: responses, the builders for them, the registry

pub mod builders;
pub mod convert;
pub mod equality;
pub mod error;
pub mod json;
pub mod response;
pub mod text;
pub mod value;

pub use builders::{ArrayBuilder, ObjectBuilder};
pub use error::{ErrorDetails, ErrorView, ServiceError};
pub use response::{
    set_default_response_builder, BuilderRegistry, JsonResponseBuilder, PlainTextResponseBuilder,
    Response, ResponseBuilder,
};
pub use value::{FloatValue, FloatView, ParameterMap, ParameterValue, ValueView};
