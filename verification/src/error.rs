//! The error taxonomy of the pipeline.
use vstd::prelude::*;

verus! {

/// Every failure of the pipeline falls into one of these classes; the
/// payload is a human-readable description of the concrete failure.
#[derive(Debug)]
pub enum LlmError {
    /// Transport failure reaching the inference endpoint.
    NetworkError(String),
    /// Malformed or schema-nonconforming model output, or unreadable
    /// persisted JSON.
    ParseError(String),
    /// Required-path store failure: empty or missing transcript, failed
    /// final-summary write.
    FileError(String),
    /// Invalid configuration, an unsupported code path, or a busy-guard
    /// rejection.
    ConfigError(String),
    /// A call exceeded its configured deadline.
    TimeoutError(String),
    /// Failure encoding an internal structure for storage or transport.
    SerializationError(String),
}

pub type LlmResult<T> = Result<T, LlmError>;

impl LlmError {
    /// The class prefix used when the error is shown to a caller.
    pub open spec fn prefix_spec(&self) -> Seq<char> {
        match self {
            LlmError::NetworkError(_) => "Network error: "@,
            LlmError::ParseError(_) => "Parse error: "@,
            LlmError::FileError(_) => "File error: "@,
            LlmError::ConfigError(_) => "Configuration error: "@,
            LlmError::TimeoutError(_) => "Timeout error: "@,
            LlmError::SerializationError(_) => "Serialization error: "@,
        }
    }

    /// The description carried by the error.
    pub open spec fn payload_spec(&self) -> Seq<char> {
        match self {
            LlmError::NetworkError(m) => m@,
            LlmError::ParseError(m) => m@,
            LlmError::FileError(m) => m@,
            LlmError::ConfigError(m) => m@,
            LlmError::TimeoutError(m) => m@,
            LlmError::SerializationError(m) => m@,
        }
    }

    /// The full message a caller sees: the class prefix followed by the
    /// description.
    pub fn to_message(&self) -> (r: String)
        ensures
            r@ == self.prefix_spec() + self.payload_spec(),
    {
        let mut r = match self {
            LlmError::NetworkError(_) => String::from_str("Network error: "),
            LlmError::ParseError(_) => String::from_str("Parse error: "),
            LlmError::FileError(_) => String::from_str("File error: "),
            LlmError::ConfigError(_) => String::from_str("Configuration error: "),
            LlmError::TimeoutError(_) => String::from_str("Timeout error: "),
            LlmError::SerializationError(_) => String::from_str("Serialization error: "),
        };
        match self {
            LlmError::NetworkError(m) => r.append(m.as_str()),
            LlmError::ParseError(m) => r.append(m.as_str()),
            LlmError::FileError(m) => r.append(m.as_str()),
            LlmError::ConfigError(m) => r.append(m.as_str()),
            LlmError::TimeoutError(m) => r.append(m.as_str()),
            LlmError::SerializationError(m) => r.append(m.as_str()),
        }
        r
    }
}

/// Context-adding conversions from plain-`String` error results into the
/// pipeline's error classes; the context and the underlying message are
/// joined with `": "`.
pub trait IntoLlmError<T>: Sized {
    fn map_network_err(self, context: &str) -> LlmResult<T>;

    fn map_parse_err(self, context: &str) -> LlmResult<T>;

    fn map_file_err(self, context: &str) -> LlmResult<T>;

    fn map_config_err(self, context: &str) -> LlmResult<T>;

    fn map_serialization_err(self, context: &str) -> LlmResult<T>;
}

/// Joins a context and an underlying message as `"{context}: {message}"`.
pub open spec fn with_context_spec(context: Seq<char>, message: Seq<char>) -> Seq<char> {
    context + ": "@ + message
}

fn with_context(context: &str, message: &str) -> (r: String)
    ensures
        r@ == with_context_spec(context@, message@),
{
    let mut r = String::from_str(context);
    r.append(": ");
    r.append(message);
    r
}

impl<T> IntoLlmError<T> for Result<T, String> {
    fn map_network_err(self, context: &str) -> (r: LlmResult<T>)
        ensures
            self is Ok ==> r == Ok::<T, LlmError>(self->Ok_0),
            self is Err ==> (r matches Err(e) && e matches LlmError::NetworkError(m)
                && m@ == with_context_spec(context@, self->Err_0@)),
    {
        match self {
            Ok(v) => Ok(v),
            Err(e) => Err(LlmError::NetworkError(with_context(context, e.as_str()))),
        }
    }

    fn map_parse_err(self, context: &str) -> (r: LlmResult<T>)
        ensures
            self is Ok ==> r == Ok::<T, LlmError>(self->Ok_0),
            self is Err ==> (r matches Err(e) && e matches LlmError::ParseError(m)
                && m@ == with_context_spec(context@, self->Err_0@)),
    {
        match self {
            Ok(v) => Ok(v),
            Err(e) => Err(LlmError::ParseError(with_context(context, e.as_str()))),
        }
    }

    fn map_file_err(self, context: &str) -> (r: LlmResult<T>)
        ensures
            self is Ok ==> r == Ok::<T, LlmError>(self->Ok_0),
            self is Err ==> (r matches Err(e) && e matches LlmError::FileError(m)
                && m@ == with_context_spec(context@, self->Err_0@)),
    {
        match self {
            Ok(v) => Ok(v),
            Err(e) => Err(LlmError::FileError(with_context(context, e.as_str()))),
        }
    }

    fn map_config_err(self, context: &str) -> (r: LlmResult<T>)
        ensures
            self is Ok ==> r == Ok::<T, LlmError>(self->Ok_0),
            self is Err ==> (r matches Err(e) && e matches LlmError::ConfigError(m)
                && m@ == with_context_spec(context@, self->Err_0@)),
    {
        match self {
            Ok(v) => Ok(v),
            Err(e) => Err(LlmError::ConfigError(with_context(context, e.as_str()))),
        }
    }

    fn map_serialization_err(self, context: &str) -> (r: LlmResult<T>)
        ensures
            self is Ok ==> r == Ok::<T, LlmError>(self->Ok_0),
            self is Err ==> (r matches Err(e) && e matches LlmError::SerializationError(m)
                && m@ == with_context_spec(context@, self->Err_0@)),
    {
        match self {
            Ok(v) => Ok(v),
            Err(e) => Err(LlmError::SerializationError(with_context(context, e.as_str()))),
        }
    }
}

} // verus!
