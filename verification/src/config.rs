//! Pipeline configuration and its validation rules.
use vstd::prelude::*;
use vstd::string::StrSliceExecFns;
use vstd::string::StringExecFns;

verus! {

/// The context window size requested from the inference endpoint.
pub const DEFAULT_CONTEXT_SIZE: usize = 8096;

/// The generation route of the inference endpoint, appended to the base URL.
pub fn api_generate_endpoint() -> (r: &'static str)
    ensures
        r@ == "/api/generate"@,
{
    "/api/generate"
}

/// Configuration consumed by the pipeline; `validate` must pass before use.
pub struct LlmConfig {
    pub use_external_api: bool,
    pub external_endpoint: String,
    pub external_model: String,
    pub chunk_size: usize,
    pub max_retries: u32,
    pub timeout_seconds: u64,
}

/// `p` is a prefix of `s`.
pub open spec fn starts_with(s: Seq<char>, p: Seq<char>) -> bool {
    p.len() <= s.len() && s.subrange(0, p.len() as int) == p
}

fn has_prefix(s: &str, p: &str) -> (r: bool)
    ensures
        r == starts_with(s@, p@),
{
    let n = p.unicode_len();
    if s.unicode_len() < n {
        return false;
    }
    for i in 0..n
        invariant
            n == p@.len(),
            n <= s@.len(),
            forall|j: int| 0 <= j < i ==> s@[j] == p@[j],
    {
        if s.get_char(i) != p.get_char(i) {
            proof {
                assert(s@.subrange(0, n as int)[i as int] != p@[i as int]);
            }
            return false;
        }
    }
    proof {
        assert(s@.subrange(0, n as int) =~= p@);
    }
    true
}

/// A configuration the pipeline accepts: endpoint and model nonempty, chunk
/// size in `(0, 50000]`, timeout in `(0, 3600]` seconds, and an HTTP or
/// HTTPS endpoint URL.
pub open spec fn valid_config(c: &LlmConfig) -> bool {
    &&& c.external_endpoint@.len() > 0
    &&& c.external_model@.len() > 0
    &&& 0 < c.chunk_size <= 50000
    &&& 0 < c.timeout_seconds <= 3600
    &&& (starts_with(c.external_endpoint@, "http://"@) || starts_with(
        c.external_endpoint@,
        "https://"@,
    ))
}

/// The message reported for the first violated rule, in the order the rules
/// are checked.
pub open spec fn validate_error(c: &LlmConfig) -> Seq<char> {
    if c.external_endpoint@.len() == 0 {
        "External endpoint cannot be empty"@
    } else if c.external_model@.len() == 0 {
        "External model cannot be empty"@
    } else if c.chunk_size == 0 {
        "Chunk size must be greater than 0"@
    } else if c.chunk_size > 50000 {
        "Chunk size too large (max 50,000 characters)"@
    } else if c.timeout_seconds == 0 {
        "Timeout must be greater than 0"@
    } else if c.timeout_seconds > 3600 {
        "Timeout too large (max 1 hour)"@
    } else {
        "External endpoint must be a valid HTTP/HTTPS URL"@
    }
}

impl LlmConfig {
    /// Checks every configuration rule; succeeds exactly on valid
    /// configurations, and otherwise reports the first violated rule.
    pub fn validate(&self) -> (r: Result<(), String>)
        ensures
            r is Ok <==> valid_config(self),
            r matches Err(m) ==> m@ == validate_error(self),
    {
        if self.external_endpoint.as_str().is_empty() {
            return Err(String::from_str("External endpoint cannot be empty"));
        }
        if self.external_model.as_str().is_empty() {
            return Err(String::from_str("External model cannot be empty"));
        }
        if self.chunk_size == 0 {
            return Err(String::from_str("Chunk size must be greater than 0"));
        }
        if self.chunk_size > 50000 {
            return Err(String::from_str("Chunk size too large (max 50,000 characters)"));
        }
        if self.timeout_seconds == 0 {
            return Err(String::from_str("Timeout must be greater than 0"));
        }
        if self.timeout_seconds > 3600 {
            return Err(String::from_str("Timeout too large (max 1 hour)"));
        }
        if !has_prefix(self.external_endpoint.as_str(), "http://") && !has_prefix(
            self.external_endpoint.as_str(),
            "https://",
        ) {
            return Err(String::from_str("External endpoint must be a valid HTTP/HTTPS URL"));
        }
        Ok(())
    }

    /// The same configuration with the chunk size replaced.
    pub fn with_chunk_size(self, chunk_size: usize) -> (r: Self)
        ensures
            r == (LlmConfig { chunk_size, ..self }),
    {
        LlmConfig { chunk_size, ..self }
    }

    /// The same configuration with the timeout replaced.
    pub fn with_timeout(self, timeout_seconds: u64) -> (r: Self)
        ensures
            r == (LlmConfig { timeout_seconds, ..self }),
    {
        LlmConfig { timeout_seconds, ..self }
    }

    /// The same configuration with the retry count replaced.
    pub fn with_retries(self, max_retries: u32) -> (r: Self)
        ensures
            r == (LlmConfig { max_retries, ..self }),
    {
        LlmConfig { max_retries, ..self }
    }
}

impl Clone for LlmConfig {
    /// An exact copy of the configuration.
    fn clone(&self) -> (r: Self)
        ensures
            r.use_external_api == self.use_external_api,
            r.external_endpoint@ == self.external_endpoint@,
            r.external_model@ == self.external_model@,
            r.chunk_size == self.chunk_size,
            r.max_retries == self.max_retries,
            r.timeout_seconds == self.timeout_seconds,
    {
        LlmConfig {
            use_external_api: self.use_external_api,
            external_endpoint: self.external_endpoint.clone(),
            external_model: self.external_model.clone(),
            chunk_size: self.chunk_size,
            max_retries: self.max_retries,
            timeout_seconds: self.timeout_seconds,
        }
    }
}

impl Default for LlmConfig {
    /// The reference configuration: the local endpoint, the default model,
    /// 10,000-character chunks, 3 retries, and a 120-second timeout.
    fn default() -> (r: Self)
        ensures
            r.use_external_api == true,
            r.external_endpoint@ == "http://localhost:11434"@,
            r.external_model@ == "llama3.1"@,
            r.chunk_size == 10000,
            r.max_retries == 3,
            r.timeout_seconds == 120,
    {
        LlmConfig {
            use_external_api: true,
            external_endpoint: String::from_str("http://localhost:11434"),
            external_model: String::from_str("llama3.1"),
            chunk_size: 10000,
            max_retries: 3,
            timeout_seconds: 120,
        }
    }
}

} // verus!
