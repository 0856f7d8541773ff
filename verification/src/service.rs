//! The gateway to the inference endpoint: building the request that is
//! sent, and interpreting what comes back. The one HTTP round trip itself
//! is outside the library; callers hand its outcome in as a plain value.
use vstd::prelude::*;
use vstd::string::StrSliceExecFns;
use vstd::string::StringExecFns;
use crate::config::DEFAULT_CONTEXT_SIZE;
use crate::config::api_generate_endpoint;
use crate::codec::{extract_ollama_response, ollama_response_okv, ollama_response_textv,
    lemma_ollama_response_bridge};
use crate::error::LlmError;
use crate::json::{json_str, append_json_str, parse_json, json_doc};
use crate::models::OllamaResponse;
use crate::strings::{dec_str, append_dec_u64};

verus! {

/// The output shape a generation request asks the endpoint to honor.
#[derive(Debug, Clone, Copy, PartialEq, Eq, Structural)]
pub enum SchemaKind {
    /// The per-chunk partial summary shape.
    FirstSummary,
    /// The final summary shape.
    FinalSummary,
}

/// One generation call, ready to be performed: where to send it and what
/// to send. When `schema` is set, the body still needs the corresponding
/// output-shape constraint attached as its `format` field; the merged
/// prompt is carried alongside so the caller can rebuild the body with
/// that constraint via `build_request_body`.
pub struct LlmRequest {
    pub url: String,
    pub prompt: String,
    pub body: String,
    pub schema: Option<SchemaKind>,
}

/// The merged prompt field: the system and user prompts in one string.
pub open spec fn merged_prompt_spec(system_prompt: Seq<char>, user_prompt: Seq<char>) -> Seq<char> {
    "System: "@ + system_prompt + "\nUser: "@ + user_prompt
}

/// The request body, minus any `format` field: model, merged prompt, no
/// streaming, and the default context window.
pub open spec fn request_body_spec(
    model: Seq<char>,
    prompt: Seq<char>,
    format_json: Option<Seq<char>>,
) -> Seq<char> {
    "{\"model\":"@ + json_str(model) + ",\"prompt\":"@ + json_str(prompt) + ",\"stream\":false"@
        + ",\"num_ctx\":"@ + dec_str(DEFAULT_CONTEXT_SIZE as nat) + (match format_json {
        None => Seq::<char>::empty(),
        Some(f) => ",\"format\":"@ + f,
    }) + "}"@
}

/// Issues schema-constrained generation calls against one configured
/// endpoint and model.
pub struct LlmService {
    pub base_url: String,
    pub model: String,
}

impl LlmService {
    /// A service for the given endpoint base URL and model name.
    pub fn new(base_url: String, model: String) -> (r: Self)
        ensures
            r.base_url == base_url,
            r.model == model,
    {
        LlmService { base_url, model }
    }

    /// The URL of the endpoint's generation route.
    pub fn request_url(&self) -> (r: String)
        ensures
            r@ == self.base_url@ + "/api/generate"@,
    {
        let mut r = self.base_url.clone();
        r.append(api_generate_endpoint());
        r
    }

    /// Merges a system prompt and a user prompt into the single prompt
    /// field the endpoint takes.
    pub fn build_prompt(system_prompt: &str, user_prompt: &str) -> (r: String)
        ensures
            r@ == merged_prompt_spec(system_prompt@, user_prompt@),
    {
        let mut r = String::from_str("System: ");
        r.append(system_prompt);
        r.append("\nUser: ");
        r.append(user_prompt);
        r
    }

    /// Builds the JSON request body. `format_json`, when given, is the
    /// output-shape constraint to attach verbatim as the `format` field;
    /// it must itself be a JSON document.
    pub fn build_request_body(&self, prompt: &str, format_json: Option<&str>) -> (r: String)
        ensures
            r@ == request_body_spec(
                self.model@,
                prompt@,
                match format_json {
                    None => None,
                    Some(f) => Some(f@),
                },
            ),
    {
        let mut out = String::from_str("{\"model\":");
        append_json_str(&mut out, self.model.as_str());
        out.append(",\"prompt\":");
        append_json_str(&mut out, prompt);
        out.append(",\"stream\":false");
        out.append(",\"num_ctx\":");
        append_dec_u64(&mut out, DEFAULT_CONTEXT_SIZE as u64);
        match format_json {
            None => {},
            Some(f) => {
                out.append(",\"format\":");
                out.append(f);
            },
        }
        out.append("}");
        proof {
            assert(out@ =~= request_body_spec(
                self.model@,
                prompt@,
                match format_json {
                    None => None,
                    Some(f) => Some(f@),
                },
            ));
        }
        out
    }

    /// The whole request for one generation call: URL, body, and the
    /// output shape the body still needs attached when one was asked for.
    pub fn build_request(
        &self,
        system_prompt: &str,
        user_prompt: &str,
        schema: Option<SchemaKind>,
    ) -> (r: LlmRequest)
        ensures
            r.url@ == self.base_url@ + "/api/generate"@,
            r.prompt@ == merged_prompt_spec(system_prompt@, user_prompt@),
            r.body@ == request_body_spec(
                self.model@,
                merged_prompt_spec(system_prompt@, user_prompt@),
                None,
            ),
            r.schema == schema,
    {
        let prompt = Self::build_prompt(system_prompt, user_prompt);
        let body = self.build_request_body(prompt.as_str(), None);
        LlmRequest { url: self.request_url(), prompt, body, schema }
    }

    /// Interprets the outcome of the one HTTP round trip: a transport
    /// failure becomes a `NetworkError`; a body that is not a well-shaped
    /// generation response becomes a `ParseError`; otherwise the generated
    /// text — exactly the `response` field of the body's denoted tree —
    /// is returned.
    pub fn interpret_response(outcome: Result<String, String>) -> (r: Result<String, LlmError>)
        ensures
            outcome matches Err(m) ==> (r matches Err(e) && e matches LlmError::NetworkError(msg)
                && msg@ == "Failed to send request to Ollama: "@ + m@),
            outcome is Ok && r is Err ==> (r->Err_0 matches LlmError::ParseError(_)),
            outcome matches Ok(body) ==> (r is Ok <==> (json_doc(body@) matches Some(bv)
                && ollama_response_okv(bv))),
            outcome matches Ok(body) ==> (r matches Ok(t) ==> t@ == ollama_response_textv(
                json_doc(body@)->Some_0,
            )),
    {
        let body = match outcome {
            Ok(b) => b,
            Err(m) => {
                let mut msg = String::from_str("Failed to send request to Ollama: ");
                msg.append(m.as_str());
                return Err(LlmError::NetworkError(msg));
            },
        };
        let tree = match parse_json(body.as_str()) {
            Ok(t) => t,
            Err(m) => {
                let mut msg = String::from_str("Failed to parse Ollama response: ");
                msg.append(m.as_str());
                return Err(LlmError::ParseError(msg));
            },
        };
        let parsed: OllamaResponse = match extract_ollama_response(&tree) {
            Ok(p) => p,
            Err(m) => {
                proof {
                    lemma_ollama_response_bridge(tree, vstd::pervasive::arbitrary());
                }
                let mut msg = String::from_str("Failed to parse Ollama response: ");
                msg.append(m.as_str());
                return Err(LlmError::ParseError(msg));
            },
        };
        proof {
            lemma_ollama_response_bridge(tree, parsed);
        }
        Ok(parsed.response)
    }
}

} // verus!
