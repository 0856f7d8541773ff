//! A verified meeting-summarization pipeline: transcript chunking at natural
//! boundaries, schema-constrained structured extraction per chunk with an
//! evolving key-facts state, a mechanical merge of the partial summaries, and
//! a final synthesis step, together with the single-flight guard and the
//! progress and error model around them.
pub mod config;
pub mod artifacts;
pub mod codec;
pub mod error;
pub mod json;
pub mod models;
pub mod performance;
pub mod progress;
pub mod prompts;
pub mod service;
pub mod strings;
pub mod summary;
pub mod text_processing;
pub mod utils;

pub use config::LlmConfig;
pub use error::{LlmError, LlmResult};
pub use models::{Attendee, KeyFact, Topic, ToDo, FirstSummaryFormat, Title, FinalSummaryFormat,
    OllamaResponse, MeetingToMarkdown};
pub use prompts::{Language, PromptManager};
pub use service::LlmService;
pub use summary::SummaryGenerator;
