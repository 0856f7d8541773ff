//! The summarization pipeline itself: the accumulation and merge rules for
//! key facts and partial summaries, the single-flight guard, and the run
//! state machine that sequences chunk extraction, the mechanical merge and
//! the final synthesis. Every model call and store write leaves the
//! library as a plain value; the caller performs it and hands the outcome
//! back.
use vstd::prelude::*;
use vstd::string::StringExecFns;
use crate::artifacts::{chunk_file_name, chunk_file_name_spec, chunk_summary_file_name,
    chunk_summary_file_name_spec, all_chunk_summaries_markdown, summary_blocks_spec};
use crate::codec::{json_of_first_summary, json_of_final_summary, first_summary_json,
    final_summary_json, extract_first_summary, extract_final_summary, first_summary_okv,
    first_summary_matchesv, final_summary_okv, final_summary_matchesv, ollama_response_okv,
    ollama_response_textv, lemma_first_summary_bridge, lemma_final_summary_bridge};
use crate::config::LlmConfig;
use crate::error::{LlmError, LlmResult};
use crate::json::{parse_json, json_doc, jview, JsonV};
use crate::models::{Attendee, KeyFact, Topic, ToDo, FirstSummaryFormat, FinalSummaryFormat,
    MeetingToMarkdown, markdown_of};
use crate::performance::elapsed_spec;
use crate::progress::{ProgressTracker, ProgressEvent, step_message_spec, completion_message_spec,
    timing_stats_message_spec};
use crate::prompts::{Language, PromptManager, chunk_prompt_spec, final_summary_prompt_spec,
    test_prompt_spec, test_user_prompt_spec};
use crate::service::{LlmService, LlmRequest, SchemaKind, merged_prompt_spec, request_body_spec};
use crate::text_processing::{split_text_into_chunks, split_spec, views_of,
    lemma_split_from_count, trimmed, trim_text};

verus! {

// ---------------------------------------------------------------------
// Key-fact accumulation and the mechanical merge.
// ---------------------------------------------------------------------
/// Some attendee in `atts` already carries this id.
pub open spec fn has_attendee_id(atts: Seq<Attendee>, id: usize) -> bool {
    exists|j: int| 0 <= j < atts.len() && atts[j].id == id
}

/// Adding one attendee: kept out if the id is already present (the
/// first-seen name wins), appended otherwise.
pub open spec fn add_attendee(acc: Seq<Attendee>, a: Attendee) -> Seq<Attendee> {
    if has_attendee_id(acc, a.id) {
        acc
    } else {
        acc.push(a)
    }
}

/// The union of two attendee lists by id: newcomers are appended in
/// encounter order, collisions keep the name already known.
pub open spec fn union_attendees(acc: Seq<Attendee>, new: Seq<Attendee>) -> Seq<Attendee>
    decreases new.len(),
{
    if new.len() == 0 {
        acc
    } else {
        union_attendees(add_attendee(acc, new[0]), new.drop_first())
    }
}

/// The attendee sequence an optional attendee vector holds.
pub open spec fn opt_atts_view(o: Option<Vec<Attendee>>) -> Option<Seq<Attendee>> {
    match o {
        None => None,
        Some(v) => Some(v@),
    }
}

/// Merging attendee lists across updates: nothing incoming keeps the
/// accumulator; the first incoming list is taken whole; later lists are
/// unioned by id.
pub open spec fn merged_attendees(
    acc: Option<Seq<Attendee>>,
    inc: Option<Seq<Attendee>>,
) -> Option<Seq<Attendee>> {
    match inc {
        None => acc,
        Some(v) => match acc {
            None => Some(v),
            Some(a) => Some(union_attendees(a, v)),
        },
    }
}

/// Last-non-null-wins for a nullable scalar.
pub open spec fn last_some<T>(acc: Option<T>, inc: Option<T>) -> Option<T> {
    if inc is Some {
        inc
    } else {
        acc
    }
}

/// `k` is exactly the key facts obtained by folding `inc` into `acc`:
/// scalars by last-non-null-wins, attendees by id union.
pub open spec fn key_facts_merged(k: KeyFact, acc: KeyFact, inc: KeyFact) -> bool {
    &&& k.responisible_for_moderation == last_some(
        acc.responisible_for_moderation,
        inc.responisible_for_moderation,
    )
    &&& k.responisible_for_protocol == last_some(
        acc.responisible_for_protocol,
        inc.responisible_for_protocol,
    )
    &&& k.responisible_for_timekeeping == last_some(
        acc.responisible_for_timekeeping,
        inc.responisible_for_timekeeping,
    )
    &&& opt_atts_view(k.attendees) == merged_attendees(
        opt_atts_view(acc.attendees),
        opt_atts_view(inc.attendees),
    )
}

/// The last non-null value of a scalar selected by `f` over the fold
/// order.
pub open spec fn combined_scalar(
    s: Seq<FirstSummaryFormat>,
    f: spec_fn(FirstSummaryFormat) -> Option<String>,
) -> Option<String>
    decreases s.len(),
{
    if s.len() == 0 {
        None
    } else {
        last_some(combined_scalar(s.drop_last(), f), f(s.last()))
    }
}

/// The attendee union over the fold order.
pub open spec fn combined_attendees(s: Seq<FirstSummaryFormat>) -> Option<Seq<Attendee>>
    decreases s.len(),
{
    if s.len() == 0 {
        None
    } else {
        merged_attendees(
            combined_attendees(s.drop_last()),
            opt_atts_view(s.last().key_facts.attendees),
        )
    }
}

/// The straight concatenation of every summary's topics in order.
pub open spec fn combined_topics(s: Seq<FirstSummaryFormat>) -> Seq<Topic>
    decreases s.len(),
{
    if s.len() == 0 {
        Seq::empty()
    } else {
        combined_topics(s.drop_last()) + s.last().topics@
    }
}

/// The to-do sequence an optional to-do vector holds.
pub open spec fn opt_todos_view(o: Option<Vec<ToDo>>) -> Option<Seq<ToDo>> {
    match o {
        None => None,
        Some(v) => Some(v@),
    }
}

/// Concatenated to-dos, present only if at least one input had any.
pub open spec fn merged_todos(
    acc: Option<Seq<ToDo>>,
    inc: Option<Seq<ToDo>>,
) -> Option<Seq<ToDo>> {
    match inc {
        None => acc,
        Some(t) => match acc {
            None => Some(t),
            Some(a) => Some(a + t),
        },
    }
}

/// The to-do concatenation over the fold order.
pub open spec fn combined_todos(s: Seq<FirstSummaryFormat>) -> Option<Seq<ToDo>>
    decreases s.len(),
{
    if s.len() == 0 {
        None
    } else {
        merged_todos(combined_todos(s.drop_last()), opt_todos_view(s.last().todos))
    }
}

/// `c` is exactly the mechanical merge of the ordered partial summaries
/// `s`: key-fact scalars by last-non-null-wins, attendees unioned by id
/// with the first-seen name kept, topics and to-dos concatenated in chunk
/// order with no semantic deduplication.
pub open spec fn combine_matches(s: Seq<FirstSummaryFormat>, c: FirstSummaryFormat) -> bool {
    &&& c.key_facts.responisible_for_moderation == combined_scalar(
        s,
        |x: FirstSummaryFormat| x.key_facts.responisible_for_moderation,
    )
    &&& c.key_facts.responisible_for_protocol == combined_scalar(
        s,
        |x: FirstSummaryFormat| x.key_facts.responisible_for_protocol,
    )
    &&& c.key_facts.responisible_for_timekeeping == combined_scalar(
        s,
        |x: FirstSummaryFormat| x.key_facts.responisible_for_timekeeping,
    )
    &&& opt_atts_view(c.key_facts.attendees) == combined_attendees(s)
    &&& c.topics@ == combined_topics(s)
    &&& opt_todos_view(c.todos) == combined_todos(s)
}

fn has_attendee(v: &Vec<Attendee>, id: usize) -> (r: bool)
    ensures
        r == has_attendee_id(v@, id),
{
    let mut i: usize = 0;
    while i < v.len()
        invariant
            i <= v@.len(),
            forall|j: int| 0 <= j < i ==> (#[trigger] v@[j]).id != id,
        decreases v@.len() - i,
    {
        if v[i].id == id {
            return true;
        }
        i = i + 1;
    }
    false
}

fn clone_attendees(v: &Vec<Attendee>) -> (r: Vec<Attendee>)
    ensures
        r@ == v@,
{
    let mut r: Vec<Attendee> = Vec::new();
    let mut i: usize = 0;
    while i < v.len()
        invariant
            i <= v@.len(),
            r@.len() == i,
            forall|j: int| 0 <= j < i ==> r@[j] == v@[j],
        decreases v@.len() - i,
    {
        let a = &v[i];
        r.push(Attendee { id: a.id, name: a.name.clone() });
        i = i + 1;
    }
    proof {
        assert(r@ =~= v@);
    }
    r
}

fn union_attendee_vecs(acc: Vec<Attendee>, inc: &Vec<Attendee>) -> (r: Vec<Attendee>)
    ensures
        r@ == union_attendees(acc@, inc@),
{
    let mut r = acc;
    let mut i: usize = 0;
    proof {
        assert(inc@.skip(0) =~= inc@);
    }
    while i < inc.len()
        invariant
            i <= inc@.len(),
            union_attendees(r@, inc@.skip(i as int)) == union_attendees(acc@, inc@),
        decreases inc@.len() - i,
    {
        proof {
            assert(inc@.skip(i as int)[0] == inc@[i as int]);
            assert(inc@.skip(i as int).drop_first() =~= inc@.skip(i as int + 1));
        }
        let a = &inc[i];
        if !has_attendee(&r, a.id) {
            r.push(Attendee { id: a.id, name: a.name.clone() });
            proof {
                assert(Attendee { id: a.id, name: a.name } == inc@[i as int]);
            }
        }
        i = i + 1;
    }
    proof {
        assert(inc@.skip(inc@.len() as int) =~= Seq::<Attendee>::empty());
    }
    r
}

// ---------------------------------------------------------------------
// The single-flight guard.
// ---------------------------------------------------------------------
/// What the guard knows: the meeting id of the run in flight, if any.
pub open spec fn guard_view(g: &SummarizationGuard) -> Option<Seq<char>> {
    match g.currently_summarizing {
        None => None,
        Some(ref s) => Some(s@),
    }
}

/// A new run may begin only while none is in flight.
pub open spec fn begin_allowed(v: Option<Seq<char>>) -> bool {
    v is None
}

/// What the guard holds after a begin: the new run's id if the guard was
/// idle, the old run untouched otherwise.
pub open spec fn begin_next(v: Option<Seq<char>>, id: Seq<char>) -> Option<Seq<char>> {
    if v is None {
        Some(id)
    } else {
        v
    }
}

/// What the guard holds after a finish: nothing in flight.
pub open spec fn finish_next(v: Option<Seq<char>>) -> Option<Seq<char>> {
    None
}

/// The process-wide "currently summarizing" marker. Checking and setting
/// it is one operation with no step in between, so two near-simultaneous
/// requests can never both observe an idle guard; the caller keeps the
/// guard behind its one mutual-exclusion primitive.
pub struct SummarizationGuard {
    pub currently_summarizing: Option<String>,
}

impl SummarizationGuard {
    /// An idle guard.
    pub fn new() -> (r: Self)
        ensures
            guard_view(&r) is None,
    {
        SummarizationGuard { currently_summarizing: None }
    }

    /// The meeting id of the run in flight, if any.
    pub fn current(&self) -> (r: &Option<String>)
        ensures
            r == &self.currently_summarizing,
    {
        &self.currently_summarizing
    }

    /// The atomic check-and-set: succeeds and records the meeting id only
    /// when nothing is in flight; a busy guard rejects the request
    /// immediately, whatever meeting it names, and keeps its state.
    pub fn try_begin(&mut self, meeting_id: &str) -> (r: LlmResult<()>)
        ensures
            guard_view(final(self)) == begin_next(guard_view(old(self)), meeting_id@),
            r is Ok <==> begin_allowed(guard_view(old(self))),
            r matches Err(e) ==> (e matches LlmError::ConfigError(m) && m@
                == "Another summarization is running"@),
    {
        if self.currently_summarizing.is_some() {
            return Err(
                LlmError::ConfigError(String::from_str("Another summarization is running")),
            );
        }
        self.currently_summarizing = Some(String::from_str(meeting_id));
        Ok(())
    }

    /// Clears the marker; every exit path of a run ends here.
    pub fn finish(&mut self)
        ensures
            guard_view(final(self)) == finish_next(guard_view(old(self))),
    {
        self.currently_summarizing = None;
    }
}

/// Single-flight: from an idle guard, a first begin is allowed; while that
/// run is in flight a second begin is rejected whatever meeting id it
/// names; and once the run finishes — however it ended — a new begin is
/// allowed again.
pub proof fn lemma_single_flight(v: Option<Seq<char>>, id1: Seq<char>, id2: Seq<char>)
    requires
        begin_allowed(v),
    ensures
        !begin_allowed(begin_next(v, id1)),
        begin_next(begin_next(v, id1), id2) == begin_next(v, id1),
        begin_allowed(finish_next(begin_next(v, id1))),
{
}

// ---------------------------------------------------------------------
// The run state machine.
// ---------------------------------------------------------------------
/// A transcript longer than this many characters takes the chunked path;
/// anything at or below it is synthesized directly.
pub const LONG_TRANSCRIPT_THRESHOLD: usize = 10000;

/// Key facts with nothing known yet.
pub open spec fn empty_key_facts_spec() -> KeyFact {
    KeyFact {
        responisible_for_moderation: None,
        responisible_for_protocol: None,
        responisible_for_timekeeping: None,
        attendees: None,
    }
}

fn empty_key_facts() -> (r: KeyFact)
    ensures
        r == empty_key_facts_spec(),
{
    KeyFact {
        responisible_for_moderation: None,
        responisible_for_protocol: None,
        responisible_for_timekeeping: None,
        attendees: None,
    }
}

/// Where a run stands.
pub enum Phase {
    /// Nothing begun.
    Idle,
    /// Per-chunk extraction: the next chunk's model call is outstanding.
    Chunking,
    /// The final-synthesis model call is outstanding.
    FinalPending,
    /// The direct single-call synthesis of a short transcript is
    /// outstanding.
    DirectPending,
    /// The final summary is in hand.
    Done,
    /// The run aborted; the error went to the caller.
    Failed,
}

/// One instruction to the caller: an emission to the progress sink, a
/// console line, or a store write. Chunk artifacts are best-effort — a
/// failed write is logged and swallowed; the final summary and the
/// meeting title are required writes whose failure is fatal.
pub enum Action {
    /// Deliver an event to the progress sink (fire-and-forget).
    Emit(ProgressEvent),
    /// Write a console line.
    Log(String),
    /// Write one chunk's raw text (best-effort).
    SaveChunk { index: usize, file_name: String, text: String },
    /// Write one chunk's summary document (best-effort).
    SaveChunkSummary { index: usize, file_name: String, json: String },
    /// Write the collected chunk-summaries document (best-effort).
    SaveAllChunkSummaries { content: String },
    /// Write the final summary, rendered and structured (required).
    SaveFinalSummary { markdown: String, json: String },
    /// Record the derived meeting title (required).
    SaveMeetingTitle { title: String },
}

/// The step message announcing one chunk: `"Summarizing chunk {i} of {n}"`
/// (one-based).
pub open spec fn chunk_step_text_spec(i: nat, n: nat) -> Seq<char> {
    "Summarizing chunk "@ + crate::strings::dec_str(i) + " of "@ + crate::strings::dec_str(n)
}

fn chunk_step_text(i: usize, n: usize) -> (r: String)
    requires
        i < usize::MAX,
    ensures
        r@ == chunk_step_text_spec((i + 1) as nat, n as nat),
{
    let mut msg = String::from_str("Summarizing chunk ");
    crate::strings::append_dec_u64(&mut msg, (i + 1) as u64);
    msg.append(" of ");
    crate::strings::append_dec_u64(&mut msg, n as u64);
    proof {
        assert(msg@ =~= chunk_step_text_spec((i + 1) as nat, n as nat));
    }
    msg
}

/// Drives one summarization run: owns the chunking, the evolving key
/// facts, the partial summaries and the request sequencing; every model
/// call and store write is handed out as a value and its outcome handed
/// back in.
pub struct SummaryGenerator {
    pub language: Language,
    pub service: LlmService,
    pub chunk_size: usize,
    pub phase: Phase,
    pub progress: ProgressTracker,
    pub chunks: Vec<String>,
    pub next_chunk: usize,
    pub key_facts: KeyFact,
    pub chunk_summaries: Vec<FirstSummaryFormat>,
    pub chunk_times: Vec<u64>,
    pub run_start_ms: u64,
    pub step_start_ms: u64,
    pub regenerating: bool,
    pub result: Option<FinalSummaryFormat>,
}

impl SummaryGenerator {
    /// What holds of a well-formed session between steps.
    pub open spec fn wf(&self) -> bool {
        &&& self.chunk_size >= 1
        &&& (self.phase is Chunking ==> {
            &&& self.next_chunk < self.chunks@.len()
            &&& self.chunks@.len() < usize::MAX
            &&& self.progress.total_steps == self.chunks@.len() + 1
            &&& self.progress.current_step == self.next_chunk + 1
            &&& self.chunk_summaries@.len() == self.next_chunk
            &&& self.chunk_times@.len() == self.next_chunk
        })
    }

    /// A fresh, idle session against the configured endpoint and model,
    /// chunking at the configured size.
    pub fn new(language: Language, config: &LlmConfig) -> (r: Self)
        requires
            config.chunk_size >= 1,
        ensures
            r.language == language,
            r.service.base_url@ == config.external_endpoint@,
            r.service.model@ == config.external_model@,
            r.chunk_size == config.chunk_size,
            r.phase is Idle,
            r.result is None,
            r.wf(),
    {
        SummaryGenerator {
            language,
            service: LlmService::new(
                config.external_endpoint.clone(),
                config.external_model.clone(),
            ),
            chunk_size: config.chunk_size,
            phase: Phase::Idle,
            progress: ProgressTracker::new(0),
            chunks: Vec::new(),
            next_chunk: 0,
            key_facts: empty_key_facts(),
            chunk_summaries: Vec::new(),
            chunk_times: Vec::new(),
            run_start_ms: 0,
            step_start_ms: 0,
            regenerating: false,
            result: None,
        }
    }

    /// Folds one chunk's key facts into the running key facts: the three
    /// role scalars by last-non-null-wins, attendees unioned by id with
    /// the first-seen name kept and new ids appended in encounter order.
    pub fn update_key_facts(&self, key_facts: &mut KeyFact, chunk_summary: &FirstSummaryFormat)
        ensures
            key_facts_merged(*final(key_facts), *old(key_facts), chunk_summary.key_facts),
    {
        match &chunk_summary.key_facts.responisible_for_moderation {
            Some(moderation) => {
                key_facts.responisible_for_moderation = Some(moderation.clone());
            },
            None => {},
        }
        match &chunk_summary.key_facts.responisible_for_protocol {
            Some(protocol) => {
                key_facts.responisible_for_protocol = Some(protocol.clone());
            },
            None => {},
        }
        match &chunk_summary.key_facts.responisible_for_timekeeping {
            Some(timekeeping) => {
                key_facts.responisible_for_timekeeping = Some(timekeeping.clone());
            },
            None => {},
        }
        match &chunk_summary.key_facts.attendees {
            Some(attendees) => {
                let acc = key_facts.attendees.take();
                match acc {
                    None => {
                        key_facts.attendees = Some(clone_attendees(attendees));
                    },
                    Some(existing) => {
                        key_facts.attendees = Some(union_attendee_vecs(existing, attendees));
                    },
                }
            },
            None => {},
        }
    }

    /// The stateless mechanical merge: a left fold of the ordered partial
    /// summaries into one, with no semantic deduplication — scalars by
    /// last-non-null-wins, attendees unioned by id, topics and to-dos
    /// concatenated in chunk order.
    pub fn combine_structured_first_summaries(&self, summaries: Vec<FirstSummaryFormat>) -> (r:
        FirstSummaryFormat)
        ensures
            combine_matches(summaries@, r),
    {
        let ghost orig = summaries@;
        let mut rest = summaries;
        let mut combined = FirstSummaryFormat {
            key_facts: empty_key_facts(),
            topics: Vec::new(),
            todos: None,
        };
        let ghost done = Seq::<FirstSummaryFormat>::empty();
        proof {
            assert(done + rest@ =~= orig);
        }
        while rest.len() > 0
            invariant
                done + rest@ == orig,
                combined.key_facts.responisible_for_moderation == combined_scalar(
                    done,
                    |x: FirstSummaryFormat| x.key_facts.responisible_for_moderation,
                ),
                combined.key_facts.responisible_for_protocol == combined_scalar(
                    done,
                    |x: FirstSummaryFormat| x.key_facts.responisible_for_protocol,
                ),
                combined.key_facts.responisible_for_timekeeping == combined_scalar(
                    done,
                    |x: FirstSummaryFormat| x.key_facts.responisible_for_timekeeping,
                ),
                opt_atts_view(combined.key_facts.attendees) == combined_attendees(done),
                combined.topics@ == combined_topics(done),
                opt_todos_view(combined.todos) == combined_todos(done),
            decreases rest@.len(),
        {
            let summary = rest.remove(0);
            let ghost done2 = done.push(summary);
            proof {
                assert(done2.drop_last() =~= done);
                assert(done2.last() == summary);
            }
            let FirstSummaryFormat { key_facts, topics: mut new_topics, todos: new_todos } =
                summary;
            match key_facts.responisible_for_moderation {
                Some(moderation) => {
                    combined.key_facts.responisible_for_moderation = Some(moderation);
                },
                None => {},
            }
            match key_facts.responisible_for_protocol {
                Some(protocol) => {
                    combined.key_facts.responisible_for_protocol = Some(protocol);
                },
                None => {},
            }
            match key_facts.responisible_for_timekeeping {
                Some(timekeeping) => {
                    combined.key_facts.responisible_for_timekeeping = Some(timekeeping);
                },
                None => {},
            }
            match key_facts.attendees {
                Some(attendees) => {
                    let acc = combined.key_facts.attendees.take();
                    match acc {
                        None => {
                            combined.key_facts.attendees = Some(attendees);
                        },
                        Some(existing) => {
                            combined.key_facts.attendees = Some(
                                union_attendee_vecs(existing, &attendees),
                            );
                        },
                    }
                },
                None => {},
            }
            combined.topics.append(&mut new_topics);
            match new_todos {
                Some(mut todos) => {
                    let acc = combined.todos.take();
                    match acc {
                        None => {
                            combined.todos = Some(todos);
                        },
                        Some(mut existing) => {
                            existing.append(&mut todos);
                            combined.todos = Some(existing);
                        },
                    }
                },
                None => {},
            }
            proof {
                done = done2;
                assert(done + rest@ =~= orig);
            }
        }
        proof {
            assert(done =~= orig);
        }
        combined
    }
}

/// A conforming reply to the outstanding call: the HTTP round trip
/// yielded a body, the body denotes a well-shaped generation response,
/// and the generated text inside it denotes a document of the expected
/// shape — the final-summary shape when `want_final`, the
/// partial-summary shape otherwise.
pub open spec fn reply_conforms(outcome: Result<String, String>, want_final: bool) -> bool {
    &&& outcome matches Ok(body)
    &&& json_doc(body@) matches Some(bv)
    &&& ollama_response_okv(bv)
    &&& json_doc(ollama_response_textv(bv)) matches Some(jv)
    &&& if want_final {
        final_summary_okv(jv)
    } else {
        first_summary_okv(jv)
    }
}

/// The document a conforming reply's generated text denotes.
pub open spec fn reply_payload(outcome: Result<String, String>) -> JsonV {
    json_doc(ollama_response_textv(json_doc(outcome->Ok_0@)->Some_0))->Some_0
}

impl SummaryGenerator {
    /// Starts a run on a fetched transcript. An empty transcript is a
    /// fatal `FileError`. A transcript above the length threshold takes
    /// the chunked path: it is split at the configured chunk size and the
    /// first chunk's extraction call is handed out. One at or below the
    /// threshold takes the direct path: one final-synthesis call on the
    /// raw transcript.
    pub fn begin(&mut self, meeting_id: &str, transcript: &str, now_ms: u64) -> (r: LlmResult<
        (Vec<Action>, LlmRequest),
    >)
        requires
            old(self).wf(),
            old(self).phase is Idle,
            transcript@.len() < usize::MAX,
        ensures
            final(self).wf(),
            final(self).language == old(self).language,
            final(self).service == old(self).service,
            final(self).chunk_size == old(self).chunk_size,
            r is Ok <==> transcript@.len() > 0,
            transcript@.len() == 0 ==> (final(self).phase is Failed && (r matches Err(e)
                && e matches LlmError::FileError(m) && m@ == "No transcript to summarize"@)),
            transcript@.len() > LONG_TRANSCRIPT_THRESHOLD ==> (r matches Ok(o) && {
                &&& final(self).phase is Chunking
                &&& views_of(final(self).chunks@) == split_spec(
                    transcript@,
                    old(self).chunk_size as int,
                )
                &&& final(self).next_chunk == 0
                &&& final(self).key_facts == empty_key_facts_spec()
                &&& final(self).chunk_summaries@.len() == 0
                &&& final(self).run_start_ms == now_ms
                &&& !final(self).regenerating
                &&& o.1.schema == Some(SchemaKind::FirstSummary)
                &&& o.1.url@ == old(self).service.base_url@ + "/api/generate"@
                &&& o.1.body@ == request_body_spec(
                    old(self).service.model@,
                    merged_prompt_spec(
                        chunk_prompt_spec(old(self).language, Some(empty_key_facts_spec())),
                        final(self).chunks@[0]@,
                    ),
                    None,
                )
                &&& o.0@.len() == 5
                &&& (o.0@[0] matches Action::Emit(e0) && e0 matches ProgressEvent::StatusMessage(
                    m0,
                ) && m0@ == "📄 Transcript is long, splitting into chunks for processing..."@)
                &&& (o.0@[1] matches Action::Emit(e1)
                    && e1 matches ProgressEvent::SummarizationStarted(m1) && m1@ == meeting_id@)
                &&& (o.0@[2] matches Action::Emit(e2) && e2 == ProgressEvent::ChunkStart(
                    final(self).progress.total_steps,
                ))
                &&& final(self).progress.total_steps == final(self).chunks@.len() + 1
                &&& (o.0@[3] matches Action::Emit(e3) && e3 == ProgressEvent::ChunkProgress(0))
                &&& (o.0@[4] matches Action::Emit(e4) && e4 matches ProgressEvent::StatusMessage(
                    m4,
                ) && m4@ == step_message_spec(
                    1,
                    (final(self).chunks@.len() + 1) as nat,
                    chunk_step_text_spec(1, final(self).chunks@.len() as nat),
                ))
            }),
            0 < transcript@.len() <= LONG_TRANSCRIPT_THRESHOLD ==> (r matches Ok(o) && {
                &&& final(self).phase is DirectPending
                &&& final(self).run_start_ms == now_ms
                &&& !final(self).regenerating
                &&& o.1.schema == Some(SchemaKind::FinalSummary)
                &&& o.1.url@ == old(self).service.base_url@ + "/api/generate"@
                &&& o.1.body@ == request_body_spec(
                    old(self).service.model@,
                    merged_prompt_spec(
                        final_summary_prompt_spec(old(self).language),
                        transcript@,
                    ),
                    None,
                )
                &&& o.0@.len() == 4
                &&& (o.0@[0] matches Action::Emit(e0)
                    && e0 matches ProgressEvent::SummarizationStarted(m0) && m0@ == meeting_id@)
                &&& (o.0@[1] matches Action::Emit(e1) && e1 == ProgressEvent::ChunkStart(1))
                &&& (o.0@[2] matches Action::Emit(e2) && e2 == ProgressEvent::ChunkProgress(0))
                &&& (o.0@[3] matches Action::Emit(e3) && e3 matches ProgressEvent::StatusMessage(
                    m3,
                ) && m3@ == step_message_spec(1, 1, "Generating final summary"@))
            }),
    {
        let n_chars = transcript.unicode_len();
        if n_chars == 0 {
            self.phase = Phase::Failed;
            return Err(LlmError::FileError(String::from_str("No transcript to summarize")));
        }
        self.run_start_ms = now_ms;
        self.step_start_ms = now_ms;
        self.regenerating = false;
        self.result = None;
        if n_chars > LONG_TRANSCRIPT_THRESHOLD {
            let chunks = split_text_into_chunks(transcript, self.chunk_size);
            proof {
                if transcript@.len() > self.chunk_size {
                    lemma_split_from_count(transcript@, self.chunk_size as int, 0);
                }
                assert(views_of(chunks@).len() == chunks@.len());
            }
            let n = chunks.len();
            let total = n + 1;
            self.chunks = chunks;
            self.next_chunk = 0;
            self.key_facts = empty_key_facts();
            self.chunk_summaries = Vec::new();
            self.chunk_times = Vec::new();
            self.progress = ProgressTracker::new(total);
            let mut actions: Vec<Action> = Vec::new();
            actions.push(
                Action::Emit(
                    ProgressEvent::StatusMessage(
                        String::from_str(
                            "📄 Transcript is long, splitting into chunks for processing...",
                        ),
                    ),
                ),
            );
            let mut evs = self.progress.start_summarization(meeting_id);
            let e1 = evs.remove(0);
            let e2 = evs.remove(0);
            actions.push(Action::Emit(e1));
            actions.push(Action::Emit(e2));
            let step_text = chunk_step_text(0, n);
            let mut sevs = self.progress.update_progress(step_text.as_str());
            let s1 = sevs.remove(0);
            let s2 = sevs.remove(0);
            actions.push(Action::Emit(s1));
            actions.push(Action::Emit(s2));
            let sys = PromptManager::chunk_summarization(&self.language, Some(&self.key_facts));
            let req = self.service.build_request(
                sys.as_str(),
                self.chunks[0].as_str(),
                Some(SchemaKind::FirstSummary),
            );
            self.phase = Phase::Chunking;
            Ok((actions, req))
        } else {
            self.progress = ProgressTracker::new(1);
            let mut actions: Vec<Action> = Vec::new();
            let mut evs = self.progress.start_summarization(meeting_id);
            let e1 = evs.remove(0);
            let e2 = evs.remove(0);
            actions.push(Action::Emit(e1));
            actions.push(Action::Emit(e2));
            let mut sevs = self.progress.update_progress("Generating final summary");
            let s1 = sevs.remove(0);
            let s2 = sevs.remove(0);
            actions.push(Action::Emit(s1));
            actions.push(Action::Emit(s2));
            let sys = PromptManager::final_summary(&self.language);
            let req = self.service.build_request(sys, transcript, Some(SchemaKind::FinalSummary));
            self.phase = Phase::DirectPending;
            Ok((actions, req))
        }
    }

    /// Starts a regeneration run: the already-extracted chunk summaries
    /// are mechanically merged and only the final-synthesis call is
    /// handed out.
    pub fn begin_regeneration(
        &mut self,
        meeting_id: &str,
        chunk_summaries: Vec<FirstSummaryFormat>,
        now_ms: u64,
    ) -> (r: (Vec<Action>, LlmRequest))
        requires
            old(self).wf(),
            old(self).phase is Idle,
        ensures
            final(self).wf(),
            final(self).phase is FinalPending,
            final(self).regenerating,
            final(self).run_start_ms == now_ms,
            final(self).language == old(self).language,
            final(self).service == old(self).service,
            r.1.schema == Some(SchemaKind::FinalSummary),
            r.1.url@ == old(self).service.base_url@ + "/api/generate"@,
            exists|c: FirstSummaryFormat|
                #[trigger] combine_matches(chunk_summaries@, c) && r.1.body@ == request_body_spec(
                    old(self).service.model@,
                    merged_prompt_spec(
                        final_summary_prompt_spec(old(self).language),
                        json_of_first_summary(c),
                    ),
                    None,
                ),
            r.0@.len() == 4,
            (r.0@[0] matches Action::Emit(e0) && e0 matches ProgressEvent::SummarizationStarted(m0)
                && m0@ == meeting_id@),
            (r.0@[1] matches Action::Emit(e1) && e1 == ProgressEvent::ChunkStart(1)),
            (r.0@[2] matches Action::Emit(e2) && e2 == ProgressEvent::ChunkProgress(0)),
            (r.0@[3] matches Action::Emit(e3) && e3 matches ProgressEvent::StatusMessage(m3) && m3@
                == step_message_spec(
                1,
                1,
                "Combining chunk summaries into final summary..."@,
            )),
    {
        self.run_start_ms = now_ms;
        self.step_start_ms = now_ms;
        self.regenerating = true;
        self.result = None;
        self.progress = ProgressTracker::new(1);
        let mut actions: Vec<Action> = Vec::new();
        let mut evs = self.progress.start_summarization(meeting_id);
        let e1 = evs.remove(0);
        let e2 = evs.remove(0);
        actions.push(Action::Emit(e1));
        actions.push(Action::Emit(e2));
        let mut sevs = self.progress.update_progress(
            "Combining chunk summaries into final summary...",
        );
        let s1 = sevs.remove(0);
        let s2 = sevs.remove(0);
        actions.push(Action::Emit(s1));
        actions.push(Action::Emit(s2));
        let combined = self.combine_structured_first_summaries(chunk_summaries);
        let payload = first_summary_json(&combined);
        let sys = PromptManager::final_summary(&self.language);
        let req = self.service.build_request(sys, payload.as_str(), Some(SchemaKind::FinalSummary));
        self.phase = Phase::FinalPending;
        (actions, req)
    }

    /// Folds one parsed chunk summary into the run: merges its key facts
    /// into the running key facts, hands out the chunk's side artifacts
    /// and progress, and either issues the next chunk's extraction call
    /// or, after the last chunk, the final-synthesis call over the
    /// mechanical merge.
    pub fn on_chunk_summary(&mut self, summary: FirstSummaryFormat, now_ms: u64) -> (r: (
        Vec<Action>,
        LlmRequest,
    ))
        requires
            old(self).wf(),
            old(self).phase is Chunking,
        ensures
            final(self).wf(),
            final(self).language == old(self).language,
            final(self).service == old(self).service,
            final(self).chunks == old(self).chunks,
            final(self).run_start_ms == old(self).run_start_ms,
            final(self).regenerating == old(self).regenerating,
            key_facts_merged(final(self).key_facts, old(self).key_facts, summary.key_facts),
            final(self).chunk_times@ == old(self).chunk_times@.push(
                elapsed_spec(old(self).step_start_ms, now_ms),
            ),
            (r.0@[0] matches Action::Log(m) && m@ == "✅ Chunk "@ + crate::strings::dec_str(
                (old(self).next_chunk + 1) as nat,
            ) + " completed in "@ + crate::strings::secs_hundredths_str(
                elapsed_spec(old(self).step_start_ms, now_ms) as nat,
            ) + "s"@),
            (r.0@[1] matches Action::SaveChunk { index, file_name, text }
                && index == old(self).next_chunk && file_name@ == chunk_file_name_spec(
                old(self).next_chunk as nat,
            ) && text@ == old(self).chunks@[old(self).next_chunk as int]@),
            (r.0@[2] matches Action::SaveChunkSummary { index, file_name, json }
                && index == old(self).next_chunk && file_name@ == chunk_summary_file_name_spec(
                old(self).next_chunk as nat,
            ) && json@ == json_of_first_summary(summary)),
            old(self).next_chunk + 1 < old(self).chunks@.len() ==> {
                &&& final(self).phase is Chunking
                &&& final(self).next_chunk == old(self).next_chunk + 1
                &&& final(self).chunk_summaries@ == old(self).chunk_summaries@.push(summary)
                &&& r.1.schema == Some(SchemaKind::FirstSummary)
                &&& r.1.body@ == request_body_spec(
                    old(self).service.model@,
                    merged_prompt_spec(
                        chunk_prompt_spec(old(self).language, Some(final(self).key_facts)),
                        old(self).chunks@[old(self).next_chunk + 1]@,
                    ),
                    None,
                )
                &&& r.0@.len() == 5
                &&& (r.0@[3] matches Action::Emit(e3) && e3 == ProgressEvent::ChunkProgress(
                    (old(self).next_chunk + 1) as usize,
                ))
                &&& (r.0@[4] matches Action::Emit(e4) && e4 matches ProgressEvent::StatusMessage(
                    m4,
                ) && m4@ == step_message_spec(
                    (old(self).next_chunk + 2) as nat,
                    (old(self).chunks@.len() + 1) as nat,
                    chunk_step_text_spec(
                        (old(self).next_chunk + 2) as nat,
                        old(self).chunks@.len() as nat,
                    ),
                ))
            },
            old(self).next_chunk + 1 == old(self).chunks@.len() ==> {
                &&& final(self).phase is FinalPending
                &&& r.1.schema == Some(SchemaKind::FinalSummary)
                &&& exists|c: FirstSummaryFormat|
                    #[trigger] combine_matches(old(self).chunk_summaries@.push(summary), c)
                        && r.1.body@ == request_body_spec(
                        old(self).service.model@,
                        merged_prompt_spec(
                            final_summary_prompt_spec(old(self).language),
                            json_of_first_summary(c),
                        ),
                        None,
                    )
                &&& r.0@.len() == 7
                &&& (r.0@[3] matches Action::Emit(e3) && e3 matches ProgressEvent::StatusMessage(
                    m3,
                ) && m3@ == timing_stats_message_spec(
                    (crate::performance::sum_ms_sat(final(self).chunk_times@) / final(
                        self
                    ).chunk_times@.len() as int) as nat,
                    crate::performance::sum_ms_sat(final(self).chunk_times@) as nat,
                    final(self).chunk_times@.len() as nat,
                ))
                &&& (r.0@[4] matches Action::SaveAllChunkSummaries { content }
                    && exists|strs: Seq<String>|
                    {
                        &&& strs.len() == old(self).chunk_summaries@.push(summary).len()
                        &&& (forall|i: int|
                            0 <= i < strs.len() ==> (#[trigger] strs[i])@ == json_of_first_summary(
                                old(self).chunk_summaries@.push(summary)[i],
                            ))
                        &&& content@ == #[trigger] summary_blocks_spec(strs, 1)
                    })
                &&& (r.0@[5] matches Action::Emit(e5) && e5 == ProgressEvent::ChunkProgress(
                    (old(self).next_chunk + 1) as usize,
                ))
                &&& (r.0@[6] matches Action::Emit(e6) && e6 matches ProgressEvent::StatusMessage(
                    m6,
                ) && m6@ == step_message_spec(
                    (old(self).chunks@.len() + 1) as nat,
                    (old(self).chunks@.len() + 1) as nat,
                    "Combining chunk summaries into final summary..."@,
                ))
            },
    {
        let idx = self.next_chunk;
        let dur = if now_ms >= self.step_start_ms {
            now_ms - self.step_start_ms
        } else {
            0
        };
        self.step_start_ms = now_ms;
        let mut actions: Vec<Action> = Vec::new();
        let line = self.progress.log_chunk_completed(idx, dur);
        actions.push(Action::Log(line));
        let mut kf = empty_key_facts();
        core::mem::swap(&mut kf, &mut self.key_facts);
        self.update_key_facts(&mut kf, &summary);
        self.key_facts = kf;
        actions.push(
            Action::SaveChunk {
                index: idx,
                file_name: chunk_file_name(idx),
                text: self.chunks[idx].clone(),
            },
        );
        let sj = first_summary_json(&summary);
        actions.push(
            Action::SaveChunkSummary {
                index: idx,
                file_name: chunk_summary_file_name(idx),
                json: sj,
            },
        );
        self.chunk_times.push(dur);
        self.chunk_summaries.push(summary);
        self.next_chunk = idx + 1;
        if self.next_chunk < self.chunks.len() {
            let step_text = chunk_step_text(self.next_chunk, self.chunks.len());
            let mut sevs = self.progress.update_progress(step_text.as_str());
            let s1 = sevs.remove(0);
            let s2 = sevs.remove(0);
            actions.push(Action::Emit(s1));
            actions.push(Action::Emit(s2));
            let sys = PromptManager::chunk_summarization(&self.language, Some(&self.key_facts));
            let req = self.service.build_request(
                sys.as_str(),
                self.chunks[self.next_chunk].as_str(),
                Some(SchemaKind::FirstSummary),
            );
            (actions, req)
        } else {
            let stats = self.progress.log_timing_stats(&self.chunk_times);
            match stats {
                Some(e) => {
                    actions.push(Action::Emit(e));
                },
                None => {
                    proof {
                        assert(false);
                    }
                },
            }
            let mut strs: Vec<String> = Vec::new();
            let mut i: usize = 0;
            while i < self.chunk_summaries.len()
                invariant
                    i <= self.chunk_summaries@.len(),
                    strs@.len() == i,
                    forall|k: int|
                        0 <= k < i ==> (#[trigger] strs@[k])@ == json_of_first_summary(
                            self.chunk_summaries@[k],
                        ),
                    self.chunk_summaries@.len() < usize::MAX,
                decreases self.chunk_summaries@.len() - i,
            {
                strs.push(first_summary_json(&self.chunk_summaries[i]));
                i = i + 1;
            }
            let content = all_chunk_summaries_markdown(&strs);
            actions.push(Action::SaveAllChunkSummaries { content });
            let mut sevs = self.progress.update_progress(
                "Combining chunk summaries into final summary...",
            );
            let s1 = sevs.remove(0);
            let s2 = sevs.remove(0);
            actions.push(Action::Emit(s1));
            actions.push(Action::Emit(s2));
            let mut sums: Vec<FirstSummaryFormat> = Vec::new();
            core::mem::swap(&mut sums, &mut self.chunk_summaries);
            let combined = self.combine_structured_first_summaries(sums);
            let payload = first_summary_json(&combined);
            let sys = PromptManager::final_summary(&self.language);
            let req = self.service.build_request(
                sys,
                payload.as_str(),
                Some(SchemaKind::FinalSummary),
            );
            self.phase = Phase::FinalPending;
            (actions, req)
        }
    }

    /// Accepts the parsed final summary: the run is done, the required
    /// final-summary and meeting-title writes are handed out, and the
    /// completion event carries the elapsed time.
    pub fn on_final_summary(&mut self, f: FinalSummaryFormat, now_ms: u64) -> (r: Vec<Action>)
        requires
            old(self).wf(),
            old(self).phase is FinalPending || old(self).phase is DirectPending,
        ensures
            final(self).wf(),
            final(self).phase is Done,
            final(self).result == Some(f),
            r@.len() == 3,
            (r@[0] matches Action::SaveFinalSummary { markdown, json } && markdown@ == markdown_of(
                &f,
            ) && json@ == json_of_final_summary(f)),
            (r@[1] matches Action::SaveMeetingTitle { title } && title@ == f.title.emoji@ + " "@
                + f.title.text@),
            (r@[2] matches Action::Emit(e) && e matches ProgressEvent::StatusMessage(m) && m@
                == completion_message_spec(
                if old(self).regenerating {
                    "Final summary regenerated"@
                } else {
                    "Summary completed"@
                },
                elapsed_spec(old(self).run_start_ms, now_ms) as nat,
            )),
    {
        let md = f.to_markdown();
        let js = final_summary_json(&f);
        let title = f.title.to_string();
        let elapsed = if now_ms >= self.run_start_ms {
            now_ms - self.run_start_ms
        } else {
            0
        };
        let ev = if self.regenerating {
            self.progress.complete("Final summary regenerated", elapsed)
        } else {
            self.progress.complete("Summary completed", elapsed)
        };
        let mut actions: Vec<Action> = Vec::new();
        actions.push(Action::SaveFinalSummary { markdown: md, json: js });
        actions.push(Action::SaveMeetingTitle { title });
        actions.push(Action::Emit(ev));
        self.result = Some(f);
        self.phase = Phase::Done;
        actions
    }

    /// Feeds the outcome of the outstanding model call back into the run.
    /// A transport failure or an unparseable response aborts the whole
    /// run; otherwise the parsed value drives the next transition. The
    /// step succeeds exactly on a conforming reply — a well-shaped
    /// generation response whose generated text denotes a document of the
    /// shape this phase expects — and then the value folded in, the
    /// artifacts handed out and the finished summary are those that
    /// document describes. While chunks remain, the next call is handed
    /// out; after the final synthesis, the run is done and holds its
    /// result.
    pub fn on_model_response(&mut self, outcome: Result<String, String>, now_ms: u64) -> (r:
        LlmResult<(Vec<Action>, Option<LlmRequest>)>)
        requires
            old(self).wf(),
            old(self).phase is Chunking || old(self).phase is FinalPending || old(
                self
            ).phase is DirectPending,
        ensures
            final(self).wf(),
            r is Err ==> final(self).phase is Failed,
            r matches Err(e) ==> (e is NetworkError || e is ParseError),
            (outcome is Ok && r is Err) ==> r->Err_0 is ParseError,
            (outcome is Err && r is Err) ==> r->Err_0 is NetworkError,
            r matches Ok(o) ==> ((old(self).phase is Chunking) <==> o.1 is Some),
            (r is Ok && !(old(self).phase is Chunking)) ==> (final(self).phase is Done && final(
                self
            ).result is Some),
            r is Ok <==> reply_conforms(outcome, !(old(self).phase is Chunking)),
            (old(self).phase is Chunking && r is Ok) ==> (exists|v: FirstSummaryFormat|
                {
                    &&& #[trigger] first_summary_matchesv(reply_payload(outcome), v)
                    &&& key_facts_merged(final(self).key_facts, old(self).key_facts, v.key_facts)
                    &&& final(self).chunk_times@ == old(self).chunk_times@.push(
                        elapsed_spec(old(self).step_start_ms, now_ms),
                    )
                }),
            old(self).phase is Chunking ==> (r matches Ok(o) ==> (exists|v: FirstSummaryFormat|
                {
                    &&& #[trigger] first_summary_matchesv(reply_payload(outcome), v)
                    &&& o.0@.len() >= 3
                    &&& (o.0@[2] matches Action::SaveChunkSummary { index, json, .. } && index
                        == old(self).next_chunk && json@ == json_of_first_summary(v))
                })),
            !(old(self).phase is Chunking) ==> (r matches Ok(o) ==> (final(
                self
            ).result matches Some(f) && {
                &&& final_summary_matchesv(reply_payload(outcome), f)
                &&& o.0@.len() == 3
                &&& (o.0@[0] matches Action::SaveFinalSummary { markdown, json } && markdown@
                    == markdown_of(&f) && json@ == json_of_final_summary(f))
                &&& (o.0@[1] matches Action::SaveMeetingTitle { title } && title@
                    == f.title.emoji@ + " "@ + f.title.text@)
            })),
    {
        let text = match LlmService::interpret_response(outcome) {
            Ok(t) => t,
            Err(e) => {
                self.phase = Phase::Failed;
                return Err(e);
            },
        };
        let is_chunking = match self.phase {
            Phase::Chunking => true,
            _ => false,
        };
        if is_chunking {
            let tree = match parse_json(text.as_str()) {
                Ok(t) => t,
                Err(m) => {
                    self.phase = Phase::Failed;
                    let mut msg = String::from_str("Failed to parse chunk summary JSON: ");
                    msg.append(m.as_str());
                    return Err(LlmError::ParseError(msg));
                },
            };
            let summary = match extract_first_summary(&tree) {
                Ok(v) => v,
                Err(m) => {
                    proof {
                        lemma_first_summary_bridge(tree, vstd::pervasive::arbitrary());
                    }
                    self.phase = Phase::Failed;
                    let mut msg = String::from_str("Failed to parse chunk summary JSON: ");
                    msg.append(m.as_str());
                    return Err(LlmError::ParseError(msg));
                },
            };
            proof {
                lemma_first_summary_bridge(tree, summary);
                assert(reply_payload(outcome) == jview(tree));
            }
            let (actions, req) = self.on_chunk_summary(summary, now_ms);
            Ok((actions, Some(req)))
        } else {
            let tree = match parse_json(text.as_str()) {
                Ok(t) => t,
                Err(m) => {
                    self.phase = Phase::Failed;
                    let mut msg = String::from_str("Failed to parse final summary JSON: ");
                    msg.append(m.as_str());
                    return Err(LlmError::ParseError(msg));
                },
            };
            let f = match extract_final_summary(&tree) {
                Ok(v) => v,
                Err(m) => {
                    proof {
                        lemma_final_summary_bridge(tree, vstd::pervasive::arbitrary());
                    }
                    self.phase = Phase::Failed;
                    let mut msg = String::from_str("Failed to parse final summary JSON: ");
                    msg.append(m.as_str());
                    return Err(LlmError::ParseError(msg));
                },
            };
            proof {
                lemma_final_summary_bridge(tree, f);
                assert(reply_payload(outcome) == jview(tree));
            }
            let actions = self.on_final_summary(f, now_ms);
            Ok((actions, None))
        }
    }

    /// Hands the finished summary out, leaving the session without one.
    pub fn take_result(&mut self) -> (r: Option<FinalSummaryFormat>)
        ensures
            r == old(self).result,
            final(self).result is None,
            final(self).phase == old(self).phase,
            final(self).wf() == old(self).wf(),
    {
        self.result.take()
    }
}

/// Reads a persisted or model-produced partial summary back from JSON
/// text. It succeeds exactly when the text denotes a well-shaped
/// partial-summary document, and then returns exactly the value that
/// document describes; anything malformed or ill-shaped is a
/// `ParseError`.
pub fn parse_first_summary(text: &str) -> (r: LlmResult<FirstSummaryFormat>)
    ensures
        r is Ok <==> (json_doc(text@) matches Some(jv) && first_summary_okv(jv)),
        r matches Ok(v) ==> first_summary_matchesv(json_doc(text@)->Some_0, v),
        r matches Err(e) ==> e matches LlmError::ParseError(_),
{
    let tree = match parse_json(text) {
        Ok(t) => t,
        Err(m) => {
            let mut msg = String::from_str("Failed to parse chunk summary JSON: ");
            msg.append(m.as_str());
            return Err(LlmError::ParseError(msg));
        },
    };
    match extract_first_summary(&tree) {
        Ok(v) => {
            proof {
                lemma_first_summary_bridge(tree, v);
            }
            Ok(v)
        },
        Err(m) => {
            proof {
                lemma_first_summary_bridge(tree, vstd::pervasive::arbitrary());
            }
            let mut msg = String::from_str("Failed to parse chunk summary JSON: ");
            msg.append(m.as_str());
            Err(LlmError::ParseError(msg))
        },
    }
}

/// Reads a persisted final summary back from JSON text. It succeeds
/// exactly when the text denotes a well-shaped final-summary document,
/// and then returns exactly the value that document describes; anything
/// malformed or ill-shaped is a `ParseError`.
pub fn parse_final_summary(text: &str) -> (r: LlmResult<FinalSummaryFormat>)
    ensures
        r is Ok <==> (json_doc(text@) matches Some(jv) && final_summary_okv(jv)),
        r matches Ok(v) ==> final_summary_matchesv(json_doc(text@)->Some_0, v),
        r matches Err(e) ==> e matches LlmError::ParseError(_),
{
    let tree = match parse_json(text) {
        Ok(t) => t,
        Err(m) => {
            let mut msg = String::from_str("Failed to parse summary JSON: ");
            msg.append(m.as_str());
            return Err(LlmError::ParseError(msg));
        },
    };
    match extract_final_summary(&tree) {
        Ok(v) => {
            proof {
                lemma_final_summary_bridge(tree, v);
            }
            Ok(v)
        },
        Err(m) => {
            proof {
                lemma_final_summary_bridge(tree, vstd::pervasive::arbitrary());
            }
            let mut msg = String::from_str("Failed to parse summary JSON: ");
            msg.append(m.as_str());
            Err(LlmError::ParseError(msg))
        },
    }
}

/// The connection-test call: the test prompts against the configured
/// endpoint, with no output-shape constraint.
pub fn connection_test_request(service: &LlmService, language: &Language) -> (r: LlmRequest)
    ensures
        r.schema is None,
        r.url@ == service.base_url@ + "/api/generate"@,
        r.body@ == request_body_spec(
            service.model@,
            merged_prompt_spec(test_prompt_spec(*language), test_user_prompt_spec(*language)),
            None,
        ),
{
    service.build_request(
        PromptManager::test_connection(language),
        PromptManager::test_user_message(language),
        None,
    )
}

/// Phrases the outcome of a connection test: the trimmed model reply on
/// success, the error's message on failure.
pub fn connection_test_message(result: Result<String, LlmError>) -> (r: Result<String, String>)
    ensures
        result matches Ok(resp) ==> (r matches Ok(m) && m@ == "Test successful! Response: "@
            + trimmed(resp@)),
        result matches Err(e) ==> (r matches Err(m) && m@ == "Test failed: "@ + e.prefix_spec()
            + e.payload_spec()),
{
    match result {
        Ok(resp) => {
            let mut m = String::from_str("Test successful! Response: ");
            let t = trim_text(resp.as_str());
            m.append(t.as_str());
            Ok(m)
        },
        Err(e) => {
            let mut m = String::from_str("Test failed: ");
            let em = e.to_message();
            m.append(em.as_str());
            Err(m)
        },
    }
}

} // verus!
