//! Progress events of a summarization run. The tracker decides what to
//! emit and with what payload; actually delivering an event to a sink is
//! fire-and-forget work outside the library, and a failed delivery never
//! reaches the pipeline.
use vstd::prelude::*;
use vstd::string::StringExecFns;
use crate::performance::{sum_ms_sat, sum_durations};
use crate::strings::{dec_str, secs_tenths_str, append_dec_u64, append_secs_tenths};

verus! {

/// One emission to the progress sink: a topic and its payload.
pub enum ProgressEvent {
    /// A run began for the given meeting.
    SummarizationStarted(String),
    /// The run will take the given number of steps.
    ChunkStart(usize),
    /// The step with the given index finished.
    ChunkProgress(usize),
    /// A human-readable status message.
    StatusMessage(String),
}

impl ProgressEvent {
    /// The topic under which the event is delivered.
    pub fn topic(&self) -> (r: &'static str)
        ensures
            self is SummarizationStarted ==> r@ == "summarization-started"@,
            self is ChunkStart ==> r@ == "summarization-chunk-start"@,
            self is ChunkProgress ==> r@ == "summarization-chunk-progress"@,
            self is StatusMessage ==> r@ == "llm-progress"@,
    {
        match self {
            ProgressEvent::SummarizationStarted(_) => "summarization-started",
            ProgressEvent::ChunkStart(_) => "summarization-chunk-start",
            ProgressEvent::ChunkProgress(_) => "summarization-chunk-progress",
            ProgressEvent::StatusMessage(_) => "llm-progress",
        }
    }
}

/// The step-progress message: `"Step {current}/{total}: {message}"`.
pub open spec fn step_message_spec(current: nat, total: nat, message: Seq<char>) -> Seq<char> {
    "Step "@ + dec_str(current) + "/"@ + dec_str(total) + ": "@ + message
}

/// The chunk-statistics message:
/// `"📊 Chunk stats: Avg {avg}s/chunk, Total {total}s for {n} chunks"`,
/// durations in seconds with one decimal place.
pub open spec fn timing_stats_message_spec(avg_ms: nat, total_ms: nat, count: nat) -> Seq<char> {
    "📊 Chunk stats: Avg "@ + secs_tenths_str(avg_ms) + "s/chunk, Total "@ + secs_tenths_str(
        total_ms,
    ) + "s for "@ + dec_str(count) + " chunks"@
}

/// The completion message: `"✅ {message} in {elapsed}s"`.
pub open spec fn completion_message_spec(message: Seq<char>, elapsed_ms: nat) -> Seq<char> {
    "✅ "@ + message + " in "@ + secs_tenths_str(elapsed_ms) + "s"@
}

/// Counts the steps of a run and phrases the events emitted at each
/// checkpoint.
pub struct ProgressTracker {
    pub total_steps: usize,
    pub current_step: usize,
}

impl ProgressTracker {
    /// A tracker for a run of the given number of steps, none taken yet.
    pub fn new(total_steps: usize) -> (r: Self)
        ensures
            r.total_steps == total_steps,
            r.current_step == 0,
    {
        ProgressTracker { total_steps, current_step: 0 }
    }

    /// The two events that open a run: the start announcement for the
    /// meeting and the step count.
    pub fn start_summarization(&self, meeting_id: &str) -> (r: Vec<ProgressEvent>)
        ensures
            r@.len() == 2,
            r@[0] matches ProgressEvent::SummarizationStarted(m) && m@ == meeting_id@,
            r@[1] == ProgressEvent::ChunkStart(self.total_steps),
    {
        let mut events: Vec<ProgressEvent> = Vec::new();
        events.push(ProgressEvent::SummarizationStarted(String::from_str(meeting_id)));
        events.push(ProgressEvent::ChunkStart(self.total_steps));
        events
    }

    /// Takes one step: the step index is advanced, and the events carry
    /// the finished step and the phrased step message.
    pub fn update_progress(&mut self, message: &str) -> (r: Vec<ProgressEvent>)
        requires
            old(self).current_step < usize::MAX,
        ensures
            final(self).current_step == old(self).current_step + 1,
            final(self).total_steps == old(self).total_steps,
            r@.len() == 2,
            r@[0] == ProgressEvent::ChunkProgress(old(self).current_step),
            r@[1] matches ProgressEvent::StatusMessage(m) && m@ == step_message_spec(
                (old(self).current_step + 1) as nat,
                old(self).total_steps as nat,
                message@,
            ),
    {
        self.current_step = self.current_step + 1;
        let mut msg = String::from_str("Step ");
        append_dec_u64(&mut msg, self.current_step as u64);
        msg.append("/");
        append_dec_u64(&mut msg, self.total_steps as u64);
        msg.append(": ");
        msg.append(message);
        proof {
            assert(msg@ =~= step_message_spec(
                (old(self).current_step + 1) as nat,
                old(self).total_steps as nat,
                message@,
            ));
        }
        let mut events: Vec<ProgressEvent> = Vec::new();
        events.push(ProgressEvent::ChunkProgress(self.current_step - 1));
        events.push(ProgressEvent::StatusMessage(msg));
        events
    }

    /// The console line for one finished chunk:
    /// `"✅ Chunk {n} completed in {duration}s"`, the duration with two
    /// decimal places.
    pub fn log_chunk_completed(&self, chunk_index: usize, duration_ms: u64) -> (r: String)
        requires
            chunk_index < usize::MAX,
        ensures
            r@ == "✅ Chunk "@ + dec_str((chunk_index + 1) as nat) + " completed in "@
                + crate::strings::secs_hundredths_str(duration_ms as nat) + "s"@,
    {
        let mut msg = String::from_str("✅ Chunk ");
        append_dec_u64(&mut msg, (chunk_index + 1) as u64);
        msg.append(" completed in ");
        crate::strings::append_secs_hundredths(&mut msg, duration_ms);
        msg.append("s");
        proof {
            assert(msg@ =~= "✅ Chunk "@ + dec_str((chunk_index + 1) as nat) + " completed in "@
                + crate::strings::secs_hundredths_str(duration_ms as nat) + "s"@);
        }
        msg
    }

    /// The statistics event over the recorded chunk times: none for an
    /// empty run, else the phrased message with the average and the
    /// (saturated) total.
    pub fn log_timing_stats(&self, chunk_times: &Vec<u64>) -> (r: Option<ProgressEvent>)
        ensures
            r is None <==> chunk_times@.len() == 0,
            r matches Some(e) ==> (e matches ProgressEvent::StatusMessage(m) && m@
                == timing_stats_message_spec(
                (sum_ms_sat(chunk_times@) / chunk_times@.len() as int) as nat,
                sum_ms_sat(chunk_times@) as nat,
                chunk_times@.len() as nat,
            )),
    {
        if chunk_times.len() == 0 {
            return None;
        }
        let total = sum_durations(chunk_times);
        let avg = total / (chunk_times.len() as u64);
        let mut msg = String::from_str("📊 Chunk stats: Avg ");
        append_secs_tenths(&mut msg, avg);
        msg.append("s/chunk, Total ");
        append_secs_tenths(&mut msg, total);
        msg.append("s for ");
        append_dec_u64(&mut msg, chunk_times.len() as u64);
        msg.append(" chunks");
        proof {
            assert(msg@ =~= timing_stats_message_spec(
                (sum_ms_sat(chunk_times@) / chunk_times@.len() as int) as nat,
                sum_ms_sat(chunk_times@) as nat,
                chunk_times@.len() as nat,
            ));
        }
        Some(ProgressEvent::StatusMessage(msg))
    }

    /// The completion event: the message phrased with the elapsed time.
    pub fn complete(&self, message: &str, elapsed_ms: u64) -> (r: ProgressEvent)
        ensures
            r matches ProgressEvent::StatusMessage(m) && m@ == completion_message_spec(
                message@,
                elapsed_ms as nat,
            ),
    {
        let mut msg = String::from_str("✅ ");
        msg.append(message);
        msg.append(" in ");
        append_secs_tenths(&mut msg, elapsed_ms);
        msg.append("s");
        proof {
            assert(msg@ =~= completion_message_spec(message@, elapsed_ms as nat));
        }
        ProgressEvent::StatusMessage(msg)
    }

    /// A plain status event carrying the message unchanged.
    pub fn emit_api_status(&self, message: &str) -> (r: ProgressEvent)
        ensures
            r matches ProgressEvent::StatusMessage(m) && m@ == message@,
    {
        ProgressEvent::StatusMessage(String::from_str(message))
    }
}

} // verus!
