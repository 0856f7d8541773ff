//! Rough resource estimates for a summarization run.
use vstd::prelude::*;
use vstd::string::StrSliceExecFns;
use crate::config::LlmConfig;

verus! {

/// How many chunks a text of `len` characters is expected to yield with
/// the given chunk size: none for an empty text, one when it fits, and a
/// ten-percent margin over the exact quotient otherwise, capped at the
/// largest representable count.
pub open spec fn estimate_chunks_spec(len: int, chunk_size: int) -> int {
    if len == 0 {
        0
    } else if len <= chunk_size {
        1
    } else if (len * 11 + chunk_size * 10 - 1) / (chunk_size * 10) > usize::MAX {
        usize::MAX as int
    } else {
        (len * 11 + chunk_size * 10 - 1) / (chunk_size * 10)
    }
}

/// The estimated whole-run duration in seconds: thirty seconds per chunk
/// and one minute for the final synthesis, saturated.
pub open spec fn estimate_seconds_spec(chunks: int) -> int {
    if chunks * 30 + 60 > u64::MAX {
        u64::MAX as int
    } else {
        chunks * 30 + 60
    }
}

/// The estimated memory footprint in bytes: a fifty-megabyte base and ten
/// megabytes per chunk, saturated.
pub open spec fn estimate_memory_spec(chunks: int) -> int {
    if 52428800 + chunks * 10485760 > usize::MAX {
        usize::MAX as int
    } else {
        52428800 + chunks * 10485760
    }
}

/// Utility estimates over texts and configurations.
pub struct LlmUtils;

impl LlmUtils {
    /// Estimates the number of chunks the text will be split into.
    pub fn estimate_chunks(text: &str, chunk_size: usize) -> (r: usize)
        requires
            chunk_size >= 1,
        ensures
            r as int == estimate_chunks_spec(text@.len() as int, chunk_size as int),
    {
        let char_count = text.unicode_len();
        if char_count == 0 {
            return 0;
        }
        if char_count <= chunk_size {
            return 1;
        }
        let num: u128 = (char_count as u128) * 11 + (chunk_size as u128) * 10 - 1;
        let v: u128 = num / ((chunk_size as u128) * 10);
        if v > usize::MAX as u128 {
            usize::MAX
        } else {
            v as usize
        }
    }

    /// Estimates the whole-run processing time in seconds.
    pub fn estimate_processing_time(text: &str, config: &LlmConfig) -> (r: u64)
        requires
            config.chunk_size >= 1,
        ensures
            r as int == estimate_seconds_spec(
                estimate_chunks_spec(text@.len() as int, config.chunk_size as int),
            ),
    {
        let chunks = Self::estimate_chunks(text, config.chunk_size);
        let v: u128 = (chunks as u128) * 30 + 60;
        if v > u64::MAX as u128 {
            u64::MAX
        } else {
            v as u64
        }
    }

    /// Estimates the memory footprint of a run in bytes.
    pub fn estimate_memory_usage(text: &str, config: &LlmConfig) -> (r: usize)
        requires
            config.chunk_size >= 1,
        ensures
            r as int == estimate_memory_spec(
                estimate_chunks_spec(text@.len() as int, config.chunk_size as int),
            ),
    {
        let chunks = Self::estimate_chunks(text, config.chunk_size);
        let v: u128 = 52428800 + (chunks as u128) * 10485760;
        if v > usize::MAX as u128 {
            usize::MAX
        } else {
            v as usize
        }
    }
}

} // verus!
