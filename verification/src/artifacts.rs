//! The names and the text contents of the files a run leaves behind.
//! Writing them to disk is a store collaborator's business; the library
//! only decides what each file is called and what goes into it.
use vstd::prelude::*;
use vstd::string::StringExecFns;
use crate::strings::{dec_str, dec3_str, append_dec_u64, append_dec3_u64};
use crate::json::{json_str, append_json_str};

verus! {

/// The name of the raw-text artifact of chunk `index` (one-based on disk,
/// zero-padded to three digits): `"chunk_{n}.txt"`.
pub open spec fn chunk_file_name_spec(index: nat) -> Seq<char> {
    "chunk_"@ + dec3_str(index + 1) + ".txt"@
}

/// The name of the summary artifact of chunk `index`:
/// `"chunk_{n}_summary.json"`.
pub open spec fn chunk_summary_file_name_spec(index: nat) -> Seq<char> {
    "chunk_"@ + dec3_str(index + 1) + "_summary.json"@
}

/// The raw-text artifact name for one chunk.
pub fn chunk_file_name(index: usize) -> (r: String)
    requires
        index < usize::MAX,
    ensures
        r@ == chunk_file_name_spec(index as nat),
{
    let mut r = String::from_str("chunk_");
    append_dec3_u64(&mut r, (index + 1) as u64);
    r.append(".txt");
    proof {
        assert(r@ =~= chunk_file_name_spec(index as nat));
    }
    r
}

/// The summary artifact name for one chunk.
pub fn chunk_summary_file_name(index: usize) -> (r: String)
    requires
        index < usize::MAX,
    ensures
        r@ == chunk_summary_file_name_spec(index as nat),
{
    let mut r = String::from_str("chunk_");
    append_dec3_u64(&mut r, (index + 1) as u64);
    r.append("_summary.json");
    proof {
        assert(r@ =~= chunk_summary_file_name_spec(index as nat));
    }
    r
}

/// The blocks of the collected chunk-summaries document, one per summary,
/// numbered from `num` onward and separated by horizontal rules.
pub open spec fn summary_blocks_spec(summaries: Seq<String>, num: nat) -> Seq<char>
    decreases summaries.len(),
{
    if summaries.len() == 0 {
        Seq::empty()
    } else if summaries.len() == 1 {
        "# Chunk "@ + dec_str(num) + " Summary\n\n"@ + summaries[0]@
    } else {
        "# Chunk "@ + dec_str(num) + " Summary\n\n"@ + summaries[0]@ + "\n\n---\n\n"@
            + summary_blocks_spec(summaries.drop_first(), num + 1)
    }
}

proof fn lemma_summary_blocks_unfold(s: Seq<String>, num: nat, i: int)
    requires
        0 <= i < s.len(),
    ensures
        i + 1 < s.len() ==> summary_blocks_spec(s.skip(i), (num + i) as nat) == "# Chunk "@
            + dec_str((num + i) as nat) + " Summary\n\n"@ + s[i]@ + "\n\n---\n\n"@
            + summary_blocks_spec(s.skip(i + 1), (num + i + 1) as nat),
        i + 1 == s.len() ==> summary_blocks_spec(s.skip(i), (num + i) as nat) == "# Chunk "@
            + dec_str((num + i) as nat) + " Summary\n\n"@ + s[i]@,
{
    assert(s.skip(i)[0] == s[i]);
    if i + 1 < s.len() {
        assert(s.skip(i).drop_first() =~= s.skip(i + 1));
    }
}

/// The collected chunk-summaries document: every chunk summary under a
/// numbered heading, in chunk order, separated by horizontal rules.
pub fn all_chunk_summaries_markdown(summaries: &Vec<String>) -> (r: String)
    ensures
        r@ == summary_blocks_spec(summaries@, 1),
{
    let mut out = String::new();
    let ghost base = out@;
    let mut i: usize = 0;
    while i < summaries.len()
        invariant
            i <= summaries@.len(),
            i == 0 ==> out@ == base,
            i > 0 ==> out@ + (if i < summaries@.len() {
                "\n\n---\n\n"@ + summary_blocks_spec(summaries@.skip(i as int), (i + 1) as nat)
            } else {
                Seq::<char>::empty()
            }) == base + summary_blocks_spec(summaries@, 1),
        decreases summaries@.len() - i,
    {
        let ghost pre = out@;
        if i > 0 {
            out.append("\n\n---\n\n");
        }
        out.append("# Chunk ");
        append_dec_u64(&mut out, (i + 1) as u64);
        out.append(" Summary\n\n");
        out.append(summaries[i].as_str());
        proof {
            if i == 0 {
                assert(summaries@.skip(0) =~= summaries@);
            }
            lemma_summary_blocks_unfold(summaries@, 1, i as int);
            let si = summaries@[i as int];
            let block = "# Chunk "@ + dec_str((i + 1) as nat) + " Summary\n\n"@ + si@;
            let done = if i > 0 {
                "\n\n---\n\n"@ + summary_blocks_spec(summaries@.skip(i as int), (i + 1) as nat)
            } else {
                summary_blocks_spec(summaries@.skip(i as int), (i + 1) as nat)
            };
            if i > 0 {
                assert(out@ =~= pre + "\n\n---\n\n"@ + block);
            } else {
                assert(out@ =~= pre + block);
            }
            if i as int + 1 < summaries@.len() {
                assert(out@ + ("\n\n---\n\n"@ + summary_blocks_spec(
                    summaries@.skip(i as int + 1),
                    (i + 2) as nat,
                )) =~= pre + done);
            } else {
                assert(out@ + Seq::<char>::empty() =~= pre + done);
            }
        }
        i = i + 1;
    }
    proof {
        if summaries@.len() == 0 {
            assert(summary_blocks_spec(summaries@, 1) =~= Seq::<char>::empty());
        }
        assert(out@ =~= summary_blocks_spec(summaries@, 1));
    }
    out
}

/// The meeting-metadata document: the meeting id, its display name, and
/// its creation timestamp, absent values as null.
pub open spec fn meeting_metadata_json_spec(
    id: Seq<char>,
    name: Option<Seq<char>>,
    created_at: Option<Seq<char>>,
) -> Seq<char> {
    "{\"id\":"@ + json_str(id) + ",\"name\":"@ + (match name {
        None => "null"@,
        Some(n) => json_str(n),
    }) + ",\"created_at\":"@ + (match created_at {
        None => "null"@,
        Some(c) => json_str(c),
    }) + "}"@
}

/// Builds the meeting-metadata document.
pub fn meeting_metadata_json(id: &str, name: Option<&str>, created_at: Option<&str>) -> (r: String)
    ensures
        r@ == meeting_metadata_json_spec(
            id@,
            match name {
                None => None,
                Some(n) => Some(n@),
            },
            match created_at {
                None => None,
                Some(c) => Some(c@),
            },
        ),
{
    let mut out = String::from_str("{\"id\":");
    append_json_str(&mut out, id);
    out.append(",\"name\":");
    match name {
        None => {
            out.append("null");
            proof {
                reveal_strlit("null");
            }
        },
        Some(n) => {
            append_json_str(&mut out, n);
        },
    }
    out.append(",\"created_at\":");
    match created_at {
        None => {
            out.append("null");
            proof {
                reveal_strlit("null");
            }
        },
        Some(c) => {
            append_json_str(&mut out, c);
        },
    }
    out.append("}");
    proof {
        assert(out@ =~= meeting_metadata_json_spec(
            id@,
            match name {
                None => None,
                Some(n) => Some(n@),
            },
            match created_at {
                None => None,
                Some(c) => Some(c@),
            },
        ));
    }
    out
}

} // verus!
