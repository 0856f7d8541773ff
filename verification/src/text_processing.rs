//! Splitting transcript text into bounded chunks at natural breaking points.
//!
//! All reasoning is over Unicode scalar values (`Seq<char>`), never bytes, so
//! a chunk boundary can never split a multi-byte character.
use vstd::prelude::*;
use vstd::string::StrSliceExecFns;
use vstd::string::StringExecFns;

verus! {

broadcast use vstd::string::group_string_axioms;

/// The whitespace characters stripped from chunk edges.
pub open spec fn is_ws(c: char) -> bool {
    c == ' ' || c == '\n' || c == '\t' || c == '\r'
}

/// `s` with its leading whitespace removed.
pub open spec fn trim_front(s: Seq<char>) -> Seq<char>
    decreases s.len(),
{
    if s.len() > 0 && is_ws(s[0]) {
        trim_front(s.drop_first())
    } else {
        s
    }
}

/// `s` with its trailing whitespace removed.
pub open spec fn trim_back(s: Seq<char>) -> Seq<char>
    decreases s.len(),
{
    if s.len() > 0 && is_ws(s[s.len() - 1]) {
        trim_back(s.drop_last())
    } else {
        s
    }
}

/// `s` with both leading and trailing whitespace removed.
pub open spec fn trimmed(s: Seq<char>) -> Seq<char> {
    trim_back(trim_front(s))
}

/// A sentence terminator at position `i`, entirely inside the window that
/// ends at `end`: a period followed by a space or newline, or a question or
/// exclamation mark followed by a space.
pub open spec fn sentence_end_at(s: Seq<char>, i: int, end: int) -> bool {
    &&& 0 <= i
    &&& i + 1 < end
    &&& end <= s.len()
    &&& {
        ||| s[i] == '.' && (s[i + 1] == ' ' || s[i + 1] == '\n')
        ||| (s[i] == '?' || s[i] == '!') && s[i + 1] == ' '
    }
}

/// A paragraph break (two consecutive newlines) starting at position `i`,
/// entirely inside the window that ends at `end`.
pub open spec fn para_break_at(s: Seq<char>, i: int, end: int) -> bool {
    0 <= i && i + 1 < end && end <= s.len() && s[i] == '\n' && s[i + 1] == '\n'
}

/// A single space at position `i`, inside the window that ends at `end`.
pub open spec fn space_at(s: Seq<char>, i: int, end: int) -> bool {
    0 <= i && i < end && end <= s.len() && s[i] == ' '
}

/// The latest sentence terminator at a position in `[start, k)` whose
/// separator fits before `end`, or `None` if there is none.
pub open spec fn last_sentence_end(s: Seq<char>, start: int, k: int, end: int) -> Option<int>
    decreases k - start,
{
    if k <= start {
        None
    } else if sentence_end_at(s, k - 1, end) {
        Some(k - 1)
    } else {
        last_sentence_end(s, start, k - 1, end)
    }
}

/// The latest paragraph break at a position in `[start, k)` that fits before
/// `end`, or `None` if there is none.
pub open spec fn last_para_break(s: Seq<char>, start: int, k: int, end: int) -> Option<int>
    decreases k - start,
{
    if k <= start {
        None
    } else if para_break_at(s, k - 1, end) {
        Some(k - 1)
    } else {
        last_para_break(s, start, k - 1, end)
    }
}

/// The latest space at a position in `[start, k)` before `end`, or `None`.
pub open spec fn last_space(s: Seq<char>, start: int, k: int, end: int) -> Option<int>
    decreases k - start,
{
    if k <= start {
        None
    } else if space_at(s, k - 1, end) {
        Some(k - 1)
    } else {
        last_space(s, start, k - 1, end)
    }
}

/// Where the window `[start, end)` of `s` is cut: just after the latest
/// sentence terminator if there is one, else just after the latest paragraph
/// break, else just after the latest space, else at the window edge itself.
pub open spec fn break_pos(s: Seq<char>, start: int, end: int) -> int {
    match last_sentence_end(s, start, end, end) {
        Some(i) => i + 1,
        None => match last_para_break(s, start, end, end) {
            Some(i) => i + 2,
            None => match last_space(s, start, end, end) {
                Some(i) => i + 1,
                None => end,
            },
        },
    }
}

proof fn lemma_last_sentence_end_props(s: Seq<char>, start: int, k: int, end: int)
    ensures
        last_sentence_end(s, start, k, end) matches Some(i) ==> start <= i < k
            && sentence_end_at(s, i, end),
    decreases k - start,
{
    if k > start && !sentence_end_at(s, k - 1, end) {
        lemma_last_sentence_end_props(s, start, k - 1, end);
    }
}

proof fn lemma_last_para_break_props(s: Seq<char>, start: int, k: int, end: int)
    ensures
        last_para_break(s, start, k, end) matches Some(i) ==> start <= i < k
            && para_break_at(s, i, end),
    decreases k - start,
{
    if k > start && !para_break_at(s, k - 1, end) {
        lemma_last_para_break_props(s, start, k - 1, end);
    }
}

proof fn lemma_last_space_props(s: Seq<char>, start: int, k: int, end: int)
    ensures
        last_space(s, start, k, end) matches Some(i) ==> start <= i < k && space_at(s, i, end),
    decreases k - start,
{
    if k > start && !space_at(s, k - 1, end) {
        lemma_last_space_props(s, start, k - 1, end);
    }
}

/// A cut always makes progress and never leaves the window.
proof fn lemma_break_pos_range(s: Seq<char>, start: int, end: int)
    requires
        0 <= start < end <= s.len(),
    ensures
        start < break_pos(s, start, end) <= end,
{
    lemma_last_sentence_end_props(s, start, end, end);
    lemma_last_para_break_props(s, start, end, end);
    lemma_last_space_props(s, start, end, end);
}

/// The ordered chunk views produced from position `pos` onward: each window
/// is at most `max` characters, is cut at `break_pos` unless it reaches the
/// end of the text, and is emitted trimmed.
pub open spec fn split_from(s: Seq<char>, max: int, pos: int) -> Seq<Seq<char>>
    decreases s.len() - pos,
    when 0 <= pos && 1 <= max
    via split_from_dec
{
    if pos >= s.len() {
        Seq::empty()
    } else {
        let end = if pos + max <= s.len() {
            pos + max
        } else {
            s.len() as int
        };
        let b = if end < s.len() {
            break_pos(s, pos, end)
        } else {
            end
        };
        seq![trimmed(s.subrange(pos, b))] + split_from(s, max, b)
    }
}

#[via_fn]
proof fn split_from_dec(s: Seq<char>, max: int, pos: int) {
    if 0 <= pos && 1 <= max && pos < s.len() {
        let end = if pos + max <= s.len() {
            pos + max
        } else {
            s.len() as int
        };
        if end < s.len() {
            lemma_break_pos_range(s, pos, end);
        }
    }
}

/// What splitting a whole text yields: the text itself as a single chunk
/// when it already fits (its trimmed form when it is empty or
/// whitespace-only), and the greedy windowed chunks otherwise.
pub open spec fn split_spec(s: Seq<char>, max: int) -> Seq<Seq<char>> {
    if s.len() <= max {
        if trimmed(s).len() == 0 {
            seq![trimmed(s)]
        } else {
            seq![s]
        }
    } else {
        split_from(s, max, 0)
    }
}

/// The chunk views of an executable chunk vector.
pub open spec fn views_of(v: Seq<String>) -> Seq<Seq<char>> {
    v.map_values(|x: String| x@)
}

fn ws_char(c: char) -> (r: bool)
    ensures
        r == is_ws(c),
{
    c == ' ' || c == '\n' || c == '\t' || c == '\r'
}

/// Copies the characters of `text` into a vector, so that window scans can
/// index them in constant time.
pub fn text_chars(text: &str) -> (r: Vec<char>)
    ensures
        r@ == text@,
{
    let mut v: Vec<char> = Vec::new();
    for c in it: text.chars()
        invariant
            it.seq() == text@,
            v@ == it.seq().subrange(0, it.index() as int),
    {
        v.push(c);
        proof {
            assert(v@ =~= it.seq().subrange(0, it.index() + 1));
        }
    }
    proof {
        assert(v@ =~= text@);
    }
    v
}

/// The latest sentence terminator in `[start, end)` of `chars` whose
/// separator also lies before `end`.
fn scan_sentence_end(chars: &[char], start: usize, end: usize) -> (r: Option<usize>)
    requires
        start <= end <= chars@.len(),
    ensures
        match r {
            Some(i) => last_sentence_end(chars@, start as int, end as int, end as int) == Some(
                i as int,
            ),
            None => last_sentence_end(chars@, start as int, end as int, end as int) is None,
        },
{
    let mut k = end;
    while k > start
        invariant
            start <= k <= end <= chars@.len(),
            last_sentence_end(chars@, start as int, end as int, end as int) == last_sentence_end(
                chars@,
                start as int,
                k as int,
                end as int,
            ),
        decreases k,
    {
        let c = chars[k - 1];
        let hit = if k < end {
            let d = chars[k];
            (c == '.' && (d == ' ' || d == '\n')) || ((c == '?' || c == '!') && d == ' ')
        } else {
            false
        };
        if hit {
            return Some(k - 1);
        }
        k = k - 1;
    }
    None
}

/// The latest paragraph break in `[start, end)` of `chars` that lies wholly
/// before `end`.
fn scan_para_break(chars: &[char], start: usize, end: usize) -> (r: Option<usize>)
    requires
        start <= end <= chars@.len(),
    ensures
        match r {
            Some(i) => last_para_break(chars@, start as int, end as int, end as int) == Some(
                i as int,
            ),
            None => last_para_break(chars@, start as int, end as int, end as int) is None,
        },
{
    let mut k = end;
    while k > start
        invariant
            start <= k <= end <= chars@.len(),
            last_para_break(chars@, start as int, end as int, end as int) == last_para_break(
                chars@,
                start as int,
                k as int,
                end as int,
            ),
        decreases k,
    {
        let c = chars[k - 1];
        let hit = if k < end {
            c == '\n' && chars[k] == '\n'
        } else {
            false
        };
        if hit {
            return Some(k - 1);
        }
        k = k - 1;
    }
    None
}

/// The latest space in `[start, end)` of `chars`.
fn scan_space(chars: &[char], start: usize, end: usize) -> (r: Option<usize>)
    requires
        start <= end <= chars@.len(),
    ensures
        match r {
            Some(i) => last_space(chars@, start as int, end as int, end as int) == Some(i as int),
            None => last_space(chars@, start as int, end as int, end as int) is None,
        },
{
    let mut k = end;
    while k > start
        invariant
            start <= k <= end <= chars@.len(),
            last_space(chars@, start as int, end as int, end as int) == last_space(
                chars@,
                start as int,
                k as int,
                end as int,
            ),
        decreases k,
    {
        if chars[k - 1] == ' ' {
            return Some(k - 1);
        }
        k = k - 1;
    }
    None
}

/// The latest sentence terminator of `text`, searching the whole text: the
/// position of the terminator character of the last `". "`, `".\n"`, `"? "`
/// or `"! "` occurrence, or `None` if the text contains none.
pub fn find_sentence_end(text: &str) -> (r: Option<usize>)
    ensures
        match r {
            Some(i) => last_sentence_end(text@, 0, text@.len() as int, text@.len() as int) == Some(
                i as int,
            ),
            None => last_sentence_end(text@, 0, text@.len() as int, text@.len() as int) is None,
        },
{
    let chars = text_chars(text);
    let n = chars.len();
    scan_sentence_end(chars.as_slice(), 0, n)
}

/// The best position at which to cut the window `[start, max_end)` of
/// `chars`, by the priority order of `break_pos`: after the latest sentence
/// terminator, else after the latest paragraph break, else after the latest
/// space, else the window edge itself.
pub fn find_optimal_break_point(chars: &[char], start: usize, max_end: usize) -> (r: usize)
    requires
        start <= max_end <= chars@.len(),
    ensures
        r as int == break_pos(chars@, start as int, max_end as int),
        start <= r <= max_end,
        start < max_end ==> start < r,
{
    proof {
        if start < max_end {
            lemma_break_pos_range(chars@, start as int, max_end as int);
        }
        lemma_last_sentence_end_props(chars@, start as int, max_end as int, max_end as int);
        lemma_last_para_break_props(chars@, start as int, max_end as int, max_end as int);
        lemma_last_space_props(chars@, start as int, max_end as int, max_end as int);
    }
    if let Some(i) = scan_sentence_end(chars, start, max_end) {
        return i + 1;
    }
    if let Some(i) = scan_para_break(chars, start, max_end) {
        return i + 2;
    }
    if let Some(i) = scan_space(chars, start, max_end) {
        return i + 1;
    }
    max_end
}

proof fn lemma_trim_front_steps(s: Seq<char>, start: int, end: int, a: int)
    requires
        0 <= start <= a <= end <= s.len(),
        forall|j: int| start <= j < a ==> is_ws(s[j]),
        a == end || !is_ws(s[a]),
    ensures
        trim_front(s.subrange(start, end)) == s.subrange(a, end),
    decreases a - start,
{
    let w = s.subrange(start, end);
    if a == start {
        if start == end {
            assert(w.len() == 0);
        } else {
            assert(w[0] == s[start]);
        }
    } else {
        assert(is_ws(s[start]));
        assert(w[0] == s[start]);
        assert(w.drop_first() =~= s.subrange(start + 1, end));
        lemma_trim_front_steps(s, start + 1, end, a);
    }
}

proof fn lemma_trim_back_steps(s: Seq<char>, start: int, end: int, b: int)
    requires
        0 <= start <= b <= end <= s.len(),
        forall|j: int| b <= j < end ==> is_ws(s[j]),
        b == start || !is_ws(s[b - 1]),
    ensures
        trim_back(s.subrange(start, end)) == s.subrange(start, b),
    decreases end - b,
{
    let w = s.subrange(start, end);
    if b == end {
        if start == end {
            assert(w.len() == 0);
        } else {
            assert(w[w.len() - 1] == s[end - 1]);
        }
    } else {
        assert(is_ws(s[end - 1]));
        assert(w[w.len() - 1] == s[end - 1]);
        assert(w.drop_last() =~= s.subrange(start, end - 1));
        lemma_trim_back_steps(s, start, end - 1, b);
    }
}

proof fn lemma_trim_subrange(s: Seq<char>, start: int, end: int, a: int, b: int)
    requires
        0 <= start <= a <= b <= end <= s.len(),
        forall|j: int| start <= j < a ==> is_ws(s[j]),
        forall|j: int| b <= j < end ==> is_ws(s[j]),
        a == end || !is_ws(s[a]),
        b == a || !is_ws(s[b - 1]),
    ensures
        trimmed(s.subrange(start, end)) == s.subrange(a, b),
{
    lemma_trim_front_steps(s, start, end, a);
    lemma_trim_back_steps(s, a, end, b);
}

/// The bounds of the trimmed form of the window `[start, end)` of `chars`:
/// the window with leading and trailing whitespace stripped is exactly
/// `[r.0, r.1)`.
fn trim_bounds(chars: &Vec<char>, start: usize, end: usize) -> (r: (usize, usize))
    requires
        start <= end <= chars@.len(),
    ensures
        start <= r.0 <= r.1 <= end,
        chars@.subrange(r.0 as int, r.1 as int) == trimmed(
            chars@.subrange(start as int, end as int),
        ),
{
    let mut a = start;
    while a < end && ws_char(chars[a])
        invariant
            start <= a <= end <= chars@.len(),
            forall|j: int| start <= j < a ==> is_ws(chars@[j]),
        decreases end - a,
    {
        a = a + 1;
    }
    let mut b = end;
    while b > a && ws_char(chars[b - 1])
        invariant
            a <= b <= end <= chars@.len(),
            forall|j: int| b <= j < end ==> is_ws(chars@[j]),
        decreases b,
    {
        b = b - 1;
    }
    proof {
        if a == end {
            assert(b == a);
        }
        lemma_trim_subrange(chars@, start as int, end as int, a as int, b as int);
    }
    (a, b)
}

/// A chunk is never longer than the window it was trimmed from.
proof fn lemma_trim_shortens(s: Seq<char>)
    ensures
        trim_front(s).len() <= s.len(),
        trim_back(s).len() <= s.len(),
        trimmed(s).len() <= s.len(),
    decreases s.len(),
{
    if s.len() > 0 && is_ws(s[0]) {
        lemma_trim_shortens(s.drop_first());
    }
    if s.len() > 0 && is_ws(s[s.len() - 1]) {
        lemma_trim_shortens(s.drop_last());
    }
    lemma_trim_back_bound(trim_front(s));
}

proof fn lemma_trim_back_bound(s: Seq<char>)
    ensures
        trim_back(s).len() <= s.len(),
    decreases s.len(),
{
    if s.len() > 0 && is_ws(s[s.len() - 1]) {
        lemma_trim_back_bound(s.drop_last());
    }
}

/// Every chunk produced from position `pos` onward fits within `max`
/// characters.
proof fn lemma_split_from_bounded(s: Seq<char>, max: int, pos: int)
    requires
        0 <= pos,
        1 <= max,
    ensures
        forall|i: int|
            0 <= i < split_from(s, max, pos).len() ==> #[trigger] split_from(s, max, pos)[i].len()
                <= max,
    decreases s.len() - pos,
{
    if pos < s.len() {
        let end = if pos + max <= s.len() {
            pos + max
        } else {
            s.len() as int
        };
        let b = if end < s.len() {
            break_pos(s, pos, end)
        } else {
            end
        };
        if end < s.len() {
            lemma_break_pos_range(s, pos, end);
        }
        lemma_trim_shortens(s.subrange(pos, b));
        lemma_split_from_bounded(s, max, b);
        assert forall|i: int|
            0 <= i < split_from(s, max, pos).len() implies #[trigger] split_from(
            s,
            max,
            pos,
        )[i].len() <= max by {
            if i > 0 {
                assert(split_from(s, max, pos)[i] == split_from(s, max, b)[i - 1]);
            }
        }
    }
}

/// Every chunk of a split fits within `max` characters.
pub proof fn lemma_split_spec_bounded(s: Seq<char>, max: int)
    requires
        1 <= max,
    ensures
        forall|i: int|
            0 <= i < split_spec(s, max).len() ==> #[trigger] split_spec(s, max)[i].len() <= max,
{
    if s.len() <= max {
        lemma_trim_shortens(s);
    } else {
        lemma_split_from_bounded(s, max, 0);
    }
}

/// The cut positions of the windows from `pos` onward, from `pos` itself up
/// to the end of the text: chunk `i` is the trimmed window
/// `[cuts[i], cuts[i+1])`.
pub open spec fn cut_points(s: Seq<char>, max: int, pos: int) -> Seq<int>
    decreases s.len() - pos,
    when 0 <= pos && 1 <= max
    via cut_points_dec
{
    if pos >= s.len() {
        seq![pos]
    } else {
        let end = if pos + max <= s.len() {
            pos + max
        } else {
            s.len() as int
        };
        let b = if end < s.len() {
            break_pos(s, pos, end)
        } else {
            end
        };
        seq![pos] + cut_points(s, max, b)
    }
}

#[via_fn]
proof fn cut_points_dec(s: Seq<char>, max: int, pos: int) {
    if 0 <= pos && 1 <= max && pos < s.len() {
        let end = if pos + max <= s.len() {
            pos + max
        } else {
            s.len() as int
        };
        if end < s.len() {
            lemma_break_pos_range(s, pos, end);
        }
    }
}

/// The chunks from `pos` onward tile the text: the cut positions climb from
/// `pos` to the end of the text, consecutive cuts are at most `max` apart,
/// no character is skipped or duplicated between windows, and chunk `i` is
/// exactly the trimmed window between cuts `i` and `i + 1`. This is the
/// sense in which re-joining the chunks reconstructs the text up to the
/// whitespace trimmed at each boundary.
pub proof fn lemma_split_from_covers(s: Seq<char>, max: int, pos: int)
    requires
        0 <= pos <= s.len(),
        1 <= max,
    ensures
        ({
            let cuts = cut_points(s, max, pos);
            let chunks = split_from(s, max, pos);
            &&& cuts.len() == chunks.len() + 1
            &&& cuts[0] == pos
            &&& cuts[cuts.len() - 1] == s.len()
            &&& forall|i: int|
                0 <= i < chunks.len() ==> #[trigger] cuts[i] < cuts[i + 1] <= cuts[i] + max
            &&& forall|i: int|
                0 <= i < chunks.len() ==> #[trigger] chunks[i] == trimmed(
                    s.subrange(cuts[i], cuts[i + 1]),
                )
        }),
    decreases s.len() - pos,
{
    let cuts = cut_points(s, max, pos);
    let chunks = split_from(s, max, pos);
    if pos < s.len() {
        let end = if pos + max <= s.len() {
            pos + max
        } else {
            s.len() as int
        };
        let b = if end < s.len() {
            break_pos(s, pos, end)
        } else {
            end
        };
        if end < s.len() {
            lemma_break_pos_range(s, pos, end);
        }
        lemma_split_from_covers(s, max, b);
        let sub_cuts = cut_points(s, max, b);
        let sub_chunks = split_from(s, max, b);
        assert forall|i: int| 0 <= i < chunks.len() implies #[trigger] cuts[i] < cuts[i + 1]
            <= cuts[i] + max by {
            if i > 0 {
                assert(cuts[i] == sub_cuts[i - 1]);
                assert(cuts[i + 1] == sub_cuts[i]);
            }
        }
        assert forall|i: int| 0 <= i < chunks.len() implies #[trigger] chunks[i] == trimmed(
            s.subrange(cuts[i], cuts[i + 1]),
        ) by {
            if i > 0 {
                assert(cuts[i] == sub_cuts[i - 1]);
                assert(cuts[i + 1] == sub_cuts[i]);
                assert(chunks[i] == sub_chunks[i - 1]);
            }
        }
    }
}

/// The text with leading and trailing whitespace removed.
pub fn trim_text(text: &str) -> (r: String)
    ensures
        r@ == trimmed(text@),
{
    let chars = text_chars(text);
    let n = chars.len();
    let (a, b) = trim_bounds(&chars, 0, n);
    proof {
        assert(chars@.subrange(0, n as int) =~= text@);
    }
    String::from_str(text.substring_char(a, b))
}

/// There are never more chunks than characters: every window holds at
/// least one character.
pub proof fn lemma_split_from_count(s: Seq<char>, max: int, pos: int)
    requires
        0 <= pos <= s.len(),
        1 <= max,
    ensures
        split_from(s, max, pos).len() <= s.len() - pos,
    decreases s.len() - pos,
{
    if pos < s.len() {
        let end = if pos + max <= s.len() {
            pos + max
        } else {
            s.len() as int
        };
        let b = if end < s.len() {
            break_pos(s, pos, end)
        } else {
            end
        };
        if end < s.len() {
            lemma_break_pos_range(s, pos, end);
        }
        lemma_split_from_count(s, max, b);
    }
}

/// Every split tiles its text. Above the length threshold the cut
/// positions of `lemma_split_from_covers` apply from position zero; at or
/// below it the single chunk is the text itself (its trimmed form when
/// the text is empty or whitespace-only), which tiles it trivially.
pub proof fn lemma_split_spec_covers(s: Seq<char>, max: int)
    requires
        1 <= max,
    ensures
        s.len() > max ==> ({
            let cuts = cut_points(s, max, 0);
            let chunks = split_spec(s, max);
            &&& cuts.len() == chunks.len() + 1
            &&& cuts[0] == 0
            &&& cuts[cuts.len() - 1] == s.len()
            &&& forall|i: int|
                0 <= i < chunks.len() ==> #[trigger] cuts[i] < cuts[i + 1] <= cuts[i] + max
            &&& forall|i: int|
                0 <= i < chunks.len() ==> #[trigger] chunks[i] == trimmed(
                    s.subrange(cuts[i], cuts[i + 1]),
                )
        }),
        s.len() <= max ==> split_spec(s, max).len() == 1,
        s.len() <= max && trimmed(s).len() > 0 ==> split_spec(s, max)[0] == s,
        s.len() <= max && trimmed(s).len() == 0 ==> split_spec(s, max)[0] == trimmed(s),
{
    if s.len() > max {
        lemma_split_from_covers(s, max, 0);
    }
}

/// Splits `text` into ordered chunks of at most `max_chars` characters each,
/// cutting greedy windows at the best natural boundary (sentence end, then
/// paragraph break, then space) and trimming each emitted chunk. A text that
/// already fits is returned verbatim as the single chunk, except that an
/// empty or whitespace-only text yields one chunk equal to its trimmed
/// (empty) form.
pub fn split_text_into_chunks(text: &str, max_chars: usize) -> (r: Vec<String>)
    requires
        1 <= max_chars,
    ensures
        views_of(r@) == split_spec(text@, max_chars as int),
        forall|i: int| 0 <= i < r@.len() ==> #[trigger] r@[i]@.len() <= max_chars,
        r@.len() >= 1,
        text@.len() <= max_chars ==> r@.len() == 1,
        text@.len() <= max_chars && trimmed(text@).len() > 0 ==> r@[0]@ == text@,
        text@.len() <= max_chars && trimmed(text@).len() == 0 ==> r@[0]@ =~= Seq::<char>::empty(),
{
    proof {
        lemma_split_spec_bounded(text@, max_chars as int);
    }
    let chars = text_chars(text);
    let n = chars.len();
    if n <= max_chars {
        let (a, b) = trim_bounds(&chars, 0, n);
        proof {
            assert(chars@.subrange(0, n as int) =~= text@);
        }
        let mut r: Vec<String> = Vec::new();
        if b == a {
            r.push(String::new());
            proof {
                assert(trimmed(text@).len() == 0);
                assert(trimmed(text@) =~= Seq::<char>::empty());
                assert(views_of(r@) =~= split_spec(text@, max_chars as int));
            }
        } else {
            r.push(String::from_str(text));
            proof {
                assert(trimmed(text@).len() > 0);
                assert(views_of(r@) =~= split_spec(text@, max_chars as int));
            }
        }
        return r;
    }
    let mut chunks: Vec<String> = Vec::new();
    let mut pos: usize = 0;
    while pos < n
        invariant
            chars@ == text@,
            n == chars@.len(),
            1 <= max_chars,
            (max_chars as int) < n as int,
            pos <= n,
            views_of(chunks@) + split_from(text@, max_chars as int, pos as int) == split_from(
                text@,
                max_chars as int,
                0,
            ),
        decreases n - pos,
    {
        let end = if max_chars <= n - pos {
            pos + max_chars
        } else {
            n
        };
        let b = if end < n {
            find_optimal_break_point(chars.as_slice(), pos, end)
        } else {
            end
        };
        let (ca, cb) = trim_bounds(&chars, pos, b);
        let piece = text.substring_char(ca, cb);
        let ghost old_views = views_of(chunks@);
        chunks.push(String::from_str(piece));
        proof {
            assert(views_of(chunks@) =~= old_views + seq![piece@]);
            assert(split_from(text@, max_chars as int, pos as int) == seq![
                trimmed(text@.subrange(pos as int, b as int)),
            ] + split_from(text@, max_chars as int, b as int));
            assert(views_of(chunks@) + split_from(text@, max_chars as int, b as int)
                =~= split_from(text@, max_chars as int, 0));
        }
        pos = b;
    }
    proof {
        assert(split_from(text@, max_chars as int, pos as int) =~= Seq::<Seq<char>>::empty());
        assert(views_of(chunks@) =~= split_spec(text@, max_chars as int));
        assert forall|i: int| 0 <= i < chunks@.len() implies #[trigger] chunks@[i]@.len()
            <= max_chars by {
            assert(chunks@[i]@ == views_of(chunks@)[i]);
        }
    }
    chunks
}

} // verus!
