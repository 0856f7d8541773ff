//! The JSON wire format of the summary data model: writing values out (for
//! prompts, request payloads and artifacts) and reading model output back
//! in, checked against the expected shape field by field.
use vstd::prelude::*;
use vstd::string::StrSliceExecFns;
use vstd::string::StringExecFns;
use crate::json::{Json, JsonV, jview, jview_list, jview_fields, lemma_jview_list_index,
    lemma_jview_fields_index, json_doc, json_str, append_json_str};
use crate::models::{Attendee, KeyFact, Topic, ToDo, FirstSummaryFormat, Title, FinalSummaryFormat,
    OllamaResponse};
use crate::strings::dec_str;
use crate::strings::append_dec_u64;

verus! {

// ---------------------------------------------------------------------
// Writing values as JSON text.
// ---------------------------------------------------------------------
/// A nullable string field value.
pub open spec fn json_of_opt_str(v: Option<String>) -> Seq<char> {
    match v {
        None => "null"@,
        Some(s) => json_str(s@),
    }
}

/// One attendee object.
pub open spec fn json_of_attendee(a: Attendee) -> Seq<char> {
    "{\"id\":"@ + dec_str(a.id as nat) + ",\"name\":"@ + json_str(a.name@) + "}"@
}

/// The comma-separated attendee objects of an array.
pub open spec fn attendee_items(s: Seq<Attendee>) -> Seq<char>
    decreases s.len(),
{
    if s.len() == 0 {
        Seq::empty()
    } else if s.len() == 1 {
        json_of_attendee(s[0])
    } else {
        json_of_attendee(s[0]) + ","@ + attendee_items(s.drop_first())
    }
}

/// A nullable attendee-array field value.
pub open spec fn json_of_opt_attendees(v: Option<Vec<Attendee>>) -> Seq<char> {
    match v {
        None => "null"@,
        Some(list) => "["@ + attendee_items(list@) + "]"@,
    }
}

/// A key-facts object, fields in declaration order, absent values as null.
pub open spec fn json_of_key_fact(k: KeyFact) -> Seq<char> {
    "{\"responisible_for_moderation\":"@ + json_of_opt_str(k.responisible_for_moderation)
        + ",\"responisible_for_protocol\":"@ + json_of_opt_str(k.responisible_for_protocol)
        + ",\"responisible_for_timekeeping\":"@ + json_of_opt_str(k.responisible_for_timekeeping)
        + ",\"attendees\":"@ + json_of_opt_attendees(k.attendees) + "}"@
}

/// The comma-separated string literals of an array.
pub open spec fn str_items(s: Seq<String>) -> Seq<char>
    decreases s.len(),
{
    if s.len() == 0 {
        Seq::empty()
    } else if s.len() == 1 {
        json_str(s[0]@)
    } else {
        json_str(s[0]@) + ","@ + str_items(s.drop_first())
    }
}

/// One topic object; sub-topics recurse.
pub open spec fn json_of_topic(t: Topic) -> Seq<char>
    decreases t,
{
    "{\"title\":"@ + json_str(t.title@) + ",\"bullet_points\":"@ + ("["@ + str_items(
        t.bullet_points@,
    ) + "]"@) + ",\"sub_topics\":"@ + (match t.sub_topics {
        None => "null"@,
        Some(subs) => "["@ + topic_items(subs@) + "]"@,
    }) + "}"@
}

/// The comma-separated topic objects of an array.
pub open spec fn topic_items(ts: Seq<Topic>) -> Seq<char>
    decreases ts,
{
    if ts.len() == 0 {
        Seq::empty()
    } else if ts.len() == 1 {
        json_of_topic(ts[0])
    } else {
        json_of_topic(ts[0]) + ","@ + topic_items(ts.drop_first())
    }
}

/// One to-do object.
pub open spec fn json_of_todo(t: ToDo) -> Seq<char> {
    "{\"assignees\":"@ + (match t.assignees {
        None => "null"@,
        Some(a) => "["@ + str_items(a@) + "]"@,
    }) + ",\"task\":"@ + json_str(t.task@) + "}"@
}

/// The comma-separated to-do objects of an array.
pub open spec fn todo_items(ts: Seq<ToDo>) -> Seq<char>
    decreases ts.len(),
{
    if ts.len() == 0 {
        Seq::empty()
    } else if ts.len() == 1 {
        json_of_todo(ts[0])
    } else {
        json_of_todo(ts[0]) + ","@ + todo_items(ts.drop_first())
    }
}

/// A partial summary as a JSON document.
pub open spec fn json_of_first_summary(v: FirstSummaryFormat) -> Seq<char> {
    "{\"key_facts\":"@ + json_of_key_fact(v.key_facts) + ",\"topics\":"@ + ("["@ + topic_items(
        v.topics@,
    ) + "]"@) + ",\"todos\":"@ + (match v.todos {
        None => "null"@,
        Some(ts) => "["@ + todo_items(ts@) + "]"@,
    }) + "}"@
}

/// A title object.
pub open spec fn json_of_title(t: Title) -> Seq<char> {
    "{\"emoji\":"@ + json_str(t.emoji@) + ",\"text\":"@ + json_str(t.text@) + "}"@
}

/// A final summary as a JSON document.
pub open spec fn json_of_final_summary(f: FinalSummaryFormat) -> Seq<char> {
    "{\"title\":"@ + json_of_title(f.title) + ",\"key_facts\":"@ + json_of_key_fact(f.key_facts)
        + ",\"summary\":"@ + json_str(f.summary@) + ",\"topics\":"@ + ("["@ + topic_items(
        f.topics@,
    ) + "]"@) + ",\"todos\":"@ + ("["@ + todo_items(f.todos@) + "]"@) + "}"@
}

fn append_opt_str(out: &mut String, v: &Option<String>)
    ensures
        final(out)@ == old(out)@ + json_of_opt_str(*v),
{
    match v {
        None => {
            out.append("null");
            proof {
                reveal_strlit("null");
                assert(final(out)@ =~= old(out)@ + json_of_opt_str(*v));
            }
        },
        Some(s) => {
            append_json_str(out, s.as_str());
        },
    }
}

fn append_attendee(out: &mut String, a: &Attendee)
    ensures
        final(out)@ == old(out)@ + json_of_attendee(*a),
{
    out.append("{\"id\":");
    append_dec_u64(out, a.id as u64);
    out.append(",\"name\":");
    append_json_str(out, a.name.as_str());
    out.append("}");
    proof {
        assert(final(out)@ =~= old(out)@ + json_of_attendee(*a));
    }
}

proof fn lemma_attendee_items_unfold(s: Seq<Attendee>, i: int)
    requires
        0 <= i < s.len(),
    ensures
        i + 1 < s.len() ==> attendee_items(s.skip(i)) == json_of_attendee(s[i]) + ","@
            + attendee_items(s.skip(i + 1)),
        i + 1 == s.len() ==> attendee_items(s.skip(i)) == json_of_attendee(s[i]),
{
    assert(s.skip(i)[0] == s[i]);
    if i + 1 < s.len() {
        assert(s.skip(i).drop_first() =~= s.skip(i + 1));
    }
}

fn append_attendees_arr(out: &mut String, list: &Vec<Attendee>)
    ensures
        final(out)@ == old(out)@ + "["@ + attendee_items(list@) + "]"@,
{
    out.push('[');
    let ghost base = out@;
    let mut i: usize = 0;
    while i < list.len()
        invariant
            i <= list@.len(),
            i == 0 ==> out@ == base,
            i > 0 ==> out@ + (if i < list@.len() {
                ","@ + attendee_items(list@.skip(i as int))
            } else {
                Seq::<char>::empty()
            }) == base + attendee_items(list@),
        decreases list@.len() - i,
    {
        let ghost pre = out@;
        if i > 0 {
            out.push(',');
        }
        append_attendee(out, &list[i]);
        proof {
            reveal_strlit(",");
            if i == 0 {
                assert(list@.skip(0) =~= list@);
            }
            lemma_attendee_items_unfold(list@, i as int);
            let done = if i > 0 {
                ","@ + attendee_items(list@.skip(i as int))
            } else {
                attendee_items(list@.skip(i as int))
            };
            if i > 0 {
                assert(out@ =~= pre + ","@ + json_of_attendee(list@[i as int]));
            } else {
                assert(out@ =~= pre + json_of_attendee(list@[i as int]));
            }
            if i as int + 1 < list@.len() {
                assert(out@ + (","@ + attendee_items(list@.skip(i as int + 1))) =~= pre + done);
            } else {
                assert(out@ + Seq::<char>::empty() =~= pre + done);
            }
        }
        i = i + 1;
    }
    out.push(']');
    proof {
        reveal_strlit("[");
        reveal_strlit("]");
        if list@.len() == 0 {
            assert(attendee_items(list@) =~= Seq::<char>::empty());
        }
        assert(final(out)@ =~= old(out)@ + "["@ + attendee_items(list@) + "]"@);
    }
}

/// Writes a key-facts value as the JSON object embedded in prompts and
/// payloads.
pub fn append_key_fact_json(out: &mut String, k: &KeyFact)
    ensures
        final(out)@ == old(out)@ + json_of_key_fact(*k),
{
    out.append("{\"responisible_for_moderation\":");
    append_opt_str(out, &k.responisible_for_moderation);
    out.append(",\"responisible_for_protocol\":");
    append_opt_str(out, &k.responisible_for_protocol);
    out.append(",\"responisible_for_timekeeping\":");
    append_opt_str(out, &k.responisible_for_timekeeping);
    out.append(",\"attendees\":");
    match &k.attendees {
        None => {
            out.append("null");
            proof {
                reveal_strlit("null");
            }
        },
        Some(list) => {
            append_attendees_arr(out, list);
        },
    }
    out.append("}");
    proof {
        assert(final(out)@ =~= old(out)@ + json_of_key_fact(*k));
    }
}

/// A key-facts value as a JSON document of its own.
pub fn key_fact_json(k: &KeyFact) -> (r: String)
    ensures
        r@ == json_of_key_fact(*k),
{
    let mut out = String::new();
    append_key_fact_json(&mut out, k);
    proof {
        assert(Seq::<char>::empty() + json_of_key_fact(*k) =~= json_of_key_fact(*k));
    }
    out
}

proof fn lemma_str_items_unfold(s: Seq<String>, i: int)
    requires
        0 <= i < s.len(),
    ensures
        i + 1 < s.len() ==> str_items(s.skip(i)) == json_str(s[i]@) + ","@ + str_items(
            s.skip(i + 1),
        ),
        i + 1 == s.len() ==> str_items(s.skip(i)) == json_str(s[i]@),
{
    assert(s.skip(i)[0] == s[i]);
    if i + 1 < s.len() {
        assert(s.skip(i).drop_first() =~= s.skip(i + 1));
    }
}

fn append_str_arr(out: &mut String, list: &Vec<String>)
    ensures
        final(out)@ == old(out)@ + "["@ + str_items(list@) + "]"@,
{
    out.push('[');
    let ghost base = out@;
    let mut i: usize = 0;
    while i < list.len()
        invariant
            i <= list@.len(),
            i == 0 ==> out@ == base,
            i > 0 ==> out@ + (if i < list@.len() {
                ","@ + str_items(list@.skip(i as int))
            } else {
                Seq::<char>::empty()
            }) == base + str_items(list@),
        decreases list@.len() - i,
    {
        let ghost pre = out@;
        if i > 0 {
            out.push(',');
        }
        append_json_str(out, list[i].as_str());
        proof {
            reveal_strlit(",");
            if i == 0 {
                assert(list@.skip(0) =~= list@);
            }
            lemma_str_items_unfold(list@, i as int);
            let done = if i > 0 {
                ","@ + str_items(list@.skip(i as int))
            } else {
                str_items(list@.skip(i as int))
            };
            if i > 0 {
                assert(out@ =~= pre + ","@ + json_str(list@[i as int]@));
            } else {
                assert(out@ =~= pre + json_str(list@[i as int]@));
            }
            if i as int + 1 < list@.len() {
                assert(out@ + (","@ + str_items(list@.skip(i as int + 1))) =~= pre + done);
            } else {
                assert(out@ + Seq::<char>::empty() =~= pre + done);
            }
        }
        i = i + 1;
    }
    out.push(']');
    proof {
        reveal_strlit("[");
        reveal_strlit("]");
        if list@.len() == 0 {
            assert(str_items(list@) =~= Seq::<char>::empty());
        }
        assert(final(out)@ =~= old(out)@ + "["@ + str_items(list@) + "]"@);
    }
}

proof fn lemma_topic_items_unfold(s: Seq<Topic>, i: int)
    requires
        0 <= i < s.len(),
    ensures
        i + 1 < s.len() ==> topic_items(s.skip(i)) == json_of_topic(s[i]) + ","@ + topic_items(
            s.skip(i + 1),
        ),
        i + 1 == s.len() ==> topic_items(s.skip(i)) == json_of_topic(s[i]),
{
    assert(s.skip(i)[0] == s[i]);
    if i + 1 < s.len() {
        assert(s.skip(i).drop_first() =~= s.skip(i + 1));
    }
}

/// Writes one topic, its bullet points and its sub-topics.
pub fn append_topic_json(out: &mut String, t: &Topic)
    ensures
        final(out)@ == old(out)@ + json_of_topic(*t),
    decreases *t,
{
    out.append("{\"title\":");
    append_json_str(out, t.title.as_str());
    out.append(",\"bullet_points\":");
    append_str_arr(out, &t.bullet_points);
    out.append(",\"sub_topics\":");
    match &t.sub_topics {
        None => {
            out.append("null");
            proof {
                reveal_strlit("null");
            }
        },
        Some(subs) => {
            out.push('[');
            append_topic_slice(out, subs.as_slice());
            out.push(']');
            proof {
                reveal_strlit("[");
                reveal_strlit("]");
            }
        },
    }
    out.append("}");
    proof {
        assert(final(out)@ =~= old(out)@ + json_of_topic(*t));
    }
}

fn append_topic_slice(out: &mut String, ts: &[Topic])
    ensures
        final(out)@ == old(out)@ + topic_items(ts@),
    decreases ts@,
{
    if ts.len() == 0 {
        proof {
            assert(final(out)@ =~= old(out)@ + topic_items(ts@));
        }
        return ;
    }
    append_topic_json(out, &ts[0]);
    if ts.len() > 1 {
        out.push(',');
        let rest = vstd::slice::slice_subrange(ts, 1, ts.len());
        append_topic_slice(out, rest);
        proof {
            reveal_strlit(",");
            assert(ts@.subrange(1, ts@.len() as int) =~= ts@.drop_first());
            assert(final(out)@ =~= old(out)@ + topic_items(ts@));
        }
    } else {
        proof {
            assert(final(out)@ =~= old(out)@ + topic_items(ts@));
        }
    }
}

/// Writes the comma-separated topic array body.
pub fn append_topics_arr(out: &mut String, list: &Vec<Topic>)
    ensures
        final(out)@ == old(out)@ + "["@ + topic_items(list@) + "]"@,
{
    out.push('[');
    append_topic_slice(out, list.as_slice());
    out.push(']');
    proof {
        reveal_strlit("[");
        reveal_strlit("]");
        assert(final(out)@ =~= old(out)@ + "["@ + topic_items(list@) + "]"@);
    }
}

fn append_todo(out: &mut String, t: &ToDo)
    ensures
        final(out)@ == old(out)@ + json_of_todo(*t),
{
    out.append("{\"assignees\":");
    match &t.assignees {
        None => {
            out.append("null");
            proof {
                reveal_strlit("null");
            }
        },
        Some(a) => {
            append_str_arr(out, a);
        },
    }
    out.append(",\"task\":");
    append_json_str(out, t.task.as_str());
    out.append("}");
    proof {
        assert(final(out)@ =~= old(out)@ + json_of_todo(*t));
    }
}

proof fn lemma_todo_items_unfold(s: Seq<ToDo>, i: int)
    requires
        0 <= i < s.len(),
    ensures
        i + 1 < s.len() ==> todo_items(s.skip(i)) == json_of_todo(s[i]) + ","@ + todo_items(
            s.skip(i + 1),
        ),
        i + 1 == s.len() ==> todo_items(s.skip(i)) == json_of_todo(s[i]),
{
    assert(s.skip(i)[0] == s[i]);
    if i + 1 < s.len() {
        assert(s.skip(i).drop_first() =~= s.skip(i + 1));
    }
}

fn append_todos_arr(out: &mut String, list: &Vec<ToDo>)
    ensures
        final(out)@ == old(out)@ + "["@ + todo_items(list@) + "]"@,
{
    out.push('[');
    let ghost base = out@;
    let mut i: usize = 0;
    while i < list.len()
        invariant
            i <= list@.len(),
            i == 0 ==> out@ == base,
            i > 0 ==> out@ + (if i < list@.len() {
                ","@ + todo_items(list@.skip(i as int))
            } else {
                Seq::<char>::empty()
            }) == base + todo_items(list@),
        decreases list@.len() - i,
    {
        let ghost pre = out@;
        if i > 0 {
            out.push(',');
        }
        append_todo(out, &list[i]);
        proof {
            reveal_strlit(",");
            if i == 0 {
                assert(list@.skip(0) =~= list@);
            }
            lemma_todo_items_unfold(list@, i as int);
            let done = if i > 0 {
                ","@ + todo_items(list@.skip(i as int))
            } else {
                todo_items(list@.skip(i as int))
            };
            if i > 0 {
                assert(out@ =~= pre + ","@ + json_of_todo(list@[i as int]));
            } else {
                assert(out@ =~= pre + json_of_todo(list@[i as int]));
            }
            if i as int + 1 < list@.len() {
                assert(out@ + (","@ + todo_items(list@.skip(i as int + 1))) =~= pre + done);
            } else {
                assert(out@ + Seq::<char>::empty() =~= pre + done);
            }
        }
        i = i + 1;
    }
    out.push(']');
    proof {
        reveal_strlit("[");
        reveal_strlit("]");
        if list@.len() == 0 {
            assert(todo_items(list@) =~= Seq::<char>::empty());
        }
        assert(final(out)@ =~= old(out)@ + "["@ + todo_items(list@) + "]"@);
    }
}

/// A partial summary as the JSON document used for payloads and artifacts.
pub fn first_summary_json(v: &FirstSummaryFormat) -> (r: String)
    ensures
        r@ == json_of_first_summary(*v),
{
    let mut out = String::new();
    out.append("{\"key_facts\":");
    append_key_fact_json(&mut out, &v.key_facts);
    out.append(",\"topics\":");
    append_topics_arr(&mut out, &v.topics);
    out.append(",\"todos\":");
    match &v.todos {
        None => {
            out.append("null");
            proof {
                reveal_strlit("null");
            }
        },
        Some(ts) => {
            append_todos_arr(&mut out, ts);
        },
    }
    out.append("}");
    proof {
        assert(out@ =~= json_of_first_summary(*v));
    }
    out
}

/// A final summary as the JSON document written to the summary artifact.
#[verifier::rlimit(50)]
pub fn final_summary_json(f: &FinalSummaryFormat) -> (r: String)
    ensures
        r@ == json_of_final_summary(*f),
{
    let mut out = String::new();
    out.append("{\"title\":");
    out.append("{\"emoji\":");
    append_json_str(&mut out, f.title.emoji.as_str());
    out.append(",\"text\":");
    append_json_str(&mut out, f.title.text.as_str());
    out.append("}");
    out.append(",\"key_facts\":");
    append_key_fact_json(&mut out, &f.key_facts);
    out.append(",\"summary\":");
    append_json_str(&mut out, f.summary.as_str());
    out.append(",\"topics\":");
    append_topics_arr(&mut out, &f.topics);
    out.append(",\"todos\":");
    append_todos_arr(&mut out, &f.todos);
    out.append("}");
    proof {
        assert(out@ =~= json_of_final_summary(*f));
    }
    out
}

// ---------------------------------------------------------------------
// Reading model output back, checked field by field.
// ---------------------------------------------------------------------
/// The value of the field named `key`, if any; with duplicate keys the
/// last occurrence wins, as it does in the JSON readers this layer
/// stands in for.
pub open spec fn obj_get(fields: Seq<(String, Json)>, key: Seq<char>) -> Option<Json>
    decreases fields.len(),
{
    if fields.len() == 0 {
        None
    } else if fields.last().0@ == key {
        Some(fields.last().1)
    } else {
        obj_get(fields.drop_last(), key)
    }
}

/// A nullable string field is well-shaped: absent, null, or a string.
pub open spec fn opt_str_ok(fields: Seq<(String, Json)>, key: Seq<char>) -> bool {
    match obj_get(fields, key) {
        None => true,
        Some(Json::Null) => true,
        Some(Json::Str(_)) => true,
        _ => false,
    }
}

/// The value a well-shaped nullable string field denotes.
pub open spec fn opt_str_val(fields: Seq<(String, Json)>, key: Seq<char>) -> Option<String> {
    match obj_get(fields, key) {
        Some(Json::Str(s)) => Some(s),
        _ => None,
    }
}

/// A required string field is present and a string.
pub open spec fn req_str_ok(fields: Seq<(String, Json)>, key: Seq<char>) -> bool {
    obj_get(fields, key) matches Some(Json::Str(_))
}

/// The value of a required string field.
pub open spec fn req_str_val(fields: Seq<(String, Json)>, key: Seq<char>) -> String {
    obj_get(fields, key)->Some_0->Str_0
}

/// A required integer field is present and an integer.
pub open spec fn req_int_ok(fields: Seq<(String, Json)>, key: Seq<char>) -> bool {
    obj_get(fields, key) matches Some(Json::Int(_))
}

/// The value of a required integer field.
pub open spec fn req_int_val(fields: Seq<(String, Json)>, key: Seq<char>) -> i64 {
    obj_get(fields, key)->Some_0->Int_0
}

/// A required boolean field is present and a boolean.
pub open spec fn req_bool_ok(fields: Seq<(String, Json)>, key: Seq<char>) -> bool {
    obj_get(fields, key) matches Some(Json::Bool(_))
}

/// The value of a required boolean field.
pub open spec fn req_bool_val(fields: Seq<(String, Json)>, key: Seq<char>) -> bool {
    obj_get(fields, key)->Some_0->Bool_0
}

/// An attendee object: a numeric `id` that fits a `usize` and a string
/// `name`.
pub open spec fn attendee_ok(j: Json) -> bool {
    &&& j matches Json::Obj(fields)
    &&& req_int_ok(fields@, "id"@)
    &&& 0 <= req_int_val(fields@, "id"@) <= usize::MAX
    &&& req_str_ok(fields@, "name"@)
}

/// The attendee a well-shaped attendee object denotes.
pub open spec fn attendee_val(j: Json) -> Attendee {
    Attendee {
        id: req_int_val(j->Obj_0@, "id"@) as usize,
        name: req_str_val(j->Obj_0@, "name"@),
    }
}

/// The nullable `attendees` field holds nothing or an array of attendees.
pub open spec fn attendees_field_ok(fields: Seq<(String, Json)>) -> bool {
    match obj_get(fields, "attendees"@) {
        None => true,
        Some(Json::Null) => true,
        Some(Json::Arr(items)) => forall|i: int|
            0 <= i < items@.len() ==> attendee_ok(#[trigger] items@[i]),
        _ => false,
    }
}

/// `v` is the attendee list the `attendees` field denotes.
pub open spec fn attendees_field_matches(
    fields: Seq<(String, Json)>,
    v: Option<Vec<Attendee>>,
) -> bool {
    match obj_get(fields, "attendees"@) {
        None => v is None,
        Some(Json::Null) => v is None,
        Some(Json::Arr(items)) => v matches Some(list) && list@.len() == items@.len() && (forall|
            i: int,
        |
            0 <= i < items@.len() ==> list@[i] == attendee_val(#[trigger] items@[i])),
        _ => false,
    }
}

/// A key-facts object: three nullable role strings and nullable attendees.
pub open spec fn key_fact_ok(j: Json) -> bool {
    &&& j matches Json::Obj(fields)
    &&& opt_str_ok(fields@, "responisible_for_moderation"@)
    &&& opt_str_ok(fields@, "responisible_for_protocol"@)
    &&& opt_str_ok(fields@, "responisible_for_timekeeping"@)
    &&& attendees_field_ok(fields@)
}

/// `k` is the key-facts value the object denotes.
pub open spec fn key_fact_matches(j: Json, k: KeyFact) -> bool {
    &&& j matches Json::Obj(fields)
    &&& k.responisible_for_moderation == opt_str_val(fields@, "responisible_for_moderation"@)
    &&& k.responisible_for_protocol == opt_str_val(fields@, "responisible_for_protocol"@)
    &&& k.responisible_for_timekeeping == opt_str_val(fields@, "responisible_for_timekeeping"@)
    &&& attendees_field_matches(fields@, k.attendees)
}

/// A required array-of-strings field.
pub open spec fn str_arr_ok(fields: Seq<(String, Json)>, key: Seq<char>) -> bool {
    match obj_get(fields, key) {
        Some(Json::Arr(items)) => forall|i: int|
            0 <= i < items@.len() ==> (#[trigger] items@[i]) matches Json::Str(_),
        _ => false,
    }
}

/// `v` is the string list a required array-of-strings field denotes.
pub open spec fn str_arr_matches(fields: Seq<(String, Json)>, key: Seq<char>, v: Vec<String>) -> bool {
    match obj_get(fields, key) {
        Some(Json::Arr(items)) => v@.len() == items@.len() && (forall|i: int|
            0 <= i < items@.len() ==> v@[i] == (#[trigger] items@[i])->Str_0),
        _ => false,
    }
}

/// A nullable array-of-strings field.
pub open spec fn opt_str_arr_ok(fields: Seq<(String, Json)>, key: Seq<char>) -> bool {
    match obj_get(fields, key) {
        None => true,
        Some(Json::Null) => true,
        Some(Json::Arr(items)) => forall|i: int|
            0 <= i < items@.len() ==> (#[trigger] items@[i]) matches Json::Str(_),
        _ => false,
    }
}

/// `v` is the string list a nullable array-of-strings field denotes.
pub open spec fn opt_str_arr_matches(
    fields: Seq<(String, Json)>,
    key: Seq<char>,
    v: Option<Vec<String>>,
) -> bool {
    match obj_get(fields, key) {
        None => v is None,
        Some(Json::Null) => v is None,
        Some(Json::Arr(items)) => v matches Some(list) && list@.len() == items@.len() && (forall|
            i: int,
        |
            0 <= i < items@.len() ==> list@[i] == (#[trigger] items@[i])->Str_0),
        _ => false,
    }
}

/// The deepest topic nesting the reader accepts; the JSON parser's own
/// depth bound means a parsed tree can never exceed it.
pub const TOPIC_DEPTH: u64 = 128;

/// A topic object: a string title, string bullet points, and nullable
/// sub-topics nested less than `depth` levels deep.
pub open spec fn topic_ok(j: Json, depth: nat) -> bool
    decreases depth, 0nat,
{
    &&& depth > 0
    &&& j matches Json::Obj(fields)
    &&& req_str_ok(fields@, "title"@)
    &&& str_arr_ok(fields@, "bullet_points"@)
    &&& match obj_get(fields@, "sub_topics"@) {
        None => true,
        Some(Json::Null) => true,
        Some(Json::Arr(items)) => topics_ok(items@, (depth - 1) as nat),
        _ => false,
    }
}

/// Every element is a well-shaped topic.
pub open spec fn topics_ok(items: Seq<Json>, depth: nat) -> bool
    decreases depth, 1nat,
{
    forall|i: int| 0 <= i < items.len() ==> topic_ok(#[trigger] items[i], depth)
}

/// `t` is the topic the object denotes.
pub open spec fn topic_matches(j: Json, t: Topic, depth: nat) -> bool
    decreases depth, 0nat,
{
    &&& depth > 0
    &&& j matches Json::Obj(fields)
    &&& t.title == req_str_val(fields@, "title"@)
    &&& str_arr_matches(fields@, "bullet_points"@, t.bullet_points)
    &&& match obj_get(fields@, "sub_topics"@) {
        None => t.sub_topics is None,
        Some(Json::Null) => t.sub_topics is None,
        Some(Json::Arr(items)) => t.sub_topics matches Some(subs) && topics_match(
            items@,
            subs@,
            (depth - 1) as nat,
        ),
        _ => false,
    }
}

/// `ts` is the topic list the array denotes, element by element.
pub open spec fn topics_match(items: Seq<Json>, ts: Seq<Topic>, depth: nat) -> bool
    decreases depth, 1nat,
{
    ts.len() == items.len() && (forall|i: int|
        0 <= i < items.len() ==> topic_matches(#[trigger] items[i], ts[i], depth))
}

/// A to-do object: nullable string assignees and a string task.
pub open spec fn todo_ok(j: Json) -> bool {
    &&& j matches Json::Obj(fields)
    &&& opt_str_arr_ok(fields@, "assignees"@)
    &&& req_str_ok(fields@, "task"@)
}

/// `t` is the to-do the object denotes.
pub open spec fn todo_matches(j: Json, t: ToDo) -> bool {
    &&& j matches Json::Obj(fields)
    &&& opt_str_arr_matches(fields@, "assignees"@, t.assignees)
    &&& t.task == req_str_val(fields@, "task"@)
}

/// Every element is a well-shaped to-do.
pub open spec fn todos_ok(items: Seq<Json>) -> bool {
    forall|i: int| 0 <= i < items.len() ==> todo_ok(#[trigger] items[i])
}

/// `ts` is the to-do list the array denotes.
pub open spec fn todos_match(items: Seq<Json>, ts: Seq<ToDo>) -> bool {
    ts.len() == items.len() && (forall|i: int|
        0 <= i < items.len() ==> todo_matches(#[trigger] items[i], ts[i]))
}

/// A partial-summary document: required key facts and topics, nullable
/// to-dos.
pub open spec fn first_summary_ok(j: Json) -> bool {
    &&& j matches Json::Obj(fields)
    &&& match obj_get(fields@, "key_facts"@) {
        Some(kf) => key_fact_ok(kf),
        None => false,
    }
    &&& match obj_get(fields@, "topics"@) {
        Some(Json::Arr(items)) => topics_ok(items@, TOPIC_DEPTH as nat),
        _ => false,
    }
    &&& match obj_get(fields@, "todos"@) {
        None => true,
        Some(Json::Null) => true,
        Some(Json::Arr(items)) => todos_ok(items@),
        _ => false,
    }
}

/// `v` is the partial summary the document denotes.
pub open spec fn first_summary_matches(j: Json, v: FirstSummaryFormat) -> bool {
    &&& j matches Json::Obj(fields)
    &&& match obj_get(fields@, "key_facts"@) {
        Some(kf) => key_fact_matches(kf, v.key_facts),
        None => false,
    }
    &&& match obj_get(fields@, "topics"@) {
        Some(Json::Arr(items)) => topics_match(items@, v.topics@, TOPIC_DEPTH as nat),
        _ => false,
    }
    &&& match obj_get(fields@, "todos"@) {
        None => v.todos is None,
        Some(Json::Null) => v.todos is None,
        Some(Json::Arr(items)) => v.todos matches Some(ts) && todos_match(items@, ts@),
        _ => false,
    }
}

/// A title object: a string emoji and a string text.
pub open spec fn title_ok(j: Json) -> bool {
    &&& j matches Json::Obj(fields)
    &&& req_str_ok(fields@, "emoji"@)
    &&& req_str_ok(fields@, "text"@)
}

/// `t` is the title the object denotes.
pub open spec fn title_matches(j: Json, t: Title) -> bool {
    &&& j matches Json::Obj(fields)
    &&& t.emoji == req_str_val(fields@, "emoji"@)
    &&& t.text == req_str_val(fields@, "text"@)
}

/// A final-summary document: title, key facts, narrative, topics, and a
/// required to-do array.
pub open spec fn final_summary_ok(j: Json) -> bool {
    &&& j matches Json::Obj(fields)
    &&& match obj_get(fields@, "title"@) {
        Some(t) => title_ok(t),
        None => false,
    }
    &&& match obj_get(fields@, "key_facts"@) {
        Some(kf) => key_fact_ok(kf),
        None => false,
    }
    &&& req_str_ok(fields@, "summary"@)
    &&& match obj_get(fields@, "topics"@) {
        Some(Json::Arr(items)) => topics_ok(items@, TOPIC_DEPTH as nat),
        _ => false,
    }
    &&& match obj_get(fields@, "todos"@) {
        Some(Json::Arr(items)) => todos_ok(items@),
        _ => false,
    }
}

/// `f` is the final summary the document denotes.
pub open spec fn final_summary_matches(j: Json, f: FinalSummaryFormat) -> bool {
    &&& j matches Json::Obj(fields)
    &&& match obj_get(fields@, "title"@) {
        Some(t) => title_matches(t, f.title),
        None => false,
    }
    &&& match obj_get(fields@, "key_facts"@) {
        Some(kf) => key_fact_matches(kf, f.key_facts),
        None => false,
    }
    &&& f.summary == req_str_val(fields@, "summary"@)
    &&& match obj_get(fields@, "topics"@) {
        Some(Json::Arr(items)) => topics_match(items@, f.topics@, TOPIC_DEPTH as nat),
        _ => false,
    }
    &&& match obj_get(fields@, "todos"@) {
        Some(Json::Arr(items)) => f.todos@.len() == items@.len() && todos_match(items@, f.todos@),
        _ => false,
    }
}

/// A generation-endpoint response body, every field required as the
/// endpoint documents it.
pub open spec fn ollama_response_ok(j: Json) -> bool {
    &&& j matches Json::Obj(fields)
    &&& req_str_ok(fields@, "model"@)
    &&& req_str_ok(fields@, "created_at"@)
    &&& req_str_ok(fields@, "response"@)
    &&& req_bool_ok(fields@, "done"@)
    &&& req_str_ok(fields@, "done_reason"@)
    &&& match obj_get(fields@, "context"@) {
        Some(Json::Arr(items)) => forall|i: int|
            0 <= i < items@.len() ==> (#[trigger] items@[i]) matches Json::Int(_),
        _ => false,
    }
    &&& req_int_ok(fields@, "total_duration"@)
    &&& req_int_ok(fields@, "load_duration"@)
    &&& req_int_ok(fields@, "prompt_eval_count"@)
    &&& req_int_ok(fields@, "prompt_eval_duration"@)
    &&& req_int_ok(fields@, "eval_count"@)
    &&& req_int_ok(fields@, "eval_duration"@)
}

/// `r` is the response the document denotes.
pub open spec fn ollama_response_matches(j: Json, r: OllamaResponse) -> bool {
    &&& j matches Json::Obj(fields)
    &&& r.model == req_str_val(fields@, "model"@)
    &&& r.created_at == req_str_val(fields@, "created_at"@)
    &&& r.response == req_str_val(fields@, "response"@)
    &&& r.done == req_bool_val(fields@, "done"@)
    &&& r.done_reason == req_str_val(fields@, "done_reason"@)
    &&& match obj_get(fields@, "context"@) {
        Some(Json::Arr(items)) => r.context@.len() == items@.len() && (forall|i: int|
            0 <= i < items@.len() ==> r.context@[i] == (#[trigger] items@[i])->Int_0),
        _ => false,
    }
    &&& r.total_duration == req_int_val(fields@, "total_duration"@)
    &&& r.load_duration == req_int_val(fields@, "load_duration"@)
    &&& r.prompt_eval_count == req_int_val(fields@, "prompt_eval_count"@)
    &&& r.prompt_eval_duration == req_int_val(fields@, "prompt_eval_duration"@)
    &&& r.eval_count == req_int_val(fields@, "eval_count"@)
    &&& r.eval_duration == req_int_val(fields@, "eval_duration"@)
}

fn ext_err<T>(msg: &str) -> (r: Result<T, String>)
    ensures
        r matches Err(m) && m@ == msg@,
{
    Err(String::from_str(msg))
}

fn get_field<'a>(fields: &'a Vec<(String, Json)>, key: &str) -> (r: Option<&'a Json>)
    ensures
        match r {
            Some(v) => obj_get(fields@, key@) == Some(*v),
            None => obj_get(fields@, key@) is None,
        },
{
    let k = String::from_str(key);
    let mut i: usize = fields.len();
    proof {
        assert(fields@.take(fields@.len() as int) =~= fields@);
    }
    while i > 0
        invariant
            i <= fields@.len(),
            k@ == key@,
            obj_get(fields@, key@) == obj_get(fields@.take(i as int), key@),
        decreases i,
    {
        i = i - 1;
        proof {
            assert(fields@.take(i as int + 1).last() == fields@[i as int]);
            assert(fields@.take(i as int + 1).drop_last() =~= fields@.take(i as int));
        }
        if fields[i].0 == k {
            return Some(&fields[i].1);
        }
    }
    None
}

fn extract_opt_str(fields: &Vec<(String, Json)>, key: &str) -> (r: Result<Option<String>, String>)
    ensures
        r is Ok <==> opt_str_ok(fields@, key@),
        r matches Ok(v) ==> v == opt_str_val(fields@, key@),
{
    match get_field(fields, key) {
        None => Ok(None),
        Some(Json::Null) => Ok(None),
        Some(Json::Str(s)) => Ok(Some(s.clone())),
        Some(_) => ext_err("expected a string or null"),
    }
}

fn extract_req_str(fields: &Vec<(String, Json)>, key: &str) -> (r: Result<String, String>)
    ensures
        r is Ok <==> req_str_ok(fields@, key@),
        r matches Ok(v) ==> v == req_str_val(fields@, key@),
{
    match get_field(fields, key) {
        Some(Json::Str(s)) => Ok(s.clone()),
        Some(_) => ext_err("expected a string"),
        None => ext_err("missing required field"),
    }
}

fn extract_req_i64(fields: &Vec<(String, Json)>, key: &str) -> (r: Result<i64, String>)
    ensures
        r is Ok <==> req_int_ok(fields@, key@),
        r matches Ok(v) ==> v == req_int_val(fields@, key@),
{
    match get_field(fields, key) {
        Some(Json::Int(v)) => Ok(*v),
        Some(_) => ext_err("expected an integer"),
        None => ext_err("missing required field"),
    }
}

fn extract_req_bool(fields: &Vec<(String, Json)>, key: &str) -> (r: Result<bool, String>)
    ensures
        r is Ok <==> req_bool_ok(fields@, key@),
        r matches Ok(v) ==> v == req_bool_val(fields@, key@),
{
    match get_field(fields, key) {
        Some(Json::Bool(v)) => Ok(*v),
        Some(_) => ext_err("expected a boolean"),
        None => ext_err("missing required field"),
    }
}

fn extract_attendee(j: &Json) -> (r: Result<Attendee, String>)
    ensures
        r is Ok <==> attendee_ok(*j),
        r matches Ok(a) ==> a == attendee_val(*j),
{
    match j {
        Json::Obj(fields) => {
            let id = match extract_req_i64(fields, "id") {
                Ok(v) => v,
                Err(m) => {
                    return Err(m);
                },
            };
            if id < 0 {
                return ext_err("attendee id out of range");
            }
            let idu: usize = match usize::try_from(id) {
                Ok(v) => v,
                Err(_) => {
                    return ext_err("attendee id out of range");
                },
            };
            let name = match extract_req_str(fields, "name") {
                Ok(v) => v,
                Err(m) => {
                    return Err(m);
                },
            };
            Ok(Attendee { id: idu, name })
        },
        _ => ext_err("expected an attendee object"),
    }
}

fn extract_attendees(items: &Vec<Json>) -> (r: Result<Vec<Attendee>, String>)
    ensures
        r is Ok <==> (forall|i: int| 0 <= i < items@.len() ==> attendee_ok(#[trigger] items@[i])),
        r matches Ok(list) ==> list@.len() == items@.len() && (forall|i: int|
            0 <= i < items@.len() ==> list@[i] == attendee_val(#[trigger] items@[i])),
{
    let mut list: Vec<Attendee> = Vec::new();
    let mut i: usize = 0;
    while i < items.len()
        invariant
            i <= items@.len(),
            list@.len() == i,
            forall|k: int| 0 <= k < i ==> attendee_ok(#[trigger] items@[k]),
            forall|k: int| 0 <= k < i ==> list@[k] == attendee_val(#[trigger] items@[k]),
        decreases items@.len() - i,
    {
        match extract_attendee(&items[i]) {
            Ok(a) => {
                list.push(a);
            },
            Err(m) => {
                return Err(m);
            },
        }
        i = i + 1;
    }
    Ok(list)
}

/// Reads a key-facts value out of its JSON object, rejecting any
/// ill-shaped field.
pub fn extract_key_fact(j: &Json) -> (r: Result<KeyFact, String>)
    ensures
        r is Ok <==> key_fact_ok(*j),
        r matches Ok(k) ==> key_fact_matches(*j, k),
{
    match j {
        Json::Obj(fields) => {
            let moderation = match extract_opt_str(fields, "responisible_for_moderation") {
                Ok(v) => v,
                Err(m) => {
                    return Err(m);
                },
            };
            let protocol = match extract_opt_str(fields, "responisible_for_protocol") {
                Ok(v) => v,
                Err(m) => {
                    return Err(m);
                },
            };
            let timekeeping = match extract_opt_str(fields, "responisible_for_timekeeping") {
                Ok(v) => v,
                Err(m) => {
                    return Err(m);
                },
            };
            let attendees: Option<Vec<Attendee>> = match get_field(fields, "attendees") {
                None => None,
                Some(Json::Null) => None,
                Some(Json::Arr(items)) => match extract_attendees(items) {
                    Ok(list) => Some(list),
                    Err(m) => {
                        return Err(m);
                    },
                },
                Some(_) => {
                    return ext_err("expected an attendee array or null");
                },
            };
            Ok(
                KeyFact {
                    responisible_for_moderation: moderation,
                    responisible_for_protocol: protocol,
                    responisible_for_timekeeping: timekeeping,
                    attendees,
                },
            )
        },
        _ => ext_err("expected a key-facts object"),
    }
}

fn extract_str_arr(items: &Vec<Json>) -> (r: Result<Vec<String>, String>)
    ensures
        r is Ok <==> (forall|i: int|
            0 <= i < items@.len() ==> (#[trigger] items@[i]) matches Json::Str(_)),
        r matches Ok(list) ==> list@.len() == items@.len() && (forall|i: int|
            0 <= i < items@.len() ==> list@[i] == (#[trigger] items@[i])->Str_0),
{
    let mut list: Vec<String> = Vec::new();
    let mut i: usize = 0;
    while i < items.len()
        invariant
            i <= items@.len(),
            list@.len() == i,
            forall|k: int| 0 <= k < i ==> (#[trigger] items@[k]) matches Json::Str(_),
            forall|k: int| 0 <= k < i ==> list@[k] == (#[trigger] items@[k])->Str_0,
        decreases items@.len() - i,
    {
        match &items[i] {
            Json::Str(s) => {
                list.push(s.clone());
            },
            _ => {
                return ext_err("expected a string");
            },
        }
        i = i + 1;
    }
    Ok(list)
}

/// Reads one topic out of its JSON object, recursing into sub-topics to
/// the given remaining depth.
fn extract_topic(j: &Json, depth: u64) -> (r: Result<Topic, String>)
    ensures
        r is Ok <==> topic_ok(*j, depth as nat),
        r matches Ok(t) ==> topic_matches(*j, t, depth as nat),
    decreases depth, 0nat,
{
    if depth == 0 {
        return ext_err("topics nested too deeply");
    }
    match j {
        Json::Obj(fields) => {
            let title = match extract_req_str(fields, "title") {
                Ok(v) => v,
                Err(m) => {
                    return Err(m);
                },
            };
            let bullet_points = match get_field(fields, "bullet_points") {
                Some(Json::Arr(items)) => match extract_str_arr(items) {
                    Ok(list) => list,
                    Err(m) => {
                        return Err(m);
                    },
                },
                Some(_) => {
                    return ext_err("expected a bullet-point array");
                },
                None => {
                    return ext_err("missing required field");
                },
            };
            let sub_topics: Option<Vec<Topic>> = match get_field(fields, "sub_topics") {
                None => None,
                Some(Json::Null) => None,
                Some(Json::Arr(items)) => match extract_topics(items, depth - 1) {
                    Ok(list) => Some(list),
                    Err(m) => {
                        return Err(m);
                    },
                },
                Some(_) => {
                    return ext_err("expected a sub-topic array or null");
                },
            };
            Ok(Topic { title, bullet_points, sub_topics })
        },
        _ => ext_err("expected a topic object"),
    }
}

/// Reads an array of topics element by element.
fn extract_topics(items: &Vec<Json>, depth: u64) -> (r: Result<Vec<Topic>, String>)
    ensures
        r is Ok <==> topics_ok(items@, depth as nat),
        r matches Ok(list) ==> topics_match(items@, list@, depth as nat),
    decreases depth, 1nat,
{
    let mut list: Vec<Topic> = Vec::new();
    let mut i: usize = 0;
    while i < items.len()
        invariant
            i <= items@.len(),
            list@.len() == i,
            forall|k: int| 0 <= k < i ==> topic_ok(#[trigger] items@[k], depth as nat),
            forall|k: int| 0 <= k < i ==> topic_matches(#[trigger] items@[k], list@[k], depth as nat),
        decreases items@.len() - i,
    {
        match extract_topic(&items[i], depth) {
            Ok(t) => {
                list.push(t);
            },
            Err(m) => {
                return Err(m);
            },
        }
        i = i + 1;
    }
    Ok(list)
}

fn extract_todo(j: &Json) -> (r: Result<ToDo, String>)
    ensures
        r is Ok <==> todo_ok(*j),
        r matches Ok(t) ==> todo_matches(*j, t),
{
    match j {
        Json::Obj(fields) => {
            let assignees: Option<Vec<String>> = match get_field(fields, "assignees") {
                None => None,
                Some(Json::Null) => None,
                Some(Json::Arr(items)) => match extract_str_arr(items) {
                    Ok(list) => Some(list),
                    Err(m) => {
                        return Err(m);
                    },
                },
                Some(_) => {
                    return ext_err("expected an assignee array or null");
                },
            };
            let task = match extract_req_str(fields, "task") {
                Ok(v) => v,
                Err(m) => {
                    return Err(m);
                },
            };
            Ok(ToDo { assignees, task })
        },
        _ => ext_err("expected a to-do object"),
    }
}

fn extract_todos(items: &Vec<Json>) -> (r: Result<Vec<ToDo>, String>)
    ensures
        r is Ok <==> todos_ok(items@),
        r matches Ok(list) ==> todos_match(items@, list@),
{
    let mut list: Vec<ToDo> = Vec::new();
    let mut i: usize = 0;
    while i < items.len()
        invariant
            i <= items@.len(),
            list@.len() == i,
            forall|k: int| 0 <= k < i ==> todo_ok(#[trigger] items@[k]),
            forall|k: int| 0 <= k < i ==> todo_matches(#[trigger] items@[k], list@[k]),
        decreases items@.len() - i,
    {
        match extract_todo(&items[i]) {
            Ok(t) => {
                list.push(t);
            },
            Err(m) => {
                return Err(m);
            },
        }
        i = i + 1;
    }
    Ok(list)
}

/// Reads a partial summary out of a parsed document, succeeding exactly on
/// well-shaped documents and returning exactly the denoted value.
pub fn extract_first_summary(j: &Json) -> (r: Result<FirstSummaryFormat, String>)
    ensures
        r is Ok <==> first_summary_ok(*j),
        r matches Ok(v) ==> first_summary_matches(*j, v),
{
    match j {
        Json::Obj(fields) => {
            let key_facts = match get_field(fields, "key_facts") {
                Some(kf) => match extract_key_fact(kf) {
                    Ok(k) => k,
                    Err(m) => {
                        return Err(m);
                    },
                },
                None => {
                    return ext_err("missing required field");
                },
            };
            let topics = match get_field(fields, "topics") {
                Some(Json::Arr(items)) => match extract_topics(items, TOPIC_DEPTH) {
                    Ok(list) => list,
                    Err(m) => {
                        return Err(m);
                    },
                },
                Some(_) => {
                    return ext_err("expected a topic array");
                },
                None => {
                    return ext_err("missing required field");
                },
            };
            let todos: Option<Vec<ToDo>> = match get_field(fields, "todos") {
                None => None,
                Some(Json::Null) => None,
                Some(Json::Arr(items)) => match extract_todos(items) {
                    Ok(list) => Some(list),
                    Err(m) => {
                        return Err(m);
                    },
                },
                Some(_) => {
                    return ext_err("expected a to-do array or null");
                },
            };
            Ok(FirstSummaryFormat { key_facts, topics, todos })
        },
        _ => ext_err("expected a summary object"),
    }
}

/// Reads a final summary out of a parsed document, succeeding exactly on
/// well-shaped documents and returning exactly the denoted value.
pub fn extract_final_summary(j: &Json) -> (r: Result<FinalSummaryFormat, String>)
    ensures
        r is Ok <==> final_summary_ok(*j),
        r matches Ok(v) ==> final_summary_matches(*j, v),
{
    match j {
        Json::Obj(fields) => {
            let title = match get_field(fields, "title") {
                Some(t) => match t {
                    Json::Obj(tf) => {
                        let emoji = match extract_req_str(tf, "emoji") {
                            Ok(v) => v,
                            Err(m) => {
                                return Err(m);
                            },
                        };
                        let text = match extract_req_str(tf, "text") {
                            Ok(v) => v,
                            Err(m) => {
                                return Err(m);
                            },
                        };
                        Title { emoji, text }
                    },
                    _ => {
                        return ext_err("expected a title object");
                    },
                },
                None => {
                    return ext_err("missing required field");
                },
            };
            let key_facts = match get_field(fields, "key_facts") {
                Some(kf) => match extract_key_fact(kf) {
                    Ok(k) => k,
                    Err(m) => {
                        return Err(m);
                    },
                },
                None => {
                    return ext_err("missing required field");
                },
            };
            let summary = match extract_req_str(fields, "summary") {
                Ok(v) => v,
                Err(m) => {
                    return Err(m);
                },
            };
            let topics = match get_field(fields, "topics") {
                Some(Json::Arr(items)) => match extract_topics(items, TOPIC_DEPTH) {
                    Ok(list) => list,
                    Err(m) => {
                        return Err(m);
                    },
                },
                Some(_) => {
                    return ext_err("expected a topic array");
                },
                None => {
                    return ext_err("missing required field");
                },
            };
            let todos = match get_field(fields, "todos") {
                Some(Json::Arr(items)) => match extract_todos(items) {
                    Ok(list) => list,
                    Err(m) => {
                        return Err(m);
                    },
                },
                Some(_) => {
                    return ext_err("expected a to-do array");
                },
                None => {
                    return ext_err("missing required field");
                },
            };
            Ok(FinalSummaryFormat { title, key_facts, summary, topics, todos })
        },
        _ => ext_err("expected a summary object"),
    }
}

/// Reads a generation-endpoint response body, requiring every documented
/// field.
pub fn extract_ollama_response(j: &Json) -> (r: Result<OllamaResponse, String>)
    ensures
        r is Ok <==> ollama_response_ok(*j),
        r matches Ok(v) ==> ollama_response_matches(*j, v),
{
    match j {
        Json::Obj(fields) => {
            let model = match extract_req_str(fields, "model") {
                Ok(v) => v,
                Err(m) => {
                    return Err(m);
                },
            };
            let created_at = match extract_req_str(fields, "created_at") {
                Ok(v) => v,
                Err(m) => {
                    return Err(m);
                },
            };
            let response = match extract_req_str(fields, "response") {
                Ok(v) => v,
                Err(m) => {
                    return Err(m);
                },
            };
            let done = match extract_req_bool(fields, "done") {
                Ok(v) => v,
                Err(m) => {
                    return Err(m);
                },
            };
            let done_reason = match extract_req_str(fields, "done_reason") {
                Ok(v) => v,
                Err(m) => {
                    return Err(m);
                },
            };
            let context: Vec<i64> = match get_field(fields, "context") {
                Some(Json::Arr(items)) => {
                    let mut list: Vec<i64> = Vec::new();
                    let mut i: usize = 0;
                    let mut bad = false;
                    while i < items.len()
                        invariant
                            i <= items@.len(),
                            !bad ==> list@.len() == i,
                            !bad ==> forall|k: int|
                                0 <= k < i ==> (#[trigger] items@[k]) matches Json::Int(_),
                            !bad ==> forall|k: int|
                                0 <= k < i ==> list@[k] == (#[trigger] items@[k])->Int_0,
                            bad ==> exists|k: int|
                                0 <= k < items@.len() && !((#[trigger] items@[k]) matches Json::Int(
                                    _,
                                )),
                        decreases items@.len() - i,
                    {
                        match &items[i] {
                            Json::Int(v) => {
                                list.push(*v);
                            },
                            _ => {
                                bad = true;
                            },
                        }
                        i = i + 1;
                    }
                    if bad {
                        return ext_err("expected an integer array");
                    }
                    list
                },
                Some(_) => {
                    return ext_err("expected an integer array");
                },
                None => {
                    return ext_err("missing required field");
                },
            };
            let total_duration = match extract_req_i64(fields, "total_duration") {
                Ok(v) => v,
                Err(m) => {
                    return Err(m);
                },
            };
            let load_duration = match extract_req_i64(fields, "load_duration") {
                Ok(v) => v,
                Err(m) => {
                    return Err(m);
                },
            };
            let prompt_eval_count = match extract_req_i64(fields, "prompt_eval_count") {
                Ok(v) => v,
                Err(m) => {
                    return Err(m);
                },
            };
            let prompt_eval_duration = match extract_req_i64(fields, "prompt_eval_duration") {
                Ok(v) => v,
                Err(m) => {
                    return Err(m);
                },
            };
            let eval_count = match extract_req_i64(fields, "eval_count") {
                Ok(v) => v,
                Err(m) => {
                    return Err(m);
                },
            };
            let eval_duration = match extract_req_i64(fields, "eval_duration") {
                Ok(v) => v,
                Err(m) => {
                    return Err(m);
                },
            };
            Ok(
                OllamaResponse {
                    model,
                    created_at,
                    response,
                    done,
                    done_reason,
                    context,
                    total_duration,
                    load_duration,
                    prompt_eval_count,
                    prompt_eval_duration,
                    eval_count,
                    eval_duration,
                },
            )
        },
        _ => ext_err("expected a response object"),
    }
}

// ---------------------------------------------------------------------
// Rendering a stored chunk summary for display.
// ---------------------------------------------------------------------
/// The value of a field of a JSON object; `None` on any other value.
pub open spec fn jget(j: Json, key: Seq<char>) -> Option<Json> {
    match j {
        Json::Obj(fields) => obj_get(fields@, key),
        _ => None,
    }
}

/// The bullet lines of a displayed topic: one per string element, other
/// elements skipped.
pub open spec fn display_bullets_md(items: Seq<Json>) -> Seq<char>
    decreases items.len(),
{
    if items.len() == 0 {
        Seq::empty()
    } else {
        (match items[0] {
            Json::Str(s) => "- "@ + s@ + "\n"@,
            _ => Seq::<char>::empty(),
        }) + display_bullets_md(items.drop_first())
    }
}

/// One displayed topic: a heading for its title and its bullet lines; a
/// topic without a string title is skipped, and the bullet block only
/// appears when a bullet array is present.
pub open spec fn display_topic_md(t: Json) -> Seq<char> {
    match jget(t, "title"@) {
        Some(Json::Str(title)) => "### "@ + title@ + "\n\n"@ + (match jget(
            t,
            "bullet_points"@,
        ) {
            Some(Json::Arr(bps)) => display_bullets_md(bps@) + "\n"@,
            _ => Seq::<char>::empty(),
        }),
        _ => Seq::empty(),
    }
}

/// The displayed topic blocks in order.
pub open spec fn display_topics_md(items: Seq<Json>) -> Seq<char>
    decreases items.len(),
{
    if items.len() == 0 {
        Seq::empty()
    } else {
        display_topic_md(items[0]) + display_topics_md(items.drop_first())
    }
}

/// The string elements of an array, as the assignee names to display.
pub open spec fn names_of(items: Seq<Json>) -> Seq<String>
    decreases items.len(),
{
    if items.len() == 0 {
        Seq::empty()
    } else {
        (match items[0] {
            Json::Str(s) => seq![s],
            _ => Seq::<String>::empty(),
        }) + names_of(items.drop_first())
    }
}

/// One displayed to-do line: the task, prefixed by its assignees when any
/// are named; a to-do without a string task is skipped.
pub open spec fn display_todo_md(t: Json) -> Seq<char> {
    match jget(t, "task"@) {
        Some(Json::Str(task)) => match jget(t, "assignees"@) {
            Some(Json::Arr(a)) => if names_of(a@).len() > 0 {
                "- **["@ + crate::models::joined_md(names_of(a@), ", "@) + "]**: "@ + task@ + "\n"@
            } else {
                "- "@ + task@ + "\n"@
            },
            _ => "- "@ + task@ + "\n"@,
        },
        _ => Seq::empty(),
    }
}

/// The displayed to-do lines in order.
pub open spec fn display_todos_md(items: Seq<Json>) -> Seq<char>
    decreases items.len(),
{
    if items.len() == 0 {
        Seq::empty()
    } else {
        display_todo_md(items[0]) + display_todos_md(items.drop_first())
    }
}

/// The topic and to-do blocks of a displayed chunk summary.
pub open spec fn chunk_summary_body_md(j: Json) -> Seq<char> {
    (match jget(j, "topics"@) {
        Some(Json::Arr(ts)) => display_topics_md(ts@),
        _ => Seq::<char>::empty(),
    }) + (match jget(j, "todos"@) {
        Some(Json::Arr(ts)) => if ts@.len() > 0 {
            "### Action Items\n\n"@ + display_todos_md(ts@)
        } else {
            Seq::<char>::empty()
        },
        _ => Seq::<char>::empty(),
    })
}

/// The whole displayed form of a stored chunk summary: its topic blocks,
/// an action-items block when the to-do array is nonempty, and a
/// placeholder when nothing at all is renderable.
pub open spec fn chunk_summary_md(j: Json) -> Seq<char> {
    if chunk_summary_body_md(j).len() == 0 {
        "No summary content available"@
    } else {
        chunk_summary_body_md(j)
    }
}

fn jget_exec<'a>(j: &'a Json, key: &str) -> (r: Option<&'a Json>)
    ensures
        match r {
            Some(v) => jget(*j, key@) == Some(*v),
            None => jget(*j, key@) is None,
        },
{
    match j {
        Json::Obj(fields) => get_field(fields, key),
        _ => None,
    }
}

fn append_display_bullets(out: &mut String, items: &Vec<Json>)
    ensures
        final(out)@ == old(out)@ + display_bullets_md(items@),
{
    let ghost base = out@;
    proof {
        assert(items@.skip(0) =~= items@);
    }
    let mut i: usize = 0;
    while i < items.len()
        invariant
            i <= items@.len(),
            out@ + display_bullets_md(items@.skip(i as int)) == base + display_bullets_md(items@),
        decreases items@.len() - i,
    {
        let ghost pre = out@;
        proof {
            assert(items@.skip(i as int)[0] == items@[i as int]);
            assert(items@.skip(i as int).drop_first() =~= items@.skip(i as int + 1));
        }
        match &items[i] {
            Json::Str(sv) => {
                out.append("- ");
                out.append(sv.as_str());
                out.append("\n");
                proof {
                    assert(out@ =~= pre + ("- "@ + sv@ + "\n"@));
                }
            },
            _ => {},
        }
        i = i + 1;
    }
    proof {
        assert(display_bullets_md(items@.skip(items@.len() as int)) =~= Seq::<char>::empty());
        assert(final(out)@ =~= old(out)@ + display_bullets_md(items@));
    }
}

fn append_display_topics(out: &mut String, items: &Vec<Json>)
    ensures
        final(out)@ == old(out)@ + display_topics_md(items@),
{
    let ghost base = out@;
    proof {
        assert(items@.skip(0) =~= items@);
    }
    let mut i: usize = 0;
    while i < items.len()
        invariant
            i <= items@.len(),
            out@ + display_topics_md(items@.skip(i as int)) == base + display_topics_md(items@),
        decreases items@.len() - i,
    {
        let ghost pre = out@;
        proof {
            assert(items@.skip(i as int)[0] == items@[i as int]);
            assert(items@.skip(i as int).drop_first() =~= items@.skip(i as int + 1));
        }
        let t = &items[i];
        match jget_exec(t, "title") {
            Some(Json::Str(title)) => {
                out.append("### ");
                out.append(title.as_str());
                out.append("\n\n");
                match jget_exec(t, "bullet_points") {
                    Some(Json::Arr(bps)) => {
                        append_display_bullets(out, bps);
                        out.append("\n");
                    },
                    _ => {},
                }
                proof {
                    assert(out@ =~= pre + display_topic_md(items@[i as int]));
                }
            },
            _ => {},
        }
        i = i + 1;
    }
    proof {
        assert(display_topics_md(items@.skip(items@.len() as int)) =~= Seq::<char>::empty());
        assert(final(out)@ =~= old(out)@ + display_topics_md(items@));
    }
}

fn collect_names(items: &Vec<Json>) -> (r: Vec<String>)
    ensures
        r@ == names_of(items@),
{
    let mut names: Vec<String> = Vec::new();
    proof {
        assert(items@.skip(0) =~= items@);
    }
    let mut i: usize = 0;
    while i < items.len()
        invariant
            i <= items@.len(),
            names@ + names_of(items@.skip(i as int)) == names_of(items@),
        decreases items@.len() - i,
    {
        proof {
            assert(items@.skip(i as int)[0] == items@[i as int]);
            assert(items@.skip(i as int).drop_first() =~= items@.skip(i as int + 1));
        }
        match &items[i] {
            Json::Str(sv) => {
                names.push(sv.clone());
                proof {
                    assert(names@ + names_of(items@.skip(i as int + 1)) =~= names_of(items@));
                }
            },
            _ => {},
        }
        i = i + 1;
    }
    proof {
        assert(names_of(items@.skip(items@.len() as int)) =~= Seq::<String>::empty());
        assert(names@ =~= names_of(items@));
    }
    names
}

fn append_display_todos(out: &mut String, items: &Vec<Json>)
    ensures
        final(out)@ == old(out)@ + display_todos_md(items@),
{
    let ghost base = out@;
    proof {
        assert(items@.skip(0) =~= items@);
    }
    let mut i: usize = 0;
    while i < items.len()
        invariant
            i <= items@.len(),
            out@ + display_todos_md(items@.skip(i as int)) == base + display_todos_md(items@),
        decreases items@.len() - i,
    {
        let ghost pre = out@;
        proof {
            assert(items@.skip(i as int)[0] == items@[i as int]);
            assert(items@.skip(i as int).drop_first() =~= items@.skip(i as int + 1));
        }
        let t = &items[i];
        match jget_exec(t, "task") {
            Some(Json::Str(task)) => {
                let mut plain = true;
                match jget_exec(t, "assignees") {
                    Some(Json::Arr(a)) => {
                        let names = collect_names(a);
                        if names.len() > 0 {
                            plain = false;
                            out.append("- **[");
                            crate::models::append_joined_names(out, &names, ", ");
                            out.append("]**: ");
                            out.append(task.as_str());
                            out.append("\n");
                        }
                    },
                    _ => {},
                }
                if plain {
                    out.append("- ");
                    out.append(task.as_str());
                    out.append("\n");
                }
                proof {
                    assert(out@ =~= pre + display_todo_md(items@[i as int]));
                }
            },
            _ => {},
        }
        i = i + 1;
    }
    proof {
        assert(display_todos_md(items@.skip(items@.len() as int)) =~= Seq::<char>::empty());
        assert(final(out)@ =~= old(out)@ + display_todos_md(items@));
    }
}

/// Renders a stored chunk summary document for display: topic headings
/// with their bullet points, then an action-items block, exactly as
/// `chunk_summary_md` describes.
pub fn format_chunk_summary_as_markdown(summary: &Json) -> (r: String)
    ensures
        r@ == chunk_summary_md(*summary),
{
    let mut out = String::new();
    match jget_exec(summary, "topics") {
        Some(Json::Arr(ts)) => {
            append_display_topics(&mut out, ts);
        },
        _ => {},
    }
    match jget_exec(summary, "todos") {
        Some(Json::Arr(ts)) => {
            if ts.len() > 0 {
                let ghost pre = out@;
                out.append("### Action Items\n\n");
                append_display_todos(&mut out, ts);
                proof {
                    assert(out@ =~= pre + ("### Action Items\n\n"@ + display_todos_md(ts@)));
                }
            }
        },
        _ => {},
    }
    if out.as_str().is_empty() {
        let r = String::from_str("No summary content available");
        proof {
            assert(out@ =~= Seq::<char>::empty());
        }
        r
    } else {
        out
    }
}

/// Renders persisted chunk-summary text for display, or nothing when the
/// text is not a JSON document (the caller then falls back to the raw
/// text): exactly the rendering of the tree the text denotes.
pub fn chunk_summary_markdown(text: &str) -> (r: Option<String>)
    ensures
        r is Some <==> json_doc(text@) is Some,
        r matches Some(m) ==> exists|j: Json|
            #[trigger] jview(j) == json_doc(text@)->Some_0 && m@ == chunk_summary_md(j),
{
    match crate::json::parse_json(text) {
        Ok(tree) => {
            let rendered = format_chunk_summary_as_markdown(&tree);
            proof {
                assert(jview(tree) == json_doc(text@)->Some_0 && rendered@ == chunk_summary_md(
                    tree,
                ));
            }
            Some(rendered)
        },
        Err(_) => None,
    }
}

// ---------------------------------------------------------------------
// The same shapes, stated over denoted trees. These are the forms the
// parsing entry points speak of: a reply text conforms when the tree it
// denotes satisfies them, and the extracted value is pinned against that
// tree. Each mirrors its tree-level twin above, and the bridge lemmas
// below prove the two levels agree through `jview`.
// ---------------------------------------------------------------------
/// The value of the field named `key` of a denoted object; the last
/// occurrence wins.
pub open spec fn obj_getv(fields: Seq<(Seq<char>, JsonV)>, key: Seq<char>) -> Option<JsonV>
    decreases fields.len(),
{
    if fields.len() == 0 {
        None
    } else if fields.last().0 == key {
        Some(fields.last().1)
    } else {
        obj_getv(fields.drop_last(), key)
    }
}

/// A nullable string field is well-shaped: absent, null, or a string.
pub open spec fn opt_str_okv(fields: Seq<(Seq<char>, JsonV)>, key: Seq<char>) -> bool {
    match obj_getv(fields, key) {
        None => true,
        Some(JsonV::Null) => true,
        Some(JsonV::Str(_)) => true,
        _ => false,
    }
}

/// The text a well-shaped nullable string field denotes.
pub open spec fn opt_str_valv(fields: Seq<(Seq<char>, JsonV)>, key: Seq<char>) -> Option<
    Seq<char>,
> {
    match obj_getv(fields, key) {
        Some(JsonV::Str(t)) => Some(t),
        _ => None,
    }
}

/// A required string field is present and a string.
pub open spec fn req_str_okv(fields: Seq<(Seq<char>, JsonV)>, key: Seq<char>) -> bool {
    obj_getv(fields, key) matches Some(JsonV::Str(_))
}

/// The text of a required string field.
pub open spec fn req_str_valv(fields: Seq<(Seq<char>, JsonV)>, key: Seq<char>) -> Seq<char> {
    obj_getv(fields, key)->Some_0->Str_0
}

/// A required integer field is present and an integer.
pub open spec fn req_int_okv(fields: Seq<(Seq<char>, JsonV)>, key: Seq<char>) -> bool {
    obj_getv(fields, key) matches Some(JsonV::Int(_))
}

/// The value of a required integer field.
pub open spec fn req_int_valv(fields: Seq<(Seq<char>, JsonV)>, key: Seq<char>) -> i64 {
    obj_getv(fields, key)->Some_0->Int_0
}

/// A required boolean field is present and a boolean.
pub open spec fn req_bool_okv(fields: Seq<(Seq<char>, JsonV)>, key: Seq<char>) -> bool {
    obj_getv(fields, key) matches Some(JsonV::Bool(_))
}

/// The value of a required boolean field.
pub open spec fn req_bool_valv(fields: Seq<(Seq<char>, JsonV)>, key: Seq<char>) -> bool {
    obj_getv(fields, key)->Some_0->Bool_0
}

/// A denoted attendee object.
pub open spec fn attendee_okv(jv: JsonV) -> bool {
    &&& jv matches JsonV::Obj(fields)
    &&& req_int_okv(fields, "id"@)
    &&& 0 <= req_int_valv(fields, "id"@) <= usize::MAX
    &&& req_str_okv(fields, "name"@)
}

/// `a` is the attendee the denoted object describes.
pub open spec fn attendee_matchesv(jv: JsonV, a: Attendee) -> bool {
    &&& attendee_okv(jv)
    &&& a.id == req_int_valv(jv->Obj_0, "id"@) as usize
    &&& a.name@ == req_str_valv(jv->Obj_0, "name"@)
}

/// The nullable `attendees` field holds nothing or an array of attendees.
pub open spec fn attendees_field_okv(fields: Seq<(Seq<char>, JsonV)>) -> bool {
    match obj_getv(fields, "attendees"@) {
        None => true,
        Some(JsonV::Null) => true,
        Some(JsonV::Arr(items)) => forall|i: int|
            0 <= i < items.len() ==> attendee_okv(#[trigger] items[i]),
        _ => false,
    }
}

/// `v` is the attendee list the `attendees` field denotes.
pub open spec fn attendees_field_matchesv(
    fields: Seq<(Seq<char>, JsonV)>,
    v: Option<Vec<Attendee>>,
) -> bool {
    match obj_getv(fields, "attendees"@) {
        None => v is None,
        Some(JsonV::Null) => v is None,
        Some(JsonV::Arr(items)) => v matches Some(list) && list@.len() == items.len() && (forall|
            i: int,
        |
            0 <= i < items.len() ==> attendee_matchesv(#[trigger] items[i], list@[i])),
        _ => false,
    }
}

/// A denoted key-facts object.
pub open spec fn key_fact_okv(jv: JsonV) -> bool {
    &&& jv matches JsonV::Obj(fields)
    &&& opt_str_okv(fields, "responisible_for_moderation"@)
    &&& opt_str_okv(fields, "responisible_for_protocol"@)
    &&& opt_str_okv(fields, "responisible_for_timekeeping"@)
    &&& attendees_field_okv(fields)
}

/// An optional string value has the denoted text.
pub open spec fn opt_str_matchesv(t: Option<Seq<char>>, v: Option<String>) -> bool {
    match t {
        None => v is None,
        Some(text) => v matches Some(s) && s@ == text,
    }
}

/// `k` is the key-facts value the denoted object describes.
pub open spec fn key_fact_matchesv(jv: JsonV, k: KeyFact) -> bool {
    &&& key_fact_okv(jv)
    &&& opt_str_matchesv(
        opt_str_valv(jv->Obj_0, "responisible_for_moderation"@),
        k.responisible_for_moderation,
    )
    &&& opt_str_matchesv(
        opt_str_valv(jv->Obj_0, "responisible_for_protocol"@),
        k.responisible_for_protocol,
    )
    &&& opt_str_matchesv(
        opt_str_valv(jv->Obj_0, "responisible_for_timekeeping"@),
        k.responisible_for_timekeeping,
    )
    &&& attendees_field_matchesv(jv->Obj_0, k.attendees)
}

/// A required array-of-strings field.
pub open spec fn str_arr_okv(fields: Seq<(Seq<char>, JsonV)>, key: Seq<char>) -> bool {
    match obj_getv(fields, key) {
        Some(JsonV::Arr(items)) => forall|i: int|
            0 <= i < items.len() ==> (#[trigger] items[i]) matches JsonV::Str(_),
        _ => false,
    }
}

/// `v` is the string list a required array-of-strings field denotes.
pub open spec fn str_arr_matchesv(
    fields: Seq<(Seq<char>, JsonV)>,
    key: Seq<char>,
    v: Vec<String>,
) -> bool {
    match obj_getv(fields, key) {
        Some(JsonV::Arr(items)) => v@.len() == items.len() && (forall|i: int|
            0 <= i < items.len() ==> v@[i]@ == (#[trigger] items[i])->Str_0),
        _ => false,
    }
}

/// A nullable array-of-strings field.
pub open spec fn opt_str_arr_okv(fields: Seq<(Seq<char>, JsonV)>, key: Seq<char>) -> bool {
    match obj_getv(fields, key) {
        None => true,
        Some(JsonV::Null) => true,
        Some(JsonV::Arr(items)) => forall|i: int|
            0 <= i < items.len() ==> (#[trigger] items[i]) matches JsonV::Str(_),
        _ => false,
    }
}

/// `v` is the string list a nullable array-of-strings field denotes.
pub open spec fn opt_str_arr_matchesv(
    fields: Seq<(Seq<char>, JsonV)>,
    key: Seq<char>,
    v: Option<Vec<String>>,
) -> bool {
    match obj_getv(fields, key) {
        None => v is None,
        Some(JsonV::Null) => v is None,
        Some(JsonV::Arr(items)) => v matches Some(list) && list@.len() == items.len() && (forall|
            i: int,
        |
            0 <= i < items.len() ==> list@[i]@ == (#[trigger] items[i])->Str_0),
        _ => false,
    }
}

/// A denoted topic object, nested less than `depth` levels deep.
pub open spec fn topic_okv(jv: JsonV, depth: nat) -> bool
    decreases depth, 0nat,
{
    &&& depth > 0
    &&& jv matches JsonV::Obj(fields)
    &&& req_str_okv(fields, "title"@)
    &&& str_arr_okv(fields, "bullet_points"@)
    &&& match obj_getv(fields, "sub_topics"@) {
        None => true,
        Some(JsonV::Null) => true,
        Some(JsonV::Arr(items)) => topics_okv(items, (depth - 1) as nat),
        _ => false,
    }
}

/// Every element is a well-shaped denoted topic.
pub open spec fn topics_okv(items: Seq<JsonV>, depth: nat) -> bool
    decreases depth, 1nat,
{
    forall|i: int| 0 <= i < items.len() ==> topic_okv(#[trigger] items[i], depth)
}

/// `t` is the topic the denoted object describes.
pub open spec fn topic_matchesv(jv: JsonV, t: Topic, depth: nat) -> bool
    decreases depth, 0nat,
{
    &&& depth > 0
    &&& jv matches JsonV::Obj(fields)
    &&& t.title@ == req_str_valv(fields, "title"@)
    &&& str_arr_matchesv(fields, "bullet_points"@, t.bullet_points)
    &&& match obj_getv(fields, "sub_topics"@) {
        None => t.sub_topics is None,
        Some(JsonV::Null) => t.sub_topics is None,
        Some(JsonV::Arr(items)) => t.sub_topics matches Some(subs) && topics_matchv(
            items,
            subs@,
            (depth - 1) as nat,
        ),
        _ => false,
    }
}

/// `ts` is the topic list the denoted array describes, element by
/// element.
pub open spec fn topics_matchv(items: Seq<JsonV>, ts: Seq<Topic>, depth: nat) -> bool
    decreases depth, 1nat,
{
    ts.len() == items.len() && (forall|i: int|
        0 <= i < items.len() ==> topic_matchesv(#[trigger] items[i], ts[i], depth))
}

/// A denoted to-do object.
pub open spec fn todo_okv(jv: JsonV) -> bool {
    &&& jv matches JsonV::Obj(fields)
    &&& opt_str_arr_okv(fields, "assignees"@)
    &&& req_str_okv(fields, "task"@)
}

/// `t` is the to-do the denoted object describes.
pub open spec fn todo_matchesv(jv: JsonV, t: ToDo) -> bool {
    &&& todo_okv(jv)
    &&& opt_str_arr_matchesv(jv->Obj_0, "assignees"@, t.assignees)
    &&& t.task@ == req_str_valv(jv->Obj_0, "task"@)
}

/// Every element is a well-shaped denoted to-do.
pub open spec fn todos_okv(items: Seq<JsonV>) -> bool {
    forall|i: int| 0 <= i < items.len() ==> todo_okv(#[trigger] items[i])
}

/// `ts` is the to-do list the denoted array describes.
pub open spec fn todos_matchv(items: Seq<JsonV>, ts: Seq<ToDo>) -> bool {
    ts.len() == items.len() && (forall|i: int|
        0 <= i < items.len() ==> todo_matchesv(#[trigger] items[i], ts[i]))
}

/// A denoted partial-summary document.
pub open spec fn first_summary_okv(jv: JsonV) -> bool {
    &&& jv matches JsonV::Obj(fields)
    &&& match obj_getv(fields, "key_facts"@) {
        Some(kf) => key_fact_okv(kf),
        None => false,
    }
    &&& match obj_getv(fields, "topics"@) {
        Some(JsonV::Arr(items)) => topics_okv(items, TOPIC_DEPTH as nat),
        _ => false,
    }
    &&& match obj_getv(fields, "todos"@) {
        None => true,
        Some(JsonV::Null) => true,
        Some(JsonV::Arr(items)) => todos_okv(items),
        _ => false,
    }
}

/// `v` is the partial summary the denoted document describes.
pub open spec fn first_summary_matchesv(jv: JsonV, v: FirstSummaryFormat) -> bool {
    &&& jv matches JsonV::Obj(fields)
    &&& match obj_getv(fields, "key_facts"@) {
        Some(kf) => key_fact_matchesv(kf, v.key_facts),
        None => false,
    }
    &&& match obj_getv(fields, "topics"@) {
        Some(JsonV::Arr(items)) => topics_matchv(items, v.topics@, TOPIC_DEPTH as nat),
        _ => false,
    }
    &&& match obj_getv(fields, "todos"@) {
        None => v.todos is None,
        Some(JsonV::Null) => v.todos is None,
        Some(JsonV::Arr(items)) => v.todos matches Some(ts) && todos_matchv(items, ts@),
        _ => false,
    }
}

/// A denoted title object.
pub open spec fn title_okv(jv: JsonV) -> bool {
    &&& jv matches JsonV::Obj(fields)
    &&& req_str_okv(fields, "emoji"@)
    &&& req_str_okv(fields, "text"@)
}

/// `t` is the title the denoted object describes.
pub open spec fn title_matchesv(jv: JsonV, t: Title) -> bool {
    &&& title_okv(jv)
    &&& t.emoji@ == req_str_valv(jv->Obj_0, "emoji"@)
    &&& t.text@ == req_str_valv(jv->Obj_0, "text"@)
}

/// A denoted final-summary document.
pub open spec fn final_summary_okv(jv: JsonV) -> bool {
    &&& jv matches JsonV::Obj(fields)
    &&& match obj_getv(fields, "title"@) {
        Some(t) => title_okv(t),
        None => false,
    }
    &&& match obj_getv(fields, "key_facts"@) {
        Some(kf) => key_fact_okv(kf),
        None => false,
    }
    &&& req_str_okv(fields, "summary"@)
    &&& match obj_getv(fields, "topics"@) {
        Some(JsonV::Arr(items)) => topics_okv(items, TOPIC_DEPTH as nat),
        _ => false,
    }
    &&& match obj_getv(fields, "todos"@) {
        Some(JsonV::Arr(items)) => todos_okv(items),
        _ => false,
    }
}

/// `f` is the final summary the denoted document describes.
pub open spec fn final_summary_matchesv(jv: JsonV, f: FinalSummaryFormat) -> bool {
    &&& jv matches JsonV::Obj(fields)
    &&& match obj_getv(fields, "title"@) {
        Some(t) => title_matchesv(t, f.title),
        None => false,
    }
    &&& match obj_getv(fields, "key_facts"@) {
        Some(kf) => key_fact_matchesv(kf, f.key_facts),
        None => false,
    }
    &&& f.summary@ == req_str_valv(fields, "summary"@)
    &&& match obj_getv(fields, "topics"@) {
        Some(JsonV::Arr(items)) => topics_matchv(items, f.topics@, TOPIC_DEPTH as nat),
        _ => false,
    }
    &&& match obj_getv(fields, "todos"@) {
        Some(JsonV::Arr(items)) => todos_matchv(items, f.todos@),
        _ => false,
    }
}

/// A denoted generation-endpoint response body, every field required.
pub open spec fn ollama_response_okv(jv: JsonV) -> bool {
    &&& jv matches JsonV::Obj(fields)
    &&& req_str_okv(fields, "model"@)
    &&& req_str_okv(fields, "created_at"@)
    &&& req_str_okv(fields, "response"@)
    &&& req_bool_okv(fields, "done"@)
    &&& req_str_okv(fields, "done_reason"@)
    &&& match obj_getv(fields, "context"@) {
        Some(JsonV::Arr(items)) => forall|i: int|
            0 <= i < items.len() ==> (#[trigger] items[i]) matches JsonV::Int(_),
        _ => false,
    }
    &&& req_int_okv(fields, "total_duration"@)
    &&& req_int_okv(fields, "load_duration"@)
    &&& req_int_okv(fields, "prompt_eval_count"@)
    &&& req_int_okv(fields, "prompt_eval_duration"@)
    &&& req_int_okv(fields, "eval_count"@)
    &&& req_int_okv(fields, "eval_duration"@)
}

/// The generated text of a denoted response body: its `response` field.
pub open spec fn ollama_response_textv(jv: JsonV) -> Seq<char> {
    req_str_valv(jv->Obj_0, "response"@)
}

// ---------------------------------------------------------------------
// The two levels agree through the denotation.
// ---------------------------------------------------------------------
proof fn lemma_obj_get_bridge(fields: Seq<(String, Json)>, key: Seq<char>)
    ensures
        obj_get(fields, key) is None <==> obj_getv(jview_fields(fields), key) is None,
        obj_get(fields, key) matches Some(j) ==> obj_getv(jview_fields(fields), key) == Some(
            jview(j),
        ),
    decreases fields.len(),
{
    lemma_jview_fields_index(fields);
    if fields.len() > 0 {
        assert(jview_fields(fields).last() == (fields.last().0@, jview(fields.last().1)));
        if fields.last().0@ != key {
            lemma_obj_get_bridge(fields.drop_last(), key);
            lemma_jview_fields_index(fields.drop_last());
            assert forall|i: int|
                0 <= i < fields.len() - 1 implies jview_fields(fields.drop_last())[i]
                == jview_fields(fields).drop_last()[i] by {
                assert(fields.drop_last()[i] == fields[i]);
            }
            assert(jview_fields(fields.drop_last()) =~= jview_fields(fields).drop_last());
        }
    }
}

proof fn lemma_scalar_fields_bridge(fields: Seq<(String, Json)>, key: Seq<char>)
    ensures
        opt_str_ok(fields, key) == opt_str_okv(jview_fields(fields), key),
        opt_str_matchesv(opt_str_valv(jview_fields(fields), key), opt_str_val(fields, key))
            || !opt_str_ok(fields, key),
        req_str_ok(fields, key) == req_str_okv(jview_fields(fields), key),
        req_str_ok(fields, key) ==> req_str_val(fields, key)@ == req_str_valv(
            jview_fields(fields),
            key,
        ),
        req_int_ok(fields, key) == req_int_okv(jview_fields(fields), key),
        req_int_ok(fields, key) ==> req_int_val(fields, key) == req_int_valv(
            jview_fields(fields),
            key,
        ),
        req_bool_ok(fields, key) == req_bool_okv(jview_fields(fields), key),
        req_bool_ok(fields, key) ==> req_bool_val(fields, key) == req_bool_valv(
            jview_fields(fields),
            key,
        ),
{
    lemma_obj_get_bridge(fields, key);
    match obj_get(fields, key) {
        Some(j) => {
            assert(obj_getv(jview_fields(fields), key) == Some(jview(j)));
            match j {
                Json::Null => {},
                Json::Bool(_) => {},
                Json::Int(_) => {},
                Json::Str(_) => {},
                Json::Arr(_) => {},
                Json::Obj(_) => {},
            }
        },
        None => {},
    }
}

proof fn lemma_attendee_bridge(j: Json)
    ensures
        attendee_ok(j) == attendee_okv(jview(j)),
        attendee_ok(j) ==> attendee_matchesv(jview(j), attendee_val(j)),
{
    match j {
        Json::Obj(fields) => {
            lemma_scalar_fields_bridge(fields@, "id"@);
            lemma_scalar_fields_bridge(fields@, "name"@);
        },
        _ => {},
    }
}

proof fn lemma_attendees_field_bridge(fields: Seq<(String, Json)>, v: Option<Vec<Attendee>>)
    ensures
        attendees_field_ok(fields) == attendees_field_okv(jview_fields(fields)),
        attendees_field_ok(fields) && attendees_field_matches(fields, v)
            ==> attendees_field_matchesv(jview_fields(fields), v),
{
    lemma_obj_get_bridge(fields, "attendees"@);
    match obj_get(fields, "attendees"@) {
        Some(Json::Arr(items)) => {
            lemma_jview_list_index(items@);
            let viewed = jview_list(items@);
            assert(obj_getv(jview_fields(fields), "attendees"@) == Some(JsonV::Arr(viewed)));
            assert forall|i: int|
                0 <= i < items@.len() implies attendee_ok(#[trigger] items@[i]) == attendee_okv(
                viewed[i],
            ) by {
                lemma_attendee_bridge(items@[i]);
            }
            if attendees_field_ok(fields) {
                assert forall|i: int|
                    0 <= i < viewed.len() implies attendee_okv(#[trigger] viewed[i]) by {
                    assert(attendee_ok(items@[i]));
                }
                if attendees_field_matches(fields, v) {
                    match v {
                        Some(list) => {
                            assert forall|i: int|
                                0 <= i < viewed.len() implies attendee_matchesv(
                                #[trigger] viewed[i],
                                list@[i],
                            ) by {
                                lemma_attendee_bridge(items@[i]);
                                assert(attendee_ok(items@[i]));
                                assert(list@[i] == attendee_val(items@[i]));
                            }
                        },
                        None => {},
                    }
                }
            }
            if attendees_field_okv(jview_fields(fields)) {
                let got = obj_getv(jview_fields(fields), "attendees"@);
                assert(got == Some(JsonV::Arr(viewed)));
                assert forall|i: int|
                    0 <= i < items@.len() implies attendee_ok(#[trigger] items@[i]) by {
                    assert(attendee_okv(got->Some_0->Arr_0[i]));
                    assert(attendee_okv(viewed[i]));
                }
            }
        },
        Some(j) => {
            assert(obj_getv(jview_fields(fields), "attendees"@) == Some(jview(j)));
            match j {
                Json::Null => {},
                Json::Bool(_) => {},
                Json::Int(_) => {},
                Json::Str(_) => {},
                Json::Arr(_) => {},
                Json::Obj(_) => {},
            }
        },
        None => {},
    }
}

proof fn lemma_key_fact_bridge(j: Json, k: KeyFact)
    ensures
        key_fact_ok(j) == key_fact_okv(jview(j)),
        key_fact_ok(j) && key_fact_matches(j, k) ==> key_fact_matchesv(jview(j), k),
{
    match j {
        Json::Obj(fields) => {
            lemma_scalar_fields_bridge(fields@, "responisible_for_moderation"@);
            lemma_scalar_fields_bridge(fields@, "responisible_for_protocol"@);
            lemma_scalar_fields_bridge(fields@, "responisible_for_timekeeping"@);
            lemma_attendees_field_bridge(fields@, k.attendees);
        },
        _ => {},
    }
}

proof fn lemma_str_arr_bridge(fields: Seq<(String, Json)>, key: Seq<char>)
    ensures
        str_arr_ok(fields, key) == str_arr_okv(jview_fields(fields), key),
        opt_str_arr_ok(fields, key) == opt_str_arr_okv(jview_fields(fields), key),
        forall|v: Vec<String>|
            str_arr_ok(fields, key) && #[trigger] str_arr_matches(fields, key, v)
                ==> str_arr_matchesv(jview_fields(fields), key, v),
        forall|v: Option<Vec<String>>|
            opt_str_arr_ok(fields, key) && #[trigger] opt_str_arr_matches(fields, key, v)
                ==> opt_str_arr_matchesv(jview_fields(fields), key, v),
{
    lemma_obj_get_bridge(fields, key);
    match obj_get(fields, key) {
        Some(Json::Arr(items)) => {
            lemma_jview_list_index(items@);
            let viewed = jview_list(items@);
            assert(obj_getv(jview_fields(fields), key) == Some(JsonV::Arr(viewed)));
            assert forall|i: int|
                0 <= i < items@.len() implies ((#[trigger] items@[i]) matches Json::Str(_)
                == (viewed[i] matches JsonV::Str(_)) && (items@[i] matches Json::Str(_)
                ==> viewed[i]->Str_0 == items@[i]->Str_0@)) by {
                match items@[i] {
                    Json::Null => {},
                    Json::Bool(_) => {},
                    Json::Int(_) => {},
                    Json::Str(_) => {},
                    Json::Arr(_) => {},
                    Json::Obj(_) => {},
                }
            }
            if str_arr_ok(fields, key) {
                assert forall|i: int|
                    0 <= i < viewed.len() implies (#[trigger] viewed[i]) matches JsonV::Str(
                    _,
                ) by {
                    assert(items@[i] matches Json::Str(_));
                }
            }
            if str_arr_okv(jview_fields(fields), key) {
                assert forall|i: int|
                    0 <= i < items@.len() implies (#[trigger] items@[i]) matches Json::Str(_) by {
                    assert(viewed[i] matches JsonV::Str(_));
                }
            }
            assert forall|v: Vec<String>|
                str_arr_ok(fields, key) && #[trigger] str_arr_matches(fields, key, v)
                    implies str_arr_matchesv(jview_fields(fields), key, v) by {
                assert forall|i: int|
                    0 <= i < viewed.len() implies v@[i]@ == (#[trigger] viewed[i])->Str_0 by {
                    assert(v@[i]@ == items@[i]->Str_0@);
                }
            }
            assert forall|v: Option<Vec<String>>|
                opt_str_arr_ok(fields, key) && #[trigger] opt_str_arr_matches(fields, key, v)
                    implies opt_str_arr_matchesv(jview_fields(fields), key, v) by {
                match v {
                    Some(list) => {
                        assert forall|i: int|
                            0 <= i < viewed.len() implies list@[i]@ == (#[trigger] viewed[i])->Str_0 by {
                            assert(list@[i]@ == items@[i]->Str_0@);
                        }
                    },
                    None => {},
                }
            }
        },
        Some(j) => {
            assert(obj_getv(jview_fields(fields), key) == Some(jview(j)));
            match j {
                Json::Null => {},
                Json::Bool(_) => {},
                Json::Int(_) => {},
                Json::Str(_) => {},
                Json::Arr(_) => {},
                Json::Obj(_) => {},
            }
        },
        None => {},
    }
}

proof fn lemma_topic_bridge(j: Json, depth: nat)
    ensures
        topic_ok(j, depth) == topic_okv(jview(j), depth),
        forall|t: Topic|
            topic_ok(j, depth) && #[trigger] topic_matches(j, t, depth) ==> topic_matchesv(
                jview(j),
                t,
                depth,
            ),
    decreases depth, 0nat,
{
    match j {
        Json::Obj(fields) => {
            if depth > 0 {
                lemma_scalar_fields_bridge(fields@, "title"@);
                lemma_str_arr_bridge(fields@, "bullet_points"@);
                lemma_obj_get_bridge(fields@, "sub_topics"@);
                match obj_get(fields@, "sub_topics"@) {
                    Some(Json::Arr(items)) => {
                        lemma_jview_list_index(items@);
                        lemma_topics_bridge(items@, (depth - 1) as nat);
                        assert(obj_getv(jview_fields(fields@), "sub_topics"@) == Some(
                            JsonV::Arr(jview_list(items@)),
                        ));
                    },
                    Some(sub) => {
                        assert(obj_getv(jview_fields(fields@), "sub_topics"@) == Some(jview(sub)));
                        match sub {
                            Json::Null => {},
                            Json::Bool(_) => {},
                            Json::Int(_) => {},
                            Json::Str(_) => {},
                            Json::Arr(_) => {},
                            Json::Obj(_) => {},
                        }
                    },
                    None => {},
                }
                assert forall|t: Topic|
                    topic_ok(j, depth) && #[trigger] topic_matches(j, t, depth)
                        implies topic_matchesv(jview(j), t, depth) by {
                    assert(str_arr_matches(fields@, "bullet_points"@, t.bullet_points));
                    assert(str_arr_matchesv(
                        jview_fields(fields@),
                        "bullet_points"@,
                        t.bullet_points,
                    ));
                    match obj_get(fields@, "sub_topics"@) {
                        Some(Json::Arr(items)) => {
                            let subs = t.sub_topics->0;
                            assert(topics_match(items@, subs@, (depth - 1) as nat));
                        },
                        Some(_) => {},
                        None => {},
                    }
                }
            }
        },
        Json::Null => {},
        Json::Bool(_) => {},
        Json::Int(_) => {},
        Json::Str(_) => {},
        Json::Arr(_) => {},
    }
}

proof fn lemma_topics_bridge(items: Seq<Json>, depth: nat)
    ensures
        topics_ok(items, depth) == topics_okv(jview_list(items), depth),
        forall|ts: Seq<Topic>|
            topics_ok(items, depth) && #[trigger] topics_match(items, ts, depth) ==> topics_matchv(
                jview_list(items),
                ts,
                depth,
            ),
    decreases depth, 1nat,
{
    lemma_jview_list_index(items);
    let viewed = jview_list(items);
    assert forall|i: int|
        0 <= i < items.len() implies topic_ok(#[trigger] items[i], depth) == topic_okv(
        viewed[i],
        depth,
    ) by {
        lemma_topic_bridge(items[i], depth);
    }
    if topics_ok(items, depth) {
        assert forall|i: int|
            0 <= i < viewed.len() implies topic_okv(#[trigger] viewed[i], depth) by {
            assert(topic_ok(items[i], depth));
        }
        assert(topics_okv(viewed, depth));
    }
    if topics_okv(viewed, depth) {
        assert forall|i: int|
            0 <= i < items.len() implies topic_ok(#[trigger] items[i], depth) by {
            assert(topic_okv(viewed[i], depth));
        }
        assert(topics_ok(items, depth));
    }
    assert forall|ts: Seq<Topic>|
        topics_ok(items, depth) && #[trigger] topics_match(items, ts, depth)
            implies topics_matchv(viewed, ts, depth) by {
        assert forall|i: int|
            0 <= i < viewed.len() implies topic_matchesv(#[trigger] viewed[i], ts[i], depth) by {
            lemma_topic_bridge(items[i], depth);
            assert(topic_ok(items[i], depth));
            assert(topic_matches(items[i], ts[i], depth));
        }
    }
}

proof fn lemma_todo_bridge(j: Json)
    ensures
        todo_ok(j) == todo_okv(jview(j)),
        forall|t: ToDo| todo_ok(j) && #[trigger] todo_matches(j, t) ==> todo_matchesv(jview(j), t),
{
    match j {
        Json::Obj(fields) => {
            lemma_str_arr_bridge(fields@, "assignees"@);
            lemma_scalar_fields_bridge(fields@, "task"@);
            assert forall|t: ToDo|
                todo_ok(j) && #[trigger] todo_matches(j, t) implies todo_matchesv(jview(j), t) by {
                assert(opt_str_arr_matches(fields@, "assignees"@, t.assignees));
                assert(opt_str_arr_matchesv(jview_fields(fields@), "assignees"@, t.assignees));
            }
        },
        Json::Null => {},
        Json::Bool(_) => {},
        Json::Int(_) => {},
        Json::Str(_) => {},
        Json::Arr(_) => {},
    }
}

proof fn lemma_todos_bridge(items: Seq<Json>)
    ensures
        todos_ok(items) == todos_okv(jview_list(items)),
        forall|ts: Seq<ToDo>|
            todos_ok(items) && #[trigger] todos_match(items, ts) ==> todos_matchv(
                jview_list(items),
                ts,
            ),
{
    lemma_jview_list_index(items);
    let viewed = jview_list(items);
    assert forall|i: int|
        0 <= i < items.len() implies todo_ok(#[trigger] items[i]) == todo_okv(viewed[i]) by {
        lemma_todo_bridge(items[i]);
    }
    if todos_ok(items) {
        assert forall|i: int| 0 <= i < viewed.len() implies todo_okv(#[trigger] viewed[i]) by {
            assert(todo_ok(items[i]));
        }
        assert(todos_okv(viewed));
    }
    if todos_okv(viewed) {
        assert forall|i: int| 0 <= i < items.len() implies todo_ok(#[trigger] items[i]) by {
            assert(todo_okv(viewed[i]));
        }
        assert(todos_ok(items));
    }
    assert forall|ts: Seq<ToDo>|
        todos_ok(items) && #[trigger] todos_match(items, ts) implies todos_matchv(viewed, ts) by {
        assert forall|i: int|
            0 <= i < viewed.len() implies todo_matchesv(#[trigger] viewed[i], ts[i]) by {
            lemma_todo_bridge(items[i]);
            assert(todo_ok(items[i]));
            assert(todo_matches(items[i], ts[i]));
        }
    }
}

/// The tree-level and denotation-level partial-summary shapes agree.
pub proof fn lemma_first_summary_bridge(j: Json, v: FirstSummaryFormat)
    ensures
        first_summary_ok(j) == first_summary_okv(jview(j)),
        first_summary_ok(j) && first_summary_matches(j, v) ==> first_summary_matchesv(jview(j), v),
{
    match j {
        Json::Obj(fields) => {
            lemma_obj_get_bridge(fields@, "key_facts"@);
            match obj_get(fields@, "key_facts"@) {
                Some(kf) => {
                    lemma_key_fact_bridge(kf, v.key_facts);
                },
                None => {},
            }
            lemma_obj_get_bridge(fields@, "topics"@);
            match obj_get(fields@, "topics"@) {
                Some(Json::Arr(items)) => {
                    lemma_jview_list_index(items@);
                    lemma_topics_bridge(items@, TOPIC_DEPTH as nat);
                },
                Some(t) => {
                    match t {
                        Json::Null => {},
                        Json::Bool(_) => {},
                        Json::Int(_) => {},
                        Json::Str(_) => {},
                        Json::Arr(_) => {},
                        Json::Obj(_) => {},
                    }
                },
                None => {},
            }
            lemma_obj_get_bridge(fields@, "todos"@);
            match obj_get(fields@, "todos"@) {
                Some(Json::Arr(items)) => {
                    lemma_jview_list_index(items@);
                    lemma_todos_bridge(items@);
                },
                Some(t) => {
                    match t {
                        Json::Null => {},
                        Json::Bool(_) => {},
                        Json::Int(_) => {},
                        Json::Str(_) => {},
                        Json::Arr(_) => {},
                        Json::Obj(_) => {},
                    }
                },
                None => {},
            }
        },
        _ => {},
    }
}

/// The tree-level and denotation-level final-summary shapes agree.
pub proof fn lemma_final_summary_bridge(j: Json, f: FinalSummaryFormat)
    ensures
        final_summary_ok(j) == final_summary_okv(jview(j)),
        final_summary_ok(j) && final_summary_matches(j, f) ==> final_summary_matchesv(jview(j), f),
{
    match j {
        Json::Obj(fields) => {
            lemma_obj_get_bridge(fields@, "title"@);
            match obj_get(fields@, "title"@) {
                Some(t) => {
                    match t {
                        Json::Obj(tf) => {
                            lemma_scalar_fields_bridge(tf@, "emoji"@);
                            lemma_scalar_fields_bridge(tf@, "text"@);
                        },
                        Json::Null => {},
                        Json::Bool(_) => {},
                        Json::Int(_) => {},
                        Json::Str(_) => {},
                        Json::Arr(_) => {},
                    }
                },
                None => {},
            }
            lemma_obj_get_bridge(fields@, "key_facts"@);
            match obj_get(fields@, "key_facts"@) {
                Some(kf) => {
                    lemma_key_fact_bridge(kf, f.key_facts);
                },
                None => {},
            }
            lemma_scalar_fields_bridge(fields@, "summary"@);
            lemma_obj_get_bridge(fields@, "topics"@);
            match obj_get(fields@, "topics"@) {
                Some(Json::Arr(items)) => {
                    lemma_jview_list_index(items@);
                    lemma_topics_bridge(items@, TOPIC_DEPTH as nat);
                },
                Some(t) => {
                    match t {
                        Json::Null => {},
                        Json::Bool(_) => {},
                        Json::Int(_) => {},
                        Json::Str(_) => {},
                        Json::Arr(_) => {},
                        Json::Obj(_) => {},
                    }
                },
                None => {},
            }
            lemma_obj_get_bridge(fields@, "todos"@);
            match obj_get(fields@, "todos"@) {
                Some(Json::Arr(items)) => {
                    lemma_jview_list_index(items@);
                    lemma_todos_bridge(items@);
                },
                Some(t) => {
                    match t {
                        Json::Null => {},
                        Json::Bool(_) => {},
                        Json::Int(_) => {},
                        Json::Str(_) => {},
                        Json::Arr(_) => {},
                        Json::Obj(_) => {},
                    }
                },
                None => {},
            }
        },
        _ => {},
    }
}

/// The tree-level and denotation-level response-body shapes agree, and
/// the extracted `response` field is the denoted generated text.
pub proof fn lemma_ollama_response_bridge(j: Json, r: OllamaResponse)
    ensures
        ollama_response_ok(j) == ollama_response_okv(jview(j)),
        ollama_response_ok(j) && ollama_response_matches(j, r) ==> r.response@
            == ollama_response_textv(jview(j)),
{
    match j {
        Json::Obj(fields) => {
            lemma_scalar_fields_bridge(fields@, "model"@);
            lemma_scalar_fields_bridge(fields@, "created_at"@);
            lemma_scalar_fields_bridge(fields@, "response"@);
            lemma_scalar_fields_bridge(fields@, "done"@);
            lemma_scalar_fields_bridge(fields@, "done_reason"@);
            lemma_obj_get_bridge(fields@, "context"@);
            match obj_get(fields@, "context"@) {
                Some(Json::Arr(items)) => {
                    lemma_jview_list_index(items@);
                    let viewed = jview_list(items@);
                    assert(obj_getv(jview_fields(fields@), "context"@) == Some(
                        JsonV::Arr(viewed),
                    ));
                    assert forall|i: int|
                        0 <= i < items@.len() implies ((#[trigger] items@[i]) matches Json::Int(_)
                        == (viewed[i] matches JsonV::Int(_))) by {
                        match items@[i] {
                            Json::Null => {},
                            Json::Bool(_) => {},
                            Json::Int(_) => {},
                            Json::Str(_) => {},
                            Json::Arr(_) => {},
                            Json::Obj(_) => {},
                        }
                    }
                    if forall|i: int|
                        0 <= i < items@.len() ==> (#[trigger] items@[i]) matches Json::Int(_) {
                        assert forall|i: int|
                            0 <= i < viewed.len() implies (#[trigger] viewed[i]) matches JsonV::Int(
                            _,
                        ) by {
                            assert(items@[i] matches Json::Int(_));
                        }
                    }
                    let got = obj_getv(jview_fields(fields@), "context"@);
                    if forall|i: int|
                        0 <= i < got->Some_0->Arr_0.len() ==> (#[trigger] (got->Some_0->Arr_0)[i]) matches JsonV::Int(_) {
                        assert forall|i: int|
                            0 <= i < items@.len() implies (#[trigger] items@[i]) matches Json::Int(
                            _,
                        ) by {
                            assert(got->Some_0->Arr_0[i] matches JsonV::Int(_));
                            assert(viewed[i] matches JsonV::Int(_));
                        }
                    }
                },
                Some(t) => {
                    match t {
                        Json::Null => {},
                        Json::Bool(_) => {},
                        Json::Int(_) => {},
                        Json::Str(_) => {},
                        Json::Arr(_) => {},
                        Json::Obj(_) => {},
                    }
                },
                None => {},
            }
            lemma_scalar_fields_bridge(fields@, "total_duration"@);
            lemma_scalar_fields_bridge(fields@, "load_duration"@);
            lemma_scalar_fields_bridge(fields@, "prompt_eval_count"@);
            lemma_scalar_fields_bridge(fields@, "prompt_eval_duration"@);
            lemma_scalar_fields_bridge(fields@, "eval_count"@);
            lemma_scalar_fields_bridge(fields@, "eval_duration"@);
        },
        _ => {},
    }
}

} // verus!
