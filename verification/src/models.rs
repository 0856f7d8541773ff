//! The structured summary data model: attendees, key facts, topics, to-dos,
//! the per-chunk partial summary, and the final titled summary, together
//! with the markdown rendering of a final summary.
use vstd::prelude::*;
use vstd::string::StringExecFns;

verus! {

/// A meeting participant; identity is the numeric `id`.
pub struct Attendee {
    pub id: usize,
    pub name: String,
}

/// Accumulating structured metadata about meeting roles and attendees.
/// Scalar fields are nullable and follow last-non-null-wins across an
/// ordered sequence of updates; attendees are unioned by id.
pub struct KeyFact {
    pub responisible_for_moderation: Option<String>,
    pub responisible_for_protocol: Option<String>,
    pub responisible_for_timekeeping: Option<String>,
    pub attendees: Option<Vec<Attendee>>,
}

/// A discussed topic: a title, ordered bullet points, and optional
/// sub-topics (always a tree).
pub struct Topic {
    pub title: String,
    pub bullet_points: Vec<String>,
    pub sub_topics: Option<Vec<Topic>>,
}

/// A task raised in the meeting, with optional assignees.
pub struct ToDo {
    pub assignees: Option<Vec<String>>,
    pub task: String,
}

/// The per-chunk (or mechanically merged) intermediate summary.
pub struct FirstSummaryFormat {
    pub key_facts: KeyFact,
    pub topics: Vec<Topic>,
    pub todos: Option<Vec<ToDo>>,
}

/// The title of a final summary: an emoji and a short text.
pub struct Title {
    pub emoji: String,
    pub text: String,
}

impl Title {
    /// The displayed form: the emoji, a space, and the text.
    pub fn to_string(&self) -> (r: String)
        ensures
            r@ == self.emoji@ + " "@ + self.text@,
    {
        let mut r = self.emoji.clone();
        r.append(" ");
        r.append(self.text.as_str());
        r
    }
}

/// The terminal structured, narrated, titled summary.
pub struct FinalSummaryFormat {
    pub title: Title,
    pub key_facts: KeyFact,
    pub summary: String,
    pub topics: Vec<Topic>,
    pub todos: Vec<ToDo>,
}

/// One role line of the key-facts block, present only when the role is
/// filled.
pub open spec fn role_md(label: Seq<char>, v: Option<String>) -> Seq<char> {
    match v {
        Some(name) => "- **"@ + label + ":** "@ + name@ + "\n"@,
        None => Seq::empty(),
    }
}

/// The indented attendee lines of the key-facts block.
pub open spec fn attendee_lines_md(atts: Seq<Attendee>) -> Seq<char>
    decreases atts.len(),
{
    if atts.len() == 0 {
        Seq::empty()
    } else {
        "  - "@ + atts[0].name@ + "\n"@ + attendee_lines_md(atts.drop_first())
    }
}

/// The attendees block, present only when attendees are known.
pub open spec fn attendees_md(atts: Option<Vec<Attendee>>) -> Seq<char> {
    match atts {
        Some(v) => "- **Attendees:**\n"@ + attendee_lines_md(v@),
        None => Seq::empty(),
    }
}

/// The bullet lines of one topic.
pub open spec fn bullets_md(bullets: Seq<String>) -> Seq<char>
    decreases bullets.len(),
{
    if bullets.len() == 0 {
        Seq::empty()
    } else {
        "- "@ + bullets[0]@ + "\n"@ + bullets_md(bullets.drop_first())
    }
}

/// The topics block: a heading and the bullet lines for each topic in
/// order; sub-topics are not rendered, matching the displayed form.
pub open spec fn topics_md(topics: Seq<Topic>) -> Seq<char>
    decreases topics.len(),
{
    if topics.len() == 0 {
        Seq::empty()
    } else {
        "### "@ + topics[0].title@ + " \n"@ + bullets_md(topics[0].bullet_points@) + topics_md(
            topics.drop_first(),
        )
    }
}

/// Assignee names joined with `", "`.
pub open spec fn joined_md(items: Seq<String>, sep: Seq<char>) -> Seq<char>
    decreases items.len(),
{
    if items.len() == 0 {
        Seq::empty()
    } else if items.len() == 1 {
        items[0]@
    } else {
        items[0]@ + sep + joined_md(items.drop_first(), sep)
    }
}

/// The to-dos block: a heading per task and an assignee line when assignees
/// are known.
pub open spec fn todos_md(todos: Seq<ToDo>) -> Seq<char>
    decreases todos.len(),
{
    if todos.len() == 0 {
        Seq::empty()
    } else {
        let head = "### "@ + todos[0].task@ + " \n"@;
        let assignees = match todos[0].assignees {
            Some(a) => "  - **Assignees:** "@ + joined_md(a@, ", "@) + "\n"@,
            None => Seq::<char>::empty(),
        };
        head + assignees + todos_md(todos.drop_first())
    }
}

/// The whole markdown rendering of a final summary.
pub open spec fn markdown_of(f: &FinalSummaryFormat) -> Seq<char> {
    "# "@ + f.title.text@ + "\n\n"@ + f.summary@ + "\n\n"@ + "## Key Facts\n"@ + role_md(
        "Moderation"@,
        f.key_facts.responisible_for_moderation,
    ) + role_md("Protocol"@, f.key_facts.responisible_for_protocol) + role_md(
        "Timekeeping"@,
        f.key_facts.responisible_for_timekeeping,
    ) + attendees_md(f.key_facts.attendees) + "## Topics\n"@ + topics_md(f.topics@) + "## To-Dos\n"@
        + todos_md(f.todos@)
}

/// The response body of the inference endpoint's generation route; the
/// generated text is the `response` field.
pub struct OllamaResponse {
    pub model: String,
    pub created_at: String,
    pub response: String,
    pub done: bool,
    pub done_reason: String,
    pub context: Vec<i64>,
    pub total_duration: i64,
    pub load_duration: i64,
    pub prompt_eval_count: i64,
    pub prompt_eval_duration: i64,
    pub eval_count: i64,
    pub eval_duration: i64,
}

/// A value that renders itself as a markdown document.
pub trait MeetingToMarkdown {
    /// What the rendering is, as a sequence of characters.
    spec fn markdown_spec(&self) -> Seq<char>;

    /// Renders the value; the result is exactly `markdown_spec`.
    fn to_markdown(&self) -> (r: String)
        ensures
            r@ == self.markdown_spec(),
    ;
}

fn append_role(out: &mut String, label: &str, v: &Option<String>)
    ensures
        final(out)@ == old(out)@ + role_md(label@, *v),
{
    match v {
        Some(name) => {
            out.append("- **");
            out.append(label);
            out.append(":** ");
            out.append(name.as_str());
            out.append("\n");
        },
        None => {},
    }
}

fn append_attendees(out: &mut String, atts: &Option<Vec<Attendee>>)
    ensures
        final(out)@ == old(out)@ + attendees_md(*atts),
{
    match atts {
        Some(v) => {
            out.append("- **Attendees:**\n");
            let ghost base = out@;
            proof {
                assert(v@.skip(0) =~= v@);
            }
            let mut i: usize = 0;
            while i < v.len()
                invariant
                    i <= v@.len(),
                    out@ + attendee_lines_md(v@.skip(i as int)) == base + attendee_lines_md(v@),
                decreases v@.len() - i,
            {
                let ghost before = out@;
                out.append("  - ");
                out.append(v[i].name.as_str());
                out.append("\n");
                proof {
                    assert(v@.skip(i as int).drop_first() =~= v@.skip(i as int + 1));
                    assert(v@.skip(i as int)[0] == v@[i as int]);
                    assert(before + ("  - "@ + v@[i as int].name@ + "\n"@) + attendee_lines_md(
                        v@.skip(i as int + 1),
                    ) =~= before + attendee_lines_md(v@.skip(i as int)));
                    assert(out@ =~= before + ("  - "@ + v@[i as int].name@ + "\n"@));
                }
                i = i + 1;
            }
            proof {
                assert(attendee_lines_md(v@.skip(v@.len() as int)) =~= Seq::<char>::empty());
                assert(out@ =~= base + attendee_lines_md(v@));
            }
        },
        None => {},
    }
}

fn append_topics(out: &mut String, topics: &Vec<Topic>)
    ensures
        final(out)@ == old(out)@ + topics_md(topics@),
{
    let ghost base = out@;
    proof {
        assert(topics@.skip(0) =~= topics@);
    }
    let mut i: usize = 0;
    while i < topics.len()
        invariant
            i <= topics@.len(),
            out@ + topics_md(topics@.skip(i as int)) == base + topics_md(topics@),
        decreases topics@.len() - i,
    {
        let ghost before = out@;
        let t = &topics[i];
        out.append("### ");
        out.append(t.title.as_str());
        out.append(" \n");
        let ghost head_done = out@;
        proof {
            assert(head_done =~= before + ("### "@ + topics@[i as int].title@ + " \n"@));
        }
        let bullets = &t.bullet_points;
        proof {
            assert(bullets@.skip(0) =~= bullets@);
        }
        let mut j: usize = 0;
        while j < bullets.len()
            invariant
                j <= bullets@.len(),
                bullets@ == topics@[i as int].bullet_points@,
                i < topics@.len(),
                out@ + bullets_md(bullets@.skip(j as int)) == head_done + bullets_md(bullets@),
            decreases bullets@.len() - j,
        {
            let ghost b_before = out@;
            out.append("- ");
            out.append(bullets[j].as_str());
            out.append("\n");
            proof {
                assert(bullets@.skip(j as int).drop_first() =~= bullets@.skip(j as int + 1));
                assert(bullets@.skip(j as int)[0] == bullets@[j as int]);
                assert(out@ =~= b_before + ("- "@ + bullets@[j as int]@ + "\n"@));
                assert(b_before + ("- "@ + bullets@[j as int]@ + "\n"@) + bullets_md(
                    bullets@.skip(j as int + 1),
                ) =~= b_before + bullets_md(bullets@.skip(j as int)));
            }
            j = j + 1;
        }
        proof {
            assert(bullets_md(bullets@.skip(bullets@.len() as int)) =~= Seq::<char>::empty());
            assert(topics@.skip(i as int).drop_first() =~= topics@.skip(i as int + 1));
            assert(topics@.skip(i as int)[0] == topics@[i as int]);
            assert(out@ =~= head_done + bullets_md(bullets@));
            assert(before + ("### "@ + topics@[i as int].title@ + " \n"@ + bullets_md(
                topics@[i as int].bullet_points@,
            )) + topics_md(topics@.skip(i as int + 1)) =~= before + topics_md(
                topics@.skip(i as int),
            ));
            assert(out@ =~= before + ("### "@ + topics@[i as int].title@ + " \n"@ + bullets_md(
                topics@[i as int].bullet_points@,
            )));
        }
        i = i + 1;
    }
    proof {
        assert(topics_md(topics@.skip(topics@.len() as int)) =~= Seq::<char>::empty());
        assert(out@ =~= base + topics_md(topics@));
    }
}

pub(crate) fn append_joined_names(out: &mut String, items: &Vec<String>, sep: &str)
    ensures
        final(out)@ == old(out)@ + joined_md(items@, sep@),
{
    let ghost base = out@;
    let mut i: usize = 0;
    while i < items.len()
        invariant
            i <= items@.len(),
            i == 0 ==> out@ == base,
            i > 0 ==> out@ + (if i < items@.len() {
                sep@ + joined_md(items@.skip(i as int), sep@)
            } else {
                Seq::<char>::empty()
            }) == base + joined_md(items@, sep@),
        decreases items@.len() - i,
    {
        if i > 0 {
            out.append(sep);
        }
        out.append(items[i].as_str());
        proof {
            lemma_joined_unfold(items@, sep@, i as int);
        }
        i = i + 1;
    }
    proof {
        if items@.len() == 0 {
            assert(joined_md(items@, sep@) =~= Seq::<char>::empty());
            assert(out@ =~= base + joined_md(items@, sep@));
        }
    }
}

proof fn lemma_joined_unfold(items: Seq<String>, sep: Seq<char>, i: int)
    requires
        0 <= i < items.len(),
    ensures
        i + 1 < items.len() ==> joined_md(items.skip(i), sep) == items[i]@ + sep + joined_md(
            items.skip(i + 1),
            sep,
        ),
        i + 1 == items.len() ==> joined_md(items.skip(i), sep) == items[i]@,
{
    assert(items.skip(i).len() == items.len() - i);
    assert(items.skip(i)[0] == items[i]);
    if i + 1 < items.len() {
        assert(items.skip(i).drop_first() =~= items.skip(i + 1));
    }
}

fn append_todos(out: &mut String, todos: &Vec<ToDo>)
    ensures
        final(out)@ == old(out)@ + todos_md(todos@),
{
    let ghost base = out@;
    proof {
        assert(todos@.skip(0) =~= todos@);
    }
    let mut i: usize = 0;
    while i < todos.len()
        invariant
            i <= todos@.len(),
            out@ + todos_md(todos@.skip(i as int)) == base + todos_md(todos@),
        decreases todos@.len() - i,
    {
        let ghost before = out@;
        let t = &todos[i];
        out.append("### ");
        out.append(t.task.as_str());
        out.append(" \n");
        let ghost head = "### "@ + todos@[i as int].task@ + " \n"@;
        proof {
            assert(out@ =~= before + head);
        }
        let ghost assignee_part = match todos@[i as int].assignees {
            Some(a) => "  - **Assignees:** "@ + joined_md(a@, ", "@) + "\n"@,
            None => Seq::<char>::empty(),
        };
        match &t.assignees {
            Some(a) => {
                out.append("  - **Assignees:** ");
                append_joined_names(out, a, ", ");
                out.append("\n");
                proof {
                    assert(out@ =~= before + head + assignee_part);
                }
            },
            None => {
                proof {
                    assert(out@ =~= before + head + assignee_part);
                }
            },
        }
        proof {
            assert(todos@.skip(i as int).drop_first() =~= todos@.skip(i as int + 1));
            assert(todos@.skip(i as int)[0] == todos@[i as int]);
            assert(before + (head + assignee_part) + todos_md(todos@.skip(i as int + 1)) =~= before
                + todos_md(todos@.skip(i as int)));
            assert(out@ =~= before + (head + assignee_part));
        }
        i = i + 1;
    }
    proof {
        assert(todos_md(todos@.skip(todos@.len() as int)) =~= Seq::<char>::empty());
        assert(out@ =~= base + todos_md(todos@));
    }
}

impl MeetingToMarkdown for FinalSummaryFormat {
    open spec fn markdown_spec(&self) -> Seq<char> {
        markdown_of(self)
    }

    /// Renders the final summary: title heading, narrative, key facts,
    /// topics with their bullet points, and to-dos with assignees.
    fn to_markdown(&self) -> (r: String) {
        let mut out = String::new();
        out.append("# ");
        out.append(self.title.text.as_str());
        out.append("\n\n");
        out.append(self.summary.as_str());
        out.append("\n\n");
        out.append("## Key Facts\n");
        append_role(&mut out, "Moderation", &self.key_facts.responisible_for_moderation);
        append_role(&mut out, "Protocol", &self.key_facts.responisible_for_protocol);
        append_role(&mut out, "Timekeeping", &self.key_facts.responisible_for_timekeeping);
        append_attendees(&mut out, &self.key_facts.attendees);
        out.append("## Topics\n");
        append_topics(&mut out, &self.topics);
        out.append("## To-Dos\n");
        append_todos(&mut out, &self.todos);
        proof {
            assert(out@ =~= markdown_of(self));
        }
        out
    }
}

} // verus!
