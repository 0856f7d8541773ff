use meeting_summarizer::models::{Attendee, KeyFact, Topic, ToDo};
use meeting_summarizer::progress::{ProgressEvent, ProgressTracker};
use meeting_summarizer::summary::{
    parse_final_summary, parse_first_summary, Action, SummarizationGuard, SummaryGenerator,
};
use meeting_summarizer::service::SchemaKind;
use meeting_summarizer::{
    FirstSummaryFormat, FinalSummaryFormat, Language, LlmConfig, LlmError, MeetingToMarkdown,
    PromptManager, Title,
};

fn ollama_body(response: &str) -> String {
    let escaped = response.replace('\\', "\\\\").replace('"', "\\\"").replace('\n', "\\n");
    format!(
        "{{\"model\":\"llama3.1\",\"created_at\":\"t\",\"response\":\"{}\",\"done\":true,\
         \"done_reason\":\"stop\",\"context\":[],\"total_duration\":1,\"load_duration\":1,\
         \"prompt_eval_count\":1,\"prompt_eval_duration\":1,\"eval_count\":1,\"eval_duration\":1}}",
        escaped
    )
}

fn chunk_summary_json(title: &str) -> String {
    format!(
        "{{\"key_facts\":{{\"responisible_for_moderation\":null,\
         \"responisible_for_protocol\":null,\"responisible_for_timekeeping\":null,\
         \"attendees\":null}},\"topics\":[{{\"title\":\"{}\",\"bullet_points\":[\"a\"],\
         \"sub_topics\":null}}],\"todos\":null}}",
        title
    )
}

fn final_summary_json_text() -> String {
    "{\"title\":{\"emoji\":\"✅\",\"text\":\"Weekly\"},\"key_facts\":{\
     \"responisible_for_moderation\":null,\"responisible_for_protocol\":null,\
     \"responisible_for_timekeeping\":null,\"attendees\":null},\"summary\":\"All done.\",\
     \"topics\":[{\"title\":\"T\",\"bullet_points\":[\"b\"],\"sub_topics\":null}],\"todos\":[]}"
        .to_string()
}

fn attendee(id: usize, name: &str) -> Attendee {
    Attendee { id, name: name.to_string() }
}

fn summary_with_attendees(attendees: Vec<Attendee>) -> FirstSummaryFormat {
    FirstSummaryFormat {
        key_facts: KeyFact {
            responisible_for_moderation: None,
            responisible_for_protocol: None,
            responisible_for_timekeeping: None,
            attendees: Some(attendees),
        },
        topics: Vec::new(),
        todos: None,
    }
}

#[test]
fn test_key_facts_merge_keeps_first_seen_name() {
    // Merging [{1,"A"}] with [{1,"B"},{2,"C"}] keeps the first-seen name on
    // the id collision and appends the new id.
    let generator = SummaryGenerator::new(Language::German, &LlmConfig::default());
    let mut key_facts = KeyFact {
        responisible_for_moderation: None,
        responisible_for_protocol: None,
        responisible_for_timekeeping: None,
        attendees: Some(vec![attendee(1, "A")]),
    };
    let incoming = summary_with_attendees(vec![attendee(1, "B"), attendee(2, "C")]);
    generator.update_key_facts(&mut key_facts, &incoming);
    let atts = key_facts.attendees.unwrap();
    assert_eq!(atts.len(), 2);
    assert_eq!(atts[0].id, 1);
    assert_eq!(atts[0].name, "A");
    assert_eq!(atts[1].id, 2);
    assert_eq!(atts[1].name, "C");
}

#[test]
fn test_combine_merges_attendees_and_scalars() {
    let generator = SummaryGenerator::new(Language::German, &LlmConfig::default());
    let mut first = summary_with_attendees(vec![attendee(1, "A")]);
    first.key_facts.responisible_for_moderation = Some("Ann".to_string());
    let second = summary_with_attendees(vec![attendee(1, "B"), attendee(2, "C")]);
    let combined = generator.combine_structured_first_summaries(vec![first, second]);
    assert_eq!(combined.key_facts.responisible_for_moderation.as_deref(), Some("Ann"));
    let atts = combined.key_facts.attendees.unwrap();
    assert_eq!(atts.len(), 2);
    assert_eq!(atts[0].name, "A");
    assert_eq!(atts[1].name, "C");
}

#[test]
fn test_combine_concatenates_topics_and_todos() {
    let generator = SummaryGenerator::new(Language::German, &LlmConfig::default());
    let mk = |title: &str, todo: Option<&str>| FirstSummaryFormat {
        key_facts: KeyFact {
            responisible_for_moderation: None,
            responisible_for_protocol: None,
            responisible_for_timekeeping: None,
            attendees: None,
        },
        topics: vec![Topic {
            title: title.to_string(),
            bullet_points: vec!["p".to_string()],
            sub_topics: None,
        }],
        todos: todo.map(|t| {
            vec![ToDo { assignees: None, task: t.to_string() }]
        }),
    };
    let combined = generator.combine_structured_first_summaries(vec![
        mk("one", None),
        mk("two", Some("do it")),
        mk("three", None),
    ]);
    assert_eq!(combined.topics.len(), 3);
    assert_eq!(combined.topics[0].title, "one");
    assert_eq!(combined.topics[2].title, "three");
    let todos = combined.todos.unwrap();
    assert_eq!(todos.len(), 1);
    assert_eq!(todos[0].task, "do it");
}

#[test]
fn test_busy_guard_single_flight() {
    let mut guard = SummarizationGuard::new();
    assert!(guard.try_begin("meeting-1").is_ok());
    // A second request, for any meeting id, is rejected while the first runs.
    match guard.try_begin("meeting-2") {
        Err(LlmError::ConfigError(m)) => assert_eq!(m, "Another summarization is running"),
        _ => panic!("expected the busy rejection"),
    }
    assert_eq!(guard.current().as_deref(), Some("meeting-1"));
    // After the first finishes (success or failure), a new request succeeds.
    guard.finish();
    assert!(guard.try_begin("meeting-3").is_ok());
}

#[test]
fn test_end_to_end_chunked_run() {
    // A 25,000-character transcript with 10,000-character chunks produces
    // exactly 3 chunk-summary artifacts; the merged intermediate summary's
    // topic count is the sum over the chunks; the final summary parses back
    // into shape.
    let mut transcript = "Word. ".repeat(4166);
    transcript.push_str("End.");
    assert_eq!(transcript.chars().count(), 25_000);

    let config = LlmConfig::default();
    assert_eq!(config.chunk_size, 10_000);
    let mut generator = SummaryGenerator::new(Language::German, &config);
    let (_actions, req) = generator.begin("meeting-1", &transcript, 0).unwrap();
    assert!(matches!(req.schema, Some(SchemaKind::FirstSummary)));

    let mut all_actions: Vec<Action> = Vec::new();
    let mut next = Some(req);
    let mut chunk_no = 0;
    let inner_parsed: Vec<FirstSummaryFormat> = (0..3)
        .map(|i| parse_first_summary(&chunk_summary_json(&format!("topic-{}", i))).unwrap())
        .collect();
    while let Some(outstanding) = next.take() {
        let reply = if matches!(outstanding.schema, Some(SchemaKind::FirstSummary)) {
            let inner = chunk_summary_json(&format!("topic-{}", chunk_no));
            chunk_no += 1;
            ollama_body(&inner)
        } else {
            ollama_body(&final_summary_json_text())
        };
        let (actions, follow_up) = generator
            .on_model_response(Ok(reply), 10 * chunk_no as u64)
            .unwrap();
        all_actions.extend(actions);
        next = follow_up;
    }
    assert_eq!(chunk_no, 3, "expected exactly 3 chunk extraction calls");

    let chunk_summary_artifacts = all_actions
        .iter()
        .filter(|a| matches!(a, Action::SaveChunkSummary { .. }))
        .count();
    assert_eq!(chunk_summary_artifacts, 3);

    // The mechanical merge concatenates: 1 + 1 + 1 topics.
    let merged = generator.combine_structured_first_summaries(inner_parsed);
    assert_eq!(merged.topics.len(), 3);

    // The final summary was written and parses back into the final shape.
    let final_json = all_actions
        .iter()
        .find_map(|a| match a {
            Action::SaveFinalSummary { json, .. } => Some(json.clone()),
            _ => None,
        })
        .expect("a final summary artifact");
    let parsed = parse_final_summary(&final_json).unwrap();
    assert_eq!(parsed.title.text, "Weekly");
    assert_eq!(parsed.topics.len(), 1);

    let title = all_actions.iter().find_map(|a| match a {
        Action::SaveMeetingTitle { title } => Some(title.clone()),
        _ => None,
    });
    assert_eq!(title.as_deref(), Some("✅ Weekly"));

    let result = generator.take_result().expect("a finished summary");
    assert_eq!(result.summary, "All done.");
}

#[test]
fn test_malformed_final_response_surfaces_parse_error() {
    // A malformed (non-JSON) model response at the final-synthesis step
    // surfaces a ParseError, and no final-summary artifact is handed out.
    let config = LlmConfig::default();
    let mut generator = SummaryGenerator::new(Language::German, &config);
    let transcript = "A short meeting transcript that fits in one call.";
    let (_actions, req) = generator.begin("meeting-9", transcript, 0).unwrap();
    assert!(matches!(req.schema, Some(SchemaKind::FinalSummary)));

    let result = generator.on_model_response(Ok(ollama_body("this is { not json")), 5);
    match result {
        Err(LlmError::ParseError(m)) => {
            assert!(m.starts_with("Failed to parse final summary JSON: "));
        }
        _ => panic!("expected a parse error"),
    }
    // The run aborted: nothing was handed out to write, and no summary is
    // held.
    assert!(generator.take_result().is_none());
}

#[test]
fn test_empty_transcript_is_file_error() {
    let config = LlmConfig::default();
    let mut generator = SummaryGenerator::new(Language::German, &config);
    match generator.begin("meeting-0", "", 0) {
        Err(LlmError::FileError(m)) => assert_eq!(m, "No transcript to summarize"),
        _ => panic!("expected a file error"),
    }
}

#[test]
fn test_regeneration_reuses_saved_chunk_summaries() {
    let config = LlmConfig::default();
    let mut generator = SummaryGenerator::new(Language::German, &config);
    let saved = vec![
        parse_first_summary(&chunk_summary_json("alpha")).unwrap(),
        parse_first_summary(&chunk_summary_json("beta")).unwrap(),
    ];
    let (actions, req) = generator.begin_regeneration("meeting-2", saved, 0);
    assert!(matches!(req.schema, Some(SchemaKind::FinalSummary)));
    // The merged payload carries both topics, in order.
    let alpha = req.body.find("alpha").unwrap();
    let beta = req.body.find("beta").unwrap();
    assert!(alpha < beta);
    assert_eq!(actions.len(), 4);
    let (final_actions, follow_up) = generator
        .on_model_response(Ok(ollama_body(&final_summary_json_text())), 7)
        .unwrap();
    assert!(follow_up.is_none());
    assert!(final_actions
        .iter()
        .any(|a| matches!(a, Action::SaveFinalSummary { .. })));
}

#[test]
fn test_first_summary_round_trip() {
    let value = FirstSummaryFormat {
        key_facts: KeyFact {
            responisible_for_moderation: Some("Ann \"the chair\"".to_string()),
            responisible_for_protocol: None,
            responisible_for_timekeeping: None,
            attendees: Some(vec![attendee(1, "Ann"), attendee(2, "Bob")]),
        },
        topics: vec![Topic {
            title: "Line\nbreaks & ümlauts".to_string(),
            bullet_points: vec!["first".to_string(), "second".to_string()],
            sub_topics: Some(vec![Topic {
                title: "nested".to_string(),
                bullet_points: vec![],
                sub_topics: None,
            }]),
        }],
        todos: Some(vec![ToDo {
            assignees: Some(vec!["Bob".to_string()]),
            task: "Ship".to_string(),
        }]),
    };
    let json = meeting_summarizer::codec::first_summary_json(&value);
    // The writer escapes; the reader undoes it exactly.
    assert!(json.contains("\\\"the chair\\\""));
    assert!(json.contains("Line\\nbreaks"));
    let back = parse_first_summary(&json).unwrap();
    assert_eq!(
        back.key_facts.responisible_for_moderation.as_deref(),
        Some("Ann \"the chair\"")
    );
    let atts = back.key_facts.attendees.unwrap();
    assert_eq!(atts.len(), 2);
    assert_eq!(atts[1].name, "Bob");
    assert_eq!(back.topics.len(), 1);
    assert_eq!(back.topics[0].title, "Line\nbreaks & ümlauts");
    assert_eq!(back.topics[0].sub_topics.as_ref().unwrap()[0].title, "nested");
    let todos = back.todos.unwrap();
    assert_eq!(todos[0].task, "Ship");
    assert_eq!(todos[0].assignees.as_ref().unwrap()[0], "Bob");
}

#[test]
fn test_final_summary_markdown_rendering() {
    let f = FinalSummaryFormat {
        title: Title { emoji: "📝".to_string(), text: "Team Sync".to_string() },
        key_facts: KeyFact {
            responisible_for_moderation: Some("Ann".to_string()),
            responisible_for_protocol: None,
            responisible_for_timekeeping: None,
            attendees: Some(vec![attendee(1, "Ann")]),
        },
        summary: "All good.".to_string(),
        topics: vec![Topic {
            title: "Roadmap".to_string(),
            bullet_points: vec!["item one".to_string()],
            sub_topics: None,
        }],
        todos: vec![ToDo {
            assignees: Some(vec!["Bob".to_string(), "Cat".to_string()]),
            task: "Ship it".to_string(),
        }],
    };
    let expected = "# Team Sync\n\nAll good.\n\n## Key Facts\n- **Moderation:** Ann\n\
                    - **Attendees:**\n  - Ann\n## Topics\n### Roadmap \n- item one\n\
                    ## To-Dos\n### Ship it \n  - **Assignees:** Bob, Cat\n";
    assert_eq!(f.to_markdown(), expected);
    assert_eq!(f.title.to_string(), "📝 Team Sync");
}

#[test]
fn test_chunk_prompt_embeds_key_facts() {
    let none_prompt = PromptManager::chunk_summarization(&Language::German, None);
    assert!(none_prompt.contains("Noch keine vorhandenen Key Facts."));
    let kf = KeyFact {
        responisible_for_moderation: Some("Ann".to_string()),
        responisible_for_protocol: None,
        responisible_for_timekeeping: None,
        attendees: Some(vec![attendee(7, "Gül")]),
    };
    let prompt = PromptManager::chunk_summarization(&Language::German, Some(&kf));
    assert!(prompt.contains("\"responisible_for_moderation\":\"Ann\""));
    assert!(prompt.contains("{\"id\":7,\"name\":\"Gül\"}"));
    assert_eq!(
        PromptManager::test_connection(&Language::English),
        "You are a helpful assistant. Respond concisely."
    );
    assert_eq!(
        PromptManager::test_user_message(&Language::German),
        "Sagen Sie 'Hallo! LLM-Test erfolgreich.' und nichts anderes."
    );
    assert!(PromptManager::final_summary(&Language::German).contains("`summary`"));
    assert!(PromptManager::direct_summarization(&Language::English).contains("Overall Context"));
}

#[test]
fn test_progress_step_messages_and_topics() {
    let mut tracker = ProgressTracker::new(4);
    let events = tracker.update_progress("Summarizing chunk 1 of 3");
    assert_eq!(events.len(), 2);
    match &events[0] {
        ProgressEvent::ChunkProgress(i) => assert_eq!(*i, 0),
        _ => panic!("expected a chunk-progress event"),
    }
    match &events[1] {
        ProgressEvent::StatusMessage(m) => {
            assert_eq!(m, "Step 1/4: Summarizing chunk 1 of 3");
        }
        _ => panic!("expected a status message"),
    }
    assert_eq!(events[0].topic(), "summarization-chunk-progress");
    assert_eq!(events[1].topic(), "llm-progress");
    let started = tracker.start_summarization("m");
    assert_eq!(started[0].topic(), "summarization-started");
    assert_eq!(started[1].topic(), "summarization-chunk-start");
    let stats = tracker.log_timing_stats(&vec![1000, 3000]);
    match stats {
        Some(ProgressEvent::StatusMessage(m)) => {
            assert_eq!(m, "📊 Chunk stats: Avg 2.0s/chunk, Total 4.0s for 2 chunks");
        }
        _ => panic!("expected a stats message"),
    }
    assert!(tracker.log_timing_stats(&Vec::new()).is_none());
}

#[test]
fn test_artifact_file_names() {
    assert_eq!(meeting_summarizer::artifacts::chunk_file_name(0), "chunk_001.txt");
    assert_eq!(
        meeting_summarizer::artifacts::chunk_summary_file_name(11),
        "chunk_012_summary.json"
    );
    assert_eq!(meeting_summarizer::artifacts::chunk_file_name(122), "chunk_123.txt");
    let content = meeting_summarizer::artifacts::all_chunk_summaries_markdown(&vec![
        "one".to_string(),
        "two".to_string(),
    ]);
    assert_eq!(content, "# Chunk 1 Summary\n\none\n\n---\n\n# Chunk 2 Summary\n\ntwo");
}

#[test]
fn test_direct_path_short_transcript() {
    // At or below the threshold the raw transcript goes straight to the
    // final synthesis, in a single call.
    let config = LlmConfig::default();
    let mut generator = SummaryGenerator::new(Language::German, &config);
    let (actions, req) = generator.begin("meeting-5", "Short transcript.", 0).unwrap();
    assert!(matches!(req.schema, Some(SchemaKind::FinalSummary)));
    assert!(req.prompt.ends_with("\nUser: Short transcript."));
    assert_eq!(actions.len(), 4);
    let (final_actions, follow_up) = generator
        .on_model_response(Ok(ollama_body(&final_summary_json_text())), 5)
        .unwrap();
    assert!(follow_up.is_none());
    assert!(final_actions
        .iter()
        .any(|a| matches!(a, Action::SaveFinalSummary { .. })));
    let completed = final_actions.iter().any(|a| match a {
        Action::Emit(ProgressEvent::StatusMessage(m)) => m == "✅ Summary completed in 0.0s",
        _ => false,
    });
    assert!(completed);
    assert_eq!(generator.take_result().unwrap().title.text, "Weekly");
}

#[test]
fn test_connection_test_messages() {
    let config = LlmConfig::default();
    let service = meeting_summarizer::LlmService::new(
        config.external_endpoint.clone(),
        config.external_model.clone(),
    );
    let req = meeting_summarizer::summary::connection_test_request(&service, &Language::English);
    assert!(req.schema.is_none());
    assert_eq!(req.url, "http://localhost:11434/api/generate");
    let ok = meeting_summarizer::summary::connection_test_message(Ok("  hello \n".to_string()));
    assert_eq!(ok.unwrap(), "Test successful! Response: hello");
    let err = meeting_summarizer::summary::connection_test_message(Err(LlmError::NetworkError(
        "down".to_string(),
    )));
    assert_eq!(err.unwrap_err(), "Test failed: Network error: down");
}

#[test]
fn test_chunk_summary_display_markdown() {
    let rendered = meeting_summarizer::codec::chunk_summary_markdown(&chunk_summary_json("T"))
        .expect("a JSON document renders");
    assert_eq!(rendered, "### T\n\n- a\n\n");
    let with_todos = "{\"topics\":[],\"todos\":[{\"task\":\"X\",\"assignees\":[\"A\",\"B\"]},\
                      {\"task\":\"Y\",\"assignees\":[]},{\"task\":\"Z\"}]}";
    let rendered = meeting_summarizer::codec::chunk_summary_markdown(with_todos).unwrap();
    assert_eq!(rendered, "### Action Items\n\n- **[A, B]**: X\n- Y\n- Z\n");
    assert_eq!(
        meeting_summarizer::codec::chunk_summary_markdown("{}").unwrap(),
        "No summary content available"
    );
    assert!(meeting_summarizer::codec::chunk_summary_markdown("not json").is_none());
}

#[test]
fn test_artifact_names_beyond_three_digits() {
    assert_eq!(meeting_summarizer::artifacts::chunk_file_name(999), "chunk_1000.txt");
    assert_eq!(meeting_summarizer::artifacts::chunk_file_name(8), "chunk_009.txt");
}

#[test]
fn test_non_integer_numbers_are_rejected() {
    // The pipeline's documents carry integers only; a fractional attendee id
    // is schema-nonconforming.
    let text = "{\"key_facts\":{\"attendees\":[{\"id\":1.5,\"name\":\"A\"}]},\"topics\":[]}";
    assert!(parse_first_summary(text).is_err());
    // And an id out of range is rejected rather than wrapped.
    let text = "{\"key_facts\":{\"attendees\":[{\"id\":-1,\"name\":\"A\"}]},\"topics\":[]}";
    assert!(parse_first_summary(text).is_err());
}
