use aura::cortex::brain::cloud::{chat_request, interpret_chat_reply, CloudBrainError, CloudProviderKind};
use aura::cortex::brain::deterministic::{
    floor_reply_at, parse_intent, parse_normalized_intent, run_floor, DeterministicIntent,
};
use aura::cortex::brain::engine::{
    begin_intent, context_text, execute_intent, probe_status, BrainAction, BrainContext,
    BrainObservation, BrainStage, BrainTier,
};
use aura::cortex::brain::local::{
    choose_model, interpret_local_reply, ollama_url, reachability_of, LocalBrainError,
    OllamaReachability,
};
use aura::cortex::settings::store::{AssistantSettings, BrainMode, SettingsStore};
use aura::security::key_vault::KeyVault;

fn test_store() -> SettingsStore {
    let (vault, _blob) = KeyVault::new("/tmp/aura-brain-tests".to_string(), None).unwrap();
    SettingsStore::new(vault)
}

#[test]
fn providers_use_distinct_endpoints_and_models() {
    assert_eq!(
        CloudProviderKind::Groq.chat_endpoint(),
        "https://api.groq.com/openai/v1/chat/completions"
    );
    assert_eq!(
        CloudProviderKind::OpenAi.chat_endpoint(),
        "https://api.openai.com/v1/chat/completions"
    );
    assert_ne!(
        CloudProviderKind::Groq.default_model(),
        CloudProviderKind::OpenAi.default_model()
    );
}

#[test]
fn note_markers_capture_the_remainder() {
    let intent = parse_intent("Note: finish the EXP-007 design before Friday");
    assert_eq!(
        intent,
        DeterministicIntent::SaveNote {
            content: "finish the exp-007 design before friday".into(),
        }
    );

    let intent = parse_intent("Remember to call the bank tomorrow");
    assert!(matches!(intent, DeterministicIntent::SaveNote { .. }));
}

#[test]
fn query_triggers_are_read_only() {
    let intent = parse_intent("What did I note about the voice pipeline?");
    assert!(matches!(intent, DeterministicIntent::QueryMemory { .. }));

    let intent = parse_intent("Search my projects");
    assert!(matches!(intent, DeterministicIntent::QueryMemory { .. }));
}

#[test]
fn identity_and_time_have_no_data_dependency() {
    let intent = parse_intent("Who are you?");
    assert_eq!(intent, DeterministicIntent::Identity);

    let intent = parse_intent("What time is it");
    assert_eq!(intent, DeterministicIntent::CurrentTime);
}

#[test]
fn empty_and_unknown_inputs_never_crash() {
    assert_eq!(parse_intent(""), DeterministicIntent::Unrecognized);
    assert_eq!(parse_intent("   "), DeterministicIntent::Unrecognized);
    assert_eq!(
        parse_intent("make me a sandwich"),
        DeterministicIntent::Unrecognized
    );
}

#[test]
fn floor_reply_is_always_non_empty() {
    let cases = [
        "",
        "note something",
        "what did I save last week",
        "who are you",
        "time",
        "unrecognized input xyz",
    ];
    for transcript in cases {
        let result = run_floor(transcript);
        assert!(!result.reply.is_empty());
    }
}

#[test]
fn context_assembly_joins_recent_captures_without_leading_blank_lines() {
    let mut context = BrainContext::default();
    context.recent_captures = vec![
        "".into(),
        "  ".into(),
        "capture one".into(),
        "capture two".into(),
    ];
    let text = context_text(&context);
    assert_eq!(text, "capture one\ncapture two");
}

#[test]
fn empty_transcript_hits_the_floor_gracefully() {
    let settings = AssistantSettings::default();
    let (state, action) = begin_intent("", &BrainContext::default(), &settings, &test_store());
    assert!(matches!(state.stage, BrainStage::AwaitingProbe));
    assert!(matches!(action, BrainAction::ProbeOllama { .. }));
    let (_, action) =
        execute_intent(state, BrainObservation::OllamaProbed(OllamaReachability::Unreachable));
    match action {
        BrainAction::Finish(result) => {
            assert_eq!(result.tier, BrainTier::Deterministic);
            assert!(!result.reply.is_empty());
        }
        _ => panic!("the floor must answer"),
    }
}

#[test]
fn degraded_flag_is_set_on_floor_fallback() {
    let settings = AssistantSettings::default();
    let (state, _) = begin_intent(
        "do something unknown",
        &BrainContext::default(),
        &settings,
        &test_store(),
    );
    let (_, action) =
        execute_intent(state, BrainObservation::OllamaProbed(OllamaReachability::Unreachable));
    match action {
        BrainAction::Finish(result) => assert!(result.degraded),
        _ => panic!("the floor must answer"),
    }
}

#[test]
fn empty_key_is_rejected_before_any_network_call() {
    let result = chat_request(CloudProviderKind::Groq, "", "ping", "");
    assert!(matches!(result, Err(CloudBrainError::NoKey(_))));
}

#[test]
fn parse_normalized_intent_strips_note_separators() {
    assert_eq!(
        parse_normalized_intent("capture -: keep the overlay small"),
        DeterministicIntent::SaveNote { content: "keep the overlay small".into() }
    );
    assert_eq!(parse_normalized_intent("note"), DeterministicIntent::Unrecognized);
    assert_eq!(
        parse_normalized_intent("find"),
        DeterministicIntent::QueryMemory { query: "".into() }
    );
    assert_eq!(
        parse_normalized_intent("tell me the current time please"),
        DeterministicIntent::CurrentTime
    );
}

#[test]
fn floor_replies_quote_the_note_and_the_clock() {
    let reply = floor_reply_at(&DeterministicIntent::SaveNote { content: "milk".into() }, "09:30");
    assert_eq!(reply, "Cortex captured a note: “milk” — saved to your local memory.");
    let reply = floor_reply_at(&DeterministicIntent::CurrentTime, "09:30");
    assert_eq!(reply, "It's 09:30 on your machine.");
}

#[test]
fn cloud_request_carries_key_transcript_and_context_only() {
    let request = chat_request(CloudProviderKind::OpenAi, "sk-1", "hello cortex", " notes ")
        .expect("request");
    assert_eq!(request.authorization, "Bearer sk-1");
    assert_eq!(request.user_content, "hello cortex");
    assert_eq!(request.model, "gpt-4o-mini");
    assert!(request.system_content.ends_with("\n\nRelevant local context:  notes "));
    let bare = chat_request(CloudProviderKind::Groq, "k", "hi", "   ").expect("request");
    assert!(!bare.system_content.contains("Relevant local context"));
}

#[test]
fn cloud_reply_interpretation_spots_rejected_keys() {
    let rejected = interpret_chat_reply(Some("Invalid_API key".into()), None);
    match rejected {
        Err(CloudBrainError::NoKey(detail)) => {
            assert_eq!(detail, "the API key was rejected: Invalid_API key")
        }
        _ => panic!("an invalid key is a key problem"),
    }
    assert!(matches!(
        interpret_chat_reply(Some("rate limited".into()), None),
        Err(CloudBrainError::Generation(_))
    ));
    assert!(matches!(
        interpret_chat_reply(None, Some("   ".into())),
        Err(CloudBrainError::Generation(_))
    ));
    assert_eq!(interpret_chat_reply(None, Some(" hi ".into())).unwrap(), "hi");
}

#[test]
fn rejected_cloud_key_is_reported_with_the_floor_intent() {
    let mut settings = AssistantSettings::default();
    settings.brain_mode = BrainMode::Cloud;
    let (state, _) = begin_intent("who are you", &BrainContext::default(), &settings, &test_store());
    assert!(matches!(state.stage, BrainStage::Finished));
    let state = aura::cortex::brain::engine::BrainState {
        stage: BrainStage::AwaitingCloud { provider: CloudProviderKind::Groq },
        ..state
    };
    let (_, action) = execute_intent(
        state,
        BrainObservation::CloudReplied(Err(CloudBrainError::NoKey("bad key".into()))),
    );
    match action {
        BrainAction::Finish(result) => {
            assert!(result.reply.starts_with("Your cloud key was rejected (bad key)."));
            assert_eq!(result.intent, Some(DeterministicIntent::Identity));
            assert!(result.degraded);
        }
        _ => panic!("a rejected key finishes the request"),
    }
}

#[test]
fn local_tier_runs_the_chosen_model_and_reports_degradation() {
    let settings = AssistantSettings::default();
    let (state, _) = begin_intent("hello", &BrainContext::default(), &settings, &test_store());
    let (state, action) =
        execute_intent(state, BrainObservation::OllamaProbed(OllamaReachability::Reachable));
    match &action {
        BrainAction::ListModels { url } => assert_eq!(url, "http://localhost:11434/api/tags"),
        _ => panic!("a reachable ollama lists its models"),
    }
    let (state, action) = execute_intent(state, BrainObservation::ModelSelected(Ok("llama3.2:3b".into())));
    match &action {
        BrainAction::CallLocal { url, model, .. } => {
            assert_eq!(url, "http://localhost:11434/api/chat");
            assert_eq!(model, "llama3.2:3b");
        }
        _ => panic!("the chosen model is asked"),
    }
    let (_, action) = execute_intent(state, BrainObservation::LocalReplied(Ok("hi".into())));
    match action {
        BrainAction::Finish(result) => {
            assert_eq!(result.tier, BrainTier::Local { model: "llama3.2:3b".into() });
            assert!(result.degraded, "auto mode answered below the cloud tier");
        }
        _ => panic!("the local reply answers"),
    }
}

#[test]
fn model_choice_prefers_roomy_then_compact_then_any() {
    let names = vec!["mistral".to_string(), "qwen2:1.5b".to_string(), "llama3:8b".to_string()];
    let (model, reason) = choose_model(&names).unwrap();
    assert_eq!(model, "llama3:8b");
    assert_eq!(reason, "roomy machine class selected");
    let names = vec!["mistral".to_string(), "qwen2:1.5b".to_string()];
    assert_eq!(choose_model(&names).unwrap().0, "qwen2:1.5b");
    let names = vec!["mistral".to_string()];
    assert_eq!(choose_model(&names).unwrap().1, "only installed model selected");
    assert!(matches!(choose_model(&Vec::new()), Err(LocalBrainError::NoModel(_))));
}

#[test]
fn ollama_urls_and_probes_are_normalized() {
    assert_eq!(ollama_url("http://127.0.0.1:1/nonexistent/", "/api/version"), "http://127.0.0.1:1/nonexistent/api/version");
    assert_eq!(ollama_url("http://127.0.0.1:1/nonexistent", "/api/version"), "http://127.0.0.1:1/nonexistent/api/version");
    assert_eq!(reachability_of(None), OllamaReachability::Unreachable);
    assert_eq!(reachability_of(Some("  {\"version\":\"0.1\"}")), OllamaReachability::Reachable);
    assert_eq!(reachability_of(Some("<html>")), OllamaReachability::Unreachable);
    assert!(matches!(interpret_local_reply(Some("boom".into()), None), Err(LocalBrainError::Generation(_))));
    assert_eq!(interpret_local_reply(None, Some(" ok ".into())).unwrap(), "ok");
}

#[test]
fn status_reports_a_model_only_when_ollama_answers() {
    let settings = AssistantSettings::default();
    let status = probe_status(&settings, OllamaReachability::Unreachable, Some("m".into()));
    assert!(!status.ollama_reachable);
    assert_eq!(status.selected_model, None);
    assert!(!status.cloud_configured);
    let status = probe_status(&settings, OllamaReachability::Reachable, Some("m".into()));
    assert_eq!(status.selected_model, Some("m".to_string()));
}

#[test]
fn every_request_ends_with_a_sound_answer() {
    let settings = AssistantSettings { brain_mode: BrainMode::Local, ..AssistantSettings::default() };
    let (state, action) = begin_intent("what time is it", &BrainContext::default(), &settings, &test_store());
    assert!(matches!(action, BrainAction::ListModels { .. }));
    let (state, _) = execute_intent(state, BrainObservation::ModelSelected(Ok("llama3:8b".into())));
    let (_, action) = execute_intent(state, BrainObservation::LocalReplied(Ok("It is noon.".into())));
    match action {
        BrainAction::Finish(result) => {
            assert_eq!(result.reply, "It is noon.");
            assert!(result.intent.is_none());
            assert!(!result.degraded, "local mode asked for the local tier");
        }
        _ => panic!("the local reply answers"),
    }

    let (state, _) = begin_intent("what time is it", &BrainContext::default(), &settings, &test_store());
    let (_, action) = execute_intent(state, BrainObservation::ModelSelected(Err(LocalBrainError::NoModel("none".into()))));
    match action {
        BrainAction::Finish(result) => {
            assert_eq!(result.tier, BrainTier::Deterministic);
            assert!(result.degraded);
            assert_eq!(result.intent, Some(DeterministicIntent::CurrentTime));
            assert!(!result.reply.is_empty());
        }
        _ => panic!("a missing model lands on the floor"),
    }
}

#[test]
fn surrounding_white_space_never_changes_the_floor_intent() {
    assert_eq!(parse_intent("  note: buy milk\n"), parse_intent("note: buy milk"));
    assert_eq!(
        parse_intent("\tremember - - call Ana  "),
        DeterministicIntent::SaveNote { content: "call ana".to_string() }
    );
    assert_eq!(parse_intent(" \n "), DeterministicIntent::Unrecognized);
}
