use danmaku_pipeline::models::IntentType;
use danmaku_pipeline::models::PipelineError;
use danmaku_pipeline::models::ProgressEvent;
use danmaku_pipeline::models::Settings;
use danmaku_pipeline::models::Stage;
use danmaku_pipeline::workflows::outcome_matches;
use danmaku_pipeline::workflows::DanmakuWorkflow;
use danmaku_pipeline::workflows::DrawingResponse;
use danmaku_pipeline::workflows::PipelineState;
use danmaku_pipeline::workflows::StepAction;
use danmaku_pipeline::workflows::StepOutcome;
use danmaku_pipeline::workflows::StepResult;

fn workflow(max: usize) -> DanmakuWorkflow {
    DanmakuWorkflow::new(&Settings {
        max_danmaku_length: max,
    })
}

fn stage_tags(events: &[ProgressEvent]) -> Vec<&'static str> {
    events.iter().map(|e| e.stage.tag()).collect()
}

/// Performs one step after checking the machine awaits this outcome kind.
fn checked_step(
    wf: &DanmakuWorkflow,
    state: PipelineState,
    outcome: StepOutcome,
) -> StepResult {
    assert!(outcome_matches(&state, &outcome));
    wf.step(state, outcome)
}

#[test]
fn new_keeps_settings() {
    let wf = workflow(42);
    assert_eq!(wf.settings.max_danmaku_length, 42);
}

#[test]
fn too_long_input_fails_fast() {
    // Input of length max + 1: immediate InputTooLong, no events, no action.
    let wf = workflow(4);
    let r = wf.start("hello".to_string());
    assert!(matches!(
        r.state,
        PipelineState::Failed {
            error: PipelineError::InputTooLong
        }
    ));
    assert!(r.events.is_empty());
    assert!(r.action.is_none());
}

#[test]
fn length_bound_counts_characters() {
    // "你好" is two characters (six bytes): a bound of two admits it.
    let wf = workflow(2);
    let r = wf.start("你好".to_string());
    assert!(matches!(r.state, PipelineState::AwaitingClassification { .. }));

    let r = workflow(1).start("你好".to_string());
    assert!(matches!(
        r.state,
        PipelineState::Failed {
            error: PipelineError::InputTooLong
        }
    ));
}

#[test]
fn length_at_bound_is_accepted() {
    let wf = workflow(5);
    let r = wf.start("hello".to_string());
    assert!(matches!(r.state, PipelineState::AwaitingClassification { .. }));
    assert!(matches!(r.action, Some(StepAction::Classify { .. })));
}

#[test]
fn conversation_run_emits_expected_events() {
    // The scenario: "你好", classified as Conversation, speech succeeds.
    let wf = workflow(100);
    let mut trace: Vec<ProgressEvent> = Vec::new();

    let r = wf.start("你好".to_string());
    trace.extend(r.events);
    assert!(matches!(r.action, Some(StepAction::Classify { .. })));
    if let Some(StepAction::Classify { text }) = &r.action {
        assert_eq!(text, "你好");
    }

    let r = checked_step(&wf, r.state, StepOutcome::Classified(Ok(IntentType::Conversation)));
    trace.extend(r.events);
    assert!(matches!(
        r.action,
        Some(StepAction::GenerateConversationReply { .. })
    ));

    let r = checked_step(
        &wf,
        r.state,
        StepOutcome::ConversationReply(Ok("很高兴见到你！".to_string())),
    );
    trace.extend(r.events);
    assert!(matches!(r.action, Some(StepAction::SynthesizeSpeech { .. })));
    if let Some(StepAction::SynthesizeSpeech { text }) = &r.action {
        assert_eq!(text, "很高兴见到你！");
    }

    let r = checked_step(
        &wf,
        r.state,
        StepOutcome::SpeechSynthesized(Ok(vec![1, 2, 3])),
    );
    trace.extend(r.events);
    assert!(r.action.is_none());

    assert_eq!(
        stage_tags(&trace),
        vec![
            "intent_analysis",
            "response_generation",
            "tts_generation",
            "tts_complete",
            "processing_complete",
        ]
    );

    match r.state {
        PipelineState::Succeeded { result } => {
            assert_eq!(result.intent_type, IntentType::Conversation);
            assert_eq!(result.text_response, "很高兴见到你！");
            assert_eq!(result.audio_data, Some(vec![1, 2, 3]));
            assert_eq!(result.image_url, None);
        }
        other => panic!("expected success, got {:?}", other),
    }
}

#[test]
fn drawing_run_emits_image_stages_in_order() {
    let wf = workflow(100);
    let mut trace: Vec<ProgressEvent> = Vec::new();

    let r = wf.start("画一只猫".to_string());
    trace.extend(r.events);

    let r = checked_step(&wf, r.state, StepOutcome::Classified(Ok(IntentType::DrawingRequest)));
    trace.extend(r.events);
    assert!(matches!(
        r.action,
        Some(StepAction::GenerateDrawingReply { .. })
    ));

    let r = checked_step(
        &wf,
        r.state,
        StepOutcome::DrawingReply(Ok(DrawingResponse {
            text: "这就画一只猫！".to_string(),
            image_prompt: "a cat".to_string(),
        })),
    );
    trace.extend(r.events);
    assert!(matches!(r.action, Some(StepAction::OptimizePrompt { .. })));
    if let Some(StepAction::OptimizePrompt { prompt }) = &r.action {
        assert_eq!(prompt, "a cat");
    }

    let r = checked_step(
        &wf,
        r.state,
        StepOutcome::PromptOptimized("a fluffy cat, studio lighting".to_string()),
    );
    trace.extend(r.events);
    assert!(matches!(r.action, Some(StepAction::GenerateImage { .. })));
    if let Some(StepAction::GenerateImage { prompt }) = &r.action {
        assert_eq!(prompt, "a fluffy cat, studio lighting");
    }

    let r = checked_step(
        &wf,
        r.state,
        StepOutcome::ImageGenerated(Ok("https://img.example/cat.png".to_string())),
    );
    trace.extend(r.events);

    let r = checked_step(&wf, r.state, StepOutcome::SpeechSynthesized(Ok(vec![7])));
    trace.extend(r.events);

    assert_eq!(
        stage_tags(&trace),
        vec![
            "intent_analysis",
            "response_generation",
            "image_generation_start",
            "image_prompt_optimization",
            "image_generation_progress",
            "image_generation_complete",
            "tts_generation",
            "tts_complete",
            "processing_complete",
        ]
    );

    // The start event carries the raw prompt, the progress event the
    // optimized one; no other event carries a prompt.
    assert_eq!(trace[2].image_prompt.as_deref(), Some("a cat"));
    assert_eq!(
        trace[4].image_prompt.as_deref(),
        Some("a fluffy cat, studio lighting")
    );
    for (i, e) in trace.iter().enumerate() {
        if i != 2 && i != 4 {
            assert!(e.image_prompt.is_none());
        }
    }

    match r.state {
        PipelineState::Succeeded { result } => {
            assert_eq!(result.intent_type, IntentType::DrawingRequest);
            assert_eq!(result.text_response, "这就画一只猫！");
            assert_eq!(result.audio_data, Some(vec![7]));
            assert_eq!(
                result.image_url.as_deref(),
                Some("https://img.example/cat.png")
            );
        }
        other => panic!("expected success, got {:?}", other),
    }
}

#[test]
fn image_failure_degrades_and_run_still_succeeds() {
    let wf = workflow(100);
    let mut trace: Vec<ProgressEvent> = Vec::new();

    let r = wf.start("画个太阳".to_string());
    trace.extend(r.events);
    let r = checked_step(&wf, r.state, StepOutcome::Classified(Ok(IntentType::DrawingRequest)));
    trace.extend(r.events);
    let r = checked_step(
        &wf,
        r.state,
        StepOutcome::DrawingReply(Ok(DrawingResponse {
            text: "好的，太阳来了".to_string(),
            image_prompt: "the sun".to_string(),
        })),
    );
    trace.extend(r.events);
    let r = checked_step(&wf, r.state, StepOutcome::PromptOptimized("the sun, warm colors".to_string()));
    trace.extend(r.events);
    let r = checked_step(&wf, r.state, StepOutcome::ImageGenerated(Err(())));
    trace.extend(r.events);
    let r = checked_step(&wf, r.state, StepOutcome::SpeechSynthesized(Ok(vec![9, 9])));
    trace.extend(r.events);

    assert_eq!(
        stage_tags(&trace),
        vec![
            "intent_analysis",
            "response_generation",
            "image_generation_start",
            "image_prompt_optimization",
            "image_generation_progress",
            "image_generation_error",
            "tts_generation",
            "tts_complete",
            "processing_complete",
        ]
    );

    match r.state {
        PipelineState::Succeeded { result } => {
            assert_eq!(result.image_url, None);
            assert!(!result.text_response.is_empty());
            assert_eq!(result.audio_data, Some(vec![9, 9]));
        }
        other => panic!("expected success, got {:?}", other),
    }
}

#[test]
fn speech_failure_degrades_and_run_still_succeeds() {
    let wf = workflow(100);
    let mut trace: Vec<ProgressEvent> = Vec::new();

    let r = wf.start("唱首歌".to_string());
    trace.extend(r.events);
    let r = checked_step(&wf, r.state, StepOutcome::Classified(Ok(IntentType::SingingRequest)));
    trace.extend(r.events);
    assert!(matches!(
        r.action,
        Some(StepAction::GenerateSingingReply { .. })
    ));
    let r = checked_step(
        &wf,
        r.state,
        StepOutcome::SingingReply(Ok("啦啦啦～".to_string())),
    );
    trace.extend(r.events);
    let r = checked_step(&wf, r.state, StepOutcome::SpeechSynthesized(Err(())));
    trace.extend(r.events);

    assert_eq!(
        stage_tags(&trace),
        vec![
            "intent_analysis",
            "response_generation",
            "tts_generation",
            "tts_error",
            "processing_complete",
        ]
    );

    match r.state {
        PipelineState::Succeeded { result } => {
            assert_eq!(result.intent_type, IntentType::SingingRequest);
            assert_eq!(result.text_response, "啦啦啦～");
            assert_eq!(result.audio_data, None);
            assert_eq!(result.image_url, None);
        }
        other => panic!("expected success, got {:?}", other),
    }
}

#[test]
fn classification_failure_is_fatal() {
    let wf = workflow(100);
    let mut trace: Vec<ProgressEvent> = Vec::new();

    let r = wf.start("hello".to_string());
    trace.extend(r.events);
    let r = checked_step(&wf, r.state, StepOutcome::Classified(Err(())));
    trace.extend(r.events);

    assert!(matches!(
        r.state,
        PipelineState::Failed {
            error: PipelineError::ClassificationFailed
        }
    ));
    assert!(r.action.is_none());
    assert_eq!(stage_tags(&trace), vec!["intent_analysis"]);
}

#[test]
fn generation_failure_is_fatal() {
    let wf = workflow(100);
    let mut trace: Vec<ProgressEvent> = Vec::new();

    let r = wf.start("hello".to_string());
    trace.extend(r.events);
    let r = checked_step(&wf, r.state, StepOutcome::Classified(Ok(IntentType::OtherCommand)));
    trace.extend(r.events);
    assert!(matches!(
        r.action,
        Some(StepAction::GenerateOtherReply { .. })
    ));
    let r = checked_step(&wf, r.state, StepOutcome::OtherReply(Err(())));
    trace.extend(r.events);

    assert!(matches!(
        r.state,
        PipelineState::Failed {
            error: PipelineError::GenerationFailed
        }
    ));
    assert_eq!(
        stage_tags(&trace),
        vec!["intent_analysis", "response_generation"]
    );
}

#[test]
fn drawing_generation_failure_is_fatal_before_image_stages() {
    let wf = workflow(100);
    let mut trace: Vec<ProgressEvent> = Vec::new();

    let r = wf.start("画画".to_string());
    trace.extend(r.events);
    let r = checked_step(&wf, r.state, StepOutcome::Classified(Ok(IntentType::DrawingRequest)));
    trace.extend(r.events);
    let r = checked_step(&wf, r.state, StepOutcome::DrawingReply(Err(())));
    trace.extend(r.events);

    assert!(matches!(
        r.state,
        PipelineState::Failed {
            error: PipelineError::GenerationFailed
        }
    ));
    assert_eq!(
        stage_tags(&trace),
        vec!["intent_analysis", "response_generation"]
    );
}

#[test]
fn outcome_matches_ties_reply_kind_to_intent() {
    let wf = workflow(100);
    let r = wf.start("hi".to_string());
    let classified = StepOutcome::Classified(Ok(IntentType::Conversation));
    assert!(outcome_matches(&r.state, &classified));
    assert!(!outcome_matches(
        &r.state,
        &StepOutcome::SpeechSynthesized(Ok(vec![]))
    ));

    let r = wf.step(r.state, classified);
    assert!(outcome_matches(
        &r.state,
        &StepOutcome::ConversationReply(Ok("hey".to_string()))
    ));
    assert!(!outcome_matches(
        &r.state,
        &StepOutcome::SingingReply(Ok("la".to_string()))
    ));
    assert!(!outcome_matches(
        &r.state,
        &StepOutcome::DrawingReply(Err(()))
    ));

    let terminal = PipelineState::Failed {
        error: PipelineError::InputTooLong,
    };
    assert!(!outcome_matches(&terminal, &StepOutcome::Classified(Err(()))));
}

#[test]
fn stage_tags_are_the_wire_names() {
    assert_eq!(Stage::IntentAnalysis.tag(), "intent_analysis");
    assert_eq!(Stage::ResponseGeneration.tag(), "response_generation");
    assert_eq!(Stage::ImageGenerationStart.tag(), "image_generation_start");
    assert_eq!(
        Stage::ImagePromptOptimization.tag(),
        "image_prompt_optimization"
    );
    assert_eq!(
        Stage::ImageGenerationProgress.tag(),
        "image_generation_progress"
    );
    assert_eq!(
        Stage::ImageGenerationComplete.tag(),
        "image_generation_complete"
    );
    assert_eq!(Stage::ImageGenerationError.tag(), "image_generation_error");
    assert_eq!(Stage::TtsGeneration.tag(), "tts_generation");
    assert_eq!(Stage::TtsComplete.tag(), "tts_complete");
    assert_eq!(Stage::TtsError.tag(), "tts_error");
    assert_eq!(Stage::ProcessingComplete.tag(), "processing_complete");
}

#[test]
fn stage_messages_match_the_stage() {
    assert_eq!(Stage::IntentAnalysis.message(), "🤔 正在分析弹幕意图...");
    assert_eq!(Stage::ProcessingComplete.message(), "✅ 处理完成！");
    let e = {
        let wf = workflow(10);
        let r = wf.start("嗨".to_string());
        r.events.into_iter().next().expect("one event")
    };
    assert_eq!(e.stage, Stage::IntentAnalysis);
    assert_eq!(e.message, "🤔 正在分析弹幕意图...");
    assert!(e.image_prompt.is_none());
}
