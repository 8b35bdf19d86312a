//! Whole-run reasoning: the trace of events a full pipeline run emits.
//!
//! [`run`] composes [`start_spec`] and [`step_spec`] the way a driver does:
//! perform the pending action, feed its outcome back, append the emitted
//! events. The lemmas here state the pipeline's global guarantees: a too-long
//! input fails fast with no events and no external call; success depends only
//! on validation, classification and generation (image and speech failures
//! degrade); the image sub-pipeline events appear exactly in drawing runs, in
//! fixed order; and `processing_complete` is the last event of every
//! successful run, and appears nowhere else.

use vstd::prelude::*;

use crate::models::DanmakuProcessingResult;
use crate::models::EventModel;
use crate::models::IntentType;
use crate::models::PipelineError;
use crate::models::Stage;
use crate::models::event_model;
use crate::workflows::DrawingResponse;
use crate::workflows::PipelineState;
use crate::workflows::StepAction;
use crate::workflows::StepOutcome;
use crate::workflows::expects;
use crate::workflows::start_spec;
use crate::workflows::step_spec;

verus! {

/// How the external capabilities behave during one run: the classification
/// they return, whether and what the response generator yields (with the raw
/// image prompt, read only for a drawing request), the optimized prompt, and
/// the image and speech outcomes.
pub struct RunOutcomes {
    pub classify: Result<IntentType, ()>,
    pub reply_ok: bool,
    pub reply_text: String,
    pub reply_prompt: String,
    pub optimized: String,
    pub image: Result<String, ()>,
    pub audio: Result<Vec<u8>, ()>,
}

/// A driven run: where the machine stands, what it still asks for, and every
/// event emitted so far, in order.
pub struct RunModel {
    pub state: PipelineState,
    pub action: Option<StepAction>,
    pub trace: Seq<EventModel>,
}

pub open spec fn reply_result(o: RunOutcomes) -> Result<String, ()> {
    if o.reply_ok {
        Ok(o.reply_text)
    } else {
        Err(())
    }
}

pub open spec fn drawing_result(o: RunOutcomes) -> Result<DrawingResponse, ()> {
    if o.reply_ok {
        Ok(DrawingResponse { text: o.reply_text, image_prompt: o.reply_prompt })
    } else {
        Err(())
    }
}

/// The outcome capabilities behaving as `o` return for a pending action.
pub open spec fn outcome_for(action: StepAction, o: RunOutcomes) -> StepOutcome {
    match action {
        StepAction::Classify { .. } => StepOutcome::Classified(o.classify),
        StepAction::GenerateConversationReply { .. } => StepOutcome::ConversationReply(
            reply_result(o),
        ),
        StepAction::GenerateSingingReply { .. } => StepOutcome::SingingReply(reply_result(o)),
        StepAction::GenerateDrawingReply { .. } => StepOutcome::DrawingReply(drawing_result(o)),
        StepAction::GenerateOtherReply { .. } => StepOutcome::OtherReply(reply_result(o)),
        StepAction::OptimizePrompt { .. } => StepOutcome::PromptOptimized(o.optimized),
        StepAction::GenerateImage { .. } => StepOutcome::ImageGenerated(o.image),
        StepAction::SynthesizeSpeech { .. } => StepOutcome::SpeechSynthesized(o.audio),
    }
}

/// One turn of a driver: if an action is pending, perform it, take the
/// machine's transition and append the emitted events; else leave the run.
pub open spec fn advance(m: RunModel, o: RunOutcomes) -> RunModel {
    match m.action {
        None => m,
        Some(a) => {
            let t = step_spec(m.state, outcome_for(a, o));
            RunModel { state: t.state, action: t.action, trace: m.trace + t.events }
        },
    }
}

/// A whole run on `text` against capabilities behaving as `o`: start, then
/// five driven turns. No path of the machine pends an action after five
/// turns ([`lemma_run_terminates`]), so the run is complete.
pub open spec fn run(max: int, text: String, o: RunOutcomes) -> RunModel {
    let t0 = start_spec(max, text);
    let m0 = RunModel { state: t0.state, action: t0.action, trace: t0.events };
    advance(advance(advance(advance(advance(m0, o), o), o), o), o)
}

/// A run respects the machine's protocol at `m` when its pending action, if
/// any, is answered with the outcome kind the state awaits.
pub open spec fn protocol_ok(m: RunModel, o: RunOutcomes) -> bool {
    m.action matches Some(a) ==> expects(m.state, outcome_for(a, o))
}

/// The successive stands of a run: after the start and after each of the
/// five driven turns.
pub open spec fn run_models(max: int, text: String, o: RunOutcomes) -> Seq<RunModel> {
    let t0 = start_spec(max, text);
    let m0 = RunModel { state: t0.state, action: t0.action, trace: t0.events };
    let m1 = advance(m0, o);
    let m2 = advance(m1, o);
    let m3 = advance(m2, o);
    let m4 = advance(m3, o);
    let m5 = advance(m4, o);
    seq![m0, m1, m2, m3, m4, m5]
}

/// A driver that answers each pending action with its own outcome kind never
/// violates the machine's precondition: at every turn of every run, the fed
/// outcome is the one the state awaits, and the run's end is the last stand.
pub proof fn lemma_protocol_respected(max: int, text: String, o: RunOutcomes)
    ensures
        forall|i: int|
            0 <= i < run_models(max, text, o).len() ==> protocol_ok(
                run_models(max, text, o)[i],
                o,
            ),
        run_models(max, text, o).last() == run(max, text, o),
{
    if text@.len() <= max {
        match o.classify {
            Ok(intent) => {
                match intent {
                    IntentType::Conversation => {},
                    IntentType::SingingRequest => {},
                    IntentType::DrawingRequest => {},
                    IntentType::OtherCommand => {},
                }
            },
            Err(_) => {},
        }
    }
}

/// Every run ends in a terminal state with no action pending.
pub proof fn lemma_run_terminates(max: int, text: String, o: RunOutcomes)
    ensures
        run(max, text, o).action matches None,
        run(max, text, o).state matches PipelineState::Succeeded { .. } || run(
            max,
            text,
            o,
        ).state matches PipelineState::Failed { .. },
{
}

/// An input longer than the bound fails fast with `InputTooLong`: no event
/// is emitted and no external capability is ever asked for.
pub proof fn lemma_input_too_long(max: int, text: String, o: RunOutcomes)
    requires
        text@.len() > max,
    ensures
        run(max, text, o).state == (PipelineState::Failed { error: PipelineError::InputTooLong }),
        run(max, text, o).trace == Seq::<EventModel>::empty(),
        start_spec(max, text).action matches None,
{
}

/// Success is decided by validation, classification and generation alone:
/// image and speech outcomes never decide it (their failures degrade).
pub proof fn lemma_success_iff(max: int, text: String, o: RunOutcomes)
    ensures
        (run(max, text, o).state matches PipelineState::Succeeded { .. }) <==> (text@.len() <= max
            && (o.classify matches Ok(_)) && o.reply_ok),
{
    if text@.len() <= max {
        match o.classify {
            Ok(intent) => {
                if o.reply_ok {
                    match intent {
                        IntentType::Conversation => {},
                        IntentType::SingingRequest => {},
                        IntentType::DrawingRequest => {},
                        IntentType::OtherCommand => {},
                    }
                }
            },
            Err(_) => {},
        }
    }
}

/// The audio field of a successful result: the synthesized bytes, or absent
/// when speech synthesis failed.
pub open spec fn audio_of(o: RunOutcomes) -> Option<Vec<u8>> {
    match o.audio {
        Ok(bytes) => Some(bytes),
        Err(_) => None,
    }
}

/// The image field of a successful result: present only for a drawing
/// request whose image synthesis succeeded.
pub open spec fn image_of(intent: IntentType, o: RunOutcomes) -> Option<String> {
    if intent == IntentType::DrawingRequest {
        match o.image {
            Ok(url) => Some(url),
            Err(_) => None,
        }
    } else {
        None
    }
}

/// The exact result of every successful run: the classified intent and the
/// generated reply are always present; audio and image are present exactly
/// as [`audio_of`] and [`image_of`] say.
pub proof fn lemma_successful_result(max: int, text: String, o: RunOutcomes, intent: IntentType)
    requires
        text@.len() <= max,
        o.classify == Ok::<IntentType, ()>(intent),
        o.reply_ok,
    ensures
        run(max, text, o).state == (PipelineState::Succeeded {
            result: DanmakuProcessingResult {
                intent_type: intent,
                text_response: o.reply_text,
                audio_data: audio_of(o),
                image_url: image_of(intent, o),
            },
        }),
{
    match intent {
        IntentType::Conversation => {},
        IntentType::SingingRequest => {},
        IntentType::DrawingRequest => {},
        IntentType::OtherCommand => {},
    }
}

/// An image synthesis failure degrades: the run still succeeds, the reply
/// text is kept, audio (when synthesis succeeds) is kept, and only the image
/// field is absent.
pub proof fn lemma_image_failure_degrades(max: int, text: String, o: RunOutcomes, bytes: Vec<u8>)
    requires
        text@.len() <= max,
        o.classify == Ok::<IntentType, ()>(IntentType::DrawingRequest),
        o.reply_ok,
        o.image matches Err(_),
        o.audio == Ok::<Vec<u8>, ()>(bytes),
    ensures
        run(max, text, o).state == (PipelineState::Succeeded {
            result: DanmakuProcessingResult {
                intent_type: IntentType::DrawingRequest,
                text_response: o.reply_text,
                audio_data: Some(bytes),
                image_url: None,
            },
        }),
{
    lemma_successful_result(max, text, o, IntentType::DrawingRequest);
}

/// The full event trace of a successful run: the two opening stages, the
/// image sub-pipeline exactly for a drawing request (start with the raw
/// prompt, optimization, progress with the optimized prompt, then complete
/// or error), then speech synthesis and completion.
pub open spec fn success_trace(
    intent: IntentType,
    raw_prompt: Seq<char>,
    optimized: Seq<char>,
    image_ok: bool,
    audio_ok: bool,
) -> Seq<EventModel> {
    seq![
        event_model(Stage::IntentAnalysis, None),
        event_model(Stage::ResponseGeneration, None),
    ] + (if intent == IntentType::DrawingRequest {
        seq![
            event_model(Stage::ImageGenerationStart, Some(raw_prompt)),
            event_model(Stage::ImagePromptOptimization, None),
            event_model(Stage::ImageGenerationProgress, Some(optimized)),
            event_model(
                if image_ok {
                    Stage::ImageGenerationComplete
                } else {
                    Stage::ImageGenerationError
                },
                None,
            ),
        ]
    } else {
        Seq::<EventModel>::empty()
    }) + seq![
        event_model(Stage::TtsGeneration, None),
        event_model(
            if audio_ok {
                Stage::TtsComplete
            } else {
                Stage::TtsError
            },
            None,
        ),
        event_model(Stage::ProcessingComplete, None),
    ]
}

/// Every successful run emits exactly [`success_trace`], in that order.
pub proof fn lemma_successful_trace(max: int, text: String, o: RunOutcomes, intent: IntentType)
    requires
        text@.len() <= max,
        o.classify == Ok::<IntentType, ()>(intent),
        o.reply_ok,
    ensures
        run(max, text, o).trace == success_trace(
            intent,
            o.reply_prompt@,
            o.optimized@,
            o.image matches Ok(_),
            o.audio matches Ok(_),
        ),
{
    let tr = run(max, text, o).trace;
    let expected = success_trace(
        intent,
        o.reply_prompt@,
        o.optimized@,
        o.image matches Ok(_),
        o.audio matches Ok(_),
    );
    match intent {
        IntentType::Conversation => {
            assert(tr =~= expected);
        },
        IntentType::SingingRequest => {
            assert(tr =~= expected);
        },
        IntentType::DrawingRequest => {
            assert(tr =~= expected);
        },
        IntentType::OtherCommand => {
            assert(tr =~= expected);
        },
    }
}

/// On every successful run, `processing_complete` is the last event emitted,
/// and is emitted exactly once.
pub proof fn lemma_processing_complete_last(max: int, text: String, o: RunOutcomes)
    requires
        run(max, text, o).state matches PipelineState::Succeeded { .. },
    ensures
        run(max, text, o).trace.len() > 0,
        run(max, text, o).trace.last().stage == Stage::ProcessingComplete,
        forall|i: int|
            0 <= i < run(max, text, o).trace.len() - 1 ==> run(max, text, o).trace[i].stage
                != Stage::ProcessingComplete,
{
    lemma_success_iff(max, text, o);
    match o.classify {
        Ok(intent) => {
            lemma_successful_trace(max, text, o, intent);
            match intent {
                IntentType::Conversation => {},
                IntentType::SingingRequest => {},
                IntentType::DrawingRequest => {},
                IntentType::OtherCommand => {},
            }
        },
        Err(_) => {},
    }
}

pub open spec fn is_image_stage(s: Stage) -> bool {
    ||| s == Stage::ImageGenerationStart
    ||| s == Stage::ImagePromptOptimization
    ||| s == Stage::ImageGenerationProgress
    ||| s == Stage::ImageGenerationComplete
    ||| s == Stage::ImageGenerationError
}

/// In a successful drawing run the image sub-pipeline stages stand exactly
/// at positions two to five, in fixed order, closed by `complete` on image
/// success and `error` on image failure.
pub proof fn lemma_drawing_image_stage_order(max: int, text: String, o: RunOutcomes)
    requires
        text@.len() <= max,
        o.classify == Ok::<IntentType, ()>(IntentType::DrawingRequest),
        o.reply_ok,
    ensures
        run(max, text, o).trace.len() == 9,
        run(max, text, o).trace[2].stage == Stage::ImageGenerationStart,
        run(max, text, o).trace[3].stage == Stage::ImagePromptOptimization,
        run(max, text, o).trace[4].stage == Stage::ImageGenerationProgress,
        run(max, text, o).trace[5].stage == (if o.image matches Ok(_) {
            Stage::ImageGenerationComplete
        } else {
            Stage::ImageGenerationError
        }),
        forall|i: int|
            0 <= i < 9 && !(2 <= i <= 5) ==> !is_image_stage(run(max, text, o).trace[i].stage),
{
    lemma_successful_trace(max, text, o, IntentType::DrawingRequest);
}

/// No run whose classification is not a drawing request ever emits an image
/// sub-pipeline event, successful or not.
pub proof fn lemma_image_events_only_for_drawing(max: int, text: String, o: RunOutcomes)
    requires
        !(o.classify == Ok::<IntentType, ()>(IntentType::DrawingRequest)),
    ensures
        forall|i: int|
            0 <= i < run(max, text, o).trace.len() ==> !is_image_stage(
                run(max, text, o).trace[i].stage,
            ),
{
    if text@.len() > max {
    } else {
        match o.classify {
            Ok(intent) => {
                if o.reply_ok {
                    lemma_successful_trace(max, text, o, intent);
                    match intent {
                        IntentType::Conversation => {},
                        IntentType::SingingRequest => {},
                        IntentType::DrawingRequest => {},
                        IntentType::OtherCommand => {},
                    }
                } else {
                    match intent {
                        IntentType::Conversation => {},
                        IntentType::SingingRequest => {},
                        IntentType::DrawingRequest => {},
                        IntentType::OtherCommand => {},
                    }
                }
            },
            Err(_) => {},
        }
    }
}

} // verus!
