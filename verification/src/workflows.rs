//! The pipeline orchestrator as a step machine.
//!
//! A run starts with [`DanmakuWorkflow::start`], which validates the input
//! and yields the first pending [`StepAction`]. The caller performs each
//! pending action against its external capability (classifier, response
//! generator, image backend, speech synthesizer), delivers the emitted
//! [`ProgressEvent`]s to its observer, and feeds the call's outcome back
//! through [`DanmakuWorkflow::step`] until no action is pending. All
//! sequencing, branching and degradation decisions are made here; the caller
//! only performs actions and relays outcomes.

use vstd::prelude::*;
use vstd::pervasive::unreached;

use crate::models::DanmakuProcessingResult;
use crate::models::EventModel;
use crate::models::IntentType;
use crate::models::PipelineError;
use crate::models::ProgressEvent;
use crate::models::Settings;
use crate::models::Stage;
use crate::models::event_model;
use crate::models::events_view;
use crate::models::opt_str_view;

verus! {

/// Output of the response generator for a drawing request: the reply text
/// and the raw prompt for the image sub-pipeline.
#[derive(Debug)]
pub struct DrawingResponse {
    pub text: String,
    pub image_prompt: String,
}

/// Where a run stands: which external outcome it is waiting for, or how it
/// ended. The `Awaiting*` states hold exactly the values still needed by
/// later stages.
#[derive(Debug)]
pub enum PipelineState {
    AwaitingClassification { text: String },
    AwaitingGeneration { intent: IntentType },
    AwaitingOptimization { intent: IntentType, text_response: String },
    AwaitingImage { intent: IntentType, text_response: String },
    AwaitingAudio { intent: IntentType, text_response: String, image_url: Option<String> },
    Succeeded { result: DanmakuProcessingResult },
    Failed { error: PipelineError },
}

/// The external call the caller must perform next.
#[derive(Debug)]
pub enum StepAction {
    Classify { text: String },
    GenerateConversationReply { text: String },
    GenerateSingingReply { text: String },
    GenerateDrawingReply { text: String },
    GenerateOtherReply { text: String },
    OptimizePrompt { prompt: String },
    GenerateImage { prompt: String },
    SynthesizeSpeech { text: String },
}

/// What an external call came back with. `Err(())` stands for a failure of
/// the capability; its cause is the caller's to log.
#[derive(Debug)]
pub enum StepOutcome {
    Classified(Result<IntentType, ()>),
    ConversationReply(Result<String, ()>),
    SingingReply(Result<String, ()>),
    DrawingReply(Result<DrawingResponse, ()>),
    OtherReply(Result<String, ()>),
    PromptOptimized(String),
    ImageGenerated(Result<String, ()>),
    SpeechSynthesized(Result<Vec<u8>, ()>),
}

/// One transition of the machine: the events to deliver now, in order, the
/// new state, and the pending action, if any.
#[derive(Debug)]
pub struct StepResult {
    pub state: PipelineState,
    pub events: Vec<ProgressEvent>,
    pub action: Option<StepAction>,
}

/// Model of a transition: events as [`EventModel`]s.
#[verifier::ext_equal]
pub struct Transition {
    pub state: PipelineState,
    pub events: Seq<EventModel>,
    pub action: Option<StepAction>,
}

impl View for StepResult {
    type V = Transition;

    open spec fn view(&self) -> Transition {
        Transition { state: self.state, events: events_view(self.events), action: self.action }
    }
}

/// Which outcome kind a state is waiting for. The reply kind must match the
/// classified intent; terminal states await nothing.
pub open spec fn expects(state: PipelineState, outcome: StepOutcome) -> bool {
    match (state, outcome) {
        (PipelineState::AwaitingClassification { .. }, StepOutcome::Classified(_)) => true,
        (
            PipelineState::AwaitingGeneration { intent },
            StepOutcome::ConversationReply(_),
        ) => intent == IntentType::Conversation,
        (
            PipelineState::AwaitingGeneration { intent },
            StepOutcome::SingingReply(_),
        ) => intent == IntentType::SingingRequest,
        (
            PipelineState::AwaitingGeneration { intent },
            StepOutcome::DrawingReply(_),
        ) => intent == IntentType::DrawingRequest,
        (
            PipelineState::AwaitingGeneration { intent },
            StepOutcome::OtherReply(_),
        ) => intent == IntentType::OtherCommand,
        (PipelineState::AwaitingOptimization { .. }, StepOutcome::PromptOptimized(_)) => true,
        (PipelineState::AwaitingImage { .. }, StepOutcome::ImageGenerated(_)) => true,
        (PipelineState::AwaitingAudio { .. }, StepOutcome::SpeechSynthesized(_)) => true,
        _ => false,
    }
}

/// The generation action dispatched for an intent: one capability per
/// variant, so the caller never branches on the intent itself.
pub open spec fn generation_action(intent: IntentType, text: String) -> StepAction {
    match intent {
        IntentType::Conversation => StepAction::GenerateConversationReply { text },
        IntentType::SingingRequest => StepAction::GenerateSingingReply { text },
        IntentType::DrawingRequest => StepAction::GenerateDrawingReply { text },
        IntentType::OtherCommand => StepAction::GenerateOtherReply { text },
    }
}

/// A fatal transition: no events, no pending action, the error recorded.
pub open spec fn fatal(error: PipelineError) -> Transition {
    Transition {
        state: PipelineState::Failed { error },
        events: Seq::empty(),
        action: None,
    }
}

/// Transition taken when a non-drawing reply comes back: on success the
/// speech stage is announced and requested; on failure the run aborts.
pub open spec fn reply_transition(intent: IntentType, r: Result<String, ()>) -> Transition {
    match r {
        Ok(text_response) => Transition {
            state: PipelineState::AwaitingAudio { intent, text_response, image_url: None },
            events: seq![event_model(Stage::TtsGeneration, None)],
            action: Some(StepAction::SynthesizeSpeech { text: text_response }),
        },
        Err(_) => fatal(PipelineError::GenerationFailed),
    }
}

/// The first transition: an input longer than `max` characters fails fast
/// with no events and no action; otherwise the intent-analysis stage is
/// announced and classification requested.
pub open spec fn start_spec(max: int, text: String) -> Transition {
    if text@.len() > max {
        fatal(PipelineError::InputTooLong)
    } else {
        Transition {
            state: PipelineState::AwaitingClassification { text },
            events: seq![event_model(Stage::IntentAnalysis, None)],
            action: Some(StepAction::Classify { text }),
        }
    }
}

/// The machine's transition function: given the awaited outcome, the exact
/// events emitted, the next state and the next pending action.
pub open spec fn step_spec(state: PipelineState, outcome: StepOutcome) -> Transition
    recommends
        expects(state, outcome),
{
    match (state, outcome) {
        (PipelineState::AwaitingClassification { text }, StepOutcome::Classified(r)) => match r {
            Ok(intent) => Transition {
                state: PipelineState::AwaitingGeneration { intent },
                events: seq![event_model(Stage::ResponseGeneration, None)],
                action: Some(generation_action(intent, text)),
            },
            Err(_) => fatal(PipelineError::ClassificationFailed),
        },
        (
            PipelineState::AwaitingGeneration { intent },
            StepOutcome::ConversationReply(r),
        ) => reply_transition(intent, r),
        (
            PipelineState::AwaitingGeneration { intent },
            StepOutcome::SingingReply(r),
        ) => reply_transition(intent, r),
        (
            PipelineState::AwaitingGeneration { intent },
            StepOutcome::OtherReply(r),
        ) => reply_transition(intent, r),
        (PipelineState::AwaitingGeneration { intent }, StepOutcome::DrawingReply(r)) => match r {
            Ok(d) => Transition {
                state: PipelineState::AwaitingOptimization { intent, text_response: d.text },
                events: seq![
                    event_model(Stage::ImageGenerationStart, Some(d.image_prompt@)),
                    event_model(Stage::ImagePromptOptimization, None),
                ],
                action: Some(StepAction::OptimizePrompt { prompt: d.image_prompt }),
            },
            Err(_) => fatal(PipelineError::GenerationFailed),
        },
        (
            PipelineState::AwaitingOptimization { intent, text_response },
            StepOutcome::PromptOptimized(optimized),
        ) => Transition {
            state: PipelineState::AwaitingImage { intent, text_response },
            events: seq![event_model(Stage::ImageGenerationProgress, Some(optimized@))],
            action: Some(StepAction::GenerateImage { prompt: optimized }),
        },
        (
            PipelineState::AwaitingImage { intent, text_response },
            StepOutcome::ImageGenerated(r),
        ) => match r {
            Ok(url) => Transition {
                state: PipelineState::AwaitingAudio {
                    intent,
                    text_response,
                    image_url: Some(url),
                },
                events: seq![
                    event_model(Stage::ImageGenerationComplete, None),
                    event_model(Stage::TtsGeneration, None),
                ],
                action: Some(StepAction::SynthesizeSpeech { text: text_response }),
            },
            Err(_) => Transition {
                state: PipelineState::AwaitingAudio { intent, text_response, image_url: None },
                events: seq![
                    event_model(Stage::ImageGenerationError, None),
                    event_model(Stage::TtsGeneration, None),
                ],
                action: Some(StepAction::SynthesizeSpeech { text: text_response }),
            },
        },
        (
            PipelineState::AwaitingAudio { intent, text_response, image_url },
            StepOutcome::SpeechSynthesized(r),
        ) => match r {
            Ok(bytes) => Transition {
                state: PipelineState::Succeeded {
                    result: DanmakuProcessingResult {
                        intent_type: intent,
                        text_response,
                        audio_data: Some(bytes),
                        image_url,
                    },
                },
                events: seq![
                    event_model(Stage::TtsComplete, None),
                    event_model(Stage::ProcessingComplete, None),
                ],
                action: None,
            },
            Err(_) => Transition {
                state: PipelineState::Succeeded {
                    result: DanmakuProcessingResult {
                        intent_type: intent,
                        text_response,
                        audio_data: None,
                        image_url,
                    },
                },
                events: seq![
                    event_model(Stage::TtsError, None),
                    event_model(Stage::ProcessingComplete, None),
                ],
                action: None,
            },
        },
        _ => arbitrary(),
    }
}

/// Makes one event carrying the standard message of its stage.
fn emit(stage: Stage, image_prompt: Option<String>) -> (e: ProgressEvent)
    ensures
        e@ == event_model(stage, opt_str_view(image_prompt)),
{
    let message = stage.message();
    ProgressEvent { stage, message, image_prompt }
}

fn no_events() -> (v: Vec<ProgressEvent>)
    ensures
        events_view(v) == Seq::<EventModel>::empty(),
{
    let v: Vec<ProgressEvent> = Vec::new();
    proof {
        assert(events_view(v) =~= Seq::<EventModel>::empty());
    }
    v
}

fn one_event(stage: Stage, image_prompt: Option<String>) -> (v: Vec<ProgressEvent>)
    ensures
        events_view(v) == seq![event_model(stage, opt_str_view(image_prompt))],
{
    let ghost p = opt_str_view(image_prompt);
    let mut v: Vec<ProgressEvent> = Vec::new();
    v.push(emit(stage, image_prompt));
    proof {
        assert(events_view(v) =~= seq![event_model(stage, p)]);
    }
    v
}

fn two_events(
    first: Stage,
    first_prompt: Option<String>,
    second: Stage,
    second_prompt: Option<String>,
) -> (v: Vec<ProgressEvent>)
    ensures
        events_view(v) == seq![
            event_model(first, opt_str_view(first_prompt)),
            event_model(second, opt_str_view(second_prompt)),
        ],
{
    let ghost p1 = opt_str_view(first_prompt);
    let ghost p2 = opt_str_view(second_prompt);
    let mut v: Vec<ProgressEvent> = Vec::new();
    v.push(emit(first, first_prompt));
    v.push(emit(second, second_prompt));
    proof {
        assert(events_view(v) =~= seq![event_model(first, p1), event_model(second, p2)]);
    }
    v
}

/// The orchestrator: holds the configuration and drives one run per call
/// pair of [`DanmakuWorkflow::start`] and repeated [`DanmakuWorkflow::step`].
#[derive(Clone, Copy)]
pub struct DanmakuWorkflow {
    pub settings: Settings,
}

impl DanmakuWorkflow {
    pub fn new(settings: &Settings) -> (r: Self)
        ensures
            r.settings == *settings,
    {
        DanmakuWorkflow { settings: *settings }
    }

    /// Begins a run on one danmaku message: validates the input length and,
    /// when it is within bounds, announces intent analysis and requests
    /// classification.
    pub fn start(&self, text: String) -> (r: StepResult)
        ensures
            r@ == start_spec(self.settings.max_danmaku_length as int, text),
    {
        let ghost t0 = text;
        let len = text.as_str().unicode_len();
        if len > self.settings.max_danmaku_length {
            let r = StepResult {
                state: PipelineState::Failed { error: PipelineError::InputTooLong },
                events: no_events(),
                action: None,
            };
            proof {
                assert(r@ =~= start_spec(self.settings.max_danmaku_length as int, t0));
            }
            r
        } else {
            let state_text = text.clone();
            let r = StepResult {
                state: PipelineState::AwaitingClassification { text: state_text },
                events: one_event(Stage::IntentAnalysis, None),
                action: Some(StepAction::Classify { text }),
            };
            proof {
                assert(r@ =~= start_spec(self.settings.max_danmaku_length as int, t0));
            }
            r
        }
    }

    /// Feeds the machine the outcome of the pending external call and takes
    /// one transition. The outcome must be of the kind the state awaits; see
    /// [`outcome_matches`].
    pub fn step(&self, state: PipelineState, outcome: StepOutcome) -> (r: StepResult)
        requires
            expects(state, outcome),
        ensures
            r@ == step_spec(state, outcome),
    {
        let ghost s0 = state;
        let ghost o0 = outcome;
        let r = match (state, outcome) {
            (PipelineState::AwaitingClassification { text }, StepOutcome::Classified(c)) => {
                match c {
                    Ok(intent) => {
                        let action = match intent {
                            IntentType::Conversation => StepAction::GenerateConversationReply {
                                text,
                            },
                            IntentType::SingingRequest => StepAction::GenerateSingingReply {
                                text,
                            },
                            IntentType::DrawingRequest => StepAction::GenerateDrawingReply {
                                text,
                            },
                            IntentType::OtherCommand => StepAction::GenerateOtherReply { text },
                        };
                        StepResult {
                            state: PipelineState::AwaitingGeneration { intent },
                            events: one_event(Stage::ResponseGeneration, None),
                            action: Some(action),
                        }
                    },
                    Err(_) => Self::fail(PipelineError::ClassificationFailed),
                }
            },
            (
                PipelineState::AwaitingGeneration { intent },
                StepOutcome::ConversationReply(rep),
            ) => Self::reply_step(intent, rep),
            (
                PipelineState::AwaitingGeneration { intent },
                StepOutcome::SingingReply(rep),
            ) => Self::reply_step(intent, rep),
            (
                PipelineState::AwaitingGeneration { intent },
                StepOutcome::OtherReply(rep),
            ) => Self::reply_step(intent, rep),
            (PipelineState::AwaitingGeneration { intent }, StepOutcome::DrawingReply(rep)) => {
                match rep {
                    Ok(d) => {
                        let event_prompt = d.image_prompt.clone();
                        StepResult {
                            state: PipelineState::AwaitingOptimization {
                                intent,
                                text_response: d.text,
                            },
                            events: two_events(
                                Stage::ImageGenerationStart,
                                Some(event_prompt),
                                Stage::ImagePromptOptimization,
                                None,
                            ),
                            action: Some(StepAction::OptimizePrompt { prompt: d.image_prompt }),
                        }
                    },
                    Err(_) => Self::fail(PipelineError::GenerationFailed),
                }
            },
            (
                PipelineState::AwaitingOptimization { intent, text_response },
                StepOutcome::PromptOptimized(optimized),
            ) => {
                let event_prompt = optimized.clone();
                StepResult {
                    state: PipelineState::AwaitingImage { intent, text_response },
                    events: one_event(Stage::ImageGenerationProgress, Some(event_prompt)),
                    action: Some(StepAction::GenerateImage { prompt: optimized }),
                }
            },
            (
                PipelineState::AwaitingImage { intent, text_response },
                StepOutcome::ImageGenerated(img),
            ) => {
                match img {
                    Ok(url) => {
                        let speech_text = text_response.clone();
                        StepResult {
                            state: PipelineState::AwaitingAudio {
                                intent,
                                text_response,
                                image_url: Some(url),
                            },
                            events: two_events(
                                Stage::ImageGenerationComplete,
                                None,
                                Stage::TtsGeneration,
                                None,
                            ),
                            action: Some(StepAction::SynthesizeSpeech { text: speech_text }),
                        }
                    },
                    Err(_) => {
                        let speech_text = text_response.clone();
                        StepResult {
                            state: PipelineState::AwaitingAudio {
                                intent,
                                text_response,
                                image_url: None,
                            },
                            events: two_events(
                                Stage::ImageGenerationError,
                                None,
                                Stage::TtsGeneration,
                                None,
                            ),
                            action: Some(StepAction::SynthesizeSpeech { text: speech_text }),
                        }
                    },
                }
            },
            (
                PipelineState::AwaitingAudio { intent, text_response, image_url },
                StepOutcome::SpeechSynthesized(sp),
            ) => {
                match sp {
                    Ok(bytes) => StepResult {
                        state: PipelineState::Succeeded {
                            result: DanmakuProcessingResult {
                                intent_type: intent,
                                text_response,
                                audio_data: Some(bytes),
                                image_url,
                            },
                        },
                        events: two_events(Stage::TtsComplete, None, Stage::ProcessingComplete, None),
                        action: None,
                    },
                    Err(_) => StepResult {
                        state: PipelineState::Succeeded {
                            result: DanmakuProcessingResult {
                                intent_type: intent,
                                text_response,
                                audio_data: None,
                                image_url,
                            },
                        },
                        events: two_events(Stage::TtsError, None, Stage::ProcessingComplete, None),
                        action: None,
                    },
                }
            },
            _ => unreached(),
        };
        proof {
            assert(r@ =~= step_spec(s0, o0));
        }
        r
    }

    fn fail(error: PipelineError) -> (r: StepResult)
        ensures
            r@ == fatal(error),
    {
        let r = StepResult {
            state: PipelineState::Failed { error },
            events: no_events(),
            action: None,
        };
        proof {
            assert(r@ =~= fatal(error));
        }
        r
    }

    fn reply_step(intent: IntentType, rep: Result<String, ()>) -> (r: StepResult)
        ensures
            r@ == reply_transition(intent, rep),
    {
        let res = match rep {
            Ok(text_response) => {
                let speech_text = text_response.clone();
                StepResult {
                    state: PipelineState::AwaitingAudio {
                        intent,
                        text_response,
                        image_url: None,
                    },
                    events: one_event(Stage::TtsGeneration, None),
                    action: Some(StepAction::SynthesizeSpeech { text: speech_text }),
                }
            },
            Err(_) => Self::fail(PipelineError::GenerationFailed),
        };
        proof {
            assert(res@ =~= reply_transition(intent, rep));
        }
        res
    }
}

/// True exactly when `outcome` is of the kind `state` awaits, so an
/// unverified caller can test [`DanmakuWorkflow::step`]'s precondition.
pub fn outcome_matches(state: &PipelineState, outcome: &StepOutcome) -> (r: bool)
    ensures
        r == expects(*state, *outcome),
{
    match (state, outcome) {
        (PipelineState::AwaitingClassification { .. }, StepOutcome::Classified(_)) => true,
        (PipelineState::AwaitingGeneration { intent }, StepOutcome::ConversationReply(_)) => {
            *intent == IntentType::Conversation
        },
        (PipelineState::AwaitingGeneration { intent }, StepOutcome::SingingReply(_)) => {
            *intent == IntentType::SingingRequest
        },
        (PipelineState::AwaitingGeneration { intent }, StepOutcome::DrawingReply(_)) => {
            *intent == IntentType::DrawingRequest
        },
        (PipelineState::AwaitingGeneration { intent }, StepOutcome::OtherReply(_)) => {
            *intent == IntentType::OtherCommand
        },
        (PipelineState::AwaitingOptimization { .. }, StepOutcome::PromptOptimized(_)) => true,
        (PipelineState::AwaitingImage { .. }, StepOutcome::ImageGenerated(_)) => true,
        (PipelineState::AwaitingAudio { .. }, StepOutcome::SpeechSynthesized(_)) => true,
        _ => false,
    }
}

/// Degradation, at the level of one transition: once a run is past response
/// generation (waiting on prompt optimization, image synthesis or speech
/// synthesis), no outcome of those stages can make it fail.
pub proof fn lemma_degradable_never_fatal(state: PipelineState, outcome: StepOutcome)
    requires
        expects(state, outcome),
        state matches PipelineState::AwaitingOptimization { .. } || state
            matches PipelineState::AwaitingImage { .. } || state
            matches PipelineState::AwaitingAudio { .. },
    ensures
        !(step_spec(state, outcome).state matches PipelineState::Failed { .. }),
{
}

} // verus!
