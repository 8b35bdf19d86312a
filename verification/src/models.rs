//! Data model of the pipeline: intents, progress events, errors, settings,
//! and the final processing result.

use vstd::prelude::*;
use vstd::string::*;

verus! {

/// Classified purpose of a danmaku message; decides the generation branch.
#[derive(Clone, Copy, Debug, PartialEq, Eq, Structural)]
pub enum IntentType {
    Conversation,
    SingingRequest,
    DrawingRequest,
    OtherCommand,
}

/// Configuration consumed by the orchestrator: the single input bound.
#[derive(Clone, Copy, Debug, PartialEq, Eq, Structural)]
pub struct Settings {
    pub max_danmaku_length: usize,
}

/// Fatal errors: each aborts the call with no partial result.
/// Image and speech failures are not here: they degrade and never abort.
#[derive(Clone, Copy, Debug, PartialEq, Eq, Structural)]
pub enum PipelineError {
    InputTooLong,
    ClassificationFailed,
    GenerationFailed,
}

/// Pipeline stage tags carried by progress events, in pipeline order.
#[derive(Clone, Copy, Debug, PartialEq, Eq, Structural)]
pub enum Stage {
    IntentAnalysis,
    ResponseGeneration,
    ImageGenerationStart,
    ImagePromptOptimization,
    ImageGenerationProgress,
    ImageGenerationComplete,
    ImageGenerationError,
    TtsGeneration,
    TtsComplete,
    TtsError,
    ProcessingComplete,
}

pub open spec fn stage_tag(stage: Stage) -> Seq<char> {
    match stage {
        Stage::IntentAnalysis => "intent_analysis"@,
        Stage::ResponseGeneration => "response_generation"@,
        Stage::ImageGenerationStart => "image_generation_start"@,
        Stage::ImagePromptOptimization => "image_prompt_optimization"@,
        Stage::ImageGenerationProgress => "image_generation_progress"@,
        Stage::ImageGenerationComplete => "image_generation_complete"@,
        Stage::ImageGenerationError => "image_generation_error"@,
        Stage::TtsGeneration => "tts_generation"@,
        Stage::TtsComplete => "tts_complete"@,
        Stage::TtsError => "tts_error"@,
        Stage::ProcessingComplete => "processing_complete"@,
    }
}

pub open spec fn stage_message(stage: Stage) -> Seq<char> {
    match stage {
        Stage::IntentAnalysis => "🤔 正在分析弹幕意图..."@,
        Stage::ResponseGeneration => "💭 正在生成回应内容..."@,
        Stage::ImageGenerationStart => "🎨 正在为您创作图片，请稍等片刻..."@,
        Stage::ImagePromptOptimization => "✨ 正在优化绘画提示词..."@,
        Stage::ImageGenerationProgress => "🎨 AI正在努力创作中，精美的画作马上就好..."@,
        Stage::ImageGenerationComplete => "✨ 图片创作完成！"@,
        Stage::ImageGenerationError => "❌ 图片生成失败，请稍后再试"@,
        Stage::TtsGeneration => "🎤 正在生成语音回应..."@,
        Stage::TtsComplete => "🔊 语音生成完成！"@,
        Stage::TtsError => "❌ 语音生成失败"@,
        Stage::ProcessingComplete => "✅ 处理完成！"@,
    }
}

impl Stage {
    /// The wire-format string tag of this stage.
    pub fn tag(&self) -> (r: &'static str)
        ensures
            r@ == stage_tag(*self),
    {
        match self {
            Stage::IntentAnalysis => "intent_analysis",
            Stage::ResponseGeneration => "response_generation",
            Stage::ImageGenerationStart => "image_generation_start",
            Stage::ImagePromptOptimization => "image_prompt_optimization",
            Stage::ImageGenerationProgress => "image_generation_progress",
            Stage::ImageGenerationComplete => "image_generation_complete",
            Stage::ImageGenerationError => "image_generation_error",
            Stage::TtsGeneration => "tts_generation",
            Stage::TtsComplete => "tts_complete",
            Stage::TtsError => "tts_error",
            Stage::ProcessingComplete => "processing_complete",
        }
    }

    /// The human-readable message shown for this stage.
    pub fn message(&self) -> (r: String)
        ensures
            r@ == stage_message(*self),
    {
        match self {
            Stage::IntentAnalysis => String::from_str("🤔 正在分析弹幕意图..."),
            Stage::ResponseGeneration => String::from_str("💭 正在生成回应内容..."),
            Stage::ImageGenerationStart => String::from_str("🎨 正在为您创作图片，请稍等片刻..."),
            Stage::ImagePromptOptimization => String::from_str("✨ 正在优化绘画提示词..."),
            Stage::ImageGenerationProgress => String::from_str("🎨 AI正在努力创作中，精美的画作马上就好..."),
            Stage::ImageGenerationComplete => String::from_str("✨ 图片创作完成！"),
            Stage::ImageGenerationError => String::from_str("❌ 图片生成失败，请稍后再试"),
            Stage::TtsGeneration => String::from_str("🎤 正在生成语音回应..."),
            Stage::TtsComplete => String::from_str("🔊 语音生成完成！"),
            Stage::TtsError => String::from_str("❌ 语音生成失败"),
            Stage::ProcessingComplete => String::from_str("✅ 处理完成！"),
        }
    }
}

/// One progress notification, delivered to the observer in stage order.
#[derive(Debug)]
pub struct ProgressEvent {
    pub stage: Stage,
    pub message: String,
    pub image_prompt: Option<String>,
}

/// Mathematical model of a progress event: strings as character sequences.
#[verifier::ext_equal]
pub struct EventModel {
    pub stage: Stage,
    pub message: Seq<char>,
    pub image_prompt: Option<Seq<char>>,
}

pub open spec fn opt_str_view(p: Option<String>) -> Option<Seq<char>> {
    match p {
        Some(s) => Some(s@),
        None => None,
    }
}

impl View for ProgressEvent {
    type V = EventModel;

    open spec fn view(&self) -> EventModel {
        EventModel {
            stage: self.stage,
            message: self.message@,
            image_prompt: opt_str_view(self.image_prompt),
        }
    }
}

/// An event whose message is the standard one for its stage.
pub open spec fn event_model(stage: Stage, image_prompt: Option<Seq<char>>) -> EventModel {
    EventModel { stage, message: stage_message(stage), image_prompt }
}

/// The models of a sequence of progress events.
pub open spec fn events_view(v: Vec<ProgressEvent>) -> Seq<EventModel> {
    v@.map_values(|e: ProgressEvent| e@)
}

/// The aggregated outcome of one successful pipeline run.
/// `audio_data` is present exactly when speech synthesis succeeded;
/// `image_url` only for a drawing request whose image synthesis succeeded.
#[derive(Debug)]
pub struct DanmakuProcessingResult {
    pub intent_type: IntentType,
    pub text_response: String,
    pub audio_data: Option<Vec<u8>>,
    pub image_url: Option<String>,
}

} // verus!
