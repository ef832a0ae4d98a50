//! The assistant behind a workspace: the models that are tried in turn,
//! and what is decided after each attempt.

use crate::text::opt_text;
use vstd::prelude::*;

verus! {

/// One message of a conversation with a model.
#[derive(Debug)]
pub struct ChatMessage {
    pub role: String,
    pub content: String,
}

/// A message with its texts as sequences of characters.
pub struct ChatMessageView {
    pub role: Seq<char>,
    pub content: Seq<char>,
}

impl View for ChatMessage {
    type V = ChatMessageView;

    open spec fn view(&self) -> ChatMessageView {
        ChatMessageView { role: self.role@, content: self.content@ }
    }
}

/// The messages of a conversation, each by its view.
pub open spec fn message_views(messages: Seq<ChatMessage>) -> Seq<ChatMessageView> {
    Seq::new(messages.len(), |i: int| messages[i]@)
}

/// The answer of the first model that gave one.
#[derive(Debug)]
pub struct AiResponse {
    pub content: String,
    pub model_used: String,
    pub provider: String,
}

/// An answer with its texts as sequences of characters.
pub struct AiResponseView {
    pub content: Seq<char>,
    pub model_used: Seq<char>,
    pub provider: Seq<char>,
}

impl View for AiResponse {
    type V = AiResponseView;

    open spec fn view(&self) -> AiResponseView {
        AiResponseView {
            content: self.content@,
            model_used: self.model_used@,
            provider: self.provider@,
        }
    }
}

/// A model that can be asked, and where.
#[derive(Debug, Clone)]
pub struct ModelConfig {
    pub name: &'static str,
    pub provider: &'static str,
    pub endpoint: &'static str,
}

/// A model with its texts as sequences of characters.
pub struct ModelView {
    pub name: Seq<char>,
    pub provider: Seq<char>,
    pub endpoint: Seq<char>,
}

impl View for ModelConfig {
    type V = ModelView;

    open spec fn view(&self) -> ModelView {
        ModelView { name: self.name@, provider: self.provider@, endpoint: self.endpoint@ }
    }
}

/// The models of a list, each by its view.
pub open spec fn model_views(models: Seq<ModelConfig>) -> Seq<ModelView> {
    Seq::new(models.len(), |i: int| models[i]@)
}

/// The endpoint behind which every model is asked.
pub open spec fn completions_endpoint() -> Seq<char> {
    "https://openrouter.ai/api/v1/chat/completions"@
}

/// The models in the order in which they are tried: the primary model,
/// which the operator names, then its three fallbacks, all behind one
/// endpoint.
pub open spec fn fallback_models(primary: Seq<char>) -> Seq<ModelView> {
    seq![
        ModelView {
            name: primary,
            provider: "Anthropic (OpenRouter)"@,
            endpoint: completions_endpoint(),
        },
        ModelView {
            name: "openai/gpt-4o-2024-11-20"@,
            provider: "OpenAI (OpenRouter)"@,
            endpoint: completions_endpoint(),
        },
        ModelView {
            name: "google/gemini-pro-1.5-latest"@,
            provider: "Google (OpenRouter)"@,
            endpoint: completions_endpoint(),
        },
        ModelView {
            name: "google/gemini-flash-1.5-8b"@,
            provider: "Google (OpenRouter)"@,
            endpoint: completions_endpoint(),
        },
    ]
}

/// The models in the order in which they are tried, behind the primary
/// model of the given name.
pub fn get_model_fallbacks(primary: &'static str) -> (models: Vec<ModelConfig>)
    ensures
        model_views(models@) == fallback_models(primary@),
{
    let mut models: Vec<ModelConfig> = Vec::new();
    models.push(
        ModelConfig {
            name: primary,
            provider: "Anthropic (OpenRouter)",
            endpoint: "https://openrouter.ai/api/v1/chat/completions",
        },
    );
    models.push(
        ModelConfig {
            name: "openai/gpt-4o-2024-11-20",
            provider: "OpenAI (OpenRouter)",
            endpoint: "https://openrouter.ai/api/v1/chat/completions",
        },
    );
    models.push(
        ModelConfig {
            name: "google/gemini-pro-1.5-latest",
            provider: "Google (OpenRouter)",
            endpoint: "https://openrouter.ai/api/v1/chat/completions",
        },
    );
    models.push(
        ModelConfig {
            name: "google/gemini-flash-1.5-8b",
            provider: "Google (OpenRouter)",
            endpoint: "https://openrouter.ai/api/v1/chat/completions",
        },
    );
    assert(model_views(models@) =~= fallback_models(primary@));
    models
}

/// What follows an attempt on one model.
#[derive(Debug)]
pub enum Attempt {
    /// The model answered: this is the response.
    Answer(AiResponse),
    /// The model failed: the model at this index is tried next.
    Next(usize),
    /// The model failed and was the last one.
    Exhausted,
}

/// What follows an attempt, with its texts as sequences of characters.
pub enum AttemptView {
    Answer(AiResponseView),
    Next(int),
    Exhausted,
}

impl View for Attempt {
    type V = AttemptView;

    open spec fn view(&self) -> AttemptView {
        match self {
            Attempt::Answer(response) => AttemptView::Answer(response@),
            Attempt::Next(index) => AttemptView::Next(*index as int),
            Attempt::Exhausted => AttemptView::Exhausted,
        }
    }
}

/// What follows the attempt on the model at `tried`: its reply, where it
/// gave one, is the response, under that model's name and provider; where
/// it gave none, the next model is tried, until the list is exhausted.
pub open spec fn attempt_outcome(models: Seq<ModelView>, tried: int, reply: Option<Seq<char>>) -> AttemptView {
    match reply {
        Some(content) => AttemptView::Answer(
            AiResponseView {
                content,
                model_used: models[tried].name,
                provider: models[tried].provider,
            },
        ),
        None => if tried + 1 < models.len() {
            AttemptView::Next(tried + 1)
        } else {
            AttemptView::Exhausted
        },
    }
}

/// Decides what follows the attempt on the model at `tried`, given the
/// content of its reply, `None` where the attempt failed.
pub fn after_attempt(models: &Vec<ModelConfig>, tried: usize, reply: Option<String>) -> (step:
    Attempt)
    requires
        tried < models@.len(),
    ensures
        step@ == attempt_outcome(model_views(models@), tried as int, opt_text(reply)),
{
    let count = models.len();
    match reply {
        Some(content) => Attempt::Answer(
            AiResponse {
                content,
                model_used: String::from_str(models[tried].name),
                provider: String::from_str(models[tried].provider),
            },
        ),
        None => if tried < count - 1 {
            Attempt::Next(tried + 1)
        } else {
            Attempt::Exhausted
        },
    }
}

} // verus!
