//! The command line: subcommands and the model presets offered on OpenRouter.
use vstd::prelude::*;
use vstd::string::StringExecFns;

use crate::chat::ProviderRouting;

verus! {

/// The parsed command line.
pub struct Cli {
    pub command: Command,
}

/// What to run.
pub enum Command {
    /// Chat with a local endpoint.
    Local,
    /// Chat through OpenRouter with a preset model.
    OpenRouter { preset: OpenRouterPreset },
    /// Generate images.
    ImageGen {
        model: String,
        prompt: String,
        resolution: String,
        aspect_ratio: String,
        input_reference_path: Vec<String>,
    },
    /// Show a streaming demonstration.
    Chan,
    /// Ask the evaluation endpoint.
    Jev,
}

/// A model and its provider routing on OpenRouter.
#[derive(Debug, Clone, Copy, PartialEq, Eq, Structural)]
pub enum OpenRouterPreset {
    NoPreset,
    DeepSeek,
    GlmFlash,
    OpenAILuna,
}

impl Default for OpenRouterPreset {
    fn default() -> (res: Self)
        ensures
            res == OpenRouterPreset::NoPreset,
    {
        OpenRouterPreset::NoPreset
    }
}

/// The model of a preset.
pub open spec fn preset_model(p: OpenRouterPreset) -> Seq<char> {
    match p {
        OpenRouterPreset::NoPreset => "none"@,
        OpenRouterPreset::DeepSeek => "deepseek/deepseek-v4.1-flash"@,
        OpenRouterPreset::GlmFlash => "z-ai/glm-5.3-flash"@,
        OpenRouterPreset::OpenAILuna => "openai/gpt-5.6-luna"@,
    }
}

/// The single provider a preset is pinned to, with no fallback; none for no preset.
pub open spec fn preset_provider(p: OpenRouterPreset) -> Option<Seq<char>> {
    match p {
        OpenRouterPreset::NoPreset => None,
        OpenRouterPreset::DeepSeek => Some("deepseek"@),
        OpenRouterPreset::GlmFlash => Some("z-ai/fp8"@),
        OpenRouterPreset::OpenAILuna => Some("openai/flex"@),
    }
}

fn pinned(provider: &str) -> (res: ProviderRouting)
    ensures
        res.order@.len() == 1,
        res.order@[0]@ == provider@,
        !res.allow_fallbacks,
{
    let mut order: Vec<String> = Vec::new();
    order.push(String::from_str(provider));
    ProviderRouting { order, allow_fallbacks: false }
}

impl OpenRouterPreset {
    /// The model of the preset.
    pub fn model(&self) -> (res: &'static str)
        ensures
            res@ == preset_model(*self),
    {
        match *self {
            Self::NoPreset => "none",
            Self::DeepSeek => "deepseek/deepseek-v4.1-flash",
            Self::GlmFlash => "z-ai/glm-5.3-flash",
            Self::OpenAILuna => "openai/gpt-5.6-luna",
        }
    }

    /// The provider routing of the preset: one provider, no fallbacks.
    pub fn provider(&self) -> (res: Option<ProviderRouting>)
        ensures
            match preset_provider(*self) {
                None => res is None,
                Some(p) => res matches Some(r) && r.order@.len() == 1 && r.order@[0]@ == p
                    && !r.allow_fallbacks,
            },
    {
        match *self {
            Self::NoPreset => None,
            Self::DeepSeek => Some(pinned("deepseek")),
            Self::GlmFlash => Some(pinned("z-ai/fp8")),
            Self::OpenAILuna => Some(pinned("openai/flex")),
        }
    }

    /// The service tier of the preset: `flex` for the OpenAI preset, none otherwise.
    pub fn service_tier(&self) -> (res: Option<String>)
        ensures
            match *self {
                OpenRouterPreset::OpenAILuna => res matches Some(t) && t@ == "flex"@,
                _ => res is None,
            },
    {
        match *self {
            Self::OpenAILuna => Some(String::from_str("flex")),
            _ => None,
        }
    }
}

/// A model listed by the models endpoint: its id and context length.
pub struct ModelEntry {
    pub id: String,
    pub context_length: u64,
}

/// The context length of the first listed model whose id is `model`.
pub open spec fn context_length_of(models: Seq<ModelEntry>, model: Seq<char>) -> Option<u64>
    decreases models.len(),
{
    if models.len() == 0 {
        None
    } else if models[0].id@ == model {
        Some(models[0].context_length)
    } else {
        context_length_of(models.drop_first(), model)
    }
}

/// The context length of the first listed model whose id is `model`.
pub fn find_context_length(models: &[ModelEntry], model: &str) -> (res: Option<u64>)
    ensures
        res == context_length_of(models@, model@),
{
    let n = models.len();
    let target = String::from_str(model);
    assert(models@.skip(0) =~= models@);
    for i in 0..n
        invariant
            n == models@.len(),
            target@ == model@,
            context_length_of(models@, model@) == context_length_of(models@.skip(i as int), model@),
    {
        proof {
            let r = models@.skip(i as int);
            assert(r[0] == models@[i as int]);
            assert(r.drop_first() =~= models@.skip(i + 1));
        }
        if models[i].id == target {
            return Some(models[i].context_length);
        }
    }
    None
}

} // verus!

verus! {

/// The address `base` with the query pairs appended, form-encoded, as
/// `Url::parse_with_params` builds it; `None` when `base` is not an absolute URL.
pub uninterp spec fn url_with_query(base: Seq<char>, query: Seq<(Seq<char>, Seq<char>)>) -> Option<
    Seq<char>,
>;

/// The values of query pairs.
pub open spec fn query_view(query: Seq<(&str, &str)>) -> Seq<(Seq<char>, Seq<char>)> {
    query.map_values(|p: (&str, &str)| (p.0@, p.1@))
}

/// Calls `reqwest::Url::parse_with_params(base, query)` and serializes the address. The
/// address is a function of its arguments; what the error says is not stated.
#[verifier::external_body]
fn parse_with_params(base: &str, query: &[(&str, &str)]) -> (res: Result<String, String>)
    ensures
        match res {
            Ok(u) => url_with_query(base@, query_view(query@)) == Some(u@),
            Err(_) => url_with_query(base@, query_view(query@)) is None,
        },
{
    match reqwest::Url::parse_with_params(base, query) {
        Ok(u) => Ok(u.to_string()),
        Err(e) => Err(e.to_string()),
    }
}

/// The query that asks the models endpoint about a preset's model on its provider.
pub open spec fn model_query(preset: OpenRouterPreset) -> Seq<(Seq<char>, Seq<char>)> {
    seq![("q"@, preset_model(preset)), ("providers"@, preset_provider(preset).unwrap())]
}

/// The address that asks the models endpoint at `models_url` about a preset's model on its
/// provider; the error message when `models_url` is not an absolute URL.
pub fn model_query_url(models_url: &str, preset: OpenRouterPreset) -> (res: Result<String, String>)
    requires
        preset != OpenRouterPreset::NoPreset,
    ensures
        match url_with_query(models_url@, model_query(preset)) {
            Some(u) => res matches Ok(r) && r@ == u,
            None => res is Err,
        },
{
    let model = preset.model();
    let routing = preset.provider();
    let provider = match &routing {
        Some(r) => r.order[0].as_str(),
        None => "",
    };
    let mut query: Vec<(&str, &str)> = Vec::new();
    query.push(("q", model));
    query.push(("providers", provider));
    assert(query_view(query@) =~= model_query(preset));
    parse_with_params(models_url, query.as_slice())
}

} // verus!
