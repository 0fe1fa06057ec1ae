//! The providers that the gateway knows: which of them a configuration
//! starts, and the tables of context lengths and prices of their models.

use vstd::prelude::*;
use crate::config::Config;
use crate::text::{has_substring, str_contains, str_eq};
use crate::types::ProviderType;

verus! {

/// Whether a configuration starts a provider: it is enabled and has what it
/// needs to connect.
pub open spec fn starts(config: Config, t: ProviderType) -> bool {
    match t {
        ProviderType::OpenAI => config.providers.openai.enabled && config.providers.openai.api_key is Some,
        ProviderType::Anthropic => config.providers.anthropic.enabled
            && config.providers.anthropic.api_key is Some,
        ProviderType::Google => config.providers.google.enabled && config.providers.google.api_key is Some,
        ProviderType::Azure => config.providers.azure.enabled && config.providers.azure.endpoint is Some
            && config.providers.azure.api_key is Some,
        ProviderType::Xai => config.providers.xai.enabled && config.providers.xai.api_key is Some,
        ProviderType::Ollama => config.providers.ollama.enabled
            && config.providers.ollama.endpoints@.len() > 0,
        ProviderType::Bedrock => config.providers.bedrock.enabled && config.providers.bedrock.region is Some
            && config.providers.bedrock.access_key_id is Some
            && config.providers.bedrock.secret_access_key is Some,
    }
}

/// The order in which providers are started.
pub open spec fn start_order() -> Seq<ProviderType> {
    seq![
        ProviderType::OpenAI,
        ProviderType::Anthropic,
        ProviderType::Google,
        ProviderType::Azure,
        ProviderType::Xai,
        ProviderType::Ollama,
        ProviderType::Bedrock,
    ]
}

/// Those of the providers that a configuration starts, in order.
pub open spec fn started_among(config: Config, order: Seq<ProviderType>) -> Seq<ProviderType>
    decreases order.len(),
{
    if order.len() == 0 {
        seq![]
    } else if starts(config, order.last()) {
        started_among(config, order.drop_last()).push(order.last())
    } else {
        started_among(config, order.drop_last())
    }
}

/// The providers that a configuration starts, in the order in which they
/// are started.
pub open spec fn registered(config: Config) -> Seq<ProviderType> {
    started_among(config, start_order())
}

/// The providers that were started. The id of each is the name of its kind.
#[derive(Debug, Clone)]
pub struct ProviderRegistry {
    pub providers: Vec<ProviderType>,
}

fn is_started(config: &Config, t: ProviderType) -> (b: bool)
    ensures
        b == starts(*config, t),
{
    match t {
        ProviderType::OpenAI => config.providers.openai.enabled
            && config.providers.openai.api_key.is_some(),
        ProviderType::Anthropic => config.providers.anthropic.enabled
            && config.providers.anthropic.api_key.is_some(),
        ProviderType::Google => config.providers.google.enabled
            && config.providers.google.api_key.is_some(),
        ProviderType::Azure => config.providers.azure.enabled
            && config.providers.azure.endpoint.is_some() && config.providers.azure.api_key.is_some(),
        ProviderType::Xai => config.providers.xai.enabled && config.providers.xai.api_key.is_some(),
        ProviderType::Ollama => config.providers.ollama.enabled
            && config.providers.ollama.endpoints.len() > 0,
        ProviderType::Bedrock => config.providers.bedrock.enabled
            && config.providers.bedrock.region.is_some()
            && config.providers.bedrock.access_key_id.is_some()
            && config.providers.bedrock.secret_access_key.is_some(),
    }
}

impl ProviderRegistry {
    /// The registry of the providers that a configuration starts.
    pub fn new(config: &Config) -> (r: Self)
        ensures
            r.providers@ == registered(*config),
    {
        let mut order: Vec<ProviderType> = Vec::new();
        order.push(ProviderType::OpenAI);
        order.push(ProviderType::Anthropic);
        order.push(ProviderType::Google);
        order.push(ProviderType::Azure);
        order.push(ProviderType::Xai);
        order.push(ProviderType::Ollama);
        order.push(ProviderType::Bedrock);
        assert(order@ =~= start_order());
        let mut providers: Vec<ProviderType> = Vec::new();
        let mut i: usize = 0;
        while i < order.len()
            invariant
                i <= order@.len(),
                providers@ == started_among(*config, order@.take(i as int)),
            decreases order@.len() - i,
        {
            proof {
                assert(order@.take(i + 1).drop_last() =~= order@.take(i as int));
            }
            if is_started(config, order[i]) {
                providers.push(order[i]);
            }
            i += 1;
        }
        assert(order@.take(i as int) =~= order@);
        ProviderRegistry { providers }
    }

    /// Whether a provider of this id was started.
    pub open spec fn has(self, id: Seq<char>) -> bool {
        exists|i: int| 0 <= i < self.providers@.len() && (#[trigger] self.providers@[i]).name() == id
    }

    /// The provider of an id.
    pub fn get(&self, id: &str) -> (r: Option<ProviderType>)
        ensures
            match r {
                Some(t) => t.name() == id@ && self.providers@.contains(t),
                None => !self.has(id@),
            },
    {
        let mut i: usize = 0;
        while i < self.providers.len()
            invariant
                i <= self.providers@.len(),
                forall|j: int| 0 <= j < i ==> (#[trigger] self.providers@[j]).name() != id@,
            decreases self.providers@.len() - i,
        {
            let t = self.providers[i];
            let name = t.to_display_string();
            if str_eq(name.as_str(), id) {
                return Some(t);
            }
            i += 1;
        }
        None
    }

    /// The ids of the providers, in the order in which they were started.
    pub fn all(&self) -> (ids: Vec<String>)
        ensures
            ids@.len() == self.providers@.len(),
            forall|i: int| 0 <= i < ids@.len() ==> (#[trigger] ids@[i])@ == self.providers@[i].name(),
    {
        let mut ids: Vec<String> = Vec::new();
        let mut i: usize = 0;
        while i < self.providers.len()
            invariant
                i <= self.providers@.len(),
                ids@.len() == i,
                forall|j: int| 0 <= j < i ==> (#[trigger] ids@[j])@ == self.providers@[j].name(),
            decreases self.providers@.len() - i,
        {
            ids.push(self.providers[i].to_display_string());
            i += 1;
        }
        ids
    }

    /// How many providers were started.
    pub fn len(&self) -> (n: usize)
        ensures
            n == self.providers@.len(),
    {
        self.providers.len()
    }
}

/// The price of a provider, in micro-dollars per thousand tokens.
pub open spec fn price_per_1k(provider_id: Seq<char>) -> u64 {
    if provider_id == "ollama"@ || provider_id == "xai"@ {
        0
    } else if provider_id == "openai"@ || provider_id == "azure"@ {
        30_000
    } else if provider_id == "anthropic"@ || provider_id == "bedrock"@ {
        15_000
    } else if provider_id == "google"@ {
        1_250
    } else {
        20_000
    }
}

/// Computes [`price_per_1k`].
pub fn price_of(provider_id: &str) -> (p: u64)
    ensures
        p == price_per_1k(provider_id@),
{
    if str_eq(provider_id, "ollama") || str_eq(provider_id, "xai") {
        0
    } else if str_eq(provider_id, "openai") || str_eq(provider_id, "azure") {
        30_000
    } else if str_eq(provider_id, "anthropic") || str_eq(provider_id, "bedrock") {
        15_000
    } else if str_eq(provider_id, "google") {
        1_250
    } else {
        20_000
    }
}

/// The context length of an OpenAI model.
pub open spec fn openai_context_length(model: Seq<char>) -> u32 {
    if model == "gpt-4"@ || model == "gpt-4-0613"@ {
        8192
    } else if model == "gpt-4-32k"@ || model == "gpt-4-32k-0613"@ {
        32768
    } else if model == "gpt-4-turbo"@ || model == "gpt-4-turbo-preview"@ || model == "gpt-4o"@
        || model == "gpt-4o-mini"@ {
        128000
    } else if model == "gpt-3.5-turbo"@ || model == "gpt-3.5-turbo-0125"@ {
        16385
    } else {
        4096
    }
}

/// Computes [`openai_context_length`].
pub fn get_openai_context_length(model: &str) -> (n: u32)
    ensures
        n == openai_context_length(model@),
{
    if str_eq(model, "gpt-4") || str_eq(model, "gpt-4-0613") {
        8192
    } else if str_eq(model, "gpt-4-32k") || str_eq(model, "gpt-4-32k-0613") {
        32768
    } else if str_eq(model, "gpt-4-turbo") || str_eq(model, "gpt-4-turbo-preview") || str_eq(
        model,
        "gpt-4o",
    ) || str_eq(model, "gpt-4o-mini") {
        128000
    } else if str_eq(model, "gpt-3.5-turbo") || str_eq(model, "gpt-3.5-turbo-0125") {
        16385
    } else {
        4096
    }
}

/// The prices of an OpenAI model for input and output, in micro-dollars
/// per thousand tokens.
pub open spec fn openai_pricing(model: Seq<char>) -> (u64, u64) {
    if model == "gpt-4"@ || model == "gpt-4-0613"@ {
        (30_000, 60_000)
    } else if model == "gpt-4-32k"@ || model == "gpt-4-32k-0613"@ {
        (60_000, 120_000)
    } else if model == "gpt-4-turbo"@ || model == "gpt-4-turbo-preview"@ {
        (10_000, 30_000)
    } else if model == "gpt-4o"@ {
        (5_000, 15_000)
    } else if model == "gpt-4o-mini"@ {
        (150, 600)
    } else if model == "gpt-3.5-turbo"@ || model == "gpt-3.5-turbo-0125"@ {
        (500, 1_500)
    } else if model == "gpt-3.5-turbo-instruct"@ {
        (1_500, 2_000)
    } else {
        (1_000, 2_000)
    }
}

/// Computes [`openai_pricing`].
pub fn get_openai_pricing(model: &str) -> (p: (u64, u64))
    ensures
        p == openai_pricing(model@),
{
    if str_eq(model, "gpt-4") || str_eq(model, "gpt-4-0613") {
        (30_000, 60_000)
    } else if str_eq(model, "gpt-4-32k") || str_eq(model, "gpt-4-32k-0613") {
        (60_000, 120_000)
    } else if str_eq(model, "gpt-4-turbo") || str_eq(model, "gpt-4-turbo-preview") {
        (10_000, 30_000)
    } else if str_eq(model, "gpt-4o") {
        (5_000, 15_000)
    } else if str_eq(model, "gpt-4o-mini") {
        (150, 600)
    } else if str_eq(model, "gpt-3.5-turbo") || str_eq(model, "gpt-3.5-turbo-0125") {
        (500, 1_500)
    } else if str_eq(model, "gpt-3.5-turbo-instruct") {
        (1_500, 2_000)
    } else {
        (1_000, 2_000)
    }
}

/// The context length of an Azure deployment, read off its name.
pub open spec fn azure_context_length(model: Seq<char>) -> u32 {
    if has_substring(model, "32k"@) {
        32768
    } else if has_substring(model, "gpt-4-turbo"@) {
        128000
    } else if has_substring(model, "gpt-4"@) {
        8192
    } else if has_substring(model, "gpt-35-turbo"@) || has_substring(model, "gpt-3.5-turbo"@) {
        16385
    } else {
        4096
    }
}

/// Computes [`azure_context_length`].
pub fn get_azure_context_length(model: &str) -> (n: u32)
    ensures
        n == azure_context_length(model@),
{
    if str_contains(model, "32k") {
        32768
    } else if str_contains(model, "gpt-4-turbo") {
        128000
    } else if str_contains(model, "gpt-4") {
        8192
    } else if str_contains(model, "gpt-35-turbo") || str_contains(model, "gpt-3.5-turbo") {
        16385
    } else {
        4096
    }
}

/// The prices of an Azure deployment for input and output, in
/// micro-dollars per thousand tokens.
pub open spec fn azure_pricing(model: Seq<char>) -> (u64, u64) {
    if has_substring(model, "gpt-4"@) && has_substring(model, "32k"@) {
        (60_000, 120_000)
    } else if has_substring(model, "gpt-4-turbo"@) {
        (10_000, 30_000)
    } else if has_substring(model, "gpt-4"@) {
        (30_000, 60_000)
    } else if has_substring(model, "gpt-35-turbo"@) || has_substring(model, "gpt-3.5-turbo"@) {
        (1_500, 2_000)
    } else {
        (1_000, 2_000)
    }
}

/// Computes [`azure_pricing`].
pub fn get_azure_pricing(model: &str) -> (p: (u64, u64))
    ensures
        p == azure_pricing(model@),
{
    if str_contains(model, "gpt-4") && str_contains(model, "32k") {
        (60_000, 120_000)
    } else if str_contains(model, "gpt-4-turbo") {
        (10_000, 30_000)
    } else if str_contains(model, "gpt-4") {
        (30_000, 60_000)
    } else if str_contains(model, "gpt-35-turbo") || str_contains(model, "gpt-3.5-turbo") {
        (1_500, 2_000)
    } else {
        (1_000, 2_000)
    }
}

/// The context length of a local model, read off its name.
pub open spec fn local_context_length(model_name: Seq<char>) -> u32 {
    if has_substring(model_name, "7b"@) || has_substring(model_name, "13b"@) || has_substring(
        model_name,
        "70b"@,
    ) {
        4096
    } else if has_substring(model_name, "llama3"@) || has_substring(model_name, "qwen"@) {
        8192
    } else if has_substring(model_name, "deepseek"@) {
        16384
    } else {
        4096
    }
}

/// Computes [`local_context_length`].
pub fn estimate_context_length(model_name: &str) -> (n: u32)
    ensures
        n == local_context_length(model_name@),
{
    if str_contains(model_name, "7b") {
        4096
    } else if str_contains(model_name, "13b") {
        4096
    } else if str_contains(model_name, "70b") {
        4096
    } else if str_contains(model_name, "llama3") {
        8192
    } else if str_contains(model_name, "qwen") {
        8192
    } else if str_contains(model_name, "deepseek") {
        16384
    } else {
        4096
    }
}

} // verus!
