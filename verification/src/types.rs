//! The canonical request, response and routing-directive types.
//!
//! Sampling parameters are carried as the bit patterns of their IEEE-754
//! single-precision values: the gateway hands them on and fingerprints them,
//! it never computes with them. Money is in micro-dollars, ratios in parts
//! per million.

use vstd::prelude::*;
use crate::error::OmenError;
use crate::text::{
    byte_len, decimal, decimal_string, lowercase, lowercase_of, str_eq, utf8_len,
};

verus! {

/// A request for embeddings.
#[derive(Debug, Clone)]
pub struct EmbeddingsRequest {
    pub input: EmbeddingInput,
    pub model: String,
    pub encoding_format: Option<String>,
    pub dimensions: Option<u32>,
}

/// One text or several.
#[derive(Debug, Clone)]
pub enum EmbeddingInput {
    Single(String),
    Multiple(Vec<String>),
}

/// The answer to a request for embeddings.
#[derive(Debug, Clone)]
pub struct EmbeddingsResponse {
    pub object: String,
    pub data: Vec<EmbeddingData>,
    pub model: String,
    pub usage: EmbeddingUsage,
}

/// One embedding; each component is the bit pattern of a single-precision value.
#[derive(Debug, Clone)]
pub struct EmbeddingData {
    pub object: String,
    pub embedding: Vec<u32>,
    pub index: usize,
}

/// The tokens that a request for embeddings used.
#[derive(Debug, Clone)]
pub struct EmbeddingUsage {
    pub prompt_tokens: u32,
    pub total_tokens: u32,
}

/// A request in the legacy prompt form.
#[derive(Debug, Clone)]
pub struct CompletionRequest {
    pub model: String,
    pub prompt: CompletionPrompt,
    pub max_tokens: Option<u32>,
    pub temperature: Option<u32>,
    pub top_p: Option<u32>,
    pub n: Option<u32>,
    pub stream: bool,
    pub stop: Option<Vec<String>>,
}

/// One prompt or several.
#[derive(Debug, Clone)]
pub enum CompletionPrompt {
    Single(String),
    Multiple(Vec<String>),
}

/// A completion in the legacy form.
#[derive(Debug, Clone)]
pub struct CompletionResponse {
    pub id: String,
    pub object: String,
    pub created: i64,
    pub model: String,
    pub choices: Vec<CompletionChoice>,
    pub usage: Usage,
}

/// One completion of a prompt.
#[derive(Debug, Clone)]
pub struct CompletionChoice {
    pub text: String,
    pub index: u32,
    pub finish_reason: Option<String>,
}

/// A chat-completion request.
#[derive(Debug, Clone)]
pub struct ChatCompletionRequest {
    /// The model's id, or the sentinel `auto`.
    pub model: String,
    pub messages: Vec<ChatMessage>,
    pub temperature: Option<u32>,
    pub max_tokens: Option<u32>,
    pub stream: bool,
    pub top_p: Option<u32>,
    pub frequency_penalty: Option<u32>,
    pub presence_penalty: Option<u32>,
    pub stop: Option<Vec<String>>,
    pub tools: Option<Vec<Tool>>,
    pub tool_choice: Option<ToolChoice>,
    /// Free-form tags, as pairs of key and value.
    pub tags: Option<Vec<(String, String)>>,
    /// The routing directive.
    pub omen: Option<OmenConfig>,
}

/// Whether a role is one of `system`, `user`, `assistant` and `tool`.
pub open spec fn valid_role(role: Seq<char>) -> bool {
    role == "system"@ || role == "user"@ || role == "assistant"@ || role == "tool"@
}

/// Whether one of the tools is a function of this name.
pub open spec fn names_tool(tools: Option<Vec<Tool>>, name: Seq<char>) -> bool {
    tools matches Some(list) && exists|i: int|
        0 <= i < list@.len() && (#[trigger] list@[i]).function.name@ == name
}

fn has_tool(tools: &Option<Vec<Tool>>, name: &str) -> (b: bool)
    ensures
        b == names_tool(*tools, name@),
{
    match tools {
        Some(list) => {
            let mut t: usize = 0;
            while t < list.len()
                invariant
                    t <= list@.len(),
                    *tools == Some(*list),
                    forall|j: int| 0 <= j < t ==> (#[trigger] list@[j]).function.name@ != name@,
                decreases list@.len() - t,
            {
                if str_eq(list[t].function.name.as_str(), name) {
                    assert(list@[t as int].function.name@ == name@);
                    return true;
                }
                t += 1;
            }
            false
        },
        None => false,
    }
}

impl ChatCompletionRequest {
    /// Whether every message has a valid role.
    pub open spec fn roles_valid(self) -> bool {
        forall|i: int| 0 <= i < self.messages@.len() ==> valid_role((#[trigger] self.messages@[i]).role@)
    }

    /// Whether the tool that the request is to call, if it names one, is
    /// among its tools.
    pub open spec fn tool_choice_valid(self) -> bool {
        match self.tool_choice {
            Some(ToolChoice::Function { function }) => names_tool(self.tools, function.name@),
            _ => true,
        }
    }

    /// Whether the request is well-formed: it has a message, every role is
    /// valid, and a tool that it names is among its tools.
    pub open spec fn well_formed(self) -> bool {
        self.messages@.len() > 0 && self.roles_valid() && self.tool_choice_valid()
    }

    /// Checks that the request is well-formed; what is wrong with it is
    /// told in the order of messages, roles, tool.
    pub fn validate(&self) -> (r: Result<(), OmenError>)
        ensures
            r is Ok <==> self.well_formed(),
            r matches Err(e) ==> (e matches OmenError::InvalidRequest(m) && m@ == if self.messages@.len()
                == 0 {
                "messages must not be empty"@
            } else if !self.roles_valid() {
                "unknown message role"@
            } else {
                "tool_choice names a function that is not among the tools"@
            }),
    {
        if self.messages.len() == 0 {
            return Err(OmenError::InvalidRequest(String::from_str("messages must not be empty")));
        }
        let mut i: usize = 0;
        while i < self.messages.len()
            invariant
                i <= self.messages@.len(),
                forall|j: int| 0 <= j < i ==> valid_role((#[trigger] self.messages@[j]).role@),
            decreases self.messages@.len() - i,
        {
            let role = self.messages[i].role.as_str();
            if !(str_eq(role, "system") || str_eq(role, "user") || str_eq(role, "assistant")
                || str_eq(role, "tool")) {
                return Err(OmenError::InvalidRequest(String::from_str("unknown message role")));
            }
            i += 1;
        }
        if let Some(ToolChoice::Function { function }) = &self.tool_choice {
            if !has_tool(&self.tools, function.name.as_str()) {
                return Err(
                    OmenError::InvalidRequest(
                        String::from_str("tool_choice names a function that is not among the tools"),
                    ),
                );
            }
        }
        Ok(())
    }
}

/// One message of a conversation.
#[derive(Debug, Clone)]
pub struct ChatMessage {
    pub role: String,
    pub content: MessageContent,
    pub name: Option<String>,
    pub tool_calls: Option<Vec<ToolCall>>,
    pub tool_call_id: Option<String>,
}

/// A message's content: plain text, or an ordered mix of text and images.
#[derive(Debug, Clone)]
pub enum MessageContent {
    Text(String),
    Parts(Vec<ContentPart>),
}

/// A piece of text or an image.
#[derive(Debug, Clone)]
pub enum ContentPart {
    Text { text: String },
    ImageUrl { image_url: ImageUrl },
}

/// The address of an image and the detail to read it at.
#[derive(Debug, Clone)]
pub struct ImageUrl {
    pub url: String,
    /// `low`, `high` or `auto`.
    pub detail: Option<String>,
}

/// The texts of the text parts, in order.
pub open spec fn part_texts(parts: Seq<ContentPart>) -> Seq<Seq<char>>
    decreases parts.len(),
{
    if parts.len() == 0 {
        seq![]
    } else {
        let rest = part_texts(parts.drop_last());
        match parts.last() {
            ContentPart::Text { text } => rest.push(text@),
            ContentPart::ImageUrl { .. } => rest,
        }
    }
}

/// The texts joined by single spaces.
pub open spec fn join_spaced(texts: Seq<Seq<char>>) -> Seq<char>
    decreases texts.len(),
{
    if texts.len() == 0 {
        seq![]
    } else if texts.len() == 1 {
        texts[0]
    } else {
        join_spaced(texts.drop_last()) + seq![' '] + texts.last()
    }
}

/// How many of the parts are images.
pub open spec fn image_count(parts: Seq<ContentPart>) -> nat
    decreases parts.len(),
{
    if parts.len() == 0 {
        0
    } else {
        image_count(parts.drop_last()) + if parts.last() is ImageUrl {
            1nat
        } else {
            0nat
        }
    }
}

impl MessageContent {
    /// The text of the content: the string itself, or the text parts joined
    /// by single spaces.
    pub open spec fn text_view(self) -> Seq<char> {
        match self {
            MessageContent::Text(t) => t@,
            MessageContent::Parts(parts) => join_spaced(part_texts(parts@)),
        }
    }

    /// Whether some part of the content is an image.
    pub open spec fn holds_image(self) -> bool {
        match self {
            MessageContent::Text(_) => false,
            MessageContent::Parts(parts) => exists|i: int|
                0 <= i < parts@.len() && #[trigger] parts@[i] is ImageUrl,
        }
    }

    /// The image parts of the content, in order.
    pub open spec fn images(self) -> Seq<ImageUrl> {
        match self {
            MessageContent::Text(_) => seq![],
            MessageContent::Parts(parts) => parts@.filter(|p: ContentPart| p is ImageUrl).map_values(
                |p: ContentPart| p->image_url,
            ),
        }
    }

    /// The text of the content: see [`MessageContent::text_view`].
    pub fn text(&self) -> (r: String)
        ensures
            r@ == self.text_view(),
    {
        match self {
            MessageContent::Text(t) => t.clone(),
            MessageContent::Parts(parts) => {
                let mut out = String::new();
                let mut any: bool = false;
                let mut i: usize = 0;
                while i < parts.len()
                    invariant
                        i <= parts.len(),
                        any == (part_texts(parts@.take(i as int)).len() > 0),
                        out@ == join_spaced(part_texts(parts@.take(i as int))),
                    decreases parts.len() - i,
                {
                    proof {
                        assert(parts@.take(i + 1).drop_last() =~= parts@.take(i as int));
                    }
                    match &parts[i] {
                        ContentPart::Text { text } => {
                            let ghost before = part_texts(parts@.take(i as int));
                            proof {
                                assert(before.push(text@).drop_last() =~= before);
                                reveal_strlit(" ");
                                assert(" "@ =~= seq![' ']);
                            }
                            if any {
                                out.append(" ");
                            }
                            out.append(text.as_str());
                            any = true;
                            proof {
                                if before.len() == 0 {
                                    assert(out@ =~= text@);
                                }
                            }
                        },
                        ContentPart::ImageUrl { .. } => {},
                    }
                    i += 1;
                }
                proof {
                    assert(parts@.take(i as int) =~= parts@);
                }
                out
            },
        }
    }

    /// Whether some part of the content is an image.
    pub fn has_images(&self) -> (b: bool)
        ensures
            b == self.holds_image(),
    {
        match self {
            MessageContent::Text(_) => false,
            MessageContent::Parts(parts) => {
                let mut i: usize = 0;
                while i < parts.len()
                    invariant
                        i <= parts.len(),
                        *self == MessageContent::Parts(*parts),
                        forall|k: int| 0 <= k < i ==> !(#[trigger] parts@[k] is ImageUrl),
                    decreases parts.len() - i,
                {
                    match &parts[i] {
                        ContentPart::ImageUrl { .. } => {
                            assert(parts@[i as int] is ImageUrl);
                            return true;
                        },
                        ContentPart::Text { .. } => {},
                    }
                    i += 1;
                }
                false
            },
        }
    }

    /// The length of the text in UTF-8 bytes.
    pub fn len(&self) -> (n: usize)
        ensures
            n == utf8_len(self.text_view()) as usize,
    {
        let t = self.text();
        byte_len(t.as_str())
    }

    /// Whether the content holds more than text: an image.
    pub fn is_multimodal(&self) -> (b: bool)
        ensures
            b == self.holds_image(),
    {
        self.has_images()
    }

    /// The text in lower case.
    pub fn to_lowercase(&self) -> (r: String)
        ensures
            r@ == lowercase_of(self.text_view()),
    {
        let t = self.text();
        lowercase(t.as_str())
    }

    /// The text, followed by ` [+N image(s)]` where the content holds N > 0 images.
    pub fn to_display_string(&self) -> (r: String)
        ensures
            match *self {
                MessageContent::Text(t) => r@ == t@,
                MessageContent::Parts(parts) => r@ == self.text_view() + (if image_count(parts@)
                    > 0 {
                    " [+"@ + decimal(image_count(parts@)) + " image(s)]"@
                } else {
                    Seq::<char>::empty()
                }),
            },
    {
        match self {
            MessageContent::Text(t) => t.clone(),
            MessageContent::Parts(parts) => {
                let mut out = self.text();
                let mut count: usize = 0;
                let mut i: usize = 0;
                while i < parts.len()
                    invariant
                        i <= parts.len(),
                        count == image_count(parts@.take(i as int)),
                        count <= i,
                    decreases parts.len() - i,
                {
                    proof {
                        assert(parts@.take(i + 1).drop_last() =~= parts@.take(i as int));
                    }
                    match &parts[i] {
                        ContentPart::ImageUrl { .. } => {
                            count += 1;
                        },
                        ContentPart::Text { .. } => {},
                    }
                    i += 1;
                }
                proof {
                    assert(parts@.take(i as int) =~= parts@);
                }
                if count > 0 {
                    out.append(" [+");
                    let digits = decimal_string(count as u64);
                    out.append(digits.as_str());
                    out.append(" image(s)]");
                    proof {
                        assert(out@ =~= self.text_view() + (" [+"@ + decimal(count as nat)
                            + " image(s)]"@));
                    }
                } else {
                    proof {
                        assert(out@ =~= self.text_view() + Seq::<char>::empty());
                    }
                }
                out
            },
        }
    }
}

/// An image given by address or by its data.
#[derive(Debug, Clone)]
pub struct ImageContent {
    pub image_type: ImageType,
    pub data: ImageData,
    pub detail: Option<ImageDetail>,
}

/// How an image is given.
#[derive(Debug, Clone)]
pub enum ImageType {
    ImageUrl,
    ImageBase64,
}

/// The address of an image, or its data in base 64.
#[derive(Debug, Clone)]
pub enum ImageData {
    Url { url: String },
    Base64 { media_type: String, data: String },
}

/// The detail to read an image at.
#[derive(Debug, Clone)]
pub enum ImageDetail {
    Low,
    High,
    Auto,
}

/// A tool that the model may call.
#[derive(Debug, Clone)]
pub struct Tool {
    pub tool_type: String,
    pub function: ToolFunction,
}

/// The function of a tool.
#[derive(Debug, Clone)]
pub struct ToolFunction {
    pub name: String,
    pub description: Option<String>,
    /// The JSON schema of the parameters, as text.
    pub parameters: String,
}

/// Which tool the model is to call.
#[derive(Debug, Clone)]
pub enum ToolChoice {
    Auto,
    /// No tool may be called.
    Off,
    Function { function: ToolFunctionChoice },
}

/// The name of the function to call.
#[derive(Debug, Clone)]
pub struct ToolFunctionChoice {
    pub name: String,
}

/// A call of a tool that the model asks for.
#[derive(Debug, Clone)]
pub struct ToolCall {
    pub id: String,
    pub tool_type: String,
    pub function: ToolCallFunction,
}

/// The function that is called and its arguments, as JSON text.
#[derive(Debug, Clone)]
pub struct ToolCallFunction {
    pub name: String,
    pub arguments: String,
}

/// A chat completion.
#[derive(Debug, Clone)]
pub struct ChatCompletionResponse {
    pub id: String,
    pub object: String,
    pub created: i64,
    pub model: String,
    pub choices: Vec<ChatChoice>,
    pub usage: Usage,
    pub system_fingerprint: Option<String>,
}

/// One answer of a chat completion.
#[derive(Debug, Clone)]
pub struct ChatChoice {
    pub index: u32,
    pub message: ChatMessage,
    pub finish_reason: Option<String>,
}

/// The tokens that a completion used.
#[derive(Debug, Clone)]
pub struct Usage {
    pub prompt_tokens: u32,
    pub completion_tokens: u32,
    pub total_tokens: u32,
}

/// One chunk of a streamed chat completion.
#[derive(Debug, Clone)]
pub struct ChatCompletionChunk {
    pub id: String,
    pub object: String,
    pub created: i64,
    pub model: String,
    pub choices: Vec<ChatChoiceDelta>,
    pub system_fingerprint: Option<String>,
}

/// What a chunk adds to one answer.
#[derive(Debug, Clone)]
pub struct ChatChoiceDelta {
    pub index: u32,
    pub delta: ChatMessageDelta,
    pub finish_reason: Option<String>,
}

/// What a chunk adds to a message.
#[derive(Debug, Clone)]
pub struct ChatMessageDelta {
    pub role: Option<String>,
    pub content: Option<String>,
    pub tool_calls: Option<Vec<ToolCall>>,
}

/// A model in a provider's catalogue.
#[derive(Debug, Clone)]
pub struct Model {
    pub id: String,
    pub object: String,
    pub created: i64,
    pub owned_by: String,
    pub provider: String,
    pub context_length: u32,
    pub pricing: ModelPricing,
    pub capabilities: ModelCapabilities,
}

/// Prices per thousand tokens, in micro-dollars.
#[derive(Debug, Clone)]
pub struct ModelPricing {
    pub input_per_1k: u64,
    pub output_per_1k: u64,
}

/// What a model can do.
#[derive(Debug, Clone)]
pub struct ModelCapabilities {
    pub vision: bool,
    pub functions: bool,
    pub streaming: bool,
}

/// The catalogue of all providers.
#[derive(Debug, Clone)]
pub struct ModelsResponse {
    pub object: String,
    pub data: Vec<Model>,
}

/// How the gateway and its providers are doing.
#[derive(Debug, Clone)]
pub struct HealthResponse {
    pub status: String,
    pub version: String,
    pub service: String,
    pub timestamp: String,
    pub providers: Vec<ProviderHealth>,
}

/// What a health probe found of one provider.
#[derive(Debug, Clone)]
pub struct ProviderHealth {
    pub id: String,
    pub name: String,
    pub healthy: bool,
    pub models_count: usize,
    pub latency_ms: Option<u64>,
    /// Micro-dollars per thousand tokens.
    pub avg_cost_per_1k: Option<u64>,
    /// Parts per million.
    pub success_rate: Option<u32>,
}

/// A provider's marks; each score is in parts per million of full marks.
#[derive(Debug, Clone)]
pub struct ProviderScore {
    pub provider_id: String,
    pub provider_name: String,
    pub health_score: u64,
    pub latency_ms: u64,
    pub cost_score: u64,
    pub reliability_score: u64,
    pub overall_score: u64,
    pub recommended: bool,
}

/// The routing directive of a request. Absent fields take the defaults of
/// the component that reads them.
#[derive(Debug, Clone)]
pub struct OmenConfig {
    /// `single`, `race`, `speculate_k` or `parallel_merge`.
    pub strategy: Option<String>,
    /// How many providers to fan out to.
    pub k: Option<u32>,
    /// The providers that may be used.
    pub providers: Option<Vec<String>>,
    /// The budget of the request, in micro-dollars.
    pub budget_usd: Option<u64>,
    /// The deadline of the request.
    pub max_latency_ms: Option<u32>,
    /// `none`, `turn` or `session`.
    pub stickiness: Option<String>,
    /// A weight for each provider, in parts per million.
    pub priority_weights: Option<Vec<(String, u64)>>,
    /// The length from which a chunk counts as useful.
    pub min_useful_tokens: Option<u32>,
}

impl Default for OmenConfig {
    fn default() -> (c: Self)
        ensures
            c.strategy matches Some(s) && s@ == "single"@,
            c.k == Some(2u32),
            c.providers is None,
            c.budget_usd == Some(100_000u64),
            c.max_latency_ms == Some(5000u32),
            c.stickiness matches Some(s) && s@ == "turn"@,
            c.priority_weights is None,
            c.min_useful_tokens == Some(5u32),
    {
        OmenConfig {
            strategy: Some(String::from_str("single")),
            k: Some(2),
            providers: None,
            budget_usd: Some(100_000),
            max_latency_ms: Some(5000),
            stickiness: Some(String::from_str("turn")),
            priority_weights: None,
            min_useful_tokens: Some(5),
        }
    }
}

/// What the pipeline knows of a request besides its body.
#[derive(Debug, Clone)]
pub struct RequestContext {
    /// The request's unique id, a UUID as a number.
    pub request_id: u128,
    pub user_id: Option<String>,
    pub api_key: Option<String>,
    pub intent: Option<String>,
    pub tags: Vec<(String, String)>,
}

/// The kinds of provider.
#[derive(Debug, Clone, Copy, PartialEq, Eq, Structural)]
pub enum ProviderType {
    OpenAI,
    Anthropic,
    Google,
    Ollama,
    Azure,
    Xai,
    Bedrock,
}

impl ProviderType {
    /// The provider's short id.
    pub open spec fn name(self) -> Seq<char> {
        match self {
            ProviderType::OpenAI => "openai"@,
            ProviderType::Anthropic => "anthropic"@,
            ProviderType::Google => "google"@,
            ProviderType::Ollama => "ollama"@,
            ProviderType::Azure => "azure"@,
            ProviderType::Xai => "xai"@,
            ProviderType::Bedrock => "bedrock"@,
        }
    }

    /// The provider's short id as a string.
    pub fn to_display_string(&self) -> (r: String)
        ensures
            r@ == self.name(),
    {
        match self {
            ProviderType::OpenAI => String::from_str("openai"),
            ProviderType::Anthropic => String::from_str("anthropic"),
            ProviderType::Google => String::from_str("google"),
            ProviderType::Ollama => String::from_str("ollama"),
            ProviderType::Azure => String::from_str("azure"),
            ProviderType::Xai => String::from_str("xai"),
            ProviderType::Bedrock => String::from_str("bedrock"),
        }
    }

    /// Whether the provider runs on this machine.
    pub fn is_local(&self) -> (b: bool)
        ensures
            b == (*self == ProviderType::Ollama),
    {
        match self {
            ProviderType::Ollama => true,
            _ => false,
        }
    }
}

} // verus!
