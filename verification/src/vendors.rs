//! What the gateway says to the vendors that do not take its own wire
//! format, and how it reads what they answer.
//!
//! A vendor's request is built here from plain values: the system text
//! apart from the turns of the conversation where the vendor wants it so,
//! one prompt text where the vendor takes no turns. A vendor's answer is
//! read outside, and the canonical response is assembled here from the text
//! and the counts that it held.

use vstd::prelude::*;
use crate::amount::{add_count, capped_count};
use crate::cache::{uuid_string, uuid_text};
use crate::error::OmenError;
use crate::text::{char_is_space, has_substring, is_space, str_contains, str_eq, to_chars};
use crate::types::{
    ChatChoice, ChatChoiceDelta, ChatCompletionChunk, ChatCompletionRequest, ChatCompletionResponse,
    ChatMessage, ChatMessageDelta, MessageContent, Usage,
};

verus! {

/// One turn of a conversation as a vendor takes it.
#[derive(Debug, Clone)]
pub struct Turn {
    pub role: String,
    pub text: String,
}

/// A turn as a mathematical value.
pub struct TurnView {
    pub role: Seq<char>,
    pub text: Seq<char>,
}

impl View for Turn {
    type V = TurnView;

    open spec fn view(&self) -> TurnView {
        TurnView { role: self.role@, text: self.text@ }
    }
}

/// The turns of a list, each as a value.
pub open spec fn turn_views(turns: Seq<Turn>) -> Seq<TurnView> {
    Seq::new(turns.len(), |i: int| turns[i]@)
}

/// The system text of a conversation: the texts of its system messages,
/// in order, with a line break between them.
pub open spec fn system_text(messages: Seq<ChatMessage>) -> Seq<char>
    decreases messages.len(),
{
    if messages.len() == 0 {
        Seq::empty()
    } else {
        let head = system_text(messages.drop_last());
        let m = messages.last();
        if m.role@ == "system"@ {
            if head.len() == 0 {
                m.content.text_view()
            } else {
                head + "\n"@ + m.content.text_view()
            }
        } else {
            head
        }
    }
}

/// The turns of a conversation for a vendor that takes the system text
/// apart: the messages of the user and of the assistant, in order, the
/// assistant under the role that the vendor knows it by. Messages of other
/// roles are left out.
pub open spec fn turns_of(messages: Seq<ChatMessage>, assistant_role: Seq<char>) -> Seq<TurnView>
    decreases messages.len(),
{
    if messages.len() == 0 {
        Seq::empty()
    } else {
        let head = turns_of(messages.drop_last(), assistant_role);
        let m = messages.last();
        if m.role@ == "user"@ {
            head.push(TurnView { role: "user"@, text: m.content.text_view() })
        } else if m.role@ == "assistant"@ {
            head.push(TurnView { role: assistant_role, text: m.content.text_view() })
        } else {
            head
        }
    }
}

/// Every message of a conversation as a turn, under its own role.
pub open spec fn every_turn(messages: Seq<ChatMessage>) -> Seq<TurnView> {
    Seq::new(
        messages.len(),
        |i: int| TurnView { role: messages[i].role@, text: messages[i].content.text_view() },
    )
}

/// Parts a conversation into its system text and its turns: see
/// [`system_text`] and [`turns_of`].
pub fn split_system(messages: &Vec<ChatMessage>, assistant_role: &str) -> (r: (String, Vec<Turn>))
    ensures
        r.0@ == system_text(messages@),
        turn_views(r.1@) == turns_of(messages@, assistant_role@),
{
    let mut system = String::new();
    let mut turns: Vec<Turn> = Vec::new();
    let mut i: usize = 0;
    assert(system@ =~= Seq::<char>::empty());
    while i < messages.len()
        invariant
            i <= messages@.len(),
            system@ == system_text(messages@.take(i as int)),
            turn_views(turns@) =~= turns_of(messages@.take(i as int), assistant_role@),
        decreases messages@.len() - i,
    {
        proof {
            assert(messages@.take(i + 1).drop_last() =~= messages@.take(i as int));
            reveal_strlit("system");
            reveal_strlit("user");
            reveal_strlit("assistant");
            reveal_strlit("\n");
            assert("system"@.len() == 6 && "user"@.len() == 4 && "assistant"@.len() == 9);
            assert(messages@.take(i + 1).last() == messages@[i as int]);
        }
        let m = &messages[i];
        let ghost held = turn_views(turns@);
        if str_eq(m.role.as_str(), "system") {
            let text = m.content.text();
            if system.as_str().unicode_len() == 0 {
                assert(system@ + text@ =~= text@);
            } else {
                system.append("\n");
            }
            system.append(text.as_str());
        } else if str_eq(m.role.as_str(), "user") {
            turns.push(Turn { role: String::from_str("user"), text: m.content.text() });
            assert(turn_views(turns@) =~= held.push(
                TurnView { role: "user"@, text: m.content.text_view() },
            ));
        } else if str_eq(m.role.as_str(), "assistant") {
            turns.push(Turn { role: String::from_str(assistant_role), text: m.content.text() });
            assert(turn_views(turns@) =~= held.push(
                TurnView { role: assistant_role@, text: m.content.text_view() },
            ));
        }
        i += 1;
    }
    proof {
        assert(messages@.take(i as int) =~= messages@);
    }
    (system, turns)
}

/// The system text and the turns as Anthropic takes them.
pub fn openai_to_anthropic_messages(messages: &Vec<ChatMessage>) -> (r: (String, Vec<Turn>))
    ensures
        r.0@ == system_text(messages@),
        turn_views(r.1@) == turns_of(messages@, "assistant"@),
{
    split_system(messages, "assistant")
}

/// The system text and the turns as Gemini takes them: the assistant is
/// the `model`.
pub fn openai_to_gemini_messages(messages: &Vec<ChatMessage>) -> (r: (String, Vec<Turn>))
    ensures
        r.0@ == system_text(messages@),
        turn_views(r.1@) == turns_of(messages@, "model"@),
{
    split_system(messages, "model")
}

/// The turns as Ollama takes them: every message under its own role.
pub fn openai_to_ollama_messages(messages: &Vec<ChatMessage>) -> (turns: Vec<Turn>)
    ensures
        turn_views(turns@) == every_turn(messages@),
{
    let mut turns: Vec<Turn> = Vec::new();
    let mut i: usize = 0;
    while i < messages.len()
        invariant
            i <= messages@.len(),
            turns@.len() == i,
            forall|j: int|
                0 <= j < i ==> (#[trigger] turns@[j])@ == (TurnView {
                    role: messages@[j].role@,
                    text: messages@[j].content.text_view(),
                }),
        decreases messages@.len() - i,
    {
        turns.push(Turn { role: messages[i].role.clone(), text: messages[i].content.text() });
        i += 1;
    }
    assert(turn_views(turns@) =~= every_turn(messages@));
    turns
}

/// A request as a vendor of conversations takes it.
#[derive(Debug, Clone)]
pub struct ChatPayload {
    pub model: String,
    /// The system text, where there is any.
    pub system: Option<String>,
    pub turns: Vec<Turn>,
    /// The ceiling of the answer in tokens, where one is sent.
    pub max_tokens: Option<u32>,
    pub temperature: Option<u32>,
    pub top_p: Option<u32>,
}

/// The ceiling that Anthropic is sent for a request that names none.
pub const ANTHROPIC_MAX_TOKENS: u32 = 1000;

/// The ceiling that Bedrock is sent for a request that names none.
pub const BEDROCK_MAX_TOKENS: u32 = 4096;

/// The sampling temperature that Bedrock's prompt models are sent for a
/// request that names none: the bit pattern of 0.7.
pub const BEDROCK_TEMPERATURE_BITS: u32 = 0x3F33_3333;

/// The nucleus that Bedrock's prompt models are sent for a request that
/// names none: the bit pattern of 0.9.
pub const BEDROCK_TOP_P_BITS: u32 = 0x3F66_6666;

/// Whether `p` is the payload of a request for a vendor of conversations
/// that knows the assistant by `assistant_role` and is sent `ceiling` as
/// the ceiling of the answer.
pub open spec fn pays(
    request: ChatCompletionRequest,
    assistant_role: Seq<char>,
    ceiling: Option<u32>,
    p: ChatPayload,
) -> bool {
    &&& p.model == request.model
    &&& match p.system {
        Some(s) => s@ == system_text(request.messages@) && s@.len() > 0,
        None => system_text(request.messages@).len() == 0,
    }
    &&& turn_views(p.turns@) == turns_of(request.messages@, assistant_role)
    &&& p.max_tokens == ceiling
    &&& p.temperature == request.temperature
    &&& p.top_p == request.top_p
}

fn payload(request: &ChatCompletionRequest, assistant_role: &str, ceiling: Option<u32>) -> (p:
    ChatPayload)
    ensures
        pays(*request, assistant_role@, ceiling, p),
{
    let (system, turns) = split_system(&request.messages, assistant_role);
    ChatPayload {
        model: request.model.clone(),
        system: if system.as_str().unicode_len() == 0 {
            None
        } else {
            Some(system)
        },
        turns,
        max_tokens: ceiling,
        temperature: request.temperature,
        top_p: request.top_p,
    }
}

/// The ceiling of a request, or `otherwise` where it names none.
pub open spec fn ceiling_or(request: ChatCompletionRequest, otherwise: u32) -> u32 {
    match request.max_tokens {
        Some(n) => n,
        None => otherwise,
    }
}

/// The request as Anthropic takes it: the ceiling is a thousand tokens
/// where the request names none.
pub fn anthropic_request(request: &ChatCompletionRequest) -> (p: ChatPayload)
    ensures
        pays(*request, "assistant"@, Some(ceiling_or(*request, ANTHROPIC_MAX_TOKENS)), p),
{
    payload(
        request,
        "assistant",
        Some(
            match request.max_tokens {
                Some(n) => n,
                None => ANTHROPIC_MAX_TOKENS,
            },
        ),
    )
}

/// The request as Gemini takes it: a ceiling is sent only where the
/// request names one.
pub fn gemini_request(request: &ChatCompletionRequest) -> (p: ChatPayload)
    ensures
        pays(*request, "model"@, request.max_tokens, p),
{
    payload(request, "model", request.max_tokens)
}

/// The request as Anthropic's models on Bedrock take it.
pub fn convert_to_claude_bedrock_format(request: &ChatCompletionRequest) -> (p: ChatPayload)
    ensures
        pays(*request, "assistant"@, Some(ceiling_or(*request, BEDROCK_MAX_TOKENS)), p),
{
    payload(
        request,
        "assistant",
        Some(
            match request.max_tokens {
                Some(n) => n,
                None => BEDROCK_MAX_TOKENS,
            },
        ),
    )
}

/// The families of models that Bedrock serves.
#[derive(Debug, Clone, Copy, PartialEq, Eq, Structural)]
pub enum BedrockFamily {
    /// The models of Anthropic, which take a conversation.
    Claude,
    /// The models of Amazon, which take a prompt.
    Titan,
    /// The models of Meta, which take a prompt.
    Llama,
}

/// The family of a model of Bedrock, read off its id: the id holds the
/// vendor's name and a dot, and for Amazon and Meta the family's name.
pub open spec fn family_of(model: Seq<char>) -> Option<BedrockFamily> {
    if has_substring(model, "anthropic."@) {
        Some(BedrockFamily::Claude)
    } else if has_substring(model, "amazon.titan"@) {
        Some(BedrockFamily::Titan)
    } else if has_substring(model, "meta.llama"@) {
        Some(BedrockFamily::Llama)
    } else {
        None
    }
}

/// The family of a model of Bedrock; a model of no family is not found.
pub fn bedrock_family(model: &str) -> (r: Result<BedrockFamily, OmenError>)
    ensures
        match r {
            Ok(f) => family_of(model@) == Some(f),
            Err(e) => family_of(model@) is None && (e matches OmenError::ModelNotFound(m) && m@
                == model@),
        },
{
    if str_contains(model, "anthropic.") {
        Ok(BedrockFamily::Claude)
    } else if str_contains(model, "amazon.titan") {
        Ok(BedrockFamily::Titan)
    } else if str_contains(model, "meta.llama") {
        Ok(BedrockFamily::Llama)
    } else {
        Err(OmenError::ModelNotFound(String::from_str(model)))
    }
}

/// The prompt of a conversation for Titan: a line for each message, the
/// role, a colon and the text.
pub open spec fn titan_text(messages: Seq<ChatMessage>) -> Seq<char>
    decreases messages.len(),
{
    if messages.len() == 0 {
        Seq::empty()
    } else {
        let m = messages.last();
        let line = m.role@ + ": "@ + m.content.text_view();
        if messages.len() == 1 {
            line
        } else {
            titan_text(messages.drop_last()) + "\n"@ + line
        }
    }
}

/// The prompt of a conversation for Llama: each message as its role
/// between `<|` and `|>`, then its text.
pub open spec fn llama_text(messages: Seq<ChatMessage>) -> Seq<char>
    decreases messages.len(),
{
    if messages.len() == 0 {
        Seq::empty()
    } else {
        let m = messages.last();
        llama_text(messages.drop_last()) + "<|"@ + m.role@ + "|>"@ + m.content.text_view()
    }
}

/// A request as a vendor of prompts takes it.
#[derive(Debug, Clone)]
pub struct PromptPayload {
    pub prompt: String,
    pub max_tokens: u32,
    pub temperature: u32,
    pub top_p: u32,
}

/// The sampling parameters that Bedrock's prompt models are sent.
pub open spec fn prompt_settings(request: ChatCompletionRequest, p: PromptPayload) -> bool {
    &&& p.max_tokens == ceiling_or(request, BEDROCK_MAX_TOKENS)
    &&& p.temperature == match request.temperature {
        Some(t) => t,
        None => BEDROCK_TEMPERATURE_BITS,
    }
    &&& p.top_p == match request.top_p {
        Some(t) => t,
        None => BEDROCK_TOP_P_BITS,
    }
}

fn settings_for(request: &ChatCompletionRequest, prompt: String) -> (p: PromptPayload)
    ensures
        p.prompt == prompt,
        prompt_settings(*request, p),
{
    PromptPayload {
        prompt,
        max_tokens: match request.max_tokens {
            Some(n) => n,
            None => BEDROCK_MAX_TOKENS,
        },
        temperature: match request.temperature {
            Some(t) => t,
            None => BEDROCK_TEMPERATURE_BITS,
        },
        top_p: match request.top_p {
            Some(t) => t,
            None => BEDROCK_TOP_P_BITS,
        },
    }
}

/// The request as Bedrock's Titan models take it.
pub fn convert_to_titan_format(request: &ChatCompletionRequest) -> (p: PromptPayload)
    ensures
        p.prompt@ == titan_text(request.messages@),
        prompt_settings(*request, p),
{
    let mut prompt = String::new();
    let mut i: usize = 0;
    assert(prompt@ =~= Seq::<char>::empty());
    while i < request.messages.len()
        invariant
            i <= request.messages@.len(),
            prompt@ == titan_text(request.messages@.take(i as int)),
        decreases request.messages@.len() - i,
    {
        proof {
            assert(request.messages@.take(i + 1).drop_last() =~= request.messages@.take(i as int));
            reveal_strlit(": ");
            reveal_strlit("\n");
        }
        let m = &request.messages[i];
        let ghost before = prompt@;
        if i > 0 {
            prompt.append("\n");
        }
        prompt.append(m.role.as_str());
        prompt.append(": ");
        prompt.append(m.content.text().as_str());
        proof {
            let line = m.role@ + ": "@ + m.content.text_view();
            if i == 0 {
                assert(prompt@ =~= line);
            } else {
                assert(prompt@ =~= before + "\n"@ + line);
            }
        }
        i += 1;
    }
    proof {
        assert(request.messages@.take(i as int) =~= request.messages@);
    }
    settings_for(request, prompt)
}

/// The request as Bedrock's Llama models take it.
pub fn convert_to_llama_format(request: &ChatCompletionRequest) -> (p: PromptPayload)
    ensures
        p.prompt@ == llama_text(request.messages@),
        prompt_settings(*request, p),
{
    let mut prompt = String::new();
    let mut i: usize = 0;
    assert(prompt@ =~= Seq::<char>::empty());
    while i < request.messages.len()
        invariant
            i <= request.messages@.len(),
            prompt@ == llama_text(request.messages@.take(i as int)),
        decreases request.messages@.len() - i,
    {
        proof {
            assert(request.messages@.take(i + 1).drop_last() =~= request.messages@.take(i as int));
            reveal_strlit("<|");
            reveal_strlit("|>");
        }
        let m = &request.messages[i];
        let ghost before = prompt@;
        prompt.append("<|");
        prompt.append(m.role.as_str());
        prompt.append("|>");
        prompt.append(m.content.text().as_str());
        assert(prompt@ =~= before + "<|"@ + m.role@ + "|>"@ + m.content.text_view());
        i += 1;
    }
    proof {
        assert(request.messages@.take(i as int) =~= request.messages@);
    }
    settings_for(request, prompt)
}

/// How many words a text holds: the places where a run of characters that
/// are not whitespace begins.
pub open spec fn words(text: Seq<char>) -> nat
    decreases text.len(),
{
    if text.len() == 0 {
        0
    } else {
        let head = words(text.drop_last());
        if !is_space(text.last()) && (text.len() == 1 || is_space(text[text.len() - 2])) {
            head + 1
        } else {
            head
        }
    }
}

/// Counts the words of a text, up to the largest representable count.
pub fn word_count(text: &str) -> (n: u32)
    ensures
        n == if words(text@) > u32::MAX {
            u32::MAX as nat
        } else {
            words(text@)
        },
{
    let v = to_chars(text);
    let mut n: u32 = 0;
    let mut inside: bool = false;
    let mut i: usize = 0;
    while i < v.len()
        invariant
            i <= v@.len(),
            n == if words(v@.take(i as int)) > u32::MAX {
                u32::MAX as nat
            } else {
                words(v@.take(i as int))
            },
            inside == (i > 0 && !is_space(v@[i - 1])),
        decreases v@.len() - i,
    {
        proof {
            assert(v@.take(i + 1).drop_last() =~= v@.take(i as int));
            assert(v@.take(i + 1).last() == v@[i as int]);
            if i > 0 {
                assert(v@.take(i + 1)[i - 1] == v@[i - 1]);
            }
        }
        let space = char_is_space(v[i]);
        if !space && !inside && n < u32::MAX {
            n = n + 1;
        }
        inside = !space;
        i += 1;
    }
    proof {
        assert(v@.take(i as int) =~= v@);
    }
    n
}

/// Whether `r` is the canonical response for an answer of a vendor: one
/// choice, by the assistant, that holds the text and stopped, and the
/// usage that the vendor counted.
pub open spec fn answers(
    content: Seq<char>,
    prompt_tokens: u32,
    completion_tokens: u32,
    request_id: u128,
    model: Seq<char>,
    created: i64,
    r: ChatCompletionResponse,
) -> bool {
    &&& r.id@ == uuid_text(request_id)
    &&& r.object@ == "chat.completion"@
    &&& r.created == created
    &&& r.model@ == model
    &&& r.system_fingerprint is None
    &&& r.choices@.len() == 1
    &&& r.choices@[0].index == 0
    &&& r.choices@[0].finish_reason matches Some(f) && f@ == "stop"@
    &&& r.choices@[0].message.role@ == "assistant"@
    &&& r.choices@[0].message.content matches MessageContent::Text(t) && t@ == content
    &&& r.choices@[0].message.name is None
    &&& r.choices@[0].message.tool_calls is None
    &&& r.choices@[0].message.tool_call_id is None
    &&& r.usage.prompt_tokens == prompt_tokens
    &&& r.usage.completion_tokens == completion_tokens
    &&& r.usage.total_tokens == capped_count(prompt_tokens, completion_tokens)
}

/// The canonical response for the text and the counts of a vendor's
/// answer: see [`answers`].
pub fn vendor_answer(
    content: String,
    prompt_tokens: u32,
    completion_tokens: u32,
    request_id: u128,
    model: &str,
    created: i64,
) -> (r: ChatCompletionResponse)
    ensures
        answers(content@, prompt_tokens, completion_tokens, request_id, model@, created, r),
{
    let mut choices: Vec<ChatChoice> = Vec::new();
    choices.push(
        ChatChoice {
            index: 0,
            message: ChatMessage {
                role: String::from_str("assistant"),
                content: MessageContent::Text(content),
                name: None,
                tool_calls: None,
                tool_call_id: None,
            },
            finish_reason: Some(String::from_str("stop")),
        },
    );
    ChatCompletionResponse {
        id: uuid_string(request_id),
        object: String::from_str("chat.completion"),
        created,
        model: String::from_str(model),
        choices,
        usage: Usage {
            prompt_tokens,
            completion_tokens,
            total_tokens: add_count(prompt_tokens, completion_tokens),
        },
        system_fingerprint: None,
    }
}

/// The tokens that a prompt for Ollama is taken to hold: Ollama counts none.
pub const OLLAMA_PROMPT_TOKENS: u32 = 10;

/// The canonical response for the text of an answer of Ollama, which
/// counts no tokens: the prompt is taken as ten, the answer as its words.
pub fn ollama_to_openai_response(content: String, request_id: u128, model: &str, created: i64) -> (r:
    ChatCompletionResponse)
    ensures
        answers(
            content@,
            OLLAMA_PROMPT_TOKENS,
            if words(content@) > u32::MAX {
                u32::MAX
            } else {
                words(content@) as u32
            },
            request_id,
            model@,
            created,
            r,
        ),
{
    let completion = word_count(content.as_str());
    vendor_answer(content, OLLAMA_PROMPT_TOKENS, completion, request_id, model, created)
}

/// Whether `c` is the canonical chunk for a piece of a vendor's stream:
/// one choice that adds the text, and says that it stopped where the piece
/// was the last.
pub open spec fn adds(
    content: Option<Seq<char>>,
    finished: bool,
    request_id: u128,
    model: Seq<char>,
    created: i64,
    c: ChatCompletionChunk,
) -> bool {
    &&& c.id@ == uuid_text(request_id)
    &&& c.object@ == "chat.completion.chunk"@
    &&& c.created == created
    &&& c.model@ == model
    &&& c.system_fingerprint is None
    &&& c.choices@.len() == 1
    &&& c.choices@[0].index == 0
    &&& c.choices@[0].delta.role is None
    &&& c.choices@[0].delta.tool_calls is None
    &&& crate::text::opt_text(c.choices@[0].delta.content) == content
    &&& if finished {
        c.choices@[0].finish_reason matches Some(f) && f@ == "stop"@
    } else {
        c.choices@[0].finish_reason is None
    }
}

/// The canonical chunk for a piece of a vendor's stream: see [`adds`].
pub fn vendor_chunk(content: Option<String>, finished: bool, request_id: u128, model: &str, created: i64) -> (c:
    ChatCompletionChunk)
    ensures
        adds(crate::text::opt_text(content), finished, request_id, model@, created, c),
{
    let mut choices: Vec<ChatChoiceDelta> = Vec::new();
    choices.push(
        ChatChoiceDelta {
            index: 0,
            delta: ChatMessageDelta { role: None, content, tool_calls: None },
            finish_reason: if finished {
                Some(String::from_str("stop"))
            } else {
                None
            },
        },
    );
    ChatCompletionChunk {
        id: uuid_string(request_id),
        object: String::from_str("chat.completion.chunk"),
        created,
        model: String::from_str(model),
        choices,
        system_fingerprint: None,
    }
}

} // verus!
