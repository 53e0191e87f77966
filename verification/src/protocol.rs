//! The wire protocol of the model server: request and response types,
//! the decoder for the newline-delimited streaming chunks, and the
//! folding of a chunk sequence into forwarded text and final statistics.

use vstd::prelude::*;

use crate::externs::{chunk_of, models_of, parse_chunk_text, parse_models_text, parse_rfc3339_millis};
use crate::session::Role;
use crate::text::{trim, trim_spec};

verus! {

/// One message as the chat endpoint carries it.
#[derive(Debug, Clone)]
pub struct ChatMessage {
    /// Who produced the message.
    pub role: Role,
    /// The message text.
    pub content: String,
    /// Optional attached images, base64-encoded.
    pub images: Option<Vec<String>>,
}

impl ChatMessage {
    /// A system message.
    pub fn system(content: &str) -> (r: ChatMessage)
        ensures
            r.role == Role::System,
            r.content@ == content@,
            r.images is None,
    {
        ChatMessage { role: Role::System, content: content.to_owned(), images: None }
    }

    /// A user message.
    pub fn user(content: &str) -> (r: ChatMessage)
        ensures
            r.role == Role::User,
            r.content@ == content@,
            r.images is None,
    {
        ChatMessage { role: Role::User, content: content.to_owned(), images: None }
    }

    /// An assistant message.
    pub fn assistant(content: &str) -> (r: ChatMessage)
        ensures
            r.role == Role::Assistant,
            r.content@ == content@,
            r.images is None,
    {
        ChatMessage { role: Role::Assistant, content: content.to_owned(), images: None }
    }
}

/// Generation options sent with a chat request. Fractional settings
/// (temperature, top-p, repeat penalty) are carried in thousandths.
#[derive(Debug, Clone)]
pub struct GenerationOptions {
    /// Sampling temperature, in thousandths.
    pub temperature: Option<u32>,
    /// Top-k sampling cutoff.
    pub top_k: Option<u32>,
    /// Nucleus sampling cutoff, in thousandths.
    pub top_p: Option<u32>,
    /// Maximum tokens to generate.
    pub num_predict: Option<u32>,
    /// Context window size.
    pub num_ctx: Option<u32>,
    /// Stop sequences.
    pub stop: Option<Vec<String>>,
    /// Seed for reproducible sampling.
    pub seed: Option<u64>,
    /// Repeat penalty, in thousandths.
    pub repeat_penalty: Option<u32>,
}

impl GenerationOptions {
    /// Options with every field absent.
    pub fn none() -> (r: GenerationOptions)
        ensures
            r.temperature is None,
            r.top_k is None,
            r.top_p is None,
            r.num_predict is None,
            r.num_ctx is None,
            r.stop is None,
            r.seed is None,
            r.repeat_penalty is None,
    {
        GenerationOptions {
            temperature: None,
            top_k: None,
            top_p: None,
            num_predict: None,
            num_ctx: None,
            stop: None,
            seed: None,
            repeat_penalty: None,
        }
    }
}

/// The body of a chat request.
#[derive(Debug, Clone)]
pub struct ChatRequest {
    /// The model asked to answer.
    pub model: String,
    /// The conversation so far, oldest message first.
    pub messages: Vec<ChatMessage>,
    /// Whether the response should arrive as a stream of chunks.
    pub stream: bool,
    /// Generation options, if any.
    pub options: Option<GenerationOptions>,
    /// How long the server should keep the model loaded.
    pub keep_alive: Option<String>,
}

impl ChatRequest {
    /// A streaming request for the given model and conversation, with no
    /// options.
    pub fn new(model: &str, messages: Vec<ChatMessage>) -> (r: ChatRequest)
        ensures
            r.model@ == model@,
            r.messages == messages,
            r.stream == true,
            r.options is None,
            r.keep_alive is None,
    {
        ChatRequest {
            model: model.to_owned(),
            messages,
            stream: true,
            options: None,
            keep_alive: None,
        }
    }

    /// The request with the given options attached.
    pub fn with_options(self, options: GenerationOptions) -> (r: ChatRequest)
        ensures
            r == (ChatRequest { options: Some(options), ..self }),
    {
        ChatRequest { options: Some(options), ..self }
    }

    /// The request with streaming switched on or off.
    pub fn with_stream(self, stream: bool) -> (r: ChatRequest)
        ensures
            r == (ChatRequest { stream, ..self }),
    {
        ChatRequest { stream, ..self }
    }
}

/// What the server reports of one model.
#[derive(Debug, Clone)]
pub struct ModelInfo {
    /// The model's name.
    pub name: String,
    /// The model identifier.
    pub model: String,
    /// When the model was last modified, in milliseconds since the Unix
    /// epoch.
    pub modified_at_ms: Option<i64>,
    /// Size on disk in bytes.
    pub size: u64,
    /// Content digest.
    pub digest: String,
    /// Details, when the server sends them.
    pub details: Option<ModelDetails>,
}

/// Details the server may report of a model.
#[derive(Debug, Clone)]
pub struct ModelDetails {
    /// The model this one derives from.
    pub parent_model: String,
    /// On-disk format.
    pub format: String,
    /// Model family.
    pub family: String,
    /// All families the model belongs to.
    pub families: Vec<String>,
    /// Parameter count, as the server spells it.
    pub parameter_size: String,
    /// Quantization level, as the server spells it.
    pub quantization_level: String,
}

/// The decoded body of the list-models response.
#[derive(Debug, Clone)]
pub struct ListModelsResponse {
    /// The models the server offers.
    pub models: Vec<ModelInfo>,
}

/// The decoded body of the health probe.
#[derive(Debug, Clone)]
pub struct HealthResponse {
    /// The status text, when the server sends one.
    pub status: String,
}

/// The body of a request to the plain generate endpoint, the
/// conversation-free alternative to chat.
#[derive(Debug, Clone)]
pub struct GenerateRequest {
    /// The model asked to answer.
    pub model: String,
    /// The prompt to complete.
    pub prompt: String,
    /// Whether the response should arrive as a stream of chunks.
    pub stream: bool,
    /// An optional system prompt.
    pub system: Option<String>,
    /// Generation options, if any.
    pub options: Option<GenerationOptions>,
    /// An earlier response's context tokens, to continue from.
    pub context: Option<Vec<u64>>,
}

/// One decoded chunk of a generate-endpoint response.
#[derive(Debug, Clone)]
pub struct GenerateResponseChunk {
    /// The answering model.
    pub model: String,
    /// The piece of the completion this chunk carries.
    pub response: String,
    /// Whether this is the terminal chunk.
    pub done: bool,
    /// Context tokens to continue from; terminal chunk only.
    pub context: Option<Vec<u64>>,
    /// Wall time of the whole response in nanoseconds; terminal chunk
    /// only.
    pub total_duration: Option<u64>,
    /// Tokens generated; terminal chunk only.
    pub eval_count: Option<u64>,
    /// Generation time in nanoseconds; terminal chunk only.
    pub eval_duration: Option<u64>,
}

/// One decoded chunk of the streaming chat response.
#[derive(Debug, Clone)]
pub struct ChatResponseChunk {
    /// The answering model.
    pub model: String,
    /// The piece of the message this chunk carries, if any.
    pub message: Option<ChatMessage>,
    /// Whether this is the terminal chunk.
    pub done: bool,
    /// Wall time of the whole response in nanoseconds; terminal chunk
    /// only.
    pub total_duration: Option<u64>,
    /// Tokens generated; terminal chunk only.
    pub eval_count: Option<u64>,
    /// Generation time in nanoseconds; terminal chunk only.
    pub eval_duration: Option<u64>,
    /// An error the server reports in place of content.
    pub error: Option<String>,
}

impl ChatResponseChunk {
    /// The text this chunk carries, if any.
    pub open spec fn spec_content(self) -> Option<Seq<char>> {
        match self.message {
            Some(m) => Some(m.content@),
            None => None,
        }
    }

    /// The text this chunk carries, if any.
    pub fn content(&self) -> (r: Option<&str>)
        ensures
            match r {
                Some(s) => self.spec_content() == Some(s@),
                None => self.spec_content() is None,
            },
    {
        match &self.message {
            Some(m) => Some(m.content.as_str()),
            None => None,
        }
    }

    /// Whether the chunk carries a server-reported error.
    pub fn is_error(&self) -> (r: bool)
        ensures
            r == (self.error is Some),
    {
        self.error.is_some()
    }

    /// The generation rate this terminal chunk reports, in tokens per
    /// second scaled by a thousand: defined only when the chunk carries
    /// both a token count and a positive generation time, and capped at
    /// the largest representable value.
    pub open spec fn spec_tokens_per_second_milli(self) -> Option<u64> {
        match (self.eval_count, self.eval_duration) {
            (Some(count), Some(duration)) => if duration > 0 {
                if count * 1_000_000_000_000 / (duration as int) > u64::MAX {
                    Some(u64::MAX)
                } else {
                    Some((count * 1_000_000_000_000 / (duration as int)) as u64)
                }
            } else {
                None
            },
            _ => None,
        }
    }

    /// The generation rate this terminal chunk reports, in tokens per
    /// second scaled by a thousand.
    pub fn tokens_per_second_milli(&self) -> (r: Option<u64>)
        ensures
            r == self.spec_tokens_per_second_milli(),
    {
        match (self.eval_count, self.eval_duration) {
            (Some(count), Some(duration)) => {
                if duration > 0 {
                    let wide: u128 = (count as u128) * 1_000_000_000_000u128 / (duration as u128);
                    if wide > u64::MAX as u128 {
                        Some(u64::MAX)
                    } else {
                        Some(wide as u64)
                    }
                } else {
                    None
                }
            },
            _ => None,
        }
    }
}

/// Statistics of one completed response.
#[derive(Debug, Clone)]
pub struct ResponseStats {
    /// Tokens generated.
    pub tokens: u64,
    /// Generation rate in tokens per second, scaled by a thousand.
    pub tokens_per_second_milli: u64,
    /// Wall time of the whole response in milliseconds.
    pub total_duration_ms: u64,
}

impl Default for ResponseStats {
    /// Statistics before anything was measured: all zero.
    fn default() -> (r: ResponseStats)
        ensures
            r.tokens == 0,
            r.tokens_per_second_milli == 0,
            r.total_duration_ms == 0,
    {
        ResponseStats { tokens: 0, tokens_per_second_milli: 0, total_duration_ms: 0 }
    }
}

/// What one physical line of the streaming response decodes to.
#[derive(Debug, Clone)]
pub enum ChunkEvent {
    /// The line was empty or whitespace alone: an inert placeholder that
    /// neither carries content nor ends the stream.
    Blank,
    /// The line failed to decode: the stream ends with a protocol error.
    Malformed,
    /// The line decoded to a chunk.
    Chunk(ChatResponseChunk),
}

/// What a line decodes to: blank lines are inert, undecodable lines are
/// malformed, everything else is the decoded chunk.
pub open spec fn spec_decode_chunk(line: Seq<char>) -> ChunkEvent {
    let t = trim_spec(line);
    if t.len() == 0 {
        ChunkEvent::Blank
    } else {
        match chunk_of(t) {
            Some(c) => ChunkEvent::Chunk(c),
            None => ChunkEvent::Malformed,
        }
    }
}

/// Decodes one physical line of the streaming chat response. A line of
/// whitespace alone is an inert placeholder; a line that fails to decode
/// is malformed and ends the stream.
pub fn decode_chunk_line(line: &str) -> (r: ChunkEvent)
    ensures
        r == spec_decode_chunk(line@),
{
    let t = trim(line);
    if t.unicode_len() == 0 {
        ChunkEvent::Blank
    } else {
        match parse_chunk_text(t) {
            Some(c) => ChunkEvent::Chunk(c),
            None => ChunkEvent::Malformed,
        }
    }
}

/// The statistics gathered while a stream is in flight. The terminal
/// chunk fills them; chunks before it leave them untouched.
#[derive(Debug, Clone)]
pub struct StreamProgress {
    /// Tokens generated, from the terminal chunk.
    pub tokens: u64,
    /// Generation rate in tokens per second scaled by a thousand, from
    /// the terminal chunk.
    pub tokens_per_second_milli: u64,
    /// Wall time in milliseconds, from the terminal chunk.
    pub total_duration_ms: u64,
}

impl StreamProgress {
    /// Progress before any chunk arrived: all zero.
    pub fn new() -> (r: StreamProgress)
        ensures
            r.tokens == 0,
            r.tokens_per_second_milli == 0,
            r.total_duration_ms == 0,
    {
        StreamProgress { tokens: 0, tokens_per_second_milli: 0, total_duration_ms: 0 }
    }
}

/// What the consumer of a stream should do after one decoded line.
#[derive(Debug, Clone)]
pub enum StreamDirective {
    /// Keep consuming; forward the carried text, if any, to the session.
    Continue(Option<String>),
    /// Stop consuming: the stream failed with the carried error text.
    Fail(String),
}

/// Folds one decoded line into the stream's progress and says what to do
/// next. A blank line changes nothing; a malformed line fails the
/// stream; a chunk carrying a server error fails the stream with that
/// error before any of its content is considered; any other chunk
/// forwards its non-empty content, and the terminal chunk additionally
/// records the final statistics.
pub fn step_stream(progress: &mut StreamProgress, event: &ChunkEvent) -> (r: StreamDirective)
    ensures
        match event {
            ChunkEvent::Blank => *final(progress) == *old(progress) && r == StreamDirective::Continue(
                None::<String>,
            ),
            ChunkEvent::Malformed => *final(progress) == *old(progress) && (r matches
            StreamDirective::Fail(m) && m@ == "Failed to parse streaming response"@),
            ChunkEvent::Chunk(c) => if c.error is Some {
                &&& *final(progress) == *old(progress)
                &&& r matches StreamDirective::Fail(m) && m@ == c.error->Some_0@
            } else {
                &&& final(progress).tokens == if c.done && c.eval_count is Some {
                    c.eval_count->Some_0
                } else {
                    old(progress).tokens
                }
                &&& final(progress).tokens_per_second_milli == if c.done
                    && c.spec_tokens_per_second_milli() is Some {
                    c.spec_tokens_per_second_milli()->Some_0
                } else {
                    old(progress).tokens_per_second_milli
                }
                &&& final(progress).total_duration_ms == if c.done && c.total_duration is Some {
                    c.total_duration->Some_0 / 1_000_000
                } else {
                    old(progress).total_duration_ms
                }
                &&& match c.spec_content() {
                    Some(text) => if text.len() > 0 {
                        r matches StreamDirective::Continue(Some(fwd)) && fwd@ == text
                    } else {
                        r == StreamDirective::Continue(None::<String>)
                    },
                    None => r == StreamDirective::Continue(None::<String>),
                }
            },
        },
{
    match event {
        ChunkEvent::Blank => StreamDirective::Continue(None),
        ChunkEvent::Malformed => {
            let m = "Failed to parse streaming response";
            StreamDirective::Fail(m.to_owned())
        },
        ChunkEvent::Chunk(c) => {
            match &c.error {
                Some(err) => StreamDirective::Fail(err.clone()),
                None => {
                    if c.done {
                        match c.eval_count {
                            Some(count) => {
                                progress.tokens = count;
                            },
                            None => {},
                        }
                        match c.tokens_per_second_milli() {
                            Some(rate) => {
                                progress.tokens_per_second_milli = rate;
                            },
                            None => {},
                        }
                        match c.total_duration {
                            Some(ns) => {
                                progress.total_duration_ms = ns / 1_000_000;
                            },
                            None => {},
                        }
                    }
                    match c.content() {
                        Some(text) => {
                            if text.unicode_len() > 0 {
                                StreamDirective::Continue(Some(text.to_owned()))
                            } else {
                                StreamDirective::Continue(None)
                            }
                        },
                        None => StreamDirective::Continue(None),
                    }
                },
            }
        },
    }
}

/// The statistics of a finished stream, read off its progress.
pub fn complete_stream(progress: &StreamProgress) -> (r: ResponseStats)
    ensures
        r.tokens == progress.tokens,
        r.tokens_per_second_milli == progress.tokens_per_second_milli,
        r.total_duration_ms == progress.total_duration_ms,
{
    ResponseStats {
        tokens: progress.tokens,
        tokens_per_second_milli: progress.tokens_per_second_milli,
        total_duration_ms: progress.total_duration_ms,
    }
}

/// One model read out of the list-models response, field by field;
/// fields the server does not send are empty or zero. Called by the
/// trusted decoder behind `models_of`: the values pass through
/// serde_json's opaque documents, so its own contract states nothing,
/// but the conversion itself is checked, and it reads nothing besides
/// its argument.
pub(crate) fn model_from_value(v: &serde_json::Value) -> (r: ModelInfo) {
    let name = match v.get("name") {
        Some(x) => match x.as_str() {
            Some(s) => s.to_owned(),
            None => String::new(),
        },
        None => String::new(),
    };
    let model = match v.get("model") {
        Some(x) => match x.as_str() {
            Some(s) => s.to_owned(),
            None => String::new(),
        },
        None => String::new(),
    };
    let modified_at_ms = match v.get("modified_at") {
        Some(x) => match x.as_str() {
            Some(s) => parse_rfc3339_millis(s),
            None => None,
        },
        None => None,
    };
    let size = match v.get("size") {
        Some(x) => match x.as_u64() {
            Some(n) => n,
            None => 0,
        },
        None => 0,
    };
    let digest = match v.get("digest") {
        Some(x) => match x.as_str() {
            Some(s) => s.to_owned(),
            None => String::new(),
        },
        None => String::new(),
    };
    let details = match v.get("details") {
        Some(d) => Some(details_from_value(d)),
        None => None,
    };
    ModelInfo { name, model, modified_at_ms, size, digest, details }
}

/// The details object of one model, read field by field.
fn details_from_value(v: &serde_json::Value) -> (r: ModelDetails) {
    let mut families: Vec<String> = Vec::new();
    match v.get("families") {
        Some(f) => match f.as_array() {
            Some(items) => {
                let n = items.len();
                let mut i: usize = 0;
                while i < n
                    invariant
                        i <= n,
                        n == items@.len(),
                    decreases n - i,
                {
                    match items[i].as_str() {
                        Some(s) => {
                            families.push(s.to_owned());
                        },
                        None => {},
                    }
                    i += 1;
                }
            },
            None => {},
        },
        None => {},
    }
    ModelDetails {
        parent_model: string_member(v, "parent_model"),
        format: string_member(v, "format"),
        family: string_member(v, "family"),
        families,
        parameter_size: string_member(v, "parameter_size"),
        quantization_level: string_member(v, "quantization_level"),
    }
}

/// The text of a string member of a JSON object, or empty where the
/// member is absent or not a string.
fn string_member(v: &serde_json::Value, key: &str) -> (r: String) {
    match v.get(key) {
        Some(x) => match x.as_str() {
            Some(s) => s.to_owned(),
            None => String::new(),
        },
        None => String::new(),
    }
}

/// Decodes the body of the list-models response into the models it
/// names: exactly `models_of` of the body. `None` where the body is not
/// valid JSON or has no `models` array, otherwise one entry per element
/// of that array, read field by field by `model_from_value`.
pub fn extract_models(body: &str) -> (r: Option<Vec<ModelInfo>>)
    ensures
        r == models_of(body@),
{
    parse_models_text(body)
}

} // verus!
