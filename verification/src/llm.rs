//! Talking to an OpenAI-compatible chat endpoint: which dialect an endpoint
//! speaks, the request body for it, the client settings taken from the
//! configuration, and the decoding of the streamed reply.
use vstd::prelude::*;
use vstd::string::StringSliceAdditionalSpecFns;
use vstd::utf8::{decode_utf8, encode_utf8, is_char_boundary};
use crate::config::{build_quiz_prompt, quiz_prompt, texts, OpenAiConfig};
use crate::text::{str_equal, push_char, push_str, trim_end_char, trim_end_matching, chars_of, string_of};

verus! {

/// A piece of the model's streamed reply.
#[derive(Debug)]
pub enum LlmChunk {
    /// Reasoning text, shown while the model thinks.
    Thinking(String),
    /// A piece of the answer text.
    Content(String),
    /// The whole answer text, once the stream has ended.
    Done(String),
    /// The request failed.
    Error(String),
}

/// Which request fields an endpoint understands.
#[derive(Debug, Clone, Copy, PartialEq, Eq, Structural)]
pub enum ApiDialect {
    /// api.openai.com: takes `reasoning_effort` only.
    OpenAi,
    /// api.x.ai: takes none of the reasoning fields.
    XAi,
    /// Any other endpoint: takes all of them.
    Extended,
}

/// The host of the URL `url`, in the form `url::Url::host_str` gives it, or
/// `None` where `url::Url::parse` refuses `url` or the URL has no host.
pub uninterp spec fn url_host_of(url: Seq<char>) -> Option<Seq<char>>;

/// Parses `url` with `reqwest::Url::parse` (the `url` crate) and hands back
/// `host_str` of the result. The contract names the result and says nothing
/// more of it: the parser's rules (lower-casing, ports, IDNA) are the
/// outside crate's.
#[verifier::external_body]
fn url_host(url: &str) -> (host: Option<String>)
    ensures
        match host {
            Some(h) => url_host_of(url@) == Some(h@),
            None => url_host_of(url@) is None,
        },
{
    match reqwest::Url::parse(url) {
        Ok(parsed) => parsed.host_str().map(|h| h.to_string()),
        Err(_) => None,
    }
}

/// The dialect of an endpoint with the given host.
pub open spec fn dialect_for_host(host: Option<Seq<char>>) -> ApiDialect {
    match host {
        Some(h) => if h == "api.openai.com"@ {
            ApiDialect::OpenAi
        } else if h == "api.x.ai"@ {
            ApiDialect::XAi
        } else {
            ApiDialect::Extended
        },
        None => ApiDialect::Extended,
    }
}

/// The dialect of the endpoint `base_url`, decided by its exact host.
pub fn api_dialect(base_url: &str) -> (d: ApiDialect)
    ensures
        d == dialect_for_host(url_host_of(base_url@)),
{
    match url_host(base_url) {
        Some(host) => {
            if str_equal(host.as_str(), "api.openai.com") {
                ApiDialect::OpenAi
            } else if str_equal(host.as_str(), "api.x.ai") {
                ApiDialect::XAi
            } else {
                ApiDialect::Extended
            }
        },
        None => ApiDialect::Extended,
    }
}

/// One message of the conversation sent to the model.
#[derive(Debug, Clone)]
pub struct ChatMessage {
    pub role: String,
    pub content: String,
}

/// The `thinking` switch of the extended dialect; `kind` is sent as `type`.
#[derive(Debug, Clone)]
pub struct ThinkingMode {
    pub kind: String,
}

/// The body of a streamed chat-completion request. A field that is `None`
/// is left out of the request.
#[derive(Debug, Clone)]
pub struct RequestBody {
    pub model: String,
    pub stream: bool,
    pub messages: Vec<ChatMessage>,
    pub enable_thinking: Option<bool>,
    pub thinking: Option<ThinkingMode>,
    pub reasoning_effort: Option<String>,
}

/// The effort that is sent: the chosen one, or "none" with thinking off.
pub open spec fn sent_effort(enable_thinking: bool, reasoning_effort: Seq<char>) -> Seq<char> {
    if enable_thinking {
        reasoning_effort
    } else {
        "none"@
    }
}

/// The `thinking.type` that the extended dialect is sent.
pub open spec fn thinking_kind(enable_thinking: bool) -> Seq<char> {
    if enable_thinking {
        "enabled"@
    } else {
        "disabled"@
    }
}

/// What a request body built for `dialect` holds.
pub open spec fn body_matches(
    body: RequestBody,
    dialect: ApiDialect,
    model: Seq<char>,
    prompt: Seq<char>,
    enable_thinking: bool,
    reasoning_effort: Seq<char>,
) -> bool {
    &&& body.model@ == model
    &&& body.stream
    &&& body.messages@.len() == 1
    &&& body.messages@[0].role@ == "user"@
    &&& body.messages@[0].content@ == prompt
    &&& match dialect {
        ApiDialect::OpenAi => {
            &&& body.enable_thinking is None
            &&& body.thinking is None
            &&& body.reasoning_effort matches Some(e) && e@ == sent_effort(enable_thinking, reasoning_effort)
        },
        ApiDialect::XAi => {
            &&& body.enable_thinking is None
            &&& body.thinking is None
            &&& body.reasoning_effort is None
        },
        ApiDialect::Extended => {
            &&& body.enable_thinking == Some(enable_thinking)
            &&& body.thinking matches Some(t) && t.kind@ == thinking_kind(enable_thinking)
            &&& body.reasoning_effort matches Some(e) && e@ == sent_effort(enable_thinking, reasoning_effort)
        },
    }
}

/// Builds the request body: the model, streaming on, the prompt as the one
/// user message, and the reasoning fields that `dialect` understands.
pub fn build_request_body(
    dialect: ApiDialect,
    model: &str,
    prompt: &str,
    enable_thinking: bool,
    reasoning_effort: &str,
) -> (body: RequestBody)
    ensures
        body_matches(body, dialect, model@, prompt@, enable_thinking, reasoning_effort@),
{
    let mut messages: Vec<ChatMessage> = Vec::new();
    messages.push(ChatMessage { role: String::from_str("user"), content: String::from_str(prompt) });
    let mut body = RequestBody {
        model: String::from_str(model),
        stream: true,
        messages,
        enable_thinking: None,
        thinking: None,
        reasoning_effort: None,
    };
    let effort = if enable_thinking {
        String::from_str(reasoning_effort)
    } else {
        String::from_str("none")
    };
    match dialect {
        ApiDialect::OpenAi => {
            body.reasoning_effort = Some(effort);
        },
        ApiDialect::XAi => {},
        ApiDialect::Extended => {
            body.enable_thinking = Some(enable_thinking);
            let kind = if enable_thinking {
                String::from_str("enabled")
            } else {
                String::from_str("disabled")
            };
            body.thinking = Some(ThinkingMode { kind });
            body.reasoning_effort = Some(effort);
        },
    }
    body
}

/// The connection settings of a chat client, taken from a configuration.
#[derive(Debug, Clone)]
pub struct OpenAiClient {
    pub base_url: String,
    pub model: String,
    pub api_key: String,
    pub enable_thinking: bool,
    pub reasoning_effort: String,
}

impl OpenAiClient {
    /// Settings from `config`: the endpoint without trailing slashes, and
    /// the effort "high" where the configuration's is empty.
    pub fn new(config: &OpenAiConfig) -> (c: Self)
        ensures
            c.base_url@ == trim_end_char(config.base_url@, '/'),
            c.model@ == config.model@,
            c.api_key@ == config.api_key@,
            c.enable_thinking == config.enable_thinking,
            c.reasoning_effort@ == (if config.reasoning_effort@.len() == 0 {
                "high"@
            } else {
                config.reasoning_effort@
            }),
    {
        let reasoning_effort = if config.reasoning_effort.as_str().unicode_len() == 0 {
            String::from_str("high")
        } else {
            config.reasoning_effort.clone()
        };
        let base = chars_of(config.base_url.as_str());
        OpenAiClient {
            base_url: string_of(&trim_end_matching(&base, '/')),
            model: config.model.clone(),
            api_key: config.api_key.clone(),
            enable_thinking: config.enable_thinking,
            reasoning_effort,
        }
    }

    /// The body of the request that asks `question`, for the given categories.
    pub fn request_body(&self, question: &str, categories: &Vec<String>) -> (body: RequestBody)
        ensures
            body_matches(
                body,
                dialect_for_host(url_host_of(self.base_url@)),
                self.model@,
                quiz_prompt(texts(categories@), question@, self.enable_thinking),
                self.enable_thinking,
                self.reasoning_effort@,
            ),
    {
        let prompt = build_quiz_prompt(categories, question, self.enable_thinking);
        build_request_body(
            api_dialect(self.base_url.as_str()),
            self.model.as_str(),
            prompt.as_str(),
            self.enable_thinking,
            self.reasoning_effort.as_str(),
        )
    }

    /// The `Authorization` header value.
    pub fn authorization(&self) -> (h: String)
        ensures
            h@ == "Bearer "@ + self.api_key@,
    {
        let mut h = String::from_str("Bearer ");
        push_str(&mut h, self.api_key.as_str());
        h
    }
}

/// The reasoning and answer pieces of one streamed event, where it is JSON.
#[derive(Debug, Clone)]
pub struct StreamDelta {
    pub reasoning: Option<String>,
    pub content: Option<String>,
}

/// What `serde_json::from_str` makes of an event's data, read at
/// `choices[0].delta`: `None` where the data is not JSON, else the string
/// values of `reasoning_content` and `content` (each `None` where absent or
/// not a string).
pub uninterp spec fn stream_delta_of(data: Seq<char>) -> Option<(Option<Seq<char>>, Option<Seq<char>>)>;

/// The view of a decoded delta.
pub open spec fn delta_view(d: StreamDelta) -> (Option<Seq<char>>, Option<Seq<char>>) {
    (
        match d.reasoning { Some(r) => Some(r@), None => None },
        match d.content { Some(c) => Some(c@), None => None },
    )
}

/// Parses an event's data with `serde_json::from_str` into a
/// `serde_json::Value` and reads the two string fields of
/// `choices[0].delta`. The contract names the result; JSON's grammar is the
/// outside crate's.
#[verifier::external_body]
fn stream_delta(data: &str) -> (d: Option<StreamDelta>)
    ensures
        match d {
            Some(v) => stream_delta_of(data@) == Some(delta_view(v)),
            None => stream_delta_of(data@) is None,
        },
{
    match serde_json::from_str::<serde_json::Value>(data) {
        Ok(json) => {
            let delta = &json["choices"][0]["delta"];
            Some(StreamDelta {
                reasoning: delta["reasoning_content"].as_str().map(|r| r.to_string()),
                content: delta["content"].as_str().map(|c| c.to_string()),
            })
        },
        Err(_) => None,
    }
}

/// The data that marks the end of the stream.
pub const STREAM_END: &'static str = "[DONE]";

/// The reply text gathered so far from a streamed answer.
pub struct StreamDecoder {
    pub full_content: String,
}

/// What one event of the stream yields.
pub struct StreamStep {
    /// The pieces to hand on, in order.
    pub chunks: Vec<LlmChunk>,
    /// The stream has ended.
    pub done: bool,
}

/// The present, non-empty text of an optional piece.
pub open spec fn nonempty(t: Option<Seq<char>>) -> bool {
    t matches Some(x) && x.len() > 0
}

/// The answer text carried by the `Content` pieces of `chunks`, in order.
pub open spec fn content_of(chunks: Seq<LlmChunk>) -> Seq<char>
    decreases chunks.len(),
{
    if chunks.len() == 0 {
        Seq::empty()
    } else {
        content_of(chunks.drop_last()) + match chunks.last() {
            LlmChunk::Content(t) => t@,
            _ => Seq::empty(),
        }
    }
}

impl StreamDecoder {
    /// A decoder that has seen nothing yet.
    pub fn new() -> (d: Self)
        ensures
            d.full_content@ == Seq::<char>::empty(),
    {
        StreamDecoder { full_content: String::new() }
    }

    /// Takes the data of one event. `[DONE]` ends the stream; data that is
    /// not JSON is skipped; otherwise the reasoning text becomes a
    /// `Thinking` piece and the answer text a `Content` piece (each where
    /// present and not empty), and the answer text is added to the reply.
    pub fn feed(&mut self, data: &str) -> (step: StreamStep)
        ensures
            data@ == STREAM_END@ ==> step.done && step.chunks@.len() == 0 && final(self).full_content@ == old(self).full_content@,
            data@ != STREAM_END@ ==> !step.done && match stream_delta_of(data@) {
                None => step.chunks@.len() == 0 && final(self).full_content@ == old(self).full_content@,
                Some((r, c)) => {
                    &&& final(self).full_content@ == old(self).full_content@ + (if nonempty(c) { c->0 } else { Seq::empty() })
                    &&& step.chunks@.len() == (if nonempty(r) { 1int } else { 0 }) + (if nonempty(c) { 1int } else { 0 })
                    &&& nonempty(r) ==> (step.chunks@[0] matches LlmChunk::Thinking(t) && t@ == r->0)
                    &&& nonempty(c) ==> (step.chunks@.last() matches LlmChunk::Content(t) && t@ == c->0)
                },
            },
            final(self).full_content@ == old(self).full_content@ + content_of(step.chunks@),
    {
        let mut chunks: Vec<LlmChunk> = Vec::new();
        if str_equal(data, STREAM_END) {
            return StreamStep { chunks, done: true };
        }
        match stream_delta(data) {
            None => {},
            Some(delta) => {
                match delta.reasoning {
                    Some(r) => {
                        if r.as_str().unicode_len() > 0 {
                            chunks.push(LlmChunk::Thinking(r));
                        }
                    },
                    None => {},
                }
                match delta.content {
                    Some(c) => {
                        if c.as_str().unicode_len() > 0 {
                            push_str(&mut self.full_content, c.as_str());
                            chunks.push(LlmChunk::Content(c));
                        }
                    },
                    None => {},
                }
            },
        }
        proof {
            reveal_with_fuel(content_of, 3);
        }
        StreamStep { chunks, done: false }
    }

    /// The whole reply, once the stream has ended.
    pub fn finish(self) -> (c: LlmChunk)
        ensures
            c matches LlmChunk::Done(t) && t@ == self.full_content@,
    {
        LlmChunk::Done(self.full_content)
    }
}

/// What `format!("{:?}", s)` writes for the string `s`: the text in double
/// quotes, with the escapes of `str`'s `Debug`.
pub uninterp spec fn debug_text_of(s: Seq<char>) -> Seq<char>;

/// `format!("{:?}", s)` for a string. The contract names the result; which
/// characters `Debug` escapes is std's table.
#[verifier::external_body]
fn debug_text(s: &str) -> (d: String)
    ensures
        d@ == debug_text_of(s@),
{
    format!("{:?}", s)
}

/// `Debug` of a list of option texts: `[` and `]` around the quoted
/// options, separated by `, `.
pub open spec fn debug_list(options: Seq<Seq<char>>) -> Seq<char> {
    seq!['['] + crate::config::join_seq(options.map_values(|o: Seq<char>| debug_text_of(o)), ", "@) + seq![']']
}

/// The question as the model is told it: the question text, then the list
/// of options as `Debug` writes a list of strings.
pub open spec fn question_text_for_model(question: Seq<char>, options: Seq<Seq<char>>) -> Seq<char> {
    "题目:"@ + question + "\n答案:"@ + debug_list(options)
}

/// Writes the question and its options for the model.
pub fn question_for_model(question: &str, options: &Vec<String>) -> (q: String)
    ensures
        q@ == question_text_for_model(question@, texts(options@)),
{
    let mut q = String::from_str("题目:");
    push_str(&mut q, question);
    push_str(&mut q, "\n答案:");
    push_char(&mut q, '[');
    let ghost quoted = texts(options@).map_values(|o: Seq<char>| debug_text_of(o));
    let mut list = String::new();
    let mut i: usize = 0;
    while i < options.len()
        invariant
            i <= options@.len(),
            quoted == texts(options@).map_values(|o: Seq<char>| debug_text_of(o)),
            list@ == crate::config::join_seq(quoted.take(i as int), ", "@),
        decreases options@.len() - i,
    {
        proof {
            assert(quoted.take(i + 1).drop_last() =~= quoted.take(i as int));
            assert(quoted.take(i + 1).last() == debug_text_of(options@[i as int]@));
        }
        if i > 0 {
            push_str(&mut list, ", ");
        } else {
            proof {
                assert(list@ =~= Seq::<char>::empty());
            }
        }
        let d = debug_text(options[i].as_str());
        push_str(&mut list, d.as_str());
        proof {
            if i == 0 {
                assert(list@ =~= quoted.take(1)[0]);
            }
        }
        i = i + 1;
    }
    proof {
        assert(quoted.take(options@.len() as int) =~= quoted);
    }
    push_str(&mut q, list.as_str());
    push_char(&mut q, ']');
    proof {
        assert(q@ =~= question_text_for_model(question@, texts(options@)));
    }
    q
}

/// The most bytes of a refused request's reply that its message keeps.
pub const FAILURE_PREVIEW_BYTES: usize = 300;

/// The message of a request that the endpoint refused: the HTTP status and
/// the first 300 bytes of the reply.
pub open spec fn failure_text(status: Seq<char>, body: Seq<char>) -> Seq<char> {
    let b = encode_utf8(body);
    "LLM 请求失败 (HTTP "@ + status + "): "@ + if b.len() <= 300 {
        body
    } else {
        decode_utf8(b.subrange(0, 300))
    }
}

/// The error for a refused request. The reply is cut at a byte position,
/// which must fall between characters.
pub fn http_failure_message(status: &str, body: &str) -> (m: String)
    requires
        encode_utf8(body@).len() <= usize::MAX,
        encode_utf8(body@).len() > 300 ==> is_char_boundary(encode_utf8(body@), 300),
    ensures
        m@ == failure_text(status@, body@),
{
    let mut m = String::from_str("LLM 请求失败 (HTTP ");
    push_str(&mut m, status);
    push_str(&mut m, "): ");
    let n = body.len();
    proof {
        vstd::utf8::encode_utf8_valid_utf8(body@);
        assert(n == encode_utf8(body@).len());
    }
    if n <= FAILURE_PREVIEW_BYTES {
        push_str(&mut m, body);
    } else {
        let (preview, _) = body.split_at(FAILURE_PREVIEW_BYTES);
        proof {
            vstd::utf8::encode_utf8_decode_utf8(preview@);
            assert(preview@ == decode_utf8(encode_utf8(body@).subrange(0, 300)));
        }
        push_str(&mut m, preview);
    }
    m
}

} // verus!
