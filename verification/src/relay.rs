use vstd::prelude::*;
use crate::errors::StoreError;
use crate::ids::fresh_id;
use crate::text::{
    concat2, dec_str, is_substring, spec_replace, str_contains, str_eq, str_replace,
    str_skip_chars, str_starts_with, trim_end_slashes_spec, trim_simple, trim_spec,
    trim_trailing_slashes, u64_to_string,
};

verus! {

// ---------------------------------------------------------------------------
// The wire-facing data of the chat relay.
// ---------------------------------------------------------------------------

/// One message of a chat conversation, with its role name on the wire.
pub struct ChatCompletionMessage {
    pub role: String,
    pub content: String,
}

/// The incremental payload of one streamed chunk.
pub struct ChatCompletionDelta {
    pub content: Option<String>,
}

/// One choice of a streamed chunk.
pub struct ChatCompletionChoice {
    pub index: usize,
    pub delta: ChatCompletionDelta,
    pub finish_reason: Option<String>,
}

/// One streamed chat-completion chunk.
pub struct ChatCompletionResponse {
    pub id: String,
    pub object: String,
    pub created: u64,
    pub model: String,
    pub choices: Vec<ChatCompletionChoice>,
}

/// The error payload of a failed provider call.
pub struct ErrorDetail {
    pub message: String,
    pub code: Option<String>,
}

/// The error envelope of a failed provider call.
pub struct ErrorResponse {
    pub error: ErrorDetail,
}

/// One model offered by a provider.
#[derive(Debug)]
pub struct ModelInfo {
    pub id: String,
    pub name: Option<String>,
    pub description: Option<String>,
    pub max_tokens: Option<u32>,
}

/// The outcome of a connectivity test.
pub struct APITestResult {
    pub success: bool,
    pub message: String,
    pub response_time: Option<u64>,
}

// ---------------------------------------------------------------------------
// Endpoint selection.
// ---------------------------------------------------------------------------

/// A base URL that points at the local machine.
pub open spec fn spec_is_local(base: Seq<char>) -> bool {
    is_substring("localhost"@, base) || is_substring("127.0.0.1"@, base)
}

/// A base URL of the provider family that answers on Ollama-style endpoints.
pub open spec fn spec_is_ollama_style(base: Seq<char>) -> bool {
    is_substring("open.bigmodel.cn/api/paas/v4"@, base)
}

/// Whether the base URL points at the local machine.
pub fn is_local_service(base: &str) -> (r: bool)
    ensures
        r == spec_is_local(base@),
{
    str_contains(base, "localhost") || str_contains(base, "127.0.0.1")
}

/// Whether the base URL belongs to the Ollama-style provider family.
pub fn is_ollama_style(base: &str) -> (r: bool)
    ensures
        r == spec_is_ollama_style(base@),
{
    str_contains(base, "open.bigmodel.cn/api/paas/v4")
}

/// The chat endpoint under a base URL.
pub fn chat_completions_url(base: &str) -> (r: String)
    ensures
        r@ == base@ + "/chat/completions"@,
{
    concat2(base, "/chat/completions")
}

/// The endpoint a connectivity test probes: the root for an Ollama-style
/// host, the model listing otherwise.
pub fn connection_probe_url(base: &str) -> (r: String)
    ensures
        r@ == if spec_is_ollama_style(base@) {
            base@ + "/"@
        } else {
            base@ + "/models"@
        },
{
    if is_ollama_style(base) {
        concat2(base, "/")
    } else {
        concat2(base, "/models")
    }
}

/// The base of the native API for an Ollama-style host: `/v1` becomes
/// `/api`; a base already naming `/api` is kept; otherwise `/api` is
/// appended behind any trailing slashes.
pub fn ollama_fallback_base(base: &str) -> (r: String)
    ensures
        r@ == if is_substring("/v1"@, base@) {
            spec_replace(base@, "/v1"@, "/api"@)
        } else if is_substring("/api"@, base@) {
            base@
        } else {
            trim_end_slashes_spec(base@) + "/api"@
        },
{
    if str_contains(base, "/v1") {
        proof {
            reveal_strlit("/v1");
        }
        str_replace(base, "/v1", "/api")
    } else if str_contains(base, "/api") {
        base.to_owned()
    } else {
        concat2(trim_trailing_slashes(base), "/api")
    }
}

/// The model-tags endpoint of the native API for an Ollama-style host.
pub fn ollama_tags_url(base: &str) -> (r: String)
    ensures
        r@ == (if is_substring("/v1"@, base@) {
            spec_replace(base@, "/v1"@, "/api"@)
        } else if is_substring("/api"@, base@) {
            base@
        } else {
            trim_end_slashes_spec(base@) + "/api"@
        }) + "/tags"@,
{
    let b = ollama_fallback_base(base);
    concat2(b.as_str(), "/tags")
}

/// The endpoint the fallback connectivity test probes: `/v1` rewritten to
/// `/api`, then the chat endpoint.
pub fn ollama_fallback_probe_url(base: &str) -> (r: String)
    ensures
        r@ == spec_replace(base@, "/v1"@, "/api"@) + "/chat/completions"@,
{
    proof {
        reveal_strlit("/v1");
    }
    let b = str_replace(base, "/v1", "/api");
    concat2(b.as_str(), "/chat/completions")
}

/// The default base URL of a provider, by identifier.
pub fn default_base_url(provider_id: &str) -> (r: String)
    ensures
        r@ == if provider_id@ == "OpenAI"@ {
            "https://api.openai.com/v1"@
        } else if provider_id@ == "Ollama"@ {
            "http://localhost:11434"@
        } else if provider_id@ == "ZhipuAI"@ {
            "https://open.bigmodel.cn/api/paas/v4"@
        } else if provider_id@ == "Copy2AI"@ {
            "https://api.copy2ai.com/v1"@
        } else {
            "https://api.openai.com/v1"@
        },
{
    if str_eq(provider_id, "OpenAI") {
        "https://api.openai.com/v1".to_owned()
    } else if str_eq(provider_id, "Ollama") {
        "http://localhost:11434".to_owned()
    } else if str_eq(provider_id, "ZhipuAI") {
        "https://open.bigmodel.cn/api/paas/v4".to_owned()
    } else if str_eq(provider_id, "Copy2AI") {
        "https://api.copy2ai.com/v1".to_owned()
    } else {
        "https://api.openai.com/v1".to_owned()
    }
}

// ---------------------------------------------------------------------------
// Authorization and connectivity classification.
// ---------------------------------------------------------------------------

/// A key that is present and not blank.
pub open spec fn spec_usable_key(api_key: Option<String>) -> bool {
    match api_key {
        Some(k) => trim_spec(k@).len() > 0,
        None => false,
    }
}

/// The bearer token to attach to a provider call. A remote host demands a
/// usable key; a local host takes one only when it is usable.
pub fn decide_auth(base: &str, api_key: &Option<String>) -> (r: Result<
    Option<String>,
    StoreError,
>)
    ensures
        !spec_is_local(base@) && !spec_usable_key(*api_key) ==> r == Err::<
            Option<String>,
            StoreError,
        >(StoreError::Validation),
        !spec_is_local(base@) && spec_usable_key(*api_key) ==> r is Ok && r.unwrap() is Some
            && r.unwrap().unwrap()@ == api_key.unwrap()@,
        spec_is_local(base@) ==> r is Ok && (if spec_usable_key(*api_key) {
            r.unwrap() is Some && r.unwrap().unwrap()@ == api_key.unwrap()@
        } else {
            r.unwrap() is None
        }),
{
    let usable = match api_key {
        Some(k) => !trim_simple(k.as_str()).is_empty(),
        None => false,
    };
    if !is_local_service(base) {
        if !usable {
            return Err(StoreError::Validation);
        }
        match api_key {
            Some(k) => Ok(Some(k.clone())),
            None => Err(StoreError::Validation),
        }
    } else {
        if usable {
            match api_key {
                Some(k) => Ok(Some(k.clone())),
                None => Ok(None),
            }
        } else {
            Ok(None)
        }
    }
}

/// A body that looks like a model listing.
pub open spec fn spec_has_model_keywords(body: Seq<char>) -> bool {
    is_substring("models"@, body) || is_substring("data"@, body) || is_substring("id"@, body)
}

/// Classifies the body of a successful connectivity probe: success either
/// way, with a message that says whether the body looks like a model listing
/// and carries the round-trip time in milliseconds.
pub fn classify_connection_body(body: &str, response_time: u64) -> (r: APITestResult)
    ensures
        r.success,
        r.response_time == Some(response_time),
        spec_has_model_keywords(body@) ==> r.message@ == "连接成功，已获取模型列表 ("@ + dec_str(
            response_time as nat,
        ) + "ms)"@,
        !spec_has_model_keywords(body@) ==> r.message@
            == "连接成功，但无法确认是否为有效的模型列表接口 ("@ + dec_str(response_time as nat)
            + "ms)"@,
{
    let millis = u64_to_string(response_time);
    let message = if str_contains(body, "models") || str_contains(body, "data")
        || str_contains(body, "id") {
        crate::text::concat3("连接成功，已获取模型列表 (", millis.as_str(), "ms)")
    } else {
        crate::text::concat3(
            "连接成功，但无法确认是否为有效的模型列表接口 (",
            millis.as_str(),
            "ms)",
        )
    };
    APITestResult { success: true, message, response_time: Some(response_time) }
}

// ---------------------------------------------------------------------------
// Model-list shapes, tried in a fixed priority order.
// ---------------------------------------------------------------------------

/// One record of a `models` array, as far as the decoder could read it.
pub struct ModelEntry {
    pub id: Option<String>,
    pub name: Option<String>,
    pub description: Option<String>,
    pub max_tokens: Option<u32>,
}

/// The plain summary of a decoded model-listing body: the identifiers of an
/// OpenAI-style `data` array, the records of a `models` array, and the
/// identifiers of a bare top-level array, each when that shape was present.
pub struct ModelListDocument {
    pub data_ids: Option<Vec<String>>,
    pub models_entries: Option<Vec<ModelEntry>>,
    pub bare_ids: Option<Vec<String>>,
}

/// The identifier a `models` record yields: its `id`, else its `name`.
pub open spec fn entry_model_id(e: ModelEntry) -> Option<String> {
    if e.id is Some {
        e.id
    } else if e.name is Some {
        e.name
    } else {
        None
    }
}

/// The model a `models` record yields, when it names one.
pub open spec fn entry_to_model(e: ModelEntry) -> Option<ModelInfo> {
    match entry_model_id(e) {
        Some(id) => Some(
            ModelInfo {
                id,
                name: e.name,
                description: e.description,
                max_tokens: e.max_tokens,
            },
        ),
        None => None,
    }
}

/// The models of a `models` array, records without identifier skipped.
pub open spec fn mapped_models(s: Seq<ModelEntry>) -> Seq<ModelInfo>
    decreases s.len(),
{
    if s.len() == 0 {
        Seq::empty()
    } else {
        let rest = mapped_models(s.drop_last());
        match entry_to_model(s.last()) {
            Some(m) => rest.push(m),
            None => rest,
        }
    }
}

/// The models of an identifier list, each identifier doubling as its name
/// when `named` is set.
pub open spec fn id_models(ids: Seq<String>, named: bool) -> Seq<ModelInfo> {
    ids.map_values(
        |id: String| ModelInfo {
            id,
            name: if named {
                Some(id)
            } else {
                None
            },
            description: None,
            max_tokens: None,
        },
    )
}

/// The models the `data` shape of the document yields.
pub open spec fn data_shape(doc: ModelListDocument) -> Seq<ModelInfo> {
    match doc.data_ids {
        Some(ids) => id_models(ids@, true),
        None => Seq::empty(),
    }
}

/// The models the `models` shape of the document yields.
pub open spec fn models_shape(doc: ModelListDocument) -> Seq<ModelInfo> {
    match doc.models_entries {
        Some(entries) => mapped_models(entries@),
        None => Seq::empty(),
    }
}

/// The models the bare-array shape of the document yields.
pub open spec fn bare_shape(doc: ModelListDocument) -> Seq<ModelInfo> {
    match doc.bare_ids {
        Some(ids) => id_models(ids@, false),
        None => Seq::empty(),
    }
}

fn ids_to_models(ids: &Vec<String>, named: bool) -> (r: Vec<ModelInfo>)
    ensures
        r@ == id_models(ids@, named),
{
    let mut out: Vec<ModelInfo> = Vec::new();
    let mut i: usize = 0;
    while i < ids.len()
        invariant
            0 <= i <= ids@.len(),
            out@ =~= id_models(ids@.take(i as int), named),
        decreases ids@.len() - i,
    {
        let id = ids[i].clone();
        let name = if named {
            Some(ids[i].clone())
        } else {
            None
        };
        out.push(ModelInfo { id, name, description: None, max_tokens: None });
        proof {
            assert(ids@.take(i + 1) =~= ids@.take(i as int).push(ids@[i as int]));
            assert(out@ =~= id_models(ids@.take(i + 1), named));
        }
        i = i + 1;
    }
    proof {
        assert(ids@.take(ids@.len() as int) =~= ids@);
    }
    out
}

fn clone_opt_string(s: &Option<String>) -> (r: Option<String>)
    ensures
        r == *s,
{
    match s {
        Some(x) => Some(x.clone()),
        None => None,
    }
}

fn entries_to_models(entries: &Vec<ModelEntry>) -> (r: Vec<ModelInfo>)
    ensures
        r@ == mapped_models(entries@),
{
    let mut out: Vec<ModelInfo> = Vec::new();
    let mut i: usize = 0;
    while i < entries.len()
        invariant
            0 <= i <= entries@.len(),
            out@ =~= mapped_models(entries@.take(i as int)),
        decreases entries@.len() - i,
    {
        let e = &entries[i];
        let picked: Option<String> = match &e.id {
            Some(id) => Some(id.clone()),
            None => match &e.name {
                Some(name) => Some(name.clone()),
                None => None,
            },
        };
        match picked {
            Some(id) => {
                out.push(
                    ModelInfo {
                        id,
                        name: clone_opt_string(&e.name),
                        description: clone_opt_string(&e.description),
                        max_tokens: e.max_tokens,
                    },
                );
            },
            None => {},
        }
        proof {
            assert(entries@.take(i + 1).drop_last() =~= entries@.take(i as int));
            assert(entries@.take(i + 1).last() == entries@[i as int]);
            assert(out@ =~= mapped_models(entries@.take(i + 1)));
        }
        i = i + 1;
    }
    proof {
        assert(entries@.take(entries@.len() as int) =~= entries@);
    }
    out
}

/// Picks the model list out of a decoded listing body: the `data` shape is
/// preferred, then the `models` shape, then the bare array; a document that
/// yields no model under any shape is a parse failure.
pub fn select_models(doc: &ModelListDocument) -> (r: Result<Vec<ModelInfo>, StoreError>)
    ensures
        data_shape(*doc).len() > 0 ==> r is Ok && r.unwrap()@ == data_shape(*doc),
        data_shape(*doc).len() == 0 && models_shape(*doc).len() > 0 ==> r is Ok && r.unwrap()@
            == models_shape(*doc),
        data_shape(*doc).len() == 0 && models_shape(*doc).len() == 0 && bare_shape(
            *doc,
        ).len() > 0 ==> r is Ok && r.unwrap()@ == bare_shape(*doc),
        data_shape(*doc).len() == 0 && models_shape(*doc).len() == 0 && bare_shape(
            *doc,
        ).len() == 0 ==> r == Err::<Vec<ModelInfo>, StoreError>(StoreError::ParseFailure),
{
    match &doc.data_ids {
        Some(ids) => {
            let models = ids_to_models(ids, true);
            if models.len() > 0 {
                return Ok(models);
            }
        },
        None => {},
    }
    match &doc.models_entries {
        Some(entries) => {
            let models = entries_to_models(entries);
            if models.len() > 0 {
                return Ok(models);
            }
        },
        None => {},
    }
    match &doc.bare_ids {
        Some(ids) => {
            let models = ids_to_models(ids, false);
            if models.len() > 0 {
                return Ok(models);
            }
        },
        None => {},
    }
    Err(StoreError::ParseFailure)
}

/// The models the bare-array shape of a native tags answer yields: each
/// record's name doubles as identifier and name.
pub open spec fn named_bare_shape(doc: ModelListDocument) -> Seq<ModelInfo> {
    match doc.bare_ids {
        Some(ids) => id_models(ids@, true),
        None => Seq::empty(),
    }
}

/// Picks the model list out of a decoded native tags answer: the `models`
/// array is preferred, then a bare array; in both shapes the record's name
/// stands as identifier and name alike. A document that yields no model is
/// a parse failure.
pub fn select_tag_models(doc: &ModelListDocument) -> (r: Result<Vec<ModelInfo>, StoreError>)
    ensures
        models_shape(*doc).len() > 0 ==> r is Ok && r.unwrap()@ == models_shape(*doc),
        models_shape(*doc).len() == 0 && named_bare_shape(*doc).len() > 0 ==> r is Ok
            && r.unwrap()@ == named_bare_shape(*doc),
        models_shape(*doc).len() == 0 && named_bare_shape(*doc).len() == 0 ==> r == Err::<
            Vec<ModelInfo>,
            StoreError,
        >(StoreError::ParseFailure),
{
    match &doc.models_entries {
        Some(entries) => {
            let models = entries_to_models(entries);
            if models.len() > 0 {
                return Ok(models);
            }
        },
        None => {},
    }
    match &doc.bare_ids {
        Some(ids) => {
            let models = ids_to_models(ids, true);
            if models.len() > 0 {
                return Ok(models);
            }
        },
        None => {},
    }
    Err(StoreError::ParseFailure)
}

// ---------------------------------------------------------------------------
// Chat defaults and response extraction.
// ---------------------------------------------------------------------------

/// The effective key, base URL and model of an analysis call: an explicit
/// non-empty value wins, the environment key stands in for a missing key,
/// and the base URL and model fall back to fixed defaults. With no key at
/// all the call is refused.
pub fn resolve_analysis_params(
    api_key: Option<String>,
    env_key: Option<String>,
    api_base_url: Option<String>,
    model: Option<String>,
) -> (r: Result<(String, String, String), StoreError>)
    ensures
        ({
            let key_given = api_key is Some && api_key.unwrap()@.len() > 0;
            &&& (!key_given && env_key is None) ==> r == Err::<
                (String, String, String),
                StoreError,
            >(StoreError::Validation)
            &&& (key_given || env_key is Some) ==> r is Ok && ({
                let (key, base, mdl) = r.unwrap();
                &&& key@ == if key_given {
                    api_key.unwrap()@
                } else {
                    env_key.unwrap()@
                }
                &&& base@ == (match api_base_url {
                    Some(b) => if b@.len() > 0 {
                        b@
                    } else {
                        "https://api.openai.com/v1"@
                    },
                    None => "https://api.openai.com/v1"@,
                })
                &&& mdl@ == (match model {
                    Some(m) => if m@.len() > 0 {
                        m@
                    } else {
                        "gpt-3.5-turbo"@
                    },
                    None => "gpt-3.5-turbo"@,
                })
            })
        }),
{
    let key = match api_key {
        Some(k) => {
            if !k.as_str().is_empty() {
                k
            } else {
                match env_key {
                    Some(e) => e,
                    None => {
                        return Err(StoreError::Validation);
                    },
                }
            }
        },
        None => match env_key {
            Some(e) => e,
            None => {
                return Err(StoreError::Validation);
            },
        },
    };
    let base = match api_base_url {
        Some(b) => {
            if !b.as_str().is_empty() {
                b
            } else {
                "https://api.openai.com/v1".to_owned()
            }
        },
        None => "https://api.openai.com/v1".to_owned(),
    };
    let mdl = match model {
        Some(m) => {
            if !m.as_str().is_empty() {
                m
            } else {
                "gpt-3.5-turbo".to_owned()
            }
        },
        None => "gpt-3.5-turbo".to_owned(),
    };
    Ok((key, base, mdl))
}

/// The content that a full (non-streamed) chat response carries at
/// `choices[0].message.content`; it depends on the body text alone.
pub uninterp spec fn chat_message_content(s: Seq<char>) -> Option<Seq<char>>;

/// Relies on serde_json: parses the body and picks
/// `choices[0].message.content`; the result depends on the text alone.
#[verifier::external_body]
fn parse_message_content(body: &str) -> (r: Option<String>)
    ensures
        r is Some <==> chat_message_content(body@) is Some,
        r is Some ==> r.unwrap()@ == chat_message_content(body@).unwrap(),
{
    let v: serde_json::Value = serde_json::from_str(body).ok()?;
    let c = v.get("choices")?.get(0)?.get("message")?.get("content")?.as_str()?;
    Some(c.to_owned())
}

/// The analysis text of a chat response body: the extracted message content,
/// or a fixed notice when none can be read.
pub fn analysis_text_from_body(body: &str) -> (r: String)
    ensures
        r@ == (match chat_message_content(body@) {
            Some(c) => c,
            None => "无法解析结果"@,
        }),
{
    match parse_message_content(body) {
        Some(c) => c,
        None => "无法解析结果".to_owned(),
    }
}

/// A fresh per-request event name: a fixed prefix and a fresh identifier, so
/// a caller can subscribe before the relay starts emitting.
pub fn make_chat_event_name() -> (r: String)
    ensures
        r@.len() == "chat_response_"@.len() + 36,
        r@.take("chat_response_"@.len() as int) == "chat_response_"@,
{
    let id = fresh_id();
    let r = concat2("chat_response_", id.as_str());
    proof {
        assert(r@.take("chat_response_"@.len() as int) =~= "chat_response_"@);
    }
    r
}

} // verus!

verus! {

// ---------------------------------------------------------------------------
// The streamed (SSE-style) chat relay.
// ---------------------------------------------------------------------------

/// A streamed relay event: one piece of assistant text, or the completion
/// sentinel.
pub enum RelayEvent {
    Delta(String),
    Done,
}

/// The content that a streamed chunk carries at `choices[0].delta.content`;
/// it depends on the chunk text alone.
pub uninterp spec fn chat_delta_content(s: Seq<char>) -> Option<Seq<char>>;

/// Relies on serde_json: parses one streamed chunk and picks
/// `choices[0].delta.content`; the result depends on the text alone.
#[verifier::external_body]
fn parse_delta_content(payload: &str) -> (r: Option<String>)
    ensures
        r is Some <==> chat_delta_content(payload@) is Some,
        r is Some ==> r.unwrap()@ == chat_delta_content(payload@).unwrap(),
{
    let v: serde_json::Value = serde_json::from_str(payload).ok()?;
    let c = v.get("choices")?.get(0)?.get("delta")?.get("content")?.as_str()?;
    Some(c.to_owned())
}

/// The payload of an SSE data line: the characters after the `data: `
/// prefix.
pub open spec fn line_payload(line: Seq<char>) -> Option<Seq<char>> {
    if line.len() >= 6 && line.subrange(0, 6) == "data: "@ {
        Some(line.skip(6))
    } else {
        None
    }
}

/// A data line whose trimmed payload is the terminal `[DONE]` marker.
pub open spec fn is_done_line(line: Seq<char>) -> bool {
    match line_payload(line) {
        Some(p) => trim_spec(p) == "[DONE]"@,
        None => false,
    }
}

/// What one decoded line yields while the stream is open: the completion
/// sentinel for a `[DONE]` payload, the extracted content for a chunk that
/// carries some, and nothing for any other line.
pub open spec fn event_matches_line(ev: Option<RelayEvent>, line: Seq<char>) -> bool {
    match line_payload(line) {
        None => ev is None,
        Some(p) => if trim_spec(p) == "[DONE]"@ {
            ev == Some(RelayEvent::Done)
        } else {
            match chat_delta_content(p) {
                Some(c) => ev is Some && ev.unwrap() is Delta && ev.unwrap()->Delta_0@ == c,
                None => ev is None,
            }
        },
    }
}

/// The position of the first newline byte, or -1 when none is present.
pub open spec fn first_nl(buf: Seq<u8>) -> int
    decreases buf.len(),
{
    if buf.len() == 0 {
        -1
    } else if buf[0] == 10 {
        0
    } else {
        let r = first_nl(buf.drop_first());
        if r < 0 {
            -1
        } else {
            r + 1
        }
    }
}

proof fn lemma_first_nl_bounds(buf: Seq<u8>)
    ensures
        -1 <= first_nl(buf) < buf.len(),
    decreases buf.len(),
{
    if buf.len() > 0 && buf[0] != 10 {
        lemma_first_nl_bounds(buf.drop_first());
    }
}

proof fn lemma_first_nl_at(buf: Seq<u8>, i: int)
    requires
        0 <= i < buf.len(),
        forall|j: int| 0 <= j < i ==> buf[j] != 10,
        buf[i] == 10,
    ensures
        first_nl(buf) == i,
    decreases i,
{
    if i > 0 {
        assert(forall|j: int| 0 <= j < i - 1 ==> buf.drop_first()[j] == buf[j + 1]);
        lemma_first_nl_at(buf.drop_first(), i - 1);
    }
}

proof fn lemma_first_nl_none(buf: Seq<u8>)
    requires
        forall|j: int| 0 <= j < buf.len() ==> buf[j] != 10,
    ensures
        first_nl(buf) < 0,
    decreases buf.len(),
{
    if buf.len() > 0 {
        assert(forall|j: int| 0 <= j < buf.drop_first().len() ==> buf.drop_first()[j] == buf[j
            + 1]);
        lemma_first_nl_none(buf.drop_first());
    }
}

/// The complete lines of a buffer, each ending with its newline byte.
pub open spec fn line_chunks(buf: Seq<u8>) -> Seq<Seq<u8>>
    decreases buf.len(),
    via line_chunks_decreases
{
    let p = first_nl(buf);
    if p < 0 {
        Seq::empty()
    } else {
        seq![buf.take(p + 1)] + line_chunks(buf.skip(p + 1))
    }
}

#[via_fn]
proof fn line_chunks_decreases(buf: Seq<u8>) {
    lemma_first_nl_bounds(buf);
}

/// What remains of a buffer after its complete lines.
pub open spec fn line_rest(buf: Seq<u8>) -> Seq<u8>
    decreases buf.len(),
    via line_rest_decreases
{
    let p = first_nl(buf);
    if p < 0 {
        buf
    } else {
        line_rest(buf.skip(p + 1))
    }
}

#[via_fn]
proof fn line_rest_decreases(buf: Seq<u8>) {
    lemma_first_nl_bounds(buf);
}

/// Whether the stream is closed after these lines, starting from `done0`.
pub open spec fn done_after(lines: Seq<Seq<u8>>, done0: bool) -> bool
    decreases lines.len(),
{
    if lines.len() == 0 {
        done0
    } else {
        done_after(lines.drop_first(), done0 || is_done_line(lossy_utf8_of(lines[0])))
    }
}

/// The decoded form of a raw line.
pub open spec fn lossy_utf8_of(bytes: Seq<u8>) -> Seq<char> {
    crate::text::lossy_utf8(bytes)
}

proof fn lemma_done_after_true(lines: Seq<Seq<u8>>)
    ensures
        done_after(lines, true),
    decreases lines.len(),
{
    if lines.len() > 0 {
        lemma_done_after_true(lines.drop_first());
    }
}

/// The exact events that a run of complete lines yields, given whether the
/// stream was already closed: nothing once closed, one `Done` for the first
/// `[DONE]` line, one `Delta` for each chunk that carries content before
/// that, and nothing for any other line.
pub open spec fn relay_outputs(lines: Seq<Seq<u8>>, done0: bool, events: Seq<RelayEvent>) -> bool
    decreases lines.len(),
{
    if lines.len() == 0 {
        events.len() == 0
    } else if done0 {
        events.len() == 0
    } else {
        let line = lossy_utf8_of(lines[0]);
        let rest = lines.drop_first();
        if is_done_line(line) {
            &&& events.len() >= 1
            &&& events[0] == RelayEvent::Done
            &&& relay_outputs(rest, true, events.drop_first())
        } else {
            match line_payload(line) {
                Some(p) => match chat_delta_content(p) {
                    Some(c) => {
                        &&& events.len() >= 1
                        &&& events[0] is Delta
                        &&& events[0]->Delta_0@ == c
                        &&& relay_outputs(rest, false, events.drop_first())
                    },
                    None => relay_outputs(rest, false, events),
                },
                None => relay_outputs(rest, false, events),
            }
        }
    }
}

/// What one decoded line does to an open or closed stream.
fn line_event(line: &str, done: bool) -> (r: (Option<RelayEvent>, bool))
    ensures
        done ==> r.0 is None && r.1,
        !done ==> event_matches_line(r.0, line@) && (r.1 <==> is_done_line(line@)),
{
    proof {
        reveal_strlit("data: ");
    }
    if done {
        return (None, true);
    }
    if !str_starts_with(line, "data: ") {
        return (None, false);
    }
    let payload = str_skip_chars(line, 6);
    let trimmed = trim_simple(payload);
    if str_eq(trimmed, "[DONE]") {
        return (Some(RelayEvent::Done), true);
    }
    match parse_delta_content(payload) {
        Some(c) => (Some(RelayEvent::Delta(c)), false),
        None => (None, false),
    }
}

fn find_newline(buf: &Vec<u8>) -> (r: Option<usize>)
    ensures
        match r {
            Some(i) => first_nl(buf@) == i,
            None => first_nl(buf@) < 0,
        },
{
    let mut i: usize = 0;
    while i < buf.len()
        invariant
            0 <= i <= buf@.len(),
            forall|j: int| 0 <= j < i ==> buf@[j] != 10,
        decreases buf@.len() - i,
    {
        if buf[i] == 10u8 {
            proof {
                lemma_first_nl_at(buf@, i as int);
            }
            return Some(i);
        }
        i = i + 1;
    }
    proof {
        lemma_first_nl_none(buf@);
    }
    None
}

fn drain_bytes(buffer: Vec<u8>, done: bool, out: &mut Vec<RelayEvent>) -> (res: (Vec<u8>, bool))
    ensures
        res.0@ == line_rest(buffer@),
        res.1 == done_after(line_chunks(buffer@), done),
        final(out)@.len() >= old(out)@.len(),
        final(out)@.take(old(out)@.len() as int) == old(out)@,
        relay_outputs(line_chunks(buffer@), done, final(out)@.skip(old(out)@.len() as int)),
    decreases buffer@.len(),
{
    let ghost out0 = out@;
    match find_newline(&buffer) {
        None => {
            proof {
                assert(line_chunks(buffer@) =~= Seq::<Seq<u8>>::empty());
                assert(out@.skip(out0.len() as int) =~= Seq::<RelayEvent>::empty());
                assert(out@.take(out0.len() as int) =~= out0);
            }
            (buffer, done)
        },
        Some(i) => {
            let ghost whole = buffer@;
            proof {
                lemma_first_nl_bounds(whole);
            }
            let mut rest_buf = buffer;
            let n = rest_buf.len();
            assert(i < n);
            let tail = rest_buf.split_off(i + 1);
            proof {
                assert(rest_buf@ =~= whole.take(i + 1));
                assert(tail@ =~= whole.skip(i + 1));
            }
            let line_str = crate::text::utf8_lossy(rest_buf.as_slice());
            let (ev, new_done) = line_event(line_str.as_str(), done);
            let ghost gev = ev;
            match ev {
                Some(e) => {
                    out.push(e);
                },
                None => {},
            }
            let ghost out_mid = out@;
            let res = drain_bytes(tail, new_done, out);
            proof {
                let lines = line_chunks(whole);
                assert(lines =~= seq![whole.take(i + 1)] + line_chunks(whole.skip(i + 1)));
                assert(lines.drop_first() =~= line_chunks(whole.skip(i + 1)));
                assert(lines[0] == whole.take(i + 1));
                let appended = out@.skip(out0.len() as int);
                let appended_rest = out@.skip(out_mid.len() as int);
                assert(out@.take(out_mid.len() as int) == out_mid);
                if done {
                    lemma_done_after_true(lines);
                    assert(appended =~= appended_rest);
                } else {
                    match gev {
                        Some(e) => {
                            assert(out_mid =~= out0.push(e));
                            assert(appended.len() >= 1);
                            assert(out@.take(out_mid.len() as int)[out0.len() as int] == out_mid[
                                out0.len() as int
                            ]);
                            assert(appended[0] == out@[out0.len() as int]);
                            assert(appended[0] == e);
                            assert(appended.drop_first() =~= appended_rest);
                        },
                        None => {
                            assert(out_mid == out0);
                            assert(appended =~= appended_rest);
                        },
                    }
                }
                assert(out@.take(out0.len() as int) =~= out0);
            }
            res
        },
    }
}

/// The streamed-response relay: buffers raw bytes, cuts them into lines, and
/// turns each complete line into at most one event. After the completion
/// sentinel no further event is emitted.
pub struct SseRelay {
    buffer: Vec<u8>,
    done: bool,
}

impl SseRelay {
    /// The bytes received but not yet terminated by a newline.
    pub closed spec fn spec_buffer(&self) -> Seq<u8> {
        self.buffer@
    }

    /// Whether the completion sentinel has been seen.
    pub closed spec fn spec_done(&self) -> bool {
        self.done
    }

    /// A relay with an empty buffer and the stream open.
    pub fn new() -> (r: Self)
        ensures
            r.spec_buffer() =~= Seq::<u8>::empty(),
            !r.spec_done(),
    {
        SseRelay { buffer: Vec::new(), done: false }
    }

    /// Whether the completion sentinel has been seen.
    pub fn is_done(&self) -> (r: bool)
        ensures
            r == self.spec_done(),
    {
        self.done
    }

    /// Feeds one decoded line to the relay and yields its event, if any.
    pub fn relay_line(&mut self, line: &str) -> (ev: Option<RelayEvent>)
        ensures
            final(self).spec_buffer() == old(self).spec_buffer(),
            old(self).spec_done() ==> ev is None && final(self).spec_done(),
            !old(self).spec_done() ==> event_matches_line(ev, line@) && (final(self).spec_done()
                <==> is_done_line(line@)),
    {
        let (ev, new_done) = line_event(line, self.done);
        self.done = new_done;
        ev
    }

    /// Feeds a raw chunk to the relay: the bytes join the buffer, every
    /// complete line is decoded and classified, and the incomplete remainder
    /// stays buffered.
    pub fn process_chunk(&mut self, chunk: &[u8]) -> (events: Vec<RelayEvent>)
        ensures
            final(self).spec_buffer() == line_rest(old(self).spec_buffer() + chunk@),
            final(self).spec_done() == done_after(
                line_chunks(old(self).spec_buffer() + chunk@),
                old(self).spec_done(),
            ),
            relay_outputs(
                line_chunks(old(self).spec_buffer() + chunk@),
                old(self).spec_done(),
                events@,
            ),
    {
        let mut k: usize = 0;
        while k < chunk.len()
            invariant
                0 <= k <= chunk@.len(),
                self.buffer@ == old(self).spec_buffer() + chunk@.take(k as int),
                self.done == old(self).spec_done(),
            decreases chunk@.len() - k,
        {
            self.buffer.push(chunk[k]);
            proof {
                assert(old(self).spec_buffer() + chunk@.take(k + 1) =~= (old(
                    self,
                ).spec_buffer() + chunk@.take(k as int)).push(chunk@[k as int]));
            }
            k = k + 1;
        }
        proof {
            assert(old(self).spec_buffer() + chunk@.take(chunk@.len() as int) =~= old(
                self,
            ).spec_buffer() + chunk@);
        }
        let buf = self.buffer.split_off(0);
        proof {
            assert(buf@ =~= old(self).spec_buffer() + chunk@);
        }
        let mut out: Vec<RelayEvent> = Vec::new();
        let res = drain_bytes(buf, self.done, &mut out);
        self.buffer = res.0;
        self.done = res.1;
        proof {
            assert(out@.skip(0) =~= out@);
        }
        out
    }
}

} // verus!
