//! Translation requests: which provider serves them, the addresses and the
//! prompt that are sent, and how every reply or failure becomes a response.
use vstd::prelude::*;
use crate::json::{JsonValue, pointer_path, text_of, str_views};
use crate::session::SessionKind;
use crate::settings::{EnvVars, LocalTranslationSettings};
use crate::text::{
    ascii_lower_seq, contains_seq, occurs_at, concat, concat3, ends_with, ends_with_seq, is_blank, is_blank_seq, join,
    join_seq, owned, push_str, str_eq, string_views, to_ascii_lowercase, trim, trim_end_char,
    trim_end_char_seq, trim_seq, is_ws, lemma_trim_edges, lemma_trim_end_char_prefix, lemma_trim_noop,
    lemma_trim_end_char_take,
};

verus! {

pub const LOCAL_TRANSLATION_ENDPOINT_MISSING: &'static str = "本地翻译 endpoint 未配置";

pub const LOCAL_TRANSLATION_MODEL_UNAVAILABLE: &'static str = "本地翻译模型未配置或未安装";

/// A request to translate one finished caption segment.
#[derive(Debug)]
pub struct LocalTranslationRequest {
    pub request_id: String,
    pub session_kind: SessionKind,
    pub source_text: String,
    pub source_lang: String,
    pub target_lang: String,
    pub context_before: Vec<String>,
}

/// The outcome of a translation request; `status` is `completed` or
/// `failed`.
#[derive(Debug)]
pub struct LocalTranslationResponse {
    pub request_id: String,
    pub translated_text: String,
    pub status: String,
    pub error: Option<String>,
}

/// A failed response for `request_id` carrying `error`.
pub open spec fn is_failure(r: &LocalTranslationResponse, request_id: Seq<char>, error: Seq<char>) -> bool {
    &&& r.request_id@ == request_id
    &&& r.translated_text@.len() == 0
    &&& r.status@ == "failed"@
    &&& r.error is Some && r.error->0@ == error
}

/// A failed response for `request_id` carrying `error`.
pub fn failed_response(request_id: &str, error: String) -> (r: LocalTranslationResponse)
    ensures
        is_failure(&r, request_id@, error@),
{
    LocalTranslationResponse {
        request_id: owned(request_id),
        translated_text: String::new(),
        status: owned("failed"),
        error: Some(error),
    }
}

pub open spec fn base_prompt() -> Seq<char> {
    "You are a professional real-time subtitle translator. Preserve meaning, natural wording, and punctuation. Do not add explanations. The runtime source and target languages in the user message have highest priority."@
}

pub open spec fn style_heading() -> Seq<char> {
    "\n\nUser style preference, unless it conflicts with the runtime language direction:\n"@
}

/// The system prompt: the fixed instructions, followed by the user's style
/// preference where one is given.
pub open spec fn system_prompt(custom: Seq<char>) -> Seq<char> {
    if trim_seq(custom).len() == 0 {
        base_prompt()
    } else {
        base_prompt() + style_heading() + trim_seq(custom)
    }
}

pub fn build_system_prompt(custom_prompt: &str) -> (r: String)
    ensures
        r@ == system_prompt(custom_prompt@),
{
    let base = "You are a professional real-time subtitle translator. Preserve meaning, natural wording, and punctuation. Do not add explanations. The runtime source and target languages in the user message have highest priority.";
    let custom = trim(custom_prompt);
    if custom.as_str().is_empty() {
        owned(base)
    } else {
        concat3(
            base,
            "\n\nUser style preference, unless it conflicts with the runtime language direction:\n",
            custom.as_str(),
        )
    }
}

/// An endpoint with surrounding whitespace and trailing slashes removed.
pub open spec fn endpoint_base(endpoint: Seq<char>) -> Seq<char> {
    trim_end_char_seq(trim_seq(endpoint), '/')
}

/// The endpoint completed with `suffix` unless it already ends with it;
/// nothing where the endpoint is blank.
pub open spec fn url_with_suffix(endpoint: Seq<char>, suffix: Seq<char>) -> Option<Seq<char>> {
    let base = endpoint_base(endpoint);
    if base.len() == 0 {
        None
    } else if ends_with_seq(base, suffix) {
        Some(base)
    } else {
        Some(base + suffix)
    }
}

fn build_url_with_suffix(endpoint: &str, suffix: &str) -> (r: Option<String>)
    ensures
        match url_with_suffix(endpoint@, suffix@) {
            Some(u) => r is Some && r->0@ == u,
            None => r is None,
        },
{
    let trimmed = trim(endpoint);
    let base = trim_end_char(trimmed.as_str(), '/');
    if base.as_str().is_empty() {
        return None;
    }
    if ends_with(base.as_str(), suffix) {
        Some(base)
    } else {
        Some(concat(base.as_str(), suffix))
    }
}

/// The address of a local translation service's `/translate` route.
pub fn build_translate_url(endpoint: &str) -> (r: Option<String>)
    ensures
        match url_with_suffix(endpoint@, "/translate"@) {
            Some(u) => r is Some && r->0@ == u,
            None => r is None,
        },
{
    build_url_with_suffix(endpoint, "/translate")
}

/// The address of an OpenAI-compatible `/chat/completions` route.
pub fn build_dashscope_chat_url(endpoint: &str) -> (r: Option<String>)
    ensures
        match url_with_suffix(endpoint@, "/chat/completions"@) {
            Some(u) => r is Some && r->0@ == u,
            None => r is None,
        },
{
    build_url_with_suffix(endpoint, "/chat/completions")
}

/// The provider names that select the DashScope (Bailian) chat API.
pub open spec fn dashscope_provider(provider: Seq<char>) -> bool {
    let p = ascii_lower_seq(trim_seq(provider));
    p == "dashscope"@ || p == "dashscope_openai"@ || p == "aliyun_bailian"@ || p == "bailian"@
}

pub fn is_dashscope_provider(provider: &str) -> (b: bool)
    ensures
        b == dashscope_provider(provider@),
{
    let trimmed = trim(provider);
    let p = to_ascii_lowercase(trimmed.as_str());
    let s = p.as_str();
    str_eq(s, "dashscope") || str_eq(s, "dashscope_openai") || str_eq(s, "aliyun_bailian")
        || str_eq(s, "bailian")
}

/// The response given when no local translation endpoint is configured.
pub fn config_missing_response(request_id: &str) -> (r: LocalTranslationResponse)
    ensures
        is_failure(&r, request_id@, LOCAL_TRANSLATION_ENDPOINT_MISSING@),
{
    failed_response(request_id, owned(LOCAL_TRANSLATION_ENDPOINT_MISSING))
}

/// The diagnostic prefix of a translation event; any phase other than
/// `PENDING` is a final one.
pub open spec fn translation_prefix_spec(session_kind: SessionKind, pending: bool) -> Seq<char> {
    match session_kind {
        SessionKind::SystemSubtitle => if pending {
            "[SYS][TRANSLATION_PENDING]"@
        } else {
            "[SYS][TRANSLATION_FINAL]"@
        },
        SessionKind::MicInterpretation => if pending {
            "[MIC][TRANSLATION_PENDING]"@
        } else {
            "[MIC][TRANSLATION_FINAL]"@
        },
    }
}

pub fn translation_prefix(session_kind: SessionKind, phase: &str) -> (r: &'static str)
    ensures
        r@ == translation_prefix_spec(session_kind, phase@ == "PENDING"@),
{
    let pending = str_eq(phase, "PENDING");
    match session_kind {
        SessionKind::SystemSubtitle => if pending {
            "[SYS][TRANSLATION_PENDING]"
        } else {
            "[SYS][TRANSLATION_FINAL]"
        },
        SessionKind::MicInterpretation => if pending {
            "[MIC][TRANSLATION_PENDING]"
        } else {
            "[MIC][TRANSLATION_FINAL]"
        },
    }
}

/// Where a translation request goes.
#[derive(Debug)]
pub enum TranslationRoute {
    /// The DashScope chat API, which checks its own configuration.
    Dashscope,
    /// A local service at this `/translate` address.
    Local { url: String },
    /// No local endpoint is configured.
    EndpointMissing,
}

/// The route that the configured provider and endpoint select.
pub fn translation_route(settings: &LocalTranslationSettings) -> (r: TranslationRoute)
    ensures
        dashscope_provider(settings.provider@) ==> r is Dashscope,
        !dashscope_provider(settings.provider@) ==> match url_with_suffix(
            settings.endpoint@,
            "/translate"@,
        ) {
            Some(u) => r is Local && r->url@ == u,
            None => r is EndpointMissing,
        },
{
    if is_dashscope_provider(settings.provider.as_str()) {
        return TranslationRoute::Dashscope;
    }
    match build_translate_url(settings.endpoint.as_str()) {
        Some(url) => TranslationRoute::Local { url },
        None => TranslationRoute::EndpointMissing,
    }
}

/// Why a DashScope request cannot be sent: no address, no key or no model.
pub open spec fn dashscope_config_problem(settings: &LocalTranslationSettings) -> Option<Seq<char>> {
    if url_with_suffix(settings.endpoint@, "/chat/completions"@) is None {
        Some("百炼 API 地址未配置。"@)
    } else if is_blank_seq(settings.api_key@) {
        Some("百炼 API Key 未填写。"@)
    } else if is_blank_seq(settings.model_name@) {
        Some("百炼模型名称未填写。"@)
    } else {
        None
    }
}

/// The chat address to call, or the failed response for a configuration
/// that cannot be used.
pub fn dashscope_precheck(settings: &LocalTranslationSettings, request_id: &str) -> (r: Result<
    String,
    LocalTranslationResponse,
>)
    ensures
        match dashscope_config_problem(settings) {
            Some(m) => r is Err && is_failure(&r->Err_0, request_id@, m),
            None => r is Ok && Some(r->Ok_0@) == url_with_suffix(
                settings.endpoint@,
                "/chat/completions"@,
            ),
        },
{
    let url = match build_dashscope_chat_url(settings.endpoint.as_str()) {
        Some(url) => url,
        None => {
            return Err(failed_response(request_id, owned("百炼 API 地址未配置。")));
        },
    };
    if is_blank(settings.api_key.as_str()) {
        return Err(failed_response(request_id, owned("百炼 API Key 未填写。")));
    }
    if is_blank(settings.model_name.as_str()) {
        return Err(failed_response(request_id, owned("百炼模型名称未填写。")));
    }
    Ok(url)
}

/// The timeout of a DashScope call: the configured one, at least 1 ms.
pub fn dashscope_timeout_ms(settings: &LocalTranslationSettings) -> (t: u64)
    ensures
        t == if settings.timeout_ms >= 1 {
            settings.timeout_ms
        } else {
            1
        },
{
    if settings.timeout_ms >= 1 {
        settings.timeout_ms
    } else {
        1
    }
}

/// The earlier sentences given as context, as the prompt shows them.
pub open spec fn context_block(context: Seq<Seq<char>>) -> Seq<char> {
    if context.len() == 0 {
        Seq::empty()
    } else {
        "Context before this sentence:\n"@ + join_seq(context, "\n"@) + "\n\n"@
    }
}

/// The single user message of a DashScope chat request.
pub open spec fn dashscope_user_content_spec(
    prompt: Seq<char>,
    context: Seq<Seq<char>>,
    source_lang: Seq<char>,
    target_lang: Seq<char>,
    source_text: Seq<char>,
) -> Seq<char> {
    system_prompt(prompt) + "\n\n"@ + context_block(context) + "Hard requirement: translate"@ + " from "@
        + source_lang + " to "@ + target_lang + ". The target language is "@ + target_lang
        + ", even if the custom prompt mentions another language. Return only the translated text.\nText:\n"@
        + source_text
}

pub fn dashscope_user_content(prompt: &str, request: &LocalTranslationRequest) -> (r: String)
    ensures
        r@ == dashscope_user_content_spec(
            prompt@,
            string_views(request.context_before@),
            request.source_lang@,
            request.target_lang@,
            request.source_text@,
        ),
{
    let mut r = build_system_prompt(prompt);
    push_str(&mut r, "\n\n");
    if request.context_before.len() != 0 {
        push_str(&mut r, "Context before this sentence:\n");
        let joined = join(&request.context_before, "\n");
        push_str(&mut r, joined.as_str());
        push_str(&mut r, "\n\n");
    }
    push_str(&mut r, "Hard requirement: translate");
    push_str(&mut r, " from ");
    push_str(&mut r, request.source_lang.as_str());
    push_str(&mut r, " to ");
    push_str(&mut r, request.target_lang.as_str());
    push_str(&mut r, ". The target language is ");
    push_str(&mut r, request.target_lang.as_str());
    push_str(
        &mut r,
        ", even if the custom prompt mentions another language. Return only the translated text.\nText:\n",
    );
    push_str(&mut r, request.source_text.as_str());
    r
}

/// The translation that a DashScope reply holds at
/// `/choices/0/message/content`, trimmed.
pub open spec fn dashscope_content(reply: JsonValue) -> Seq<char> {
    match text_of(
        pointer_path(reply, seq!["choices"@, "0"@, "message"@, "content"@]),
    ) {
        Some(t) => trim_seq(t),
        None => Seq::empty(),
    }
}

/// The response for a DashScope reply that parsed as JSON: completed with
/// its content, or failed where the content is missing or blank.
pub fn dashscope_reply_response(reply: &JsonValue, request_id: &str) -> (r:
    LocalTranslationResponse)
    ensures
        dashscope_content(*reply).len() == 0 ==> is_failure(
            &r,
            request_id@,
            "百炼翻译返回内容为空。"@,
        ),
        dashscope_content(*reply).len() > 0 ==> r.request_id@ == request_id@ && r.translated_text@
            == dashscope_content(*reply) && r.status@ == "completed"@ && r.error is None,
{
    let path = vec!["choices", "0", "message", "content"];
    proof {
        reveal_strlit("choices");
        reveal_strlit("0");
        reveal_strlit("message");
        reveal_strlit("content");
        assert(str_views(path@) =~= seq!["choices"@, "0"@, "message"@, "content"@]);
    }
    let text = match reply.pointer(&path) {
        Some(v) => match v.as_str() {
            Some(s) => trim(s),
            None => String::new(),
        },
        None => String::new(),
    };
    if text.as_str().is_empty() {
        return failed_response(request_id, owned("百炼翻译返回内容为空。"));
    }
    LocalTranslationResponse {
        request_id: owned(request_id),
        translated_text: text,
        status: owned("completed"),
        error: None,
    }
}

/// The response for a DashScope reply body that is not JSON.
pub fn dashscope_invalid_reply(error: &str, request_id: &str) -> (r: LocalTranslationResponse)
    ensures
        is_failure(&r, request_id@, "百炼翻译返回格式无效: "@ + error@),
{
    failed_response(request_id, concat("百炼翻译返回格式无效: ", error))
}

/// The response for a DashScope reply with an unsuccessful HTTP status.
pub fn dashscope_http_failure(status: &str, body: &str, request_id: &str) -> (r:
    LocalTranslationResponse)
    ensures
        is_failure(&r, request_id@, "百炼翻译失败: HTTP "@ + status@ + ": "@ + trim_seq(body@)),
{
    let mut m = concat3("百炼翻译失败: HTTP ", status, ": ");
    let b = trim(body);
    push_str(&mut m, b.as_str());
    failed_response(request_id, m)
}

/// The response for a DashScope request that could not be sent.
pub fn dashscope_connect_failure(
    error_chain: &str,
    endpoint: &str,
    proxy: &str,
    request_id: &str,
) -> (r: LocalTranslationResponse)
    ensures
        is_failure(
            &r,
            request_id@,
            "百炼翻译连接失败: "@ + error_chain@ + "; endpoint="@ + trim_seq(endpoint@) + "; proxy="@
                + proxy@,
        ),
{
    let mut m = concat("百炼翻译连接失败: ", error_chain);
    push_str(&mut m, "; endpoint=");
    let e = trim(endpoint);
    push_str(&mut m, e.as_str());
    push_str(&mut m, "; proxy=");
    push_str(&mut m, proxy);
    failed_response(request_id, m)
}

/// The response for an HTTP client that could not be built, for DashScope
/// (`dashscope`) or for the local service.
pub fn client_init_failure(dashscope: bool, error: &str, request_id: &str) -> (r:
    LocalTranslationResponse)
    ensures
        is_failure(
            &r,
            request_id@,
            (if dashscope {
                "百炼 HTTP client 初始化失败: "@
            } else {
                "本地翻译 HTTP client 初始化失败: "@
            }) + error@,
        ),
{
    let m = if dashscope {
        concat("百炼 HTTP client 初始化失败: ", error)
    } else {
        concat("本地翻译 HTTP client 初始化失败: ", error)
    };
    failed_response(request_id, m)
}

/// The response for a local request that could not be sent.
pub fn local_connect_failure(error: &str, request_id: &str) -> (r: LocalTranslationResponse)
    ensures
        is_failure(&r, request_id@, "本地翻译服务连接失败: "@ + error@),
{
    failed_response(request_id, concat("本地翻译服务连接失败: ", error))
}

/// The message for a local reply with an unsuccessful HTTP status: 404 and
/// 503 mean that the model is not available; the body follows where it is
/// not blank.
pub open spec fn local_http_error_message(code: u16, status: Seq<char>, body: Seq<char>) -> Seq<char> {
    let message = if code == 404 || code == 503 {
        LOCAL_TRANSLATION_MODEL_UNAVAILABLE@
    } else {
        "本地翻译服务连接失败: HTTP "@ + status
    };
    if trim_seq(body).len() == 0 {
        message
    } else {
        message + ": "@ + trim_seq(body)
    }
}

pub fn http_error_response(code: u16, status: &str, body: &str, request_id: &str) -> (r:
    LocalTranslationResponse)
    ensures
        is_failure(&r, request_id@, local_http_error_message(code, status@, body@)),
{
    let message = if code == 404 || code == 503 {
        owned(LOCAL_TRANSLATION_MODEL_UNAVAILABLE)
    } else {
        concat("本地翻译服务连接失败: HTTP ", status)
    };
    let b = trim(body);
    let error = if b.as_str().is_empty() {
        message
    } else {
        concat3(message.as_str(), ": ", b.as_str())
    };
    failed_response(request_id, error)
}

/// The response for a local reply body: the reply itself when it answers
/// this request with a known status (an unknown status turns it into a
/// failure without text), a failure when it answers another request or does
/// not parse (`parsed` holds the parse error).
pub fn parse_translation_response(
    parsed: Result<LocalTranslationResponse, String>,
    request_id: &str,
) -> (r: LocalTranslationResponse)
    ensures
        match parsed {
            Ok(reply) => if reply.request_id@ == request_id@ {
                if reply.status@ == "completed"@ || reply.status@ == "failed"@ {
                    r == reply
                } else {
                    is_failure(&r, request_id@, "本地翻译服务返回 status 无效"@)
                }
            } else {
                is_failure(
                    &r,
                    request_id@,
                    "本地翻译服务 requestId 不匹配: expected "@ + request_id@ + ", got "@
                        + reply.request_id@,
                )
            },
            Err(e) => is_failure(&r, request_id@, "本地翻译服务返回格式无效: "@ + e@),
        },
{
    match parsed {
        Ok(reply) => {
            if str_eq(reply.request_id.as_str(), request_id) {
                if str_eq(reply.status.as_str(), "completed") || str_eq(
                    reply.status.as_str(),
                    "failed",
                ) {
                    reply
                } else {
                    failed_response(request_id, owned("本地翻译服务返回 status 无效"))
                }
            } else {
                let mut m = concat3(
                    "本地翻译服务 requestId 不匹配: expected ",
                    request_id,
                    ", got ",
                );
                push_str(&mut m, reply.request_id.as_str());
                failed_response(request_id, m)
            }
        },
        Err(e) => failed_response(request_id, concat("本地翻译服务返回格式无效: ", e.as_str())),
    }
}

/// The proxy to use: the configured one (trimmed) where not blank, else the
/// first of `HTTPS_PROXY`, `HTTP_PROXY`, `ALL_PROXY` with a non-blank value.
pub open spec fn resolved_proxy(proxy_url: Seq<char>, env: &EnvVars) -> Option<Seq<char>> {
    if trim_seq(proxy_url).len() > 0 {
        Some(trim_seq(proxy_url))
    } else {
        match env_proxy(env) {
            Some((_, v)) => Some(v),
            None => None,
        }
    }
}

/// The first proxy variable with a non-blank value, with that value.
pub open spec fn env_proxy(env: &EnvVars) -> Option<(Seq<char>, Seq<char>)> {
    let pick = |name: Seq<char>|
        match env.lookup(name) {
            Some(v) => if trim_seq(v).len() > 0 {
                Some((name, v))
            } else {
                None
            },
            None => None,
        };
    match pick("HTTPS_PROXY"@) {
        Some(p) => Some(p),
        None => match pick("HTTP_PROXY"@) {
            Some(p) => Some(p),
            None => pick("ALL_PROXY"@),
        },
    }
}

fn env_proxy_var(env: &EnvVars) -> (r: Option<(&'static str, String)>)
    ensures
        match (env_proxy(env), r) {
            (Some((n, v)), Some((rn, rv))) => rn@ == n && rv@ == v,
            (None, None) => true,
            _ => false,
        },
{
    if let Some(v) = env.var("HTTPS_PROXY") {
        if !is_blank(v.as_str()) {
            return Some(("HTTPS_PROXY", v));
        }
    }
    if let Some(v) = env.var("HTTP_PROXY") {
        if !is_blank(v.as_str()) {
            return Some(("HTTP_PROXY", v));
        }
    }
    if let Some(v) = env.var("ALL_PROXY") {
        if !is_blank(v.as_str()) {
            return Some(("ALL_PROXY", v));
        }
    }
    None
}

pub fn resolved_proxy_url(proxy_url: &str, env: &EnvVars) -> (r: Option<String>)
    ensures
        match resolved_proxy(proxy_url@, env) {
            Some(p) => r is Some && r->0@ == p,
            None => r is None,
        },
{
    let configured = trim(proxy_url);
    if !configured.as_str().is_empty() {
        return Some(configured);
    }
    match env_proxy_var(env) {
        Some((_, v)) => Some(v),
        None => None,
    }
}

/// How the proxy choice is reported: `configured(<url>)`, `env(<name>)` or
/// `none`.
pub open spec fn proxy_diagnostic_spec(proxy_url: Seq<char>, env: &EnvVars) -> Seq<char> {
    if trim_seq(proxy_url).len() > 0 {
        "configured("@ + trim_seq(proxy_url) + ")"@
    } else {
        match env_proxy(env) {
            Some((n, _)) => "env("@ + n + ")"@,
            None => "none"@,
        }
    }
}

pub fn proxy_diagnostic(proxy_url: &str, env: &EnvVars) -> (r: String)
    ensures
        r@ == proxy_diagnostic_spec(proxy_url@, env),
{
    let configured = trim(proxy_url);
    if !configured.as_str().is_empty() {
        return concat3("configured(", configured.as_str(), ")");
    }
    match env_proxy_var(env) {
        Some((n, _)) => concat3("env(", n, ")"),
        None => owned("none"),
    }
}

/// An error followed by its sources, as one line.
pub fn error_chain(parts: &Vec<String>) -> (r: String)
    ensures
        r@ == join_seq(string_views(parts@), " | caused by: "@),
{
    join(parts, " | caused by: ")
}

/// An address built once is kept as it is when built again: completing an
/// endpoint with a suffix that ends in neither whitespace nor `/` gives an
/// address that is already complete.
pub proof fn lemma_url_with_suffix_stable(endpoint: Seq<char>, suffix: Seq<char>)
    requires
        suffix.len() > 0,
        !is_ws(suffix.last()),
        suffix.last() != '/',
    ensures
        url_with_suffix(endpoint, suffix) matches Some(u) ==> url_with_suffix(u, suffix) == Some(u),
{
    let t = trim_seq(endpoint);
    let base = endpoint_base(endpoint);
    if let Some(u) = url_with_suffix(endpoint, suffix) {
        lemma_trim_edges(endpoint);
        lemma_trim_end_char_prefix(t, '/');
        assert(base.len() > 0);
        assert(base[0] == t[0]);
        let last = suffix.last();
        if ends_with_seq(base, suffix) {
            assert(u == base);
            assert(base.last() == base.subrange(base.len() - suffix.len(), base.len() as int)[suffix.len() - 1]);
        } else {
            assert(u == base + suffix);
            assert((base + suffix).subrange(base.len() as int, (base + suffix).len() as int) =~= suffix);
        }
        assert(u.last() == last);
        assert(u[0] == base[0]);
        lemma_trim_noop(u);
        lemma_trim_end_char_take(u, '/', u.len() as int);
        assert(u.subrange(0, u.len() as int) =~= u);
        assert(endpoint_base(u) == u);
        assert(ends_with_seq(u, suffix));
    }
}

/// The addresses of the translate and chat routes are stable in that way.
pub proof fn lemma_route_urls_stable(endpoint: Seq<char>)
    ensures
        url_with_suffix(endpoint, "/translate"@) matches Some(u) ==> url_with_suffix(u, "/translate"@)
            == Some(u),
        url_with_suffix(endpoint, "/chat/completions"@) matches Some(u) ==> url_with_suffix(
            u,
            "/chat/completions"@,
        ) == Some(u),
{
    reveal_strlit("/translate");
    reveal_strlit("/chat/completions");
    lemma_url_with_suffix_stable(endpoint, "/translate"@);
    lemma_url_with_suffix_stable(endpoint, "/chat/completions"@);
}

/// Translation stays local unless it is configured otherwise: the default
/// provider, used where `LOCAL_TRANSLATION_PROVIDER` is unset, never selects
/// the DashScope API.
pub proof fn lemma_default_provider_is_local(env: &EnvVars)
    requires
        env.lookup("LOCAL_TRANSLATION_PROVIDER"@) is None,
    ensures
        !dashscope_provider(env.value_or("LOCAL_TRANSLATION_PROVIDER"@, "local"@)),
{
    reveal_strlit("local");
    reveal_strlit("dashscope");
    reveal_strlit("dashscope_openai");
    reveal_strlit("aliyun_bailian");
    reveal_strlit("bailian");
    let p = ascii_lower_seq(trim_seq("local"@));
    crate::text::lemma_trim_noop("local"@);
    assert(p.len() == 5);
    assert(p[0] == 'l');
}

/// The request text states the direction of the request as given: it holds
/// "translate", " from ", the source language, " to ", the target language,
/// then ". The target language is " and the target language again; and it
/// ends with "Text:" on a line of its own followed by the source text.
pub proof fn lemma_user_content_direction(
    prompt: Seq<char>,
    context: Seq<Seq<char>>,
    source_lang: Seq<char>,
    target_lang: Seq<char>,
    source_text: Seq<char>,
)
    ensures
        contains_seq(
            dashscope_user_content_spec(prompt, context, source_lang, target_lang, source_text),
            "translate"@ + " from "@ + source_lang + " to "@ + target_lang + ". The target language is "@
                + target_lang,
        ),
        ends_with_seq(
            dashscope_user_content_spec(prompt, context, source_lang, target_lang, source_text),
            "\nText:\n"@ + source_text,
        ),
{
    reveal_strlit("Hard requirement: translate");
    reveal_strlit("Hard requirement: ");
    reveal_strlit("translate");
    reveal_strlit(", even if the custom prompt mentions another language. Return only the translated text.\nText:\n");
    reveal_strlit(", even if the custom prompt mentions another language. Return only the translated text.");
    reveal_strlit("\nText:\n");
    let full = dashscope_user_content_spec(prompt, context, source_lang, target_lang, source_text);
    let pre = system_prompt(prompt) + "\n\n"@ + context_block(context) + "Hard requirement: "@;
    let needle = "translate"@ + " from "@ + source_lang + " to "@ + target_lang
        + ". The target language is "@ + target_lang;
    let mid = ", even if the custom prompt mentions another language. Return only the translated text."@;
    let tail = "\nText:\n"@ + source_text;
    assert("Hard requirement: translate"@ =~= "Hard requirement: "@ + "translate"@);
    assert(", even if the custom prompt mentions another language. Return only the translated text.\nText:\n"@
        =~= mid + "\nText:\n"@);
    assert(full =~= pre + needle + (mid + tail));
    assert((pre + needle + (mid + tail)).subrange(pre.len() as int, (pre.len() + needle.len()) as int)
        =~= needle);
    assert(occurs_at(full, needle, pre.len() as int));
    assert(full =~= (pre + needle + mid) + tail);
    assert(full.subrange(full.len() - tail.len(), full.len() as int) =~= tail);
}

} // verus!
