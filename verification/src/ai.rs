//! The screenshot-analysis side: model configuration, the extracted tasks, and how
//! they are read from the model's JSON answer.
use vstd::prelude::*;
use crate::json::{JsonValue, views};
use crate::text::{owned, concat2, concat3, parse_u32, parse_u64, u64_text, decimal, parse_unsigned, replace_text, replace_all};
use crate::outside::{base64_encode, base64_encoded, base64_encodable, base64_decode, is_base64_text};
use crate::models::{Client, Project, CreateTaskInput};
use crate::text::{str_eq, truncate_chars, take_chars};
use vstd::utf8::{encode_utf8, is_char_boundary};

verus! {

/// The bit pattern of the `f64` value 0.5, the confidence of a task that states none.
pub const DEFAULT_CONFIDENCE_BITS: u64 = 0x3FE0_0000_0000_0000u64;

/// Context handed to the model with a screenshot.
#[derive(Debug, Clone)]
pub struct AnalysisContext {
    pub current_date: String,
    pub current_time: String,
    pub active_clients: Vec<String>,
    pub active_projects: Vec<String>,
}

/// A task the model found in a screenshot. `confidence_bits` is the bit pattern of the
/// `f64` confidence.
#[derive(Debug, Clone, PartialEq)]
pub struct ExtractedTask {
    pub title: String,
    pub description: Option<String>,
    pub client_name: Option<String>,
    pub deadline: Option<String>,
    pub priority: Option<String>,
    pub tags: Option<Vec<String>>,
    pub confidence_bits: u64,
    pub reasoning: Option<String>,
}

/// Token accounting of a model answer.
#[derive(Debug, Clone, Copy, PartialEq, Eq)]
pub struct Usage {
    pub prompt_tokens: u32,
    pub completion_tokens: u32,
    pub total_tokens: u32,
}

/// The view of an optional string.
pub open spec fn opt_view(o: Option<String>) -> Option<Seq<char>> {
    match o {
        Some(s) => Some(s@),
        None => None,
    }
}

/// The text of member `key`, when it is a JSON string.
pub open spec fn str_member(v: JsonValue, key: Seq<char>) -> Option<Seq<char>> {
    match v.get_spec(key) {
        Some(m) => m.str_spec(),
        None => None,
    }
}

/// The text of member `key`, when it is a non-empty JSON string.
pub open spec fn nonempty_str_member(v: JsonValue, key: Seq<char>) -> Option<Seq<char>> {
    match str_member(v, key) {
        Some(s) => if s.len() > 0 { Some(s) } else { None },
        None => None,
    }
}

/// The strings among JSON values, in order.
pub open spec fn string_elements(a: Seq<JsonValue>) -> Seq<Seq<char>>
    decreases a.len(),
{
    if a.len() == 0 {
        Seq::empty()
    } else {
        match a.last().str_spec() {
            Some(s) => string_elements(a.drop_last()).push(s),
            None => string_elements(a.drop_last()),
        }
    }
}

/// The strings of member `key`, when it is a JSON array.
pub open spec fn strings_member(v: JsonValue, key: Seq<char>) -> Option<Seq<Seq<char>>> {
    match v.get_spec(key) {
        Some(JsonValue::Array(a)) => Some(string_elements(a@)),
        _ => None,
    }
}

/// The `f64` bits of member `key` when it is a number, else those of 0.5.
pub open spec fn confidence_member(v: JsonValue, key: Seq<char>) -> u64 {
    match v.get_spec(key) {
        Some(JsonValue::Number(n)) => n.f64_bits,
        _ => DEFAULT_CONFIDENCE_BITS,
    }
}

/// The title a task value states ("" when it states none).
pub open spec fn title_of(v: JsonValue) -> Seq<char> {
    match str_member(v, "title"@) {
        Some(s) => s,
        None => Seq::empty(),
    }
}

impl ExtractedTask {
    pub open spec fn describes(self, v: JsonValue) -> bool {
        &&& self.title@ == title_of(v)
        &&& opt_view(self.description) == str_member(v, "description"@)
        &&& opt_view(self.client_name) == nonempty_str_member(v, "client_name"@)
        &&& opt_view(self.deadline) == nonempty_str_member(v, "deadline"@)
        &&& opt_view(self.priority) == str_member(v, "priority"@)
        &&& match self.tags {
            Some(t) => strings_member(v, "tags"@) == Some(views(t@)),
            None => strings_member(v, "tags"@) is None,
        }
        &&& self.confidence_bits == confidence_member(v, "confidence"@)
        &&& opt_view(self.reasoning) == str_member(v, "reasoning"@)
    }
}

/// The task values that state a non-empty title, in order.
pub open spec fn titled(a: Seq<JsonValue>) -> Seq<JsonValue>
    decreases a.len(),
{
    if a.len() == 0 {
        Seq::empty()
    } else if title_of(a.last()).len() > 0 {
        titled(a.drop_last()).push(a.last())
    } else {
        titled(a.drop_last())
    }
}

/// The task values of an analysis answer: the elements of its `tasks` array.
pub open spec fn task_values(parsed: JsonValue) -> Seq<JsonValue> {
    match parsed.get_spec("tasks"@) {
        Some(JsonValue::Array(a)) => a@,
        _ => Seq::empty(),
    }
}

/// A copy of the string member `key`, when it is a JSON string.
pub fn get_str(v: &JsonValue, key: &str) -> (res: Option<String>)
    ensures
        opt_view(res) == str_member(*v, key@),
{
    match v.get(key) {
        Some(m) => match m.as_str() {
            Some(s) => Some(s.clone()),
            None => None,
        },
        None => None,
    }
}

/// A copy of the string member `key`, when it is a non-empty JSON string.
pub fn get_nonempty_str(v: &JsonValue, key: &str) -> (res: Option<String>)
    ensures
        opt_view(res) == nonempty_str_member(*v, key@),
{
    match get_str(v, key) {
        Some(s) => {
            if s.as_str().is_empty() {
                None
            } else {
                Some(s)
            }
        },
        None => None,
    }
}

/// The strings among JSON values.
pub fn strings_in(a: &Vec<JsonValue>) -> (res: Vec<String>)
    ensures
        views(res@) == string_elements(a@),
{
    let mut res: Vec<String> = Vec::new();
    let mut i: usize = 0;
    while i < a.len()
        invariant
            i <= a.len(),
            views(res@) == string_elements(a@.take(i as int)),
        decreases a.len() - i,
    {
        assert(a@.take(i + 1).drop_last() =~= a@.take(i as int));
        assert(a@.take(i + 1).last() == a@[i as int]);
        match a[i].as_str() {
            Some(s) => {
                let ghost before = res@;
                res.push(s.clone());
                assert(views(res@) =~= views(before).push(s@));
            },
            None => {},
        }
        i = i + 1;
    }
    assert(a@.take(a.len() as int) =~= a@);
    res
}

/// The extracted task a titled JSON task value describes.
fn extract_task(v: &JsonValue) -> (t: ExtractedTask)
    ensures
        t.describes(*v),
{
    let title = match get_str(v, "title") {
        Some(s) => s,
        None => String::new(),
    };
    let tags = match v.get("tags") {
        Some(m) => match m.as_array() {
            Some(arr) => Some(strings_in(arr)),
            None => None,
        },
        None => None,
    };
    let confidence_bits = match v.get("confidence") {
        Some(m) => match m.as_f64_bits() {
            Some(b) => b,
            None => DEFAULT_CONFIDENCE_BITS,
        },
        None => DEFAULT_CONFIDENCE_BITS,
    };
    ExtractedTask {
        title,
        description: get_str(v, "description"),
        client_name: get_nonempty_str(v, "client_name"),
        deadline: get_nonempty_str(v, "deadline"),
        priority: get_str(v, "priority"),
        tags,
        confidence_bits,
        reasoning: get_str(v, "reasoning"),
    }
}

/// The tasks of an analysis answer: one for each element of its `tasks` array that
/// states a non-empty title, in order; none when there is no such array.
pub fn parse_extracted_tasks(parsed: &JsonValue) -> (tasks: Vec<ExtractedTask>)
    ensures
        tasks.len() == titled(task_values(*parsed)).len(),
        forall|i: int|
            0 <= i < tasks.len() ==> #[trigger] tasks@[i].describes(titled(task_values(*parsed))[i]),
        forall|i: int| 0 <= i < tasks.len() ==> #[trigger] tasks@[i].title@.len() > 0,
{
    let arr = match parsed.get("tasks") {
        Some(m) => match m.as_array() {
            Some(a) => a,
            None => {
                return Vec::new();
            },
        },
        None => {
            return Vec::new();
        },
    };
    let ghost all = task_values(*parsed);
    assert(all == arr@);
    let mut tasks: Vec<ExtractedTask> = Vec::new();
    let mut i: usize = 0;
    while i < arr.len()
        invariant
            i <= arr.len(),
            all == arr@,
            tasks.len() == titled(all.take(i as int)).len(),
            forall|j: int|
                0 <= j < tasks.len() ==> #[trigger] tasks@[j].describes(titled(all.take(i as int))[j]),
            forall|j: int| 0 <= j < tasks.len() ==> #[trigger] tasks@[j].title@.len() > 0,
        decreases arr.len() - i,
    {
        assert(all.take(i + 1).drop_last() =~= all.take(i as int));
        assert(all.take(i + 1).last() == all[i as int]);
        let t = extract_task(&arr[i]);
        if !t.title.as_str().is_empty() {
            tasks.push(t);
        }
        i = i + 1;
    }
    assert(all.take(arr.len() as int) =~= all);
    tasks
}

/// Settings of the vision model.
#[derive(Debug, Clone)]
pub struct AIModelConfig {
    pub api_key: String,
    pub model_name: String,
    pub api_endpoint: String,
    pub max_tokens: u32,
    pub timeout_secs: u64,
}

/// What a model configuration holds.
pub struct AIModelConfigView {
    pub api_key: Seq<char>,
    pub model_name: Seq<char>,
    pub api_endpoint: Seq<char>,
    pub max_tokens: u32,
    pub timeout_secs: u64,
}

impl View for AIModelConfig {
    type V = AIModelConfigView;

    open spec fn view(&self) -> AIModelConfigView {
        AIModelConfigView {
            api_key: self.api_key@,
            model_name: self.model_name@,
            api_endpoint: self.api_endpoint@,
            max_tokens: self.max_tokens,
            timeout_secs: self.timeout_secs,
        }
    }
}

/// The model used when none is configured.
pub open spec fn default_model_name() -> Seq<char> {
    "qwen2.5-vl-plus"@
}

/// The endpoint used when none is configured.
pub open spec fn default_api_endpoint() -> Seq<char> {
    "https://dashscope.aliyuncs.com/compatible-mode/v1/chat/completions"@
}

/// The configuration used when nothing is configured.
pub open spec fn default_ai_config() -> AIModelConfigView {
    AIModelConfigView {
        api_key: Seq::empty(),
        model_name: default_model_name(),
        api_endpoint: default_api_endpoint(),
        max_tokens: 4096,
        timeout_secs: 15,
    }
}

impl Default for AIModelConfig {
    fn default() -> (c: Self)
        ensures
            c@ == default_ai_config(),
    {
        AIModelConfig {
            api_key: String::new(),
            model_name: owned("qwen2.5-vl-plus"),
            api_endpoint: owned("https://dashscope.aliyuncs.com/compatible-mode/v1/chat/completions"),
            max_tokens: 4096,
            timeout_secs: 15,
        }
    }
}

/// The configuration given by the stored settings `ai_api_key`, `ai_model_name`,
/// `ai_api_endpoint`, `ai_max_tokens`, `ai_timeout_secs` (absent ones keep their defaults,
/// numbers that do not parse too), where `env_key` is the key of the environment that
/// stands in for an empty stored key.
pub open spec fn ai_config_from_values(
    api_key: Option<Seq<char>>,
    env_key: Option<Seq<char>>,
    model_name: Option<Seq<char>>,
    api_endpoint: Option<Seq<char>>,
    max_tokens: Option<Seq<char>>,
    timeout_secs: Option<Seq<char>>,
) -> AIModelConfigView {
    let d = default_ai_config();
    let stored_key = match api_key {
        Some(k) => k,
        None => d.api_key,
    };
    AIModelConfigView {
        api_key: if stored_key.len() == 0 && env_key is Some {
            env_key->0
        } else {
            stored_key
        },
        model_name: match model_name {
            Some(m) => m,
            None => d.model_name,
        },
        api_endpoint: match api_endpoint {
            Some(e) => e,
            None => d.api_endpoint,
        },
        max_tokens: match max_tokens {
            Some(t) => match parse_unsigned(t, u32::MAX as nat) {
                Some(v) => v as u32,
                None => d.max_tokens,
            },
            None => d.max_tokens,
        },
        timeout_secs: match timeout_secs {
            Some(t) => match parse_unsigned(t, u64::MAX as nat) {
                Some(v) => v as u64,
                None => d.timeout_secs,
            },
            None => d.timeout_secs,
        },
    }
}

/// The model configuration from the stored settings and, for an empty stored key, the
/// key of the environment.
pub fn ai_config_from_settings(
    api_key: Option<String>,
    env_key: Option<String>,
    model_name: Option<String>,
    api_endpoint: Option<String>,
    max_tokens: Option<String>,
    timeout_secs: Option<String>,
) -> (c: AIModelConfig)
    ensures
        c@ == ai_config_from_values(
            opt_view(api_key),
            opt_view(env_key),
            opt_view(model_name),
            opt_view(api_endpoint),
            opt_view(max_tokens),
            opt_view(timeout_secs),
        ),
{
    let mut config = AIModelConfig::default();
    if let Some(key) = api_key {
        config.api_key = key;
    }
    if config.api_key.as_str().is_empty() {
        if let Some(k) = env_key {
            config.api_key = k;
        }
    }
    if let Some(name) = model_name {
        config.model_name = name;
    }
    if let Some(endpoint) = api_endpoint {
        config.api_endpoint = endpoint;
    }
    if let Some(tokens) = max_tokens {
        if let Some(t) = parse_u32(tokens.as_str()) {
            config.max_tokens = t;
        }
    }
    if let Some(t) = timeout_secs {
        if let Some(secs) = parse_u64(t.as_str()) {
            config.timeout_secs = secs;
        }
    }
    config
}

/// The views of a list of setting writes.
pub open spec fn pair_views(v: Seq<(String, String)>) -> Seq<(Seq<char>, Seq<char>)> {
    v.map_values(|p: (String, String)| (p.0@, p.1@))
}

/// The settings under which a model configuration is stored, in the order they are written.
pub open spec fn ai_config_pairs(c: AIModelConfigView) -> Seq<(Seq<char>, Seq<char>)> {
    seq![
        ("ai_api_key"@, c.api_key),
        ("ai_model_name"@, c.model_name),
        ("ai_api_endpoint"@, c.api_endpoint),
        ("ai_max_tokens"@, decimal(c.max_tokens as nat)),
        ("ai_timeout_secs"@, decimal(c.timeout_secs as nat)),
    ]
}

/// The settings writes that store a model configuration.
pub fn ai_config_settings(config: &AIModelConfig) -> (pairs: Vec<(String, String)>)
    ensures
        pair_views(pairs@) == ai_config_pairs(config@),
{
    let mut pairs: Vec<(String, String)> = Vec::new();
    pairs.push((owned("ai_api_key"), config.api_key.clone()));
    pairs.push((owned("ai_model_name"), config.model_name.clone()));
    pairs.push((owned("ai_api_endpoint"), config.api_endpoint.clone()));
    pairs.push((owned("ai_max_tokens"), u64_text(config.max_tokens as u64)));
    pairs.push((owned("ai_timeout_secs"), u64_text(config.timeout_secs)));
    assert(pair_views(pairs@) =~= ai_config_pairs(config@));
    pairs
}

/// Storing a model configuration and reading it back gives the configuration, when its
/// key is not empty (an empty key gives way to the key of the environment).
pub proof fn lemma_ai_config_roundtrip(c: AIModelConfigView, env_key: Option<Seq<char>>)
    requires
        c.api_key.len() > 0 || env_key is None,
    ensures
        ({
            let p = ai_config_pairs(c);
            ai_config_from_values(Some(p[0].1), env_key, Some(p[1].1), Some(p[2].1), Some(p[3].1), Some(p[4].1)) == c
        }),
{
    crate::text::lemma_parse_decimal(c.max_tokens as nat, u32::MAX as nat);
    crate::text::lemma_parse_decimal(c.timeout_secs as nat, u64::MAX as nat);
}

/// The system prompt; `{current_date}`, `{active_clients}` and `{active_projects}` are filled in.
pub const SYSTEM_PROMPT: &'static str = r#"你是一个专业的任务管理助手，负责从截屏图片中提取任务信息。请遵循以下规则：

## 任务提取规则
1. 从截屏中识别出所有待办事项、任务、待处理的工作项
2. 每个任务需要提取：标题（必填）、描述（可选）、截止日期（可选）、优先级（可选）
3. 如果截屏中没有明确的任务，返回空的任务列表

## 时间提取规则
1. 识别截屏中的日期和时间信息
2. 将相对时间转换为绝对日期（基于当前日期：{current_date}）
3. 日期格式统一为 YYYY-MM-DD
4. 如果提到"明天"、"下周一"等，请计算具体日期
5. 如果提到具体时间如"下午3点"，请包含在截止日期中

## 优先级推断规则
1. urgent: 标记为紧急、重要且紧急、ASAP、立即处理
2. high: 标记为重要、高优先级、今天必须完成
3. medium: 标记为普通优先级、本周内完成
4. low: 标记为低优先级、有空再做、不急
5. none: 无法判断优先级

## 场景类型识别
- "work": 工作相关（邮件、文档、项目管理工具）
- "chat": 聊天记录（微信、钉钉、Slack 等）
- "browser": 浏览器页面
- "code": 代码/开发相关
- "other": 其他场景

## 活跃客户列表
{active_clients}

## 活跃项目列表
{active_projects}

## 输出格式
请严格按以下 JSON 格式输出，不要包含其他文字：
{
  "tasks": [
    {
      "title": "任务标题",
      "description": "任务详细描述（可选）",
      "client_name": "关联客户名称（可选，需从活跃客户列表匹配）",
      "deadline": "YYYY-MM-DD 或 YYYY-MM-DD HH:MM（可选）",
      "priority": "none|low|medium|high|urgent",
      "tags": ["标签1", "标签2"],
      "confidence": 0.0-1.0,
      "reasoning": "提取理由"
    }
  ],
  "ocr_text": "截屏中识别到的所有文字内容",
  "scene_type": "work|chat|browser|code|other"
}"#;

/// The user prompt; `{current_date}` and `{current_time}` are filled in.
pub const USER_PROMPT_TEMPLATE: &'static str = r#"请分析这张截屏，提取其中的任务信息。

当前时间：{current_date} {current_time}

请识别截屏中的所有待办事项和任务，并按 JSON 格式返回。"#;

/// A chat message: a role and a JSON content.
#[derive(Debug)]
pub struct ChatMessage {
    pub role: String,
    pub content: JsonValue,
}

/// The texts joined with `sep` between neighbours.
pub open spec fn join_texts(items: Seq<Seq<char>>, sep: Seq<char>) -> Seq<char>
    decreases items.len(),
{
    if items.len() == 0 {
        Seq::empty()
    } else if items.len() == 1 {
        items[0]
    } else {
        join_texts(items.drop_last(), sep) + sep + items.last()
    }
}

/// The strings joined with `sep` between neighbours (std's `join`).
pub fn join_strings(items: &Vec<String>, sep: &str) -> (res: String)
    ensures
        res@ == join_texts(views(items@), sep@),
{
    let mut res = String::new();
    let mut i: usize = 0;
    while i < items.len()
        invariant
            i <= items.len(),
            res@ == join_texts(views(items@.take(i as int)), sep@),
        decreases items.len() - i,
    {
        assert(views(items@.take(i + 1)).drop_last() =~= views(items@.take(i as int)));
        assert(views(items@.take(i + 1)).last() == items@[i as int]@);
        if i > 0 {
            res.append(sep);
        }
        res.append(items[i].as_str());
        i = i + 1;
    }
    assert(items@.take(items.len() as int) =~= items@);
    res
}

/// The text that lists names in the prompt, or `empty_text` when there are none.
pub open spec fn names_text(names: Seq<String>, empty_text: Seq<char>) -> Seq<char> {
    if names.len() == 0 {
        empty_text
    } else {
        join_texts(views(names), ", "@)
    }
}

/// How a list of names is shown: the empty text for no names, a single name as itself,
/// and a longer list as the list without its last name, ", ", and the last name.
pub proof fn lemma_names_text(names: Seq<String>, empty_text: Seq<char>)
    ensures
        names.len() == 0 ==> names_text(names, empty_text) == empty_text,
        names.len() == 1 ==> names_text(names, empty_text) == names[0]@,
        names.len() >= 2 ==> names_text(names, empty_text) == names_text(names.drop_last(), empty_text) + ", "@
            + names.last()@,
{
    if names.len() >= 1 {
        assert(views(names)[0] == names[0]@);
        assert(views(names).last() == names.last()@);
    }
    if names.len() >= 2 {
        assert(views(names).drop_last() =~= views(names.drop_last()));
    }
}

/// The system prompt for a context.
pub open spec fn system_prompt_for(c: AnalysisContext) -> Seq<char> {
    replace_all(
        replace_all(
            replace_all(SYSTEM_PROMPT@, "{current_date}"@, c.current_date@),
            "{active_clients}"@,
            names_text(c.active_clients@, "（暂无活跃客户）"@),
        ),
        "{active_projects}"@,
        names_text(c.active_projects@, "（暂无活跃项目）"@),
    )
}

/// The user prompt for a context.
pub open spec fn user_prompt_for(c: AnalysisContext) -> Seq<char> {
    replace_all(
        replace_all(USER_PROMPT_TEMPLATE@, "{current_date}"@, c.current_date@),
        "{current_time}"@,
        c.current_time@,
    )
}

fn names_or(names: &Vec<String>, empty_text: &str) -> (res: String)
    ensures
        res@ == names_text(names@, empty_text@),
{
    if names.len() == 0 {
        owned(empty_text)
    } else {
        join_strings(names, ", ")
    }
}

/// The system and user messages for an analysis.
pub fn build_analysis_messages(context: &AnalysisContext) -> (msgs: Vec<ChatMessage>)
    ensures
        msgs.len() == 2,
        msgs@[0].role@ == "system"@,
        msgs@[0].content.str_spec() == Some(system_prompt_for(*context)),
        msgs@[1].role@ == "user"@,
        msgs@[1].content.str_spec() == Some(user_prompt_for(*context)),
{
    proof {
        reveal_strlit("{current_date}");
        reveal_strlit("{current_time}");
        reveal_strlit("{active_clients}");
        reveal_strlit("{active_projects}");
    }
    let clients = names_or(&context.active_clients, "（暂无活跃客户）");
    let projects = names_or(&context.active_projects, "（暂无活跃项目）");
    let s1 = replace_text(SYSTEM_PROMPT, "{current_date}", context.current_date.as_str());
    let s2 = replace_text(s1.as_str(), "{active_clients}", clients.as_str());
    let system_content = replace_text(s2.as_str(), "{active_projects}", projects.as_str());
    let u1 = replace_text(USER_PROMPT_TEMPLATE, "{current_date}", context.current_date.as_str());
    let user_content = replace_text(u1.as_str(), "{current_time}", context.current_time.as_str());
    let mut msgs: Vec<ChatMessage> = Vec::new();
    msgs.push(ChatMessage { role: owned("system"), content: JsonValue::Str(system_content) });
    msgs.push(ChatMessage { role: owned("user"), content: JsonValue::Str(user_content) });
    msgs
}

/// The content of the image message: an image part with the data URL of the PNG and a
/// text part that asks for the analysis.
pub open spec fn is_image_content(content: JsonValue, image_base64: Seq<char>) -> bool {
    &&& content matches JsonValue::Array(parts)
    &&& parts.len() == 2
    &&& parts@[0] matches JsonValue::Object(m0)
    &&& m0.len() == 2
    &&& m0@[0].0@ == "type"@
    &&& m0@[0].1.str_spec() == Some("image_url"@)
    &&& m0@[1].0@ == "image_url"@
    &&& m0@[1].1 matches JsonValue::Object(m1)
    &&& m1.len() == 1
    &&& m1@[0].0@ == "url"@
    &&& m1@[0].1.str_spec() == Some("data:image/png;base64,"@ + image_base64)
    &&& parts@[1] matches JsonValue::Object(m2)
    &&& m2.len() == 2
    &&& m2@[0].0@ == "type"@
    &&& m2@[0].1.str_spec() == Some("text"@)
    &&& m2@[1].0@ == "text"@
    &&& m2@[1].1.str_spec() == Some("请分析上面的截屏图片。"@)
}

/// The user message that carries the screenshot.
pub fn build_image_message(image_base64: &str) -> (msg: ChatMessage)
    ensures
        msg.role@ == "user"@,
        is_image_content(msg.content, image_base64@),
{
    let url = concat2("data:image/png;base64,", image_base64);
    let mut url_obj: Vec<(String, JsonValue)> = Vec::new();
    url_obj.push((owned("url"), JsonValue::Str(url)));
    let mut image_part: Vec<(String, JsonValue)> = Vec::new();
    image_part.push((owned("type"), JsonValue::Str(owned("image_url"))));
    image_part.push((owned("image_url"), JsonValue::Object(url_obj)));
    let mut text_part: Vec<(String, JsonValue)> = Vec::new();
    text_part.push((owned("type"), JsonValue::Str(owned("text"))));
    text_part.push((owned("text"), JsonValue::Str(owned("请分析上面的截屏图片。"))));
    let mut parts: Vec<JsonValue> = Vec::new();
    parts.push(JsonValue::Object(image_part));
    parts.push(JsonValue::Object(text_part));
    ChatMessage { role: owned("user"), content: JsonValue::Array(parts) }
}

/// An analysis needs an API key.
pub fn check_api_key(config: &AIModelConfig) -> (res: Result<(), String>)
    ensures
        res is Ok <==> config.api_key@.len() > 0,
        match res {
            Err(e) => e@ == "AI API Key 未配置，请在设置中配置 DashScope API Key"@,
            Ok(_) => true,
        },
{
    if config.api_key.as_str().is_empty() {
        Err(owned("AI API Key 未配置，请在设置中配置 DashScope API Key"))
    } else {
        Ok(())
    }
}

/// The names of clients, in order.
pub fn client_names(clients: &Vec<Client>) -> (names: Vec<String>)
    ensures
        names.len() == clients.len(),
        forall|i: int| 0 <= i < names.len() ==> #[trigger] names@[i]@ == clients@[i].name@,
{
    let mut names: Vec<String> = Vec::new();
    let mut i: usize = 0;
    while i < clients.len()
        invariant
            i <= clients.len(),
            names.len() == i,
            forall|j: int| 0 <= j < i ==> #[trigger] names@[j]@ == clients@[j].name@,
        decreases clients.len() - i,
    {
        names.push(clients[i].name.clone());
        i = i + 1;
    }
    names
}

/// The names of projects, in order.
pub fn project_names(projects: &Vec<Project>) -> (names: Vec<String>)
    ensures
        names.len() == projects.len(),
        forall|i: int| 0 <= i < names.len() ==> #[trigger] names@[i]@ == projects@[i].name@,
{
    let mut names: Vec<String> = Vec::new();
    let mut i: usize = 0;
    while i < projects.len()
        invariant
            i <= projects.len(),
            names.len() == i,
            forall|j: int| 0 <= j < i ==> #[trigger] names@[j]@ == projects@[j].name@,
        decreases projects.len() - i,
    {
        names.push(projects[i].name.clone());
        i = i + 1;
    }
    names
}

/// The context of an analysis: the date and time, and the names of all clients and
/// projects as the active ones.
pub fn build_analysis_context(
    current_date: String,
    current_time: String,
    clients: &Vec<Client>,
    projects: &Vec<Project>,
) -> (c: AnalysisContext)
    ensures
        c.current_date@ == current_date@,
        c.current_time@ == current_time@,
        c.active_clients.len() == clients.len(),
        forall|i: int| 0 <= i < clients.len() ==> #[trigger] c.active_clients@[i]@ == clients@[i].name@,
        c.active_projects.len() == projects.len(),
        forall|i: int| 0 <= i < projects.len() ==> #[trigger] c.active_projects@[i]@ == projects@[i].name@,
{
    AnalysisContext {
        current_date,
        current_time,
        active_clients: client_names(clients),
        active_projects: project_names(projects),
    }
}

/// The bytes of a screenshot sent as base64, or the decoder's error after
/// "Failed to decode base64 image: ".
pub fn decode_image(image_base64: &str) -> (res: Result<Vec<u8>, String>)
    ensures
        match res {
            Ok(v) => base64_encoded(v@) == image_base64@,
            Err(e) => !is_base64_text(image_base64@)
                && "Failed to decode base64 image: "@.is_prefix_of(e@),
        },
{
    match base64_decode(image_base64) {
        Ok(v) => Ok(v),
        Err(e) => Err(concat2("Failed to decode base64 image: ", e.as_str())),
    }
}

/// A chat completion request; the sampling temperature, 0.3, is added where the request
/// is sent.
#[derive(Debug)]
pub struct ChatCompletionRequest {
    pub model: String,
    pub messages: Vec<ChatMessage>,
    pub max_tokens: u32,
}

/// The request that asks the model to analyse a PNG screenshot: the system and user
/// prompts of the context, then the image as base64, with the configured model and token
/// limit.
pub fn prepare_analysis_request(
    image_data: &[u8],
    context: &AnalysisContext,
    config: &AIModelConfig,
) -> (r: ChatCompletionRequest)
    requires
        base64_encodable(image_data@.len()),
    ensures
        r.model@ == config.model_name@,
        r.max_tokens == config.max_tokens,
        r.messages.len() == 3,
        r.messages@[0].role@ == "system"@,
        r.messages@[0].content.str_spec() == Some(system_prompt_for(*context)),
        r.messages@[1].role@ == "user"@,
        r.messages@[1].content.str_spec() == Some(user_prompt_for(*context)),
        r.messages@[2].role@ == "user"@,
        is_image_content(r.messages@[2].content, base64_encoded(image_data@)),
{
    let image_base64 = base64_encode(image_data);
    let mut messages = build_analysis_messages(context);
    messages.push(build_image_message(image_base64.as_str()));
    ChatCompletionRequest { model: config.model_name.clone(), messages, max_tokens: config.max_tokens }
}

/// One choice of a model answer.
#[derive(Debug)]
pub struct ChatChoice {
    pub message: ChatMessage,
    pub finish_reason: Option<String>,
    pub index: Option<i32>,
}

/// A model answer.
#[derive(Debug)]
pub struct ChatCompletionResponse {
    pub choices: Vec<ChatChoice>,
    pub usage: Option<Usage>,
    pub model: String,
}

/// The content of the first choice of an answer; an answer without choices is an error.
pub fn first_choice_content<'a>(response: &'a ChatCompletionResponse) -> (res: Result<&'a JsonValue, String>)
    ensures
        match res {
            Ok(c) => response.choices.len() > 0 && *c == response.choices@[0].message.content,
            Err(e) => response.choices.len() == 0 && e@ == "AI API returned empty choices"@,
        },
{
    if response.choices.len() == 0 {
        Err(owned("AI API returned empty choices"))
    } else {
        Ok(&response.choices[0].message.content)
    }
}

/// A message followed by at most the first 500 characters of a text (how a failed answer
/// or a text that does not parse is reported).
pub fn with_excerpt(message: &str, text: &str) -> (res: String)
    ensures
        res@ == message@ + take_chars(text@, 500),
{
    let excerpt = truncate_chars(text, 500);
    concat2(message, excerpt.as_str())
}

/// The error of an answer with a failure status: "AI API 请求失败 (HTTP <status>): " and at
/// most the first 500 characters of the body.
pub fn api_status_error(status: &str, body: &str) -> (res: String)
    ensures
        res@ == "AI API 请求失败 (HTTP "@ + status@ + "): "@ + take_chars(body@, 500),
{
    let prefix = concat3("AI API 请求失败 (HTTP ", status, "): ");
    with_excerpt(prefix.as_str(), body)
}

/// The result of an analysis. `latency_ms` is measured where the request is sent.
#[derive(Debug, Clone, PartialEq)]
pub struct AnalysisResult {
    pub tasks: Vec<ExtractedTask>,
    pub ocr_text: Option<String>,
    pub scene_type: String,
    pub model_used: String,
    pub latency_ms: u64,
}

/// The result an analysis answer gives: its tasks, its `ocr_text`, and its `scene_type`
/// (`other` when it states none).
pub fn interpret_analysis(parsed: &JsonValue, model_used: String, latency_ms: u64) -> (r: AnalysisResult)
    ensures
        r.tasks.len() == titled(task_values(*parsed)).len(),
        forall|i: int|
            0 <= i < r.tasks.len() ==> #[trigger] r.tasks@[i].describes(titled(task_values(*parsed))[i]),
        opt_view(r.ocr_text) == str_member(*parsed, "ocr_text"@),
        r.scene_type@ == (match str_member(*parsed, "scene_type"@) {
            Some(s) => s,
            None => "other"@,
        }),
        r.model_used@ == model_used@,
        r.latency_ms == latency_ms,
{
    let tasks = parse_extracted_tasks(parsed);
    let scene_type = match get_str(parsed, "scene_type") {
        Some(s) => s,
        None => owned("other"),
    };
    AnalysisResult { tasks, ocr_text: get_str(parsed, "ocr_text"), scene_type, model_used, latency_ms }
}

/// The id of the first client with the given name.
pub open spec fn client_id_named(clients: Seq<Client>, name: Seq<char>) -> Option<Seq<char>>
    decreases clients.len(),
{
    if clients.len() == 0 {
        None
    } else if clients[0].name@ == name {
        Some(clients[0].id@)
    } else {
        client_id_named(clients.skip(1), name)
    }
}

/// The id of the first client with the given name.
pub fn find_client_id(clients: &Vec<Client>, name: &str) -> (res: Option<String>)
    ensures
        opt_view(res) == client_id_named(clients@, name@),
{
    let mut i: usize = 0;
    assert(clients@.skip(0) =~= clients@);
    while i < clients.len()
        invariant
            i <= clients.len(),
            client_id_named(clients@, name@) == client_id_named(clients@.skip(i as int), name@),
        decreases clients.len() - i,
    {
        assert(clients@.skip(i as int).skip(1) =~= clients@.skip(i + 1));
        assert(clients@.skip(i as int)[0] == clients@[i as int]);
        if str_eq(clients[i].name.as_str(), name) {
            return Some(clients[i].id.clone());
        }
        i = i + 1;
    }
    None
}

/// A copy of a list of strings.
pub fn copy_strings(v: &Vec<String>) -> (res: Vec<String>)
    ensures
        views(res@) == views(v@),
{
    let mut res: Vec<String> = Vec::new();
    let mut i: usize = 0;
    while i < v.len()
        invariant
            i <= v.len(),
            views(res@) == views(v@.take(i as int)),
        decreases v.len() - i,
    {
        let ghost before = res@;
        res.push(v[i].clone());
        assert(v@.take(i + 1) =~= v@.take(i as int).push(v@[i as int]));
        assert(res@ =~= before.push(v@[i as int]));
        assert(views(res@) =~= views(before).push(v@[i as int]@));
        assert(views(v@.take(i + 1)) =~= views(v@.take(i as int)).push(v@[i as int]@));
        i = i + 1;
    }
    assert(v@.take(v.len() as int) =~= v@);
    res
}

/// The new task an accepted extracted task becomes: a screenshot task with the extracted
/// fields, the id of the first client of that name, no project, the screenshot and its
/// text, and the extracted confidence.
pub fn task_input_from_extracted(
    extracted: &ExtractedTask,
    clients: &Vec<Client>,
    source_image: &Option<String>,
    ocr_text: &Option<String>,
) -> (input: CreateTaskInput)
    ensures
        input.title@ == extracted.title@,
        opt_view(input.description) == opt_view(extracted.description),
        opt_view(input.priority) == opt_view(extracted.priority),
        opt_view(input.client_id) == (match extracted.client_name {
            Some(n) => client_id_named(clients@, n@),
            None => None,
        }),
        input.project_id is None,
        opt_view(input.deadline) == opt_view(extracted.deadline),
        match (input.tags, extracted.tags) {
            (Some(a), Some(b)) => views(a@) == views(b@),
            (None, None) => true,
            _ => false,
        },
        opt_view(input.source_type) == Some("screenshot"@),
        opt_view(input.source_image) == opt_view(*source_image),
        opt_view(input.ocr_text) == opt_view(*ocr_text),
        input.ai_confidence_bits == Some(extracted.confidence_bits),
{
    let client_id = match &extracted.client_name {
        Some(n) => find_client_id(clients, n.as_str()),
        None => None,
    };
    CreateTaskInput {
        title: extracted.title.clone(),
        description: crate::tasks::copy_opt(&extracted.description),
        priority: crate::tasks::copy_opt(&extracted.priority),
        client_id,
        project_id: None,
        deadline: crate::tasks::copy_opt(&extracted.deadline),
        tags: match &extracted.tags {
            Some(t) => Some(copy_strings(t)),
            None => None,
        },
        source_type: Some(owned("screenshot")),
        source_image: crate::tasks::copy_opt(source_image),
        ocr_text: crate::tasks::copy_opt(ocr_text),
        ai_confidence_bits: Some(extracted.confidence_bits),
    }
}

/// The UTF-8 bytes of a concatenation are the bytes of its parts.
pub proof fn lemma_encode_utf8_concat(a: Seq<char>, b: Seq<char>)
    ensures
        encode_utf8(a + b) == encode_utf8(a) + encode_utf8(b),
    decreases a.len(),
{
    if a.len() == 0 {
        assert(a + b =~= b);
    } else {
        lemma_encode_utf8_concat(a.drop_first(), b);
        assert((a + b).drop_first() =~= a.drop_first() + b);
        assert((a + b)[0] == a[0]);
    }
}

/// How an API key is shown: a key of more than 8 bytes as its first 4 bytes, `...` and
/// its last 4 bytes; a shorter key as it is.
pub open spec fn masked_key(k: Seq<u8>) -> Seq<u8> {
    if k.len() > 8 {
        k.take(4) + encode_utf8("..."@) + k.skip(k.len() - 4)
    } else {
        k
    }
}

/// An API key with its middle hidden. Cutting a key inside a multi-byte character is
/// refused (std's string slicing panics there).
pub fn mask_api_key(key: &str) -> (res: String)
    requires
        encode_utf8(key@).len() > 8 ==> is_char_boundary(encode_utf8(key@), 4) && is_char_boundary(
            encode_utf8(key@),
            encode_utf8(key@).len() - 4,
        ),
    ensures
        encode_utf8(res@) == masked_key(encode_utf8(key@)),
{
    let n = key.as_bytes().len();
    if n > 8 {
        let (head, _) = key.split_at(4);
        let (_, tail) = key.split_at(n - 4);
        let res = concat3(head, "...", tail);
        proof {
            lemma_encode_utf8_concat(head@ + "..."@, tail@);
            lemma_encode_utf8_concat(head@, "..."@);
            assert(encode_utf8(head@) =~= encode_utf8(key@).take(4));
            assert(encode_utf8(tail@) =~= encode_utf8(key@).skip(n - 4));
        }
        res
    } else {
        owned(key)
    }
}

/// The model configuration as shown to the user: its key masked.
pub fn masked_config(config: &AIModelConfig) -> (c: AIModelConfig)
    requires
        encode_utf8(config.api_key@).len() > 8 ==> is_char_boundary(
            encode_utf8(config.api_key@),
            4,
        ) && is_char_boundary(
            encode_utf8(config.api_key@),
            encode_utf8(config.api_key@).len() - 4,
        ),
    ensures
        encode_utf8(c.api_key@) == masked_key(encode_utf8(config.api_key@)),
        c.model_name@ == config.model_name@,
        c.api_endpoint@ == config.api_endpoint@,
        c.max_tokens == config.max_tokens,
        c.timeout_secs == config.timeout_secs,
{
    AIModelConfig {
        api_key: mask_api_key(config.api_key.as_str()),
        model_name: config.model_name.clone(),
        api_endpoint: config.api_endpoint.clone(),
        max_tokens: config.max_tokens,
        timeout_secs: config.timeout_secs,
    }
}

} // verus!
