use snaptask::ai::{
    ai_config_from_settings, ai_config_settings, api_status_error, build_analysis_context, build_analysis_messages,
    build_image_message, check_api_key, decode_image, first_choice_content, interpret_analysis, mask_api_key,
    masked_config, parse_extracted_tasks, prepare_analysis_request, task_input_from_extracted, with_excerpt,
    AIModelConfig, AnalysisContext, ChatChoice, ChatCompletionResponse, ChatMessage, ExtractedTask,
    DEFAULT_CONFIDENCE_BITS, SYSTEM_PROMPT, USER_PROMPT_TEMPLATE,
};
use snaptask::json::{JsonNumber, JsonValue};
use snaptask::models::{Client, Project};

fn s(x: &str) -> JsonValue {
    JsonValue::Str(x.to_string())
}

fn num(x: f64) -> JsonValue {
    JsonValue::Number(JsonNumber { as_i64: None, f64_bits: x.to_bits() })
}

fn obj(members: Vec<(&str, JsonValue)>) -> JsonValue {
    JsonValue::Object(members.into_iter().map(|(k, v)| (k.to_string(), v)).collect())
}

fn client(id: &str, name: &str) -> Client {
    Client {
        id: id.to_string(),
        name: name.to_string(),
        company: None,
        email: None,
        phone: None,
        notes: None,
        created_at: "2024-01-01 00:00:00".to_string(),
        updated_at: "2024-01-01 00:00:00".to_string(),
    }
}

fn project(id: &str, name: &str) -> Project {
    Project {
        id: id.to_string(),
        name: name.to_string(),
        description: None,
        client_id: None,
        color: None,
        status: "active".to_string(),
        created_at: "2024-01-01 00:00:00".to_string(),
        updated_at: "2024-01-01 00:00:00".to_string(),
    }
}

fn answer() -> JsonValue {
    obj(vec![
        (
            "tasks",
            JsonValue::Array(vec![
                obj(vec![
                    ("title", s("写周报")),
                    ("description", s("本周进展")),
                    ("client_name", s("")),
                    ("deadline", s("2024-05-01")),
                    ("priority", s("high")),
                    ("tags", JsonValue::Array(vec![s("work"), num(1.0), s("report")])),
                    ("confidence", num(0.9)),
                    ("reasoning", s("聊天中提到")),
                ]),
                obj(vec![("title", s(""))]),
                obj(vec![("description", s("no title"))]),
                obj(vec![("title", s("Call ACME")), ("client_name", s("ACME"))]),
            ]),
        ),
        ("ocr_text", s("全部文字")),
        ("scene_type", s("chat")),
    ])
}

#[test]
fn extracts_titled_tasks() {
    let tasks = parse_extracted_tasks(&answer());
    assert_eq!(tasks.len(), 2);
    let t = &tasks[0];
    assert_eq!(t.title, "写周报");
    assert_eq!(t.description.as_deref(), Some("本周进展"));
    assert_eq!(t.client_name, None);
    assert_eq!(t.deadline.as_deref(), Some("2024-05-01"));
    assert_eq!(t.priority.as_deref(), Some("high"));
    assert_eq!(t.tags, Some(vec!["work".to_string(), "report".to_string()]));
    assert_eq!(f64::from_bits(t.confidence_bits), 0.9);
    assert_eq!(t.reasoning.as_deref(), Some("聊天中提到"));
    let u = &tasks[1];
    assert_eq!(u.title, "Call ACME");
    assert_eq!(u.client_name.as_deref(), Some("ACME"));
    assert_eq!(u.tags, None);
    assert_eq!(u.confidence_bits, DEFAULT_CONFIDENCE_BITS);
    assert_eq!(f64::from_bits(DEFAULT_CONFIDENCE_BITS), 0.5);
}

#[test]
fn no_tasks_array_means_no_tasks() {
    assert!(parse_extracted_tasks(&obj(vec![("tasks", s("none"))])).is_empty());
    assert!(parse_extracted_tasks(&JsonValue::Null).is_empty());
}

#[test]
fn interprets_answer() {
    let r = interpret_analysis(&answer(), "qwen".to_string(), 120);
    assert_eq!(r.tasks.len(), 2);
    assert_eq!(r.ocr_text.as_deref(), Some("全部文字"));
    assert_eq!(r.scene_type, "chat");
    assert_eq!(r.model_used, "qwen");
    assert_eq!(r.latency_ms, 120);
    let r2 = interpret_analysis(&obj(vec![]), "m".to_string(), 1);
    assert_eq!(r2.scene_type, "other");
    assert_eq!(r2.ocr_text, None);
}

#[test]
fn default_model_config() {
    let c = AIModelConfig::default();
    assert_eq!(c.api_key, "");
    assert_eq!(c.model_name, "qwen2.5-vl-plus");
    assert_eq!(c.api_endpoint, "https://dashscope.aliyuncs.com/compatible-mode/v1/chat/completions");
    assert_eq!(c.max_tokens, 4096);
    assert_eq!(c.timeout_secs, 15);
}

#[test]
fn model_config_from_settings() {
    let c = ai_config_from_settings(
        Some("k-123".to_string()),
        Some("env".to_string()),
        Some("qwen-vl-max".to_string()),
        None,
        Some("2048".to_string()),
        Some("abc".to_string()),
    );
    assert_eq!(c.api_key, "k-123");
    assert_eq!(c.model_name, "qwen-vl-max");
    assert_eq!(c.max_tokens, 2048);
    assert_eq!(c.timeout_secs, 15);
    let e = ai_config_from_settings(Some(String::new()), Some("env".to_string()), None, None, None, Some("60".to_string()));
    assert_eq!(e.api_key, "env");
    assert_eq!(e.timeout_secs, 60);
    let n = ai_config_from_settings(None, None, None, None, None, None);
    assert_eq!(n.api_key, "");
}

#[test]
fn model_config_storage_round_trip() {
    let c = AIModelConfig {
        api_key: "sk-abcdefghijkl".to_string(),
        model_name: "m".to_string(),
        api_endpoint: "https://e".to_string(),
        max_tokens: 777,
        timeout_secs: 99,
    };
    let pairs = ai_config_settings(&c);
    let keys: Vec<&str> = pairs.iter().map(|p| p.0.as_str()).collect();
    assert_eq!(keys, vec!["ai_api_key", "ai_model_name", "ai_api_endpoint", "ai_max_tokens", "ai_timeout_secs"]);
    assert_eq!(pairs[3].1, "777");
    let back = ai_config_from_settings(
        Some(pairs[0].1.clone()),
        None,
        Some(pairs[1].1.clone()),
        Some(pairs[2].1.clone()),
        Some(pairs[3].1.clone()),
        Some(pairs[4].1.clone()),
    );
    assert_eq!(back.api_key, c.api_key);
    assert_eq!(back.model_name, c.model_name);
    assert_eq!(back.api_endpoint, c.api_endpoint);
    assert_eq!(back.max_tokens, c.max_tokens);
    assert_eq!(back.timeout_secs, c.timeout_secs);
}

#[test]
fn masks_keys() {
    assert_eq!(mask_api_key("sk-1234567890"), "sk-1...7890");
    assert_eq!(mask_api_key("12345678"), "12345678");
    assert_eq!(mask_api_key(""), "");
    let c = AIModelConfig { api_key: "abcdefghijk".to_string(), ..AIModelConfig::default() };
    assert_eq!(masked_config(&c).api_key, "abcd...hijk");
}

#[test]
fn requires_api_key() {
    assert!(check_api_key(&AIModelConfig::default()).is_err());
    assert_eq!(
        check_api_key(&AIModelConfig::default()).unwrap_err(),
        "AI API Key 未配置，请在设置中配置 DashScope API Key"
    );
    let c = AIModelConfig { api_key: "k".to_string(), ..AIModelConfig::default() };
    assert!(check_api_key(&c).is_ok());
}

fn context(clients: Vec<String>, projects: Vec<String>) -> AnalysisContext {
    AnalysisContext {
        current_date: "2024-05-01".to_string(),
        current_time: "09:30".to_string(),
        active_clients: clients,
        active_projects: projects,
    }
}

#[test]
fn builds_prompts() {
    let msgs = build_analysis_messages(&context(vec!["ACME".to_string(), "Beta".to_string()], vec![]));
    assert_eq!(msgs.len(), 2);
    assert_eq!(msgs[0].role, "system");
    let expected = SYSTEM_PROMPT
        .replace("{current_date}", "2024-05-01")
        .replace("{active_clients}", "ACME, Beta")
        .replace("{active_projects}", "（暂无活跃项目）");
    assert_eq!(msgs[0].content, JsonValue::Str(expected));
    assert_eq!(msgs[1].role, "user");
    let user = USER_PROMPT_TEMPLATE.replace("{current_date}", "2024-05-01").replace("{current_time}", "09:30");
    assert_eq!(msgs[1].content, JsonValue::Str(user));
    let none = build_analysis_messages(&context(vec![], vec!["P".to_string()]));
    match &none[0].content {
        JsonValue::Str(t) => {
            assert!(t.contains("（暂无活跃客户）"));
            assert!(!t.contains("{active_projects}"));
        }
        _ => panic!("system content is text"),
    }
}

#[test]
fn builds_image_message() {
    let m: ChatMessage = build_image_message("QUJD");
    assert_eq!(m.role, "user");
    let parts = m.content.as_array().unwrap();
    let url = parts[0].get("image_url").unwrap().get("url").unwrap().as_str().unwrap();
    assert_eq!(url, "data:image/png;base64,QUJD");
    assert_eq!(parts[0].get("type").unwrap().as_str().unwrap(), "image_url");
    assert_eq!(parts[1].get("text").unwrap().as_str().unwrap(), "请分析上面的截屏图片。");
}

#[test]
fn prepares_request_with_encoded_image() {
    let cfg = AIModelConfig { api_key: "k".to_string(), ..AIModelConfig::default() };
    let r = prepare_analysis_request(b"hi", &context(vec![], vec![]), &cfg);
    assert_eq!(r.model, "qwen2.5-vl-plus");
    assert_eq!(r.max_tokens, 4096);
    assert_eq!(r.messages.len(), 3);
    let parts = r.messages[2].content.as_array().unwrap();
    let url = parts[0].get("image_url").unwrap().get("url").unwrap().as_str().unwrap();
    assert_eq!(url, "data:image/png;base64,aGk=");
}

#[test]
fn decodes_images() {
    assert_eq!(decode_image("aGk=").unwrap(), b"hi".to_vec());
    let e = decode_image("not base64!").unwrap_err();
    assert!(e.starts_with("Failed to decode base64 image: "));
}

#[test]
fn reads_first_choice() {
    let empty = ChatCompletionResponse { choices: vec![], usage: None, model: "m".to_string() };
    assert_eq!(first_choice_content(&empty).unwrap_err(), "AI API returned empty choices");
    let one = ChatCompletionResponse {
        choices: vec![ChatChoice {
            message: ChatMessage { role: "assistant".to_string(), content: s("{}") },
            finish_reason: Some("stop".to_string()),
            index: Some(0),
        }],
        usage: None,
        model: "m".to_string(),
    };
    assert_eq!(first_choice_content(&one).unwrap(), &s("{}"));
}

#[test]
fn error_texts_keep_500_characters() {
    let body: String = std::iter::repeat('错').take(700).collect();
    let e = api_status_error("401 Unauthorized", &body);
    assert!(e.starts_with("AI API 请求失败 (HTTP 401 Unauthorized): "));
    assert_eq!(e.chars().count(), "AI API 请求失败 (HTTP 401 Unauthorized): ".chars().count() + 500);
    assert_eq!(with_excerpt("x: ", "abc"), "x: abc");
}

#[test]
fn context_lists_all_names() {
    let c = build_analysis_context(
        "d".to_string(),
        "t".to_string(),
        &vec![client("c1", "ACME")],
        &vec![project("p1", "Site"), project("p2", "App")],
    );
    assert_eq!(c.active_clients, vec!["ACME".to_string()]);
    assert_eq!(c.active_projects, vec!["Site".to_string(), "App".to_string()]);
}

#[test]
fn accepted_task_becomes_input() {
    let e = ExtractedTask {
        title: "Call".to_string(),
        description: None,
        client_name: Some("ACME".to_string()),
        deadline: Some("2024-06-01".to_string()),
        priority: Some("urgent".to_string()),
        tags: Some(vec!["t".to_string()]),
        confidence_bits: 0.75f64.to_bits(),
        reasoning: None,
    };
    let clients = vec![client("c0", "Other"), client("c1", "ACME"), client("c2", "ACME")];
    let input = task_input_from_extracted(&e, &clients, &Some("img".to_string()), &None);
    assert_eq!(input.client_id.as_deref(), Some("c1"));
    assert_eq!(input.source_type.as_deref(), Some("screenshot"));
    assert_eq!(input.project_id, None);
    assert_eq!(input.tags, Some(vec!["t".to_string()]));
    assert_eq!(input.ai_confidence_bits, Some(0.75f64.to_bits()));
    assert_eq!(input.source_image.as_deref(), Some("img"));
    let unknown = ExtractedTask { client_name: Some("Nobody".to_string()), ..e.clone() };
    assert_eq!(task_input_from_extracted(&unknown, &clients, &None, &None).client_id, None);
}

#[test]
fn integer_confidence_reads_as_its_value() {
    let one = JsonValue::Number(JsonNumber { as_i64: Some(1), f64_bits: 1.0f64.to_bits() });
    let v = obj(vec![("tasks", JsonValue::Array(vec![obj(vec![("title", s("t")), ("confidence", one)])]))]);
    let tasks = parse_extracted_tasks(&v);
    assert_eq!(f64::from_bits(tasks[0].confidence_bits), 1.0);
}
