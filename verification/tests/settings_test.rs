use snaptask::json::{JsonNumber, JsonValue};
use snaptask::schema::{migration_plan, SCHEMA_VERSION};
use snaptask::settings::{
    settings_ai_config, settings_sync_config, settings_writes, write_error, SettingsUpdate, StoredSettings,
    TEMPERATURE_BITS,
};

fn stored() -> StoredSettings {
    StoredSettings {
        theme: None,
        hotkeys: None,
        ai_api_key: None,
        ai_model_name: None,
        ai_api_endpoint: None,
        ai_max_tokens: None,
        sync_server_url: None,
        sync_interval: None,
        sync_device_id: None,
        sync_auto_sync: None,
        floating_card_opacity: None,
    }
}

fn obj(members: Vec<(&str, JsonValue)>) -> JsonValue {
    JsonValue::Object(members.into_iter().map(|(k, v)| (k.to_string(), v)).collect())
}

#[test]
fn grouped_settings() {
    assert!(settings_ai_config(&stored()).is_none());
    assert!(settings_sync_config(&stored()).is_none());
    let s = StoredSettings {
        ai_api_key: Some("k".to_string()),
        ai_max_tokens: Some("oops".to_string()),
        sync_server_url: Some("https://s".to_string()),
        sync_interval: Some("-5".to_string()),
        sync_auto_sync: Some("true".to_string()),
        ..stored()
    };
    let ai = settings_ai_config(&s).unwrap();
    assert_eq!(ai.get("model").unwrap().as_str().unwrap(), "qwen-vl-max");
    assert_eq!(ai.get("max_tokens").unwrap().as_i64(), Some(4096));
    assert_eq!(ai.get("temperature").unwrap().as_f64_bits(), Some(TEMPERATURE_BITS));
    assert_eq!(f64::from_bits(TEMPERATURE_BITS), 0.3);
    let sync = settings_sync_config(&s).unwrap();
    assert_eq!(sync.get("sync_interval").unwrap().as_i64(), Some(-5));
    assert_eq!(sync.get("auto_sync").unwrap().as_bool(), Some(true));
    assert_eq!(sync.get("device_id").unwrap().as_str().unwrap(), "");
}

#[test]
fn writes_of_an_update() {
    let u = SettingsUpdate {
        theme: Some("dark".to_string()),
        hotkeys_json: None,
        ai_config: Some(obj(vec![
            ("api_key", JsonValue::Str("k".to_string())),
            ("max_tokens", JsonValue::Number(JsonNumber { as_i64: Some(1000), f64_bits: 1000.0f64.to_bits() })),
            ("model", JsonValue::Bool(true)),
        ])),
        sync_config: Some(obj(vec![("auto_sync", JsonValue::Bool(false)), ("device_id", JsonValue::Str("d".to_string()))])),
        floating_card_opacity_text: Some("0.8".to_string()),
    };
    let w = settings_writes(&u);
    let got: Vec<(&str, &str)> = w.iter().map(|x| (x.key.as_str(), x.value.as_str())).collect();
    assert_eq!(
        got,
        vec![
            ("theme", "dark"),
            ("ai_api_key", "k"),
            ("ai_max_tokens", "1000"),
            ("sync_device_id", "d"),
            ("sync_auto_sync", "false"),
            ("floating_card_opacity", "0.8"),
        ]
    );
    assert_eq!(w[1].label, "AI API key");
    assert_eq!(write_error("theme", "disk full"), "Failed to save theme: disk full");
}

#[test]
fn migrations() {
    assert_eq!(SCHEMA_VERSION, 1);
    let p = migration_plan(0).unwrap();
    assert!(p.create_initial_schema);
    assert_eq!(p.record_version, 1);
    assert!(migration_plan(1).is_none());
    assert!(migration_plan(5).is_none());
}

fn number(n: i64) -> JsonValue {
    JsonValue::Number(JsonNumber { as_i64: Some(n), f64_bits: (n as f64).to_bits() })
}

#[test]
fn settings_read_back_what_an_update_wrote() {
    let mut table: std::collections::HashMap<String, String> = std::collections::HashMap::new();
    table.insert("theme".to_string(), "light".to_string());
    table.insert("sync_device_id".to_string(), "dev-0".to_string());
    let update = SettingsUpdate {
        theme: Some("dark".to_string()),
        hotkeys_json: Some("{\"full\":\"Ctrl+2\"}".to_string()),
        ai_config: Some(obj(vec![("api_key", JsonValue::Str("sk".to_string())), ("max_tokens", number(2048))])),
        sync_config: Some(obj(vec![
            ("server_url", JsonValue::Str("https://s".to_string())),
            ("sync_interval", number(-7)),
            ("auto_sync", JsonValue::Bool(false)),
        ])),
        floating_card_opacity_text: Some("0.8".to_string()),
    };
    for w in settings_writes(&update) {
        table.insert(w.key, w.value);
    }
    let get = |k: &str| table.get(k).cloned();
    let s = StoredSettings {
        theme: get("theme"),
        hotkeys: get("hotkeys"),
        ai_api_key: get("ai_api_key"),
        ai_model_name: get("ai_model_name"),
        ai_api_endpoint: get("ai_api_endpoint"),
        ai_max_tokens: get("ai_max_tokens"),
        sync_server_url: get("sync_server_url"),
        sync_interval: get("sync_interval"),
        sync_device_id: get("sync_device_id"),
        sync_auto_sync: get("sync_auto_sync"),
        floating_card_opacity: get("floating_card_opacity"),
    };
    assert_eq!(s.theme.as_deref(), Some("dark"));
    assert_eq!(s.hotkeys.as_deref(), Some("{\"full\":\"Ctrl+2\"}"));
    assert_eq!(s.floating_card_opacity.as_deref(), Some("0.8"));
    assert_eq!(s.sync_device_id.as_deref(), Some("dev-0"));
    let ai = settings_ai_config(&s).unwrap();
    assert_eq!(ai.get("api_key").and_then(|v| v.as_str()).map(|x| x.as_str()), Some("sk"));
    assert_eq!(ai.get("max_tokens").and_then(|v| v.as_i64()), Some(2048));
    assert_eq!(ai.get("model").and_then(|v| v.as_str()).map(|x| x.as_str()), Some("qwen-vl-max"));
    let sync = settings_sync_config(&s).unwrap();
    assert_eq!(sync.get("sync_interval").and_then(|v| v.as_i64()), Some(-7));
    assert_eq!(sync.get("auto_sync").and_then(|v| v.as_bool()), Some(false));
    assert_eq!(sync.get("device_id").and_then(|v| v.as_str()).map(|x| x.as_str()), Some("dev-0"));
}
