//! The application settings: how stored settings are shown as grouped JSON, and which
//! settings an update writes.
use vstd::prelude::*;
use crate::json::{JsonValue, JsonNumber, i32_f64_bits, int_f64_bits};
use crate::ai::{opt_view, str_member};
use crate::tasks::or_view;
use crate::text::{owned, concat2, i64_text, int_text, parse_i32, parse_i32_spec, str_eq, lemma_parse_i32_text};

verus! {

/// The bit pattern of the `f64` value 0.3, the sampling temperature shown in the settings.
pub const TEMPERATURE_BITS: u64 = 0x3FD3_3333_3333_3333u64;

/// The stored values of the settings the settings page shows (absent when not stored).
#[derive(Debug, Clone, PartialEq)]
pub struct StoredSettings {
    pub theme: Option<String>,
    pub hotkeys: Option<String>,
    pub ai_api_key: Option<String>,
    pub ai_model_name: Option<String>,
    pub ai_api_endpoint: Option<String>,
    pub ai_max_tokens: Option<String>,
    pub sync_server_url: Option<String>,
    pub sync_interval: Option<String>,
    pub sync_device_id: Option<String>,
    pub sync_auto_sync: Option<String>,
    pub floating_card_opacity: Option<String>,
}

/// The number member `key` of a JSON value, read as an `i64`.
pub open spec fn i64_member(v: JsonValue, key: Seq<char>) -> Option<i64> {
    match v.get_spec(key) {
        Some(JsonValue::Number(n)) => n.as_i64,
        _ => None,
    }
}

/// The boolean member `key` of a JSON value.
pub open spec fn bool_member(v: JsonValue, key: Seq<char>) -> Option<bool> {
    match v.get_spec(key) {
        Some(JsonValue::Bool(b)) => Some(b),
        _ => None,
    }
}

/// The `f64` bits of the number member `key` of a JSON value.
pub open spec fn f64_member(v: JsonValue, key: Seq<char>) -> Option<u64> {
    match v.get_spec(key) {
        Some(JsonValue::Number(n)) => Some(n.f64_bits),
        _ => None,
    }
}

/// `v`, or `d` when absent.
pub open spec fn or_text(v: Option<Seq<char>>, d: Seq<char>) -> Seq<char> {
    match v {
        Some(t) => t,
        None => d,
    }
}

/// An `i32` stored as text, or `d` when absent or unreadable.
pub open spec fn i32_or(v: Option<Seq<char>>, d: i32) -> i32 {
    match v {
        Some(t) => match parse_i32_spec(t) {
            Some(n) => n,
            None => d,
        },
        None => d,
    }
}

/// A boolean stored as `true` or `false`, else `false`.
pub open spec fn bool_or_false(v: Option<Seq<char>>) -> bool {
    v == Some("true"@)
}

/// A member found at position `j`, behind members of other names.
proof fn lemma_members_get_at(m: Seq<(String, JsonValue)>, key: Seq<char>, j: int)
    requires
        0 <= j < m.len(),
        m[j].0@ == key,
        forall|i: int| 0 <= i < j ==> m[i].0@ != key,
    ensures
        crate::json::members_get(m, key) == Some(m[j].1),
    decreases j,
{
    if j > 0 {
        lemma_members_get_at(m.skip(1), key, j - 1);
        assert forall|i: int| 0 <= i < j - 1 implies m.skip(1)[i].0@ != key by {
            assert(m.skip(1)[i] == m[i + 1]);
        }
    }
}

fn text_member(key: &str, value: String) -> (m: (String, JsonValue))
    ensures
        m.0@ == key@,
        m.1.str_spec() == Some(value@),
{
    (owned(key), JsonValue::Str(value))
}

fn or_default(v: &Option<String>, d: &str) -> (res: String)
    ensures
        res@ == or_text(opt_view(*v), d@),
{
    match v {
        Some(t) => t.clone(),
        None => owned(d),
    }
}

fn i32_text_or(v: &Option<String>, d: i32) -> (res: i32)
    ensures
        res == i32_or(opt_view(*v), d),
{
    match v {
        Some(t) => match parse_i32(t.as_str()) {
            Some(n) => n,
            None => d,
        },
        None => d,
    }
}

fn int_number(n: i32) -> (v: JsonValue)
    ensures
        v matches JsonValue::Number(k) && k.as_i64 == Some(n as i64) && k.f64_bits == int_f64_bits(n as int),
{
    JsonValue::Number(JsonNumber { as_i64: Some(n as i64), f64_bits: i32_f64_bits(n) })
}

/// The AI settings as shown: present when a key is stored, with the key, the model
/// (`qwen-vl-max` by default), the endpoint, the token limit (4096 by default) and the
/// temperature 0.3.
pub fn settings_ai_config(stored: &StoredSettings) -> (res: Option<JsonValue>)
    ensures
        (res is Some) == (stored.ai_api_key is Some),
        match res {
            Some(v) => {
                &&& v matches JsonValue::Object(m) && m.len() == 5
                &&& str_member(v, "api_key"@) == Some(or_text(opt_view(stored.ai_api_key), Seq::empty()))
                &&& str_member(v, "model"@) == Some(or_text(opt_view(stored.ai_model_name), "qwen-vl-max"@))
                &&& str_member(v, "api_endpoint"@) == Some(
                    or_text(
                        opt_view(stored.ai_api_endpoint),
                        "https://dashscope.aliyuncs.com/compatible-mode/v1/chat/completions"@,
                    ),
                )
                &&& i64_member(v, "max_tokens"@) == Some(i32_or(opt_view(stored.ai_max_tokens), 4096) as i64)
                &&& f64_member(v, "temperature"@) == Some(TEMPERATURE_BITS)
            },
            None => true,
        },
{
    if stored.ai_api_key.is_none() {
        return None;
    }
    let mut m: Vec<(String, JsonValue)> = Vec::new();
    m.push(text_member("api_key", or_default(&stored.ai_api_key, "")));
    m.push(text_member("model", or_default(&stored.ai_model_name, "qwen-vl-max")));
    m.push(
        text_member(
            "api_endpoint",
            or_default(
                &stored.ai_api_endpoint,
                "https://dashscope.aliyuncs.com/compatible-mode/v1/chat/completions",
            ),
        ),
    );
    m.push((owned("max_tokens"), int_number(i32_text_or(&stored.ai_max_tokens, 4096))));
    m.push(
        (owned("temperature"), JsonValue::Number(JsonNumber { as_i64: None, f64_bits: TEMPERATURE_BITS })),
    );
    proof {
        reveal_strlit("");
        reveal_strlit("api_key");
        reveal_strlit("model");
        reveal_strlit("api_endpoint");
        reveal_strlit("max_tokens");
        reveal_strlit("temperature");
        assert("api_key"@.len() == 7 && "model"@.len() == 5 && "api_endpoint"@.len() == 12);
        assert("max_tokens"@.len() == 10 && "temperature"@.len() == 11);
        assert(m@[0].0@ == "api_key"@ && m@[1].0@ == "model"@ && m@[2].0@ == "api_endpoint"@);
        assert(m@[3].0@ == "max_tokens"@ && m@[4].0@ == "temperature"@);
        lemma_members_get_at(m@, "api_key"@, 0);
        lemma_members_get_at(m@, "model"@, 1);
        lemma_members_get_at(m@, "api_endpoint"@, 2);
        lemma_members_get_at(m@, "max_tokens"@, 3);
        lemma_members_get_at(m@, "temperature"@, 4);
    }
    Some(JsonValue::Object(m))
}

/// The sync settings as shown: present when a server is stored, with the server, the
/// interval (30 by default), the device id and whether syncing is automatic (not by
/// default).
pub fn settings_sync_config(stored: &StoredSettings) -> (res: Option<JsonValue>)
    ensures
        (res is Some) == (stored.sync_server_url is Some),
        match res {
            Some(v) => {
                &&& v matches JsonValue::Object(m) && m.len() == 4
                &&& str_member(v, "server_url"@) == Some(or_text(opt_view(stored.sync_server_url), Seq::empty()))
                &&& i64_member(v, "sync_interval"@) == Some(i32_or(opt_view(stored.sync_interval), 30) as i64)
                &&& str_member(v, "device_id"@) == Some(or_text(opt_view(stored.sync_device_id), Seq::empty()))
                &&& bool_member(v, "auto_sync"@) == Some(bool_or_false(opt_view(stored.sync_auto_sync)))
            },
            None => true,
        },
{
    if stored.sync_server_url.is_none() {
        return None;
    }
    let auto_sync = match &stored.sync_auto_sync {
        Some(t) => str_eq(t.as_str(), "true"),
        None => false,
    };
    let mut m: Vec<(String, JsonValue)> = Vec::new();
    m.push(text_member("server_url", or_default(&stored.sync_server_url, "")));
    m.push((owned("sync_interval"), int_number(i32_text_or(&stored.sync_interval, 30))));
    m.push(text_member("device_id", or_default(&stored.sync_device_id, "")));
    m.push((owned("auto_sync"), JsonValue::Bool(auto_sync)));
    proof {
        reveal_strlit("");
        reveal_strlit("server_url");
        reveal_strlit("sync_interval");
        reveal_strlit("device_id");
        reveal_strlit("auto_sync");
        assert("device_id"@[0] != "auto_sync"@[0]);
        assert("server_url"@.len() == 10 && "sync_interval"@.len() == 13 && "device_id"@.len() == 9);
        assert("auto_sync"@.len() == 9);
        assert(m@[0].0@ == "server_url"@ && m@[1].0@ == "sync_interval"@ && m@[2].0@ == "device_id"@);
        assert(m@[3].0@ == "auto_sync"@);
        lemma_members_get_at(m@, "server_url"@, 0);
        lemma_members_get_at(m@, "sync_interval"@, 1);
        lemma_members_get_at(m@, "device_id"@, 2);
        lemma_members_get_at(m@, "auto_sync"@, 3);
    }
    Some(JsonValue::Object(m))
}

/// A setting to write: its key, its value, and what it is called in the error when the
/// write fails.
#[derive(Debug, Clone, PartialEq)]
pub struct SettingWrite {
    pub key: String,
    pub value: String,
    pub label: String,
}

/// What a setting write holds.
pub open spec fn write_view(w: SettingWrite) -> (Seq<char>, Seq<char>, Seq<char>) {
    (w.key@, w.value@, w.label@)
}

/// The views of a list of setting writes.
pub open spec fn write_views(v: Seq<SettingWrite>) -> Seq<(Seq<char>, Seq<char>, Seq<char>)> {
    v.map_values(|w: SettingWrite| write_view(w))
}

/// A settings update as the settings page sends it: the hotkeys already as JSON text and
/// the opacity already as text.
#[derive(Debug)]
pub struct SettingsUpdate {
    pub theme: Option<String>,
    pub hotkeys_json: Option<String>,
    pub ai_config: Option<JsonValue>,
    pub sync_config: Option<JsonValue>,
    pub floating_card_opacity_text: Option<String>,
}

/// One write when the value is present.
pub open spec fn write_if(v: Option<Seq<char>>, key: Seq<char>, label: Seq<char>) -> Seq<(Seq<char>, Seq<char>, Seq<char>)> {
    match v {
        Some(t) => seq![(key, t, label)],
        None => Seq::empty(),
    }
}

/// The text of a boolean.
pub open spec fn bool_text(b: bool) -> Seq<char> {
    if b {
        "true"@
    } else {
        "false"@
    }
}

/// The writes of the AI group: the string members `api_key`, `model`, `api_endpoint` and
/// the integer member `max_tokens`, each when present with the right type.
pub open spec fn ai_writes(v: JsonValue) -> Seq<(Seq<char>, Seq<char>, Seq<char>)> {
    write_if(str_member(v, "api_key"@), "ai_api_key"@, "AI API key"@) + write_if(
        str_member(v, "model"@),
        "ai_model_name"@,
        "AI model"@,
    ) + write_if(str_member(v, "api_endpoint"@), "ai_api_endpoint"@, "AI endpoint"@) + write_if(
        match i64_member(v, "max_tokens"@) {
            Some(n) => Some(int_text(n as int)),
            None => None,
        },
        "ai_max_tokens"@,
        "AI max_tokens"@,
    )
}

/// The writes of the sync group: `server_url`, `sync_interval`, `device_id` and
/// `auto_sync`, each when present with the right type.
pub open spec fn sync_writes(v: JsonValue) -> Seq<(Seq<char>, Seq<char>, Seq<char>)> {
    write_if(str_member(v, "server_url"@), "sync_server_url"@, "sync server URL"@) + write_if(
        match i64_member(v, "sync_interval"@) {
            Some(n) => Some(int_text(n as int)),
            None => None,
        },
        "sync_interval"@,
        "sync interval"@,
    ) + write_if(str_member(v, "device_id"@), "sync_device_id"@, "sync device ID"@) + write_if(
        match bool_member(v, "auto_sync"@) {
            Some(b) => Some(bool_text(b)),
            None => None,
        },
        "sync_auto_sync"@,
        "sync auto_sync"@,
    )
}

/// The writes of a settings update, in order: theme, hotkeys, the AI group, the sync
/// group, the opacity.
pub open spec fn update_writes(u: SettingsUpdate) -> Seq<(Seq<char>, Seq<char>, Seq<char>)> {
    write_if(opt_view(u.theme), "theme"@, "theme"@) + write_if(opt_view(u.hotkeys_json), "hotkeys"@, "hotkeys"@)
        + match u.ai_config {
        Some(v) => ai_writes(v),
        None => Seq::empty(),
    } + match u.sync_config {
        Some(v) => sync_writes(v),
        None => Seq::empty(),
    } + write_if(opt_view(u.floating_card_opacity_text), "floating_card_opacity"@, "floating card opacity"@)
}

fn push_write(writes: &mut Vec<SettingWrite>, value: Option<String>, key: &str, label: &str)
    ensures
        write_views(final(writes)@) == write_views(old(writes)@) + write_if(opt_view(value), key@, label@),
{
    let ghost before = writes@;
    match value {
        Some(v) => {
            writes.push(SettingWrite { key: owned(key), value: v, label: owned(label) });
        },
        None => {},
    }
    assert(write_views(writes@) =~= write_views(before) + write_if(opt_view(value), key@, label@));
}

fn member_text(v: &JsonValue, key: &str) -> (res: Option<String>)
    ensures
        opt_view(res) == str_member(*v, key@),
{
    crate::ai::get_str(v, key)
}

fn member_int_text(v: &JsonValue, key: &str) -> (res: Option<String>)
    ensures
        opt_view(res) == (match i64_member(*v, key@) {
            Some(n) => Some(int_text(n as int)),
            None => None,
        }),
{
    match v.get(key) {
        Some(m) => match m.as_i64() {
            Some(n) => Some(i64_text(n)),
            None => None,
        },
        None => None,
    }
}

fn member_bool_text(v: &JsonValue, key: &str) -> (res: Option<String>)
    ensures
        opt_view(res) == (match bool_member(*v, key@) {
            Some(b) => Some(bool_text(b)),
            None => None,
        }),
{
    match v.get(key) {
        Some(m) => match m.as_bool() {
            Some(b) => Some(
                if b {
                    owned("true")
                } else {
                    owned("false")
                },
            ),
            None => None,
        },
        None => None,
    }
}

fn push_ai_writes(writes: &mut Vec<SettingWrite>, v: &JsonValue)
    ensures
        write_views(final(writes)@) == write_views(old(writes)@) + ai_writes(*v),
{
    let ghost before = write_views(writes@);
    push_write(writes, member_text(v, "api_key"), "ai_api_key", "AI API key");
    push_write(writes, member_text(v, "model"), "ai_model_name", "AI model");
    push_write(writes, member_text(v, "api_endpoint"), "ai_api_endpoint", "AI endpoint");
    push_write(writes, member_int_text(v, "max_tokens"), "ai_max_tokens", "AI max_tokens");
    assert(write_views(writes@) =~= before + ai_writes(*v));
}

fn push_sync_writes(writes: &mut Vec<SettingWrite>, v: &JsonValue)
    ensures
        write_views(final(writes)@) == write_views(old(writes)@) + sync_writes(*v),
{
    let ghost before = write_views(writes@);
    push_write(writes, member_text(v, "server_url"), "sync_server_url", "sync server URL");
    push_write(writes, member_int_text(v, "sync_interval"), "sync_interval", "sync interval");
    push_write(writes, member_text(v, "device_id"), "sync_device_id", "sync device ID");
    push_write(writes, member_bool_text(v, "auto_sync"), "sync_auto_sync", "sync auto_sync");
    assert(write_views(writes@) =~= before + sync_writes(*v));
}

/// The settings a settings update writes.
pub fn settings_writes(u: &SettingsUpdate) -> (writes: Vec<SettingWrite>)
    ensures
        write_views(writes@) == update_writes(*u),
{
    let mut writes: Vec<SettingWrite> = Vec::new();
    push_write(&mut writes, crate::tasks::copy_opt(&u.theme), "theme", "theme");
    push_write(&mut writes, crate::tasks::copy_opt(&u.hotkeys_json), "hotkeys", "hotkeys");
    let ghost w1 = write_views(writes@);
    match &u.ai_config {
        Some(v) => push_ai_writes(&mut writes, v),
        None => {},
    }
    let ghost w2 = write_views(writes@);
    assert(w2 =~= w1 + match u.ai_config {
        Some(v) => ai_writes(v),
        None => Seq::empty(),
    });
    match &u.sync_config {
        Some(v) => push_sync_writes(&mut writes, v),
        None => {},
    }
    let ghost w3 = write_views(writes@);
    assert(w3 =~= w2 + match u.sync_config {
        Some(v) => sync_writes(v),
        None => Seq::empty(),
    });
    push_write(
        &mut writes,
        crate::tasks::copy_opt(&u.floating_card_opacity_text),
        "floating_card_opacity",
        "floating card opacity",
    );
    assert(write_views(writes@) =~= update_writes(*u));
    writes
}

/// What the settings table stores under `key`, if anything.
pub open spec fn stored_value(table: Map<Seq<char>, Seq<char>>, key: Seq<char>) -> Option<Seq<char>> {
    if table.dom().contains(key) {
        Some(table[key])
    } else {
        None
    }
}

/// The settings table after the writes, in order: each write stores its value under its
/// key, replacing what was there.
pub open spec fn apply_writes(
    table: Map<Seq<char>, Seq<char>>,
    writes: Seq<(Seq<char>, Seq<char>, Seq<char>)>,
) -> Map<Seq<char>, Seq<char>>
    decreases writes.len(),
{
    if writes.len() == 0 {
        table
    } else {
        apply_writes(table, writes.drop_last()).insert(writes.last().0, writes.last().1)
    }
}

/// The value the last write of `key` among the writes gives it, if any writes it.
pub open spec fn last_written(writes: Seq<(Seq<char>, Seq<char>, Seq<char>)>, key: Seq<char>) -> Option<Seq<char>>
    decreases writes.len(),
{
    if writes.len() == 0 {
        None
    } else if writes.last().0 == key {
        Some(writes.last().1)
    } else {
        last_written(writes.drop_last(), key)
    }
}

/// `s` holds what the settings table stores under each setting's key.
pub open spec fn stored_from_table(s: StoredSettings, table: Map<Seq<char>, Seq<char>>) -> bool {
    &&& opt_view(s.theme) == stored_value(table, "theme"@)
    &&& opt_view(s.hotkeys) == stored_value(table, "hotkeys"@)
    &&& opt_view(s.ai_api_key) == stored_value(table, "ai_api_key"@)
    &&& opt_view(s.ai_model_name) == stored_value(table, "ai_model_name"@)
    &&& opt_view(s.ai_api_endpoint) == stored_value(table, "ai_api_endpoint"@)
    &&& opt_view(s.ai_max_tokens) == stored_value(table, "ai_max_tokens"@)
    &&& opt_view(s.sync_server_url) == stored_value(table, "sync_server_url"@)
    &&& opt_view(s.sync_interval) == stored_value(table, "sync_interval"@)
    &&& opt_view(s.sync_device_id) == stored_value(table, "sync_device_id"@)
    &&& opt_view(s.sync_auto_sync) == stored_value(table, "sync_auto_sync"@)
    &&& opt_view(s.floating_card_opacity) == stored_value(table, "floating_card_opacity"@)
}

/// The text an update's AI group gives the string member `member`.
pub open spec fn ai_text(u: SettingsUpdate, member: Seq<char>) -> Option<Seq<char>> {
    match u.ai_config {
        Some(v) => str_member(v, member),
        None => None,
    }
}

/// The text an update's sync group gives the string member `member`.
pub open spec fn sync_text(u: SettingsUpdate, member: Seq<char>) -> Option<Seq<char>> {
    match u.sync_config {
        Some(v) => str_member(v, member),
        None => None,
    }
}

/// The integer an update's group gives the member `member`, if the group is present.
pub open spec fn group_int(g: Option<JsonValue>, member: Seq<char>) -> Option<i64> {
    match g {
        Some(v) => i64_member(v, member),
        None => None,
    }
}

/// The decimal text of an optional integer.
pub open spec fn int_text_of(n: Option<i64>) -> Option<Seq<char>> {
    match n {
        Some(k) => Some(int_text(k as int)),
        None => None,
    }
}

/// The boolean an update's sync group gives `auto_sync`, if the group is present.
pub open spec fn sync_auto(u: SettingsUpdate) -> Option<bool> {
    match u.sync_config {
        Some(v) => bool_member(v, "auto_sync"@),
        None => None,
    }
}

proof fn lemma_apply_writes(
    table: Map<Seq<char>, Seq<char>>,
    writes: Seq<(Seq<char>, Seq<char>, Seq<char>)>,
    key: Seq<char>,
)
    ensures
        stored_value(apply_writes(table, writes), key) == or_view(last_written(writes, key), stored_value(table, key)),
    decreases writes.len(),
{
    if writes.len() > 0 {
        lemma_apply_writes(table, writes.drop_last(), key);
    }
}

proof fn lemma_last_written_concat(
    a: Seq<(Seq<char>, Seq<char>, Seq<char>)>,
    b: Seq<(Seq<char>, Seq<char>, Seq<char>)>,
    key: Seq<char>,
)
    ensures
        last_written(a + b, key) == or_view(last_written(b, key), last_written(a, key)),
    decreases b.len(),
{
    if b.len() == 0 {
        assert(a + b =~= a);
    } else {
        lemma_last_written_concat(a, b.drop_last(), key);
        assert((a + b).drop_last() =~= a + b.drop_last());
    }
}

proof fn lemma_write_if(v: Option<Seq<char>>, k: Seq<char>, label: Seq<char>, key: Seq<char>)
    ensures
        last_written(write_if(v, k, label), key) == (if k == key {
            v
        } else {
            None
        }),
{
    let w = write_if(v, k, label);
    if v is Some {
        assert(w.len() == 1 && w.last() == (k, v->0, label));
        assert(w.drop_last() =~= Seq::<(Seq<char>, Seq<char>, Seq<char>)>::empty());
        assert(last_written(w.drop_last(), key) is None);
    } else {
        assert(w.len() == 0);
    }
}

proof fn lemma_four_writes(
    w1: Seq<(Seq<char>, Seq<char>, Seq<char>)>,
    w2: Seq<(Seq<char>, Seq<char>, Seq<char>)>,
    w3: Seq<(Seq<char>, Seq<char>, Seq<char>)>,
    w4: Seq<(Seq<char>, Seq<char>, Seq<char>)>,
    key: Seq<char>,
)
    ensures
        last_written(w1 + w2 + w3 + w4, key) == or_view(
            last_written(w4, key),
            or_view(last_written(w3, key), or_view(last_written(w2, key), last_written(w1, key))),
        ),
{
    lemma_last_written_concat(w1, w2, key);
    lemma_last_written_concat(w1 + w2, w3, key);
    lemma_last_written_concat(w1 + w2 + w3, w4, key);
}

/// The keys the settings are stored under.
proof fn lemma_setting_keys()
    ensures
        "theme"@.len() == 5,
        "hotkeys"@.len() == 7,
        "ai_api_key"@.len() == 10,
        "ai_model_name"@.len() == 13,
        "ai_api_endpoint"@.len() == 15,
        "ai_max_tokens"@.len() == 13,
        "sync_server_url"@.len() == 15,
        "sync_interval"@.len() == 13,
        "sync_device_id"@.len() == 14,
        "sync_auto_sync"@.len() == 14,
        "floating_card_opacity"@.len() == 21,
        "ai_model_name"@ != "ai_max_tokens"@,
        "ai_model_name"@ != "sync_interval"@,
        "ai_max_tokens"@ != "sync_interval"@,
        "ai_api_endpoint"@ != "sync_server_url"@,
        "sync_device_id"@ != "sync_auto_sync"@,
{
    reveal_strlit("theme");
    reveal_strlit("hotkeys");
    reveal_strlit("ai_api_key");
    reveal_strlit("ai_model_name");
    reveal_strlit("ai_api_endpoint");
    reveal_strlit("ai_max_tokens");
    reveal_strlit("sync_server_url");
    reveal_strlit("sync_interval");
    reveal_strlit("sync_device_id");
    reveal_strlit("sync_auto_sync");
    reveal_strlit("floating_card_opacity");
    assert("ai_model_name"@[4] != "ai_max_tokens"@[4]);
    assert("ai_model_name"@[0] != "sync_interval"@[0]);
    assert("ai_max_tokens"@[0] != "sync_interval"@[0]);
    assert("ai_api_endpoint"@[0] != "sync_server_url"@[0]);
    assert("sync_device_id"@[5] != "sync_auto_sync"@[5]);
}

/// What an update's AI group writes under `key`.
pub open spec fn ai_part(u: SettingsUpdate, key: Seq<char>) -> Option<Seq<char>> {
    if key == "ai_api_key"@ {
        ai_text(u, "api_key"@)
    } else if key == "ai_model_name"@ {
        ai_text(u, "model"@)
    } else if key == "ai_api_endpoint"@ {
        ai_text(u, "api_endpoint"@)
    } else if key == "ai_max_tokens"@ {
        int_text_of(group_int(u.ai_config, "max_tokens"@))
    } else {
        None
    }
}

/// What an update's sync group writes under `key`.
pub open spec fn sync_part(u: SettingsUpdate, key: Seq<char>) -> Option<Seq<char>> {
    if key == "sync_server_url"@ {
        sync_text(u, "server_url"@)
    } else if key == "sync_interval"@ {
        int_text_of(group_int(u.sync_config, "sync_interval"@))
    } else if key == "sync_device_id"@ {
        sync_text(u, "device_id"@)
    } else if key == "sync_auto_sync"@ {
        match sync_auto(u) {
            Some(b) => Some(bool_text(b)),
            None => None,
        }
    } else {
        None
    }
}

/// What a settings update writes under `key`, if anything.
pub open spec fn update_part(u: SettingsUpdate, key: Seq<char>) -> Option<Seq<char>> {
    if key == "theme"@ {
        opt_view(u.theme)
    } else if key == "hotkeys"@ {
        opt_view(u.hotkeys_json)
    } else if key == "floating_card_opacity"@ {
        opt_view(u.floating_card_opacity_text)
    } else {
        or_view(ai_part(u, key), sync_part(u, key))
    }
}

proof fn lemma_update_last_written(u: SettingsUpdate, key: Seq<char>)
    ensures
        last_written(update_writes(u), key) == update_part(u, key),
{
    lemma_setting_keys();
    let t = write_if(opt_view(u.theme), "theme"@, "theme"@);
    let h = write_if(opt_view(u.hotkeys_json), "hotkeys"@, "hotkeys"@);
    let a = match u.ai_config {
        Some(v) => ai_writes(v),
        None => Seq::empty(),
    };
    let y = match u.sync_config {
        Some(v) => sync_writes(v),
        None => Seq::empty(),
    };
    let o = write_if(opt_view(u.floating_card_opacity_text), "floating_card_opacity"@, "floating card opacity"@);
    lemma_write_if(opt_view(u.theme), "theme"@, "theme"@, key);
    lemma_write_if(opt_view(u.hotkeys_json), "hotkeys"@, "hotkeys"@, key);
    lemma_write_if(opt_view(u.floating_card_opacity_text), "floating_card_opacity"@, "floating card opacity"@, key);
    lemma_last_written_concat(t, h, key);
    lemma_last_written_concat(t + h, a, key);
    lemma_last_written_concat(t + h + a, y, key);
    lemma_last_written_concat(t + h + a + y, o, key);
    match u.ai_config {
        Some(v) => {
            let n = match i64_member(v, "max_tokens"@) {
                Some(k) => Some(int_text(k as int)),
                None => None,
            };
            lemma_write_if(str_member(v, "api_key"@), "ai_api_key"@, "AI API key"@, key);
            lemma_write_if(str_member(v, "model"@), "ai_model_name"@, "AI model"@, key);
            lemma_write_if(str_member(v, "api_endpoint"@), "ai_api_endpoint"@, "AI endpoint"@, key);
            lemma_write_if(n, "ai_max_tokens"@, "AI max_tokens"@, key);
            lemma_four_writes(
                write_if(str_member(v, "api_key"@), "ai_api_key"@, "AI API key"@),
                write_if(str_member(v, "model"@), "ai_model_name"@, "AI model"@),
                write_if(str_member(v, "api_endpoint"@), "ai_api_endpoint"@, "AI endpoint"@),
                write_if(n, "ai_max_tokens"@, "AI max_tokens"@),
                key,
            );
            assert(last_written(a, key) == ai_part(u, key));
        },
        None => {
            assert(last_written(a, key) == ai_part(u, key));
        },
    }
    match u.sync_config {
        Some(v) => {
            let n = match i64_member(v, "sync_interval"@) {
                Some(k) => Some(int_text(k as int)),
                None => None,
            };
            let b = match bool_member(v, "auto_sync"@) {
                Some(b) => Some(bool_text(b)),
                None => None,
            };
            lemma_write_if(str_member(v, "server_url"@), "sync_server_url"@, "sync server URL"@, key);
            lemma_write_if(n, "sync_interval"@, "sync interval"@, key);
            lemma_write_if(str_member(v, "device_id"@), "sync_device_id"@, "sync device ID"@, key);
            lemma_write_if(b, "sync_auto_sync"@, "sync auto_sync"@, key);
            lemma_four_writes(
                write_if(str_member(v, "server_url"@), "sync_server_url"@, "sync server URL"@),
                write_if(n, "sync_interval"@, "sync interval"@),
                write_if(str_member(v, "device_id"@), "sync_device_id"@, "sync device ID"@),
                write_if(b, "sync_auto_sync"@, "sync auto_sync"@),
                key,
            );
            assert(last_written(y, key) == sync_part(u, key));
        },
        None => {
            assert(last_written(y, key) == sync_part(u, key));
        },
    }
}

/// Reading the settings back after an update gives every setting the update wrote the
/// value it wrote, and every other setting what was stored before; a stored integer reads
/// back as itself when it is an `i32`, and a stored `auto_sync` as itself.
pub proof fn lemma_settings_roundtrip(u: SettingsUpdate, table: Map<Seq<char>, Seq<char>>, s: StoredSettings)
    requires
        stored_from_table(s, apply_writes(table, update_writes(u))),
    ensures
        opt_view(s.theme) == or_view(opt_view(u.theme), stored_value(table, "theme"@)),
        opt_view(s.hotkeys) == or_view(opt_view(u.hotkeys_json), stored_value(table, "hotkeys"@)),
        opt_view(s.floating_card_opacity) == or_view(
            opt_view(u.floating_card_opacity_text),
            stored_value(table, "floating_card_opacity"@),
        ),
        opt_view(s.ai_api_key) == or_view(ai_text(u, "api_key"@), stored_value(table, "ai_api_key"@)),
        opt_view(s.ai_model_name) == or_view(ai_text(u, "model"@), stored_value(table, "ai_model_name"@)),
        opt_view(s.ai_api_endpoint) == or_view(ai_text(u, "api_endpoint"@), stored_value(table, "ai_api_endpoint"@)),
        opt_view(s.ai_max_tokens) == or_view(
            int_text_of(group_int(u.ai_config, "max_tokens"@)),
            stored_value(table, "ai_max_tokens"@),
        ),
        opt_view(s.sync_server_url) == or_view(sync_text(u, "server_url"@), stored_value(table, "sync_server_url"@)),
        opt_view(s.sync_interval) == or_view(
            int_text_of(group_int(u.sync_config, "sync_interval"@)),
            stored_value(table, "sync_interval"@),
        ),
        opt_view(s.sync_device_id) == or_view(sync_text(u, "device_id"@), stored_value(table, "sync_device_id"@)),
        sync_auto(u) is Some ==> opt_view(s.sync_auto_sync) == Some(bool_text(sync_auto(u)->0)),
        sync_auto(u) is None ==> opt_view(s.sync_auto_sync) == stored_value(table, "sync_auto_sync"@),
        group_int(u.ai_config, "max_tokens"@) matches Some(n) ==> (i32::MIN <= n <= i32::MAX ==> i32_or(
            opt_view(s.ai_max_tokens),
            4096,
        ) == n),
        group_int(u.sync_config, "sync_interval"@) matches Some(n) ==> (i32::MIN <= n <= i32::MAX ==> i32_or(
            opt_view(s.sync_interval),
            30,
        ) == n),
        sync_auto(u) matches Some(b) ==> bool_or_false(opt_view(s.sync_auto_sync)) == b,
{
    lemma_setting_keys();
    let w = update_writes(u);
    let after = apply_writes(table, w);
    lemma_apply_writes(table, w, "theme"@);
    lemma_apply_writes(table, w, "hotkeys"@);
    lemma_apply_writes(table, w, "floating_card_opacity"@);
    lemma_apply_writes(table, w, "ai_api_key"@);
    lemma_apply_writes(table, w, "ai_model_name"@);
    lemma_apply_writes(table, w, "ai_api_endpoint"@);
    lemma_apply_writes(table, w, "ai_max_tokens"@);
    lemma_apply_writes(table, w, "sync_server_url"@);
    lemma_apply_writes(table, w, "sync_interval"@);
    lemma_apply_writes(table, w, "sync_device_id"@);
    lemma_apply_writes(table, w, "sync_auto_sync"@);
    lemma_update_last_written(u, "theme"@);
    lemma_update_last_written(u, "hotkeys"@);
    lemma_update_last_written(u, "floating_card_opacity"@);
    lemma_update_last_written(u, "ai_api_key"@);
    lemma_update_last_written(u, "ai_model_name"@);
    lemma_update_last_written(u, "ai_api_endpoint"@);
    lemma_update_last_written(u, "ai_max_tokens"@);
    lemma_update_last_written(u, "sync_server_url"@);
    lemma_update_last_written(u, "sync_interval"@);
    lemma_update_last_written(u, "sync_device_id"@);
    lemma_update_last_written(u, "sync_auto_sync"@);
    if let Some(n) = group_int(u.ai_config, "max_tokens"@) {
        if i32::MIN <= n <= i32::MAX {
            lemma_parse_i32_text(n as int);
        }
    }
    if let Some(n) = group_int(u.sync_config, "sync_interval"@) {
        if i32::MIN <= n <= i32::MAX {
            lemma_parse_i32_text(n as int);
        }
    }
    reveal_strlit("true");
    reveal_strlit("false");
    assert("false"@.len() != "true"@.len());
}

/// The error of a failed settings write: "Failed to save <label>: <error>".
pub fn write_error(label: &str, error: &str) -> (e: String)
    ensures
        e@ == "Failed to save "@ + label@ + ": "@ + error@,
{
    let mut e = concat2("Failed to save ", label);
    e.append(": ");
    e.append(error);
    e
}

} // verus!
