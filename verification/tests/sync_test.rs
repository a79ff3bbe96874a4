use snaptask::models::SyncLogEntry;
use snaptask::sync::{
    check_sync_configured, classify_remote_entry, counts_as_applied, finish_manual_sync, entry_ids, mark_synced_sql, periodic_tick, pull_url, push_url,
    should_apply_create, should_apply_update, status_database_failed, status_manual_sync_succeeded,
    status_pull_failed, status_push_failed, status_round_finished, status_sync_started, sync_config_from_settings,
    sync_config_settings, EntityKind, RemoteAction, SyncConfig, SyncStatus, TickAction,
};

fn entry(device: &str, entity_type: &str, op: &str) -> SyncLogEntry {
    SyncLogEntry {
        id: "e1".to_string(),
        entity_type: entity_type.to_string(),
        entity_id: "x".to_string(),
        operation: op.to_string(),
        data: None,
        timestamp: "2024-01-01 00:00:00".to_string(),
        synced: false,
        device_id: device.to_string(),
    }
}

#[test]
fn default_config() {
    let c = SyncConfig::default();
    assert_eq!(c.server_url, "");
    assert_eq!(c.api_key, "");
    assert_eq!(c.sync_interval_secs, 30);
    assert_eq!(c.device_id.len(), 36);
    assert!(!c.is_configured());
}

#[test]
fn configured_needs_server_and_key() {
    let mut c = SyncConfig::default();
    c.server_url = "https://s".to_string();
    assert!(!c.is_configured());
    assert_eq!(check_sync_configured(&c).unwrap_err(), "同步未配置，请先设置服务器地址和 API Key");
    c.api_key = "k".to_string();
    assert!(c.is_configured());
    assert!(check_sync_configured(&c).is_ok());
}

#[test]
fn config_storage_round_trip() {
    let c = SyncConfig {
        server_url: "https://s/".to_string(),
        api_key: "key".to_string(),
        device_id: "dev".to_string(),
        sync_interval_secs: 45,
    };
    let pairs = sync_config_settings(&c);
    assert_eq!(pairs[0], ("sync_server_url".to_string(), "https://s/".to_string()));
    assert_eq!(pairs[2], ("sync_interval_secs".to_string(), "45".to_string()));
    let back = sync_config_from_settings(
        Some("dev".to_string()),
        Some(pairs[0].1.clone()),
        Some(pairs[1].1.clone()),
        Some(pairs[2].1.clone()),
    );
    assert_eq!(back.server_url, c.server_url);
    assert_eq!(back.api_key, c.api_key);
    assert_eq!(back.device_id, c.device_id);
    assert_eq!(back.sync_interval_secs, 45);
    let bad = sync_config_from_settings(None, None, None, Some("soon".to_string()));
    assert_eq!(bad.sync_interval_secs, 30);
    assert_eq!(bad.device_id.len(), 36);
}

#[test]
fn status_changes() {
    let mut s = SyncStatus::initial();
    assert!(!s.is_syncing && s.is_online && s.pending_changes == 0);
    status_sync_started(&mut s);
    assert!(s.is_syncing);
    status_push_failed(&mut s, "boom");
    assert!(!s.is_online);
    assert_eq!(s.last_error.as_deref(), Some("推送失败: boom"));
    status_pull_failed(&mut s, "bang");
    assert_eq!(s.last_error.as_deref(), Some("拉取失败: bang"));
    status_round_finished(&mut s, "2024-01-01T00:00:00+00:00".to_string(), 3);
    assert!(!s.is_syncing && s.is_online);
    assert_eq!(s.pending_changes, 3);
    assert_eq!(s.last_error.as_deref(), Some("拉取失败: bang"));
    status_database_failed(&mut s, "locked");
    assert_eq!(s.last_error.as_deref(), Some("数据库连接失败: locked"));
    assert!(!s.is_online);
    status_manual_sync_succeeded(&mut s, "now".to_string(), 0);
    assert_eq!(s.last_error, None);
    assert_eq!(s.last_sync_at.as_deref(), Some("now"));
}

#[test]
fn tick_decisions() {
    assert_eq!(periodic_tick(false, true, true), TickAction::Stop);
    assert_eq!(periodic_tick(true, false, true), TickAction::Skip);
    assert_eq!(periodic_tick(true, true, false), TickAction::Skip);
    assert_eq!(periodic_tick(true, true, true), TickAction::Sync);
}

#[test]
fn urls() {
    assert_eq!(push_url("https://sync.example.com//"), "https://sync.example.com/api/sync/push");
    assert_eq!(pull_url("https://sync.example.com", "dev-1"), "https://sync.example.com/api/sync/pull?device_id=dev-1");
}

#[test]
fn mark_synced_statement() {
    assert_eq!(mark_synced_sql(0), None);
    assert_eq!(mark_synced_sql(1).unwrap(), "UPDATE sync_log SET synced = 1 WHERE id IN (?1)");
    assert_eq!(mark_synced_sql(3).unwrap(), "UPDATE sync_log SET synced = 1 WHERE id IN (?1, ?2, ?3)");
    let sql = mark_synced_sql(12).unwrap();
    assert!(sql.ends_with("?10, ?11, ?12)"));
    let entries = vec![entry("d", "task", "create"), SyncLogEntry { id: "e2".to_string(), ..entry("d", "task", "create") }];
    assert_eq!(entry_ids(&entries), vec!["e1".to_string(), "e2".to_string()]);
}

#[test]
fn remote_entries() {
    assert_eq!(classify_remote_entry(&entry("me", "task", "create"), "me"), RemoteAction::SkipOwnDevice);
    assert_eq!(classify_remote_entry(&entry("other", "task", "create"), "me"), RemoteAction::Create(EntityKind::Task));
    assert_eq!(classify_remote_entry(&entry("other", "client", "update"), "me"), RemoteAction::Update(EntityKind::Client));
    assert_eq!(classify_remote_entry(&entry("other", "project", "delete"), "me"), RemoteAction::Delete(EntityKind::Project));
    assert_eq!(classify_remote_entry(&entry("other", "reminder", "create"), "me"), RemoteAction::Unknown);
    assert_eq!(classify_remote_entry(&entry("other", "task", "merge"), "me"), RemoteAction::Unknown);
}

#[test]
fn last_writer_wins() {
    assert!(should_apply_create(Some(0)));
    assert!(should_apply_create(None));
    assert!(!should_apply_create(Some(1)));
    let local = Some("2024-01-01 10:00:00".to_string());
    assert!(should_apply_update(&local, "2024-01-01 10:00:01"));
    assert!(!should_apply_update(&local, "2024-01-01 10:00:00"));
    assert!(!should_apply_update(&local, "2023-12-31 23:59:59"));
    assert!(!should_apply_update(&None, "2099-01-01 00:00:00"));
}

#[test]
fn manual_sync_outcomes() {
    let before = SyncStatus::initial();
    let mut s = before.clone();
    let r = finish_manual_sync(&mut s, &Err("timeout".to_string()), &None, "now".to_string(), 3);
    assert_eq!(r, Err("推送失败: timeout".to_string()));
    assert_eq!(s, before);
    let r = finish_manual_sync(&mut s, &Ok(2), &Some(Err("HTTP 500".to_string())), "now".to_string(), 3);
    assert_eq!(r, Err("拉取失败: HTTP 500".to_string()));
    assert_eq!(s, before);
    s.last_error = Some("old".to_string());
    s.is_online = false;
    let r = finish_manual_sync(&mut s, &Ok(2), &Some(Ok(1)), "2024-06-01T00:00:00Z".to_string(), 4);
    assert_eq!(r, Ok(()));
    assert!(s.is_online);
    assert_eq!(s.last_error, None);
    assert_eq!(s.last_sync_at.as_deref(), Some("2024-06-01T00:00:00Z"));
    assert_eq!(s.pending_changes, 4);
}

#[test]
fn remote_updates_in_either_order() {
    let newest = |local: &str, updates: &[&str]| {
        let mut cur = local.to_string();
        for u in updates {
            if should_apply_update(&Some(cur.clone()), u) {
                cur = u.to_string();
            }
        }
        cur
    };
    let a = "2024-01-02 00:00:00";
    let b = "2024-01-03 00:00:00";
    for local in ["2024-01-01 00:00:00", "2024-01-02 12:00:00", "2024-01-04 00:00:00"] {
        assert_eq!(newest(local, &[a, b]), newest(local, &[b, a]));
    }
    assert_eq!(newest("2024-01-01 00:00:00", &[a, b]), b);
}

#[test]
fn applied_entry_counting() {
    assert!(counts_as_applied(RemoteAction::Delete(EntityKind::Task), false));
    assert!(counts_as_applied(RemoteAction::Create(EntityKind::Client), true));
    assert!(!counts_as_applied(RemoteAction::Update(EntityKind::Project), false));
    assert!(!counts_as_applied(RemoteAction::SkipOwnDevice, true));
    assert!(!counts_as_applied(RemoteAction::Unknown, true));
}
