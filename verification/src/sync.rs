//! Synchronisation rules: the sync configuration and how it is stored, the status the
//! engine reports, the server URLs, and which remote changes are applied
//! (last writer wins).
use vstd::prelude::*;
use crate::models::SyncLogEntry;
use crate::ai::{opt_view, pair_views};
use crate::text::{
    str_eq, owned, concat2, concat3, u64_text, decimal, parse_u64, parse_unsigned, text_greater,
    text_less, trim_end_matches_char, trim_end_char, lemma_parse_decimal,
    lemma_text_less_irreflexive, lemma_text_less_asymmetric, lemma_text_less_total,
    lemma_text_less_transitive,
};
use crate::outside::{new_record_id, is_uuid_v7_text};

verus! {

/// How this device reaches the sync server.
#[derive(Debug, Clone)]
pub struct SyncConfig {
    pub server_url: String,
    pub api_key: String,
    pub device_id: String,
    pub sync_interval_secs: u64,
}

/// What a sync configuration holds.
pub struct SyncConfigView {
    pub server_url: Seq<char>,
    pub api_key: Seq<char>,
    pub device_id: Seq<char>,
    pub sync_interval_secs: u64,
}

impl View for SyncConfig {
    type V = SyncConfigView;

    open spec fn view(&self) -> SyncConfigView {
        SyncConfigView {
            server_url: self.server_url@,
            api_key: self.api_key@,
            device_id: self.device_id@,
            sync_interval_secs: self.sync_interval_secs,
        }
    }
}

impl Default for SyncConfig {
    /// No server, no key, a fresh device id and a 30-second interval.
    fn default() -> (c: Self)
        ensures
            c.server_url@ == Seq::<char>::empty(),
            c.api_key@ == Seq::<char>::empty(),
            is_uuid_v7_text(c.device_id@),
            c.sync_interval_secs == 30,
    {
        SyncConfig {
            server_url: String::new(),
            api_key: String::new(),
            device_id: new_record_id(),
            sync_interval_secs: 30,
        }
    }
}

impl SyncConfig {
    /// Whether a server and a key are set.
    pub open spec fn configured(self) -> bool {
        self.server_url@.len() > 0 && self.api_key@.len() > 0
    }

    pub fn is_configured(&self) -> (res: bool)
        ensures
            res == self.configured(),
    {
        !self.server_url.as_str().is_empty() && !self.api_key.as_str().is_empty()
    }
}

/// The sync interval given by the stored setting, 30 seconds when absent or unreadable.
pub open spec fn interval_from(v: Option<Seq<char>>) -> u64 {
    match v {
        Some(t) => match parse_unsigned(t, u64::MAX as nat) {
            Some(n) => n as u64,
            None => 30,
        },
        None => 30,
    }
}

/// The sync configuration from the device id and the stored settings `sync_server_url`,
/// `sync_api_key` and `sync_interval_secs`; without a device id a fresh one is used.
pub fn sync_config_from_settings(
    device_id: Option<String>,
    server_url: Option<String>,
    api_key: Option<String>,
    interval: Option<String>,
) -> (c: SyncConfig)
    ensures
        c.server_url@ == (match opt_view(server_url) {
            Some(u) => u,
            None => Seq::empty(),
        }),
        c.api_key@ == (match opt_view(api_key) {
            Some(k) => k,
            None => Seq::empty(),
        }),
        match device_id {
            Some(d) => c.device_id@ == d@,
            None => is_uuid_v7_text(c.device_id@),
        },
        c.sync_interval_secs == interval_from(opt_view(interval)),
{
    let mut config = SyncConfig::default();
    if let Some(id) = device_id {
        config.device_id = id;
    }
    if let Some(url) = server_url {
        config.server_url = url;
    }
    if let Some(key) = api_key {
        config.api_key = key;
    }
    if let Some(t) = interval {
        if let Some(secs) = parse_u64(t.as_str()) {
            config.sync_interval_secs = secs;
        }
    }
    config
}

/// The settings a sync configuration is stored under, in the order they are written (the
/// device id is stored apart, when it is first made).
pub open spec fn sync_config_pairs(c: SyncConfigView) -> Seq<(Seq<char>, Seq<char>)> {
    seq![
        ("sync_server_url"@, c.server_url),
        ("sync_api_key"@, c.api_key),
        ("sync_interval_secs"@, decimal(c.sync_interval_secs as nat)),
    ]
}

/// The settings writes that store a sync configuration.
pub fn sync_config_settings(config: &SyncConfig) -> (pairs: Vec<(String, String)>)
    ensures
        pair_views(pairs@) == sync_config_pairs(config@),
{
    let mut pairs: Vec<(String, String)> = Vec::new();
    pairs.push((owned("sync_server_url"), config.server_url.clone()));
    pairs.push((owned("sync_api_key"), config.api_key.clone()));
    pairs.push((owned("sync_interval_secs"), u64_text(config.sync_interval_secs)));
    assert(pair_views(pairs@) =~= sync_config_pairs(config@));
    pairs
}

/// Storing a sync configuration and reading it back (with its device id) gives the
/// configuration.
pub proof fn lemma_sync_config_roundtrip(c: SyncConfigView)
    ensures
        interval_from(Some(sync_config_pairs(c)[2].1)) == c.sync_interval_secs,
        sync_config_pairs(c)[0].1 == c.server_url,
        sync_config_pairs(c)[1].1 == c.api_key,
{
    lemma_parse_decimal(c.sync_interval_secs as nat, u64::MAX as nat);
}

/// What the sync engine reports.
#[derive(Debug, Clone, PartialEq)]
pub struct SyncStatus {
    pub is_syncing: bool,
    pub last_sync_at: Option<String>,
    pub last_error: Option<String>,
    pub pending_changes: u64,
    pub is_online: bool,
}

impl SyncStatus {
    /// The status of an engine that has not synchronised yet: idle and online.
    pub fn initial() -> (s: SyncStatus)
        ensures
            !s.is_syncing,
            s.last_sync_at is None,
            s.last_error is None,
            s.pending_changes == 0,
            s.is_online,
    {
        SyncStatus {
            is_syncing: false,
            last_sync_at: None,
            last_error: None,
            pending_changes: 0,
            is_online: true,
        }
    }
}

/// The periodic round starts: syncing and online; the rest is kept.
pub fn status_sync_started(s: &mut SyncStatus)
    ensures
        final(s).is_syncing,
        final(s).is_online,
        final(s).last_sync_at == old(s).last_sync_at,
        final(s).last_error == old(s).last_error,
        final(s).pending_changes == old(s).pending_changes,
{
    s.is_syncing = true;
    s.is_online = true;
}

/// The database could not be opened: the round ends offline with the error.
pub fn status_database_failed(s: &mut SyncStatus, error: &str)
    ensures
        !final(s).is_syncing,
        !final(s).is_online,
        opt_view(final(s).last_error) == Some("数据库连接失败: "@ + error@),
        final(s).last_sync_at == old(s).last_sync_at,
        final(s).pending_changes == old(s).pending_changes,
{
    s.is_syncing = false;
    s.last_error = Some(concat2("数据库连接失败: ", error));
    s.is_online = false;
}

/// Pushing failed: the error is kept and the engine counts as offline.
pub fn status_push_failed(s: &mut SyncStatus, error: &str)
    ensures
        !final(s).is_online,
        opt_view(final(s).last_error) == Some("推送失败: "@ + error@),
        final(s).is_syncing == old(s).is_syncing,
        final(s).last_sync_at == old(s).last_sync_at,
        final(s).pending_changes == old(s).pending_changes,
{
    s.last_error = Some(concat2("推送失败: ", error));
    s.is_online = false;
}

/// Pulling failed: the error is kept.
pub fn status_pull_failed(s: &mut SyncStatus, error: &str)
    ensures
        opt_view(final(s).last_error) == Some("拉取失败: "@ + error@),
        final(s).is_online == old(s).is_online,
        final(s).is_syncing == old(s).is_syncing,
        final(s).last_sync_at == old(s).last_sync_at,
        final(s).pending_changes == old(s).pending_changes,
{
    s.last_error = Some(concat2("拉取失败: ", error));
}

/// The periodic round has ended: idle, online, synchronised at `now` with `pending`
/// changes left; the last error is kept.
pub fn status_round_finished(s: &mut SyncStatus, now: String, pending: u64)
    ensures
        !final(s).is_syncing,
        final(s).is_online,
        opt_view(final(s).last_sync_at) == Some(now@),
        final(s).pending_changes == pending,
        final(s).last_error == old(s).last_error,
{
    s.is_syncing = false;
    s.last_sync_at = Some(now);
    s.is_online = true;
    s.pending_changes = pending;
}

/// A manual synchronisation has succeeded: online, no error, synchronised at `now` with
/// `pending` changes left.
pub fn status_manual_sync_succeeded(s: &mut SyncStatus, now: String, pending: u64)
    ensures
        final(s).is_online,
        final(s).last_error is None,
        opt_view(final(s).last_sync_at) == Some(now@),
        final(s).pending_changes == pending,
        final(s).is_syncing == old(s).is_syncing,
{
    s.last_sync_at = Some(now);
    s.last_error = None;
    s.is_online = true;
    s.pending_changes = pending;
}

/// The end of a manual synchronisation, from what its push and its pull gave (the pull
/// is made only when the push succeeded, and `pending` is the count of changes left after
/// it): a failed push gives "推送失败: " and its error, a failed pull "拉取失败: " and its
/// error, and the status is then left as it was; after both succeed the status is that of
/// a successful manual synchronisation.
pub fn finish_manual_sync(
    s: &mut SyncStatus,
    push: &Result<usize, String>,
    pull: &Option<Result<usize, String>>,
    now: String,
    pending: u64,
) -> (r: Result<(), String>)
    requires
        (push is Ok) == (pull is Some),
    ensures
        push matches Err(e) ==> (r matches Err(m) && m@ == "推送失败: "@ + e@) && *final(s) == *old(s),
        pull matches Some(Err(e)) ==> (r matches Err(m) && m@ == "拉取失败: "@ + e@) && *final(s) == *old(s),
        pull matches Some(Ok(_)) ==> {
            &&& r is Ok
            &&& final(s).is_online
            &&& final(s).last_error is None
            &&& opt_view(final(s).last_sync_at) == Some(now@)
            &&& final(s).pending_changes == pending
            &&& final(s).is_syncing == old(s).is_syncing
        },
{
    match push {
        Err(e) => Err(concat2("推送失败: ", e.as_str())),
        Ok(_) => match pull {
            Some(Err(e)) => Err(concat2("拉取失败: ", e.as_str())),
            Some(Ok(_)) => {
                status_manual_sync_succeeded(s, now, pending);
                Ok(())
            },
            None => Ok(()),
        },
    }
}

/// What the periodic engine does after each wait.
#[derive(Debug, Clone, Copy, PartialEq, Eq)]
pub enum TickAction {
    /// The engine was stopped: leave the loop.
    Stop,
    /// Nothing to do this time: wait again.
    Skip,
    /// Synchronise now.
    Sync,
}

/// The decision after each wait: stop when the engine no longer runs, skip while there is
/// no application handle or no configuration, else synchronise.
pub fn periodic_tick(running: bool, has_handle: bool, configured: bool) -> (a: TickAction)
    ensures
        a == (if !running {
            TickAction::Stop
        } else if !has_handle || !configured {
            TickAction::Skip
        } else {
            TickAction::Sync
        }),
{
    if !running {
        TickAction::Stop
    } else if !has_handle || !configured {
        TickAction::Skip
    } else {
        TickAction::Sync
    }
}

/// A manual synchronisation needs a configured server and key.
pub fn check_sync_configured(config: &SyncConfig) -> (res: Result<(), String>)
    ensures
        res is Ok <==> config.configured(),
        match res {
            Err(e) => e@ == "同步未配置，请先设置服务器地址和 API Key"@,
            Ok(_) => true,
        },
{
    if config.is_configured() {
        Ok(())
    } else {
        Err(owned("同步未配置，请先设置服务器地址和 API Key"))
    }
}

/// The URL local changes are pushed to.
pub open spec fn push_url_for(server_url: Seq<char>) -> Seq<char> {
    trim_end_char(server_url, '/') + "/api/sync/push"@
}

/// The URL remote changes of other devices are pulled from.
pub open spec fn pull_url_for(server_url: Seq<char>, device_id: Seq<char>) -> Seq<char> {
    trim_end_char(server_url, '/') + "/api/sync/pull?device_id="@ + device_id
}

pub fn push_url(server_url: &str) -> (url: String)
    ensures
        url@ == push_url_for(server_url@),
{
    let base = trim_end_matches_char(server_url, '/');
    concat2(base.as_str(), "/api/sync/push")
}

pub fn pull_url(server_url: &str, device_id: &str) -> (url: String)
    ensures
        url@ == pull_url_for(server_url@, device_id@),
{
    let base = trim_end_matches_char(server_url, '/');
    concat3(base.as_str(), "/api/sync/pull?device_id=", device_id)
}

/// Trailing slashes of the server address do not change the URLs.
pub proof fn lemma_urls_ignore_trailing_slash(server_url: Seq<char>, device_id: Seq<char>)
    ensures
        push_url_for(server_url.push('/')) == push_url_for(server_url),
        pull_url_for(server_url.push('/'), device_id) == pull_url_for(server_url, device_id),
{
    assert(server_url.push('/').drop_last() =~= server_url);
}

/// The ids of log entries, in order.
pub fn entry_ids(entries: &Vec<SyncLogEntry>) -> (ids: Vec<String>)
    ensures
        ids.len() == entries.len(),
        forall|i: int| 0 <= i < ids.len() ==> #[trigger] ids@[i]@ == entries@[i].id@,
{
    let mut ids: Vec<String> = Vec::new();
    let mut i: usize = 0;
    while i < entries.len()
        invariant
            i <= entries.len(),
            ids.len() == i,
            forall|j: int| 0 <= j < i ==> #[trigger] ids@[j]@ == entries@[j].id@,
        decreases entries.len() - i,
    {
        ids.push(entries[i].id.clone());
        i = i + 1;
    }
    ids
}

/// The numbered placeholders `?1, ?2, ..., ?n`.
pub open spec fn placeholders(n: nat) -> Seq<char>
    decreases n,
{
    if n == 0 {
        Seq::empty()
    } else if n == 1 {
        seq!['?', '1']
    } else {
        placeholders((n - 1) as nat) + ", "@ + seq!['?'] + decimal(n)
    }
}

/// The statement that marks `n` log entries as synchronised; none for no entries.
pub open spec fn mark_synced_sql_for(n: nat) -> Option<Seq<char>> {
    if n == 0 {
        None
    } else {
        Some("UPDATE sync_log SET synced = 1 WHERE id IN ("@ + placeholders(n) + ")"@)
    }
}

/// The statement that marks `n` log entries, bound to their ids in order, as synchronised.
pub fn mark_synced_sql(n: usize) -> (sql: Option<String>)
    ensures
        match sql {
            Some(s) => mark_synced_sql_for(n as nat) == Some(s@),
            None => mark_synced_sql_for(n as nat) is None,
        },
{
    if n == 0 {
        return None;
    }
    let mut list = owned("?1");
    assert(list@ =~= placeholders(1)) by {
        reveal_strlit("?1");
    }
    let mut i: usize = 1;
    while i < n
        invariant
            1 <= i <= n,
            list@ == placeholders(i as nat),
        decreases n - i,
    {
        let k = u64_text((i + 1) as u64);
        list.append(", ?");
        list.append(k.as_str());
        i = i + 1;
        assert(list@ =~= placeholders(i as nat)) by {
            reveal_strlit(", ?");
            reveal_strlit(", ");
        }
    }
    Some(concat3("UPDATE sync_log SET synced = 1 WHERE id IN (", list.as_str(), ")"))
}

/// The kinds of entity the log carries changes of.
#[derive(Debug, Clone, Copy, PartialEq, Eq)]
pub enum EntityKind {
    Task,
    Client,
    Project,
}

/// What becomes of a remote log entry.
#[derive(Debug, Clone, Copy, PartialEq, Eq)]
pub enum RemoteAction {
    /// The entry came from this device: it is skipped.
    SkipOwnDevice,
    /// Insert the entity of the entry's data, unless it exists.
    Create(EntityKind),
    /// Overwrite the stored entity with the entry's data, if the data is newer.
    Update(EntityKind),
    /// Delete the entity the entry names.
    Delete(EntityKind),
    /// An entity type or operation this device does not know: the entry is skipped.
    Unknown,
}

/// The entity kind a log's entity type names.
pub open spec fn entity_kind_of(t: Seq<char>) -> Option<EntityKind> {
    if t == "task"@ {
        Some(EntityKind::Task)
    } else if t == "client"@ {
        Some(EntityKind::Client)
    } else if t == "project"@ {
        Some(EntityKind::Project)
    } else {
        None
    }
}

/// What becomes of a remote entry, given the id of this device.
pub open spec fn remote_action_for(entry: SyncLogEntry, local_device_id: Seq<char>) -> RemoteAction {
    if entry.device_id@ == local_device_id {
        RemoteAction::SkipOwnDevice
    } else {
        match entity_kind_of(entry.entity_type@) {
            Some(k) => if entry.operation@ == "create"@ {
                RemoteAction::Create(k)
            } else if entry.operation@ == "update"@ {
                RemoteAction::Update(k)
            } else if entry.operation@ == "delete"@ {
                RemoteAction::Delete(k)
            } else {
                RemoteAction::Unknown
            },
            None => RemoteAction::Unknown,
        }
    }
}

/// The names of entity types and operations in a sync log.
proof fn lemma_log_names()
    ensures
        "task"@ != "client"@,
        "task"@ != "project"@,
        "client"@ != "project"@,
        "create"@ != "update"@,
        "create"@ != "delete"@,
        "update"@ != "delete"@,
{
    reveal_strlit("task");
    reveal_strlit("client");
    reveal_strlit("project");
    reveal_strlit("create");
    reveal_strlit("update");
    reveal_strlit("delete");
    assert("task"@.len() != "client"@.len());
    assert("task"@.len() != "project"@.len());
    assert("client"@.len() != "project"@.len());
    assert("create"@[0] != "update"@[0]);
    assert("create"@[0] != "delete"@[0]);
    assert("update"@[0] != "delete"@[0]);
}

/// An entry of another device about a task, client or project is created, updated or
/// deleted locally as its operation says, for the entity kind its type names; an entry of
/// any other type or operation is skipped as unknown, and an entry of this device is
/// skipped as its own.
pub proof fn lemma_remote_actions(entry: SyncLogEntry, local_device_id: Seq<char>)
    ensures
        entry.device_id@ == local_device_id ==> remote_action_for(entry, local_device_id)
            == RemoteAction::SkipOwnDevice,
        entry.device_id@ != local_device_id ==> {
            let a = remote_action_for(entry, local_device_id);
            let op = entry.operation@;
            let t = entry.entity_type@;
            &&& t == "task"@ && op == "create"@ ==> a == RemoteAction::Create(EntityKind::Task)
            &&& t == "task"@ && op == "update"@ ==> a == RemoteAction::Update(EntityKind::Task)
            &&& t == "task"@ && op == "delete"@ ==> a == RemoteAction::Delete(EntityKind::Task)
            &&& t == "client"@ && op == "create"@ ==> a == RemoteAction::Create(EntityKind::Client)
            &&& t == "client"@ && op == "update"@ ==> a == RemoteAction::Update(EntityKind::Client)
            &&& t == "client"@ && op == "delete"@ ==> a == RemoteAction::Delete(EntityKind::Client)
            &&& t == "project"@ && op == "create"@ ==> a == RemoteAction::Create(EntityKind::Project)
            &&& t == "project"@ && op == "update"@ ==> a == RemoteAction::Update(EntityKind::Project)
            &&& t == "project"@ && op == "delete"@ ==> a == RemoteAction::Delete(EntityKind::Project)
            &&& (t != "task"@ && t != "client"@ && t != "project"@) ==> a == RemoteAction::Unknown
            &&& (op != "create"@ && op != "update"@ && op != "delete"@) ==> a == RemoteAction::Unknown
        },
{
    lemma_log_names();
}

/// What becomes of a remote entry.
pub fn classify_remote_entry(entry: &SyncLogEntry, local_device_id: &str) -> (a: RemoteAction)
    ensures
        a == remote_action_for(*entry, local_device_id@),
{
    if str_eq(entry.device_id.as_str(), local_device_id) {
        return RemoteAction::SkipOwnDevice;
    }
    let t = entry.entity_type.as_str();
    let kind = if str_eq(t, "task") {
        EntityKind::Task
    } else if str_eq(t, "client") {
        EntityKind::Client
    } else if str_eq(t, "project") {
        EntityKind::Project
    } else {
        return RemoteAction::Unknown;
    };
    let op = entry.operation.as_str();
    if str_eq(op, "create") {
        RemoteAction::Create(kind)
    } else if str_eq(op, "update") {
        RemoteAction::Update(kind)
    } else if str_eq(op, "delete") {
        RemoteAction::Delete(kind)
    } else {
        RemoteAction::Unknown
    }
}

/// A remote creation is applied when no local entity has its id; `existing` is the count
/// of local entities with that id, absent when it could not be read (read as none).
pub fn should_apply_create(existing: Option<i64>) -> (res: bool)
    ensures
        res == !(match existing {
            Some(n) => n > 0,
            None => false,
        }),
{
    match existing {
        Some(n) => !(n > 0),
        None => true,
    }
}

/// Whether a remote entry counts as applied: a delete always does, a create or an update
/// when its data was written, anything else never.
pub fn counts_as_applied(action: RemoteAction, written: bool) -> (b: bool)
    ensures
        b == match action {
            RemoteAction::Delete(_) => true,
            RemoteAction::Create(_) | RemoteAction::Update(_) => written,
            _ => false,
        },
{
    match action {
        RemoteAction::Delete(_) => true,
        RemoteAction::Create(_) | RemoteAction::Update(_) => written,
        _ => false,
    }
}

/// Last writer wins: a remote update is applied when the entity exists locally and the
/// remote `updated_at` comes strictly after the local one.
pub open spec fn lww_applies(local_updated_at: Option<Seq<char>>, remote_updated_at: Seq<char>) -> bool {
    match local_updated_at {
        Some(l) => text_less(l, remote_updated_at),
        None => false,
    }
}

pub fn should_apply_update(local_updated_at: &Option<String>, remote_updated_at: &str) -> (res: bool)
    ensures
        res == lww_applies(opt_view(*local_updated_at), remote_updated_at@),
{
    match local_updated_at {
        Some(l) => text_greater(remote_updated_at, l.as_str()),
        None => false,
    }
}

/// The local version of an entity (its `updated_at` and its data) after a remote update
/// of it is considered: replaced when last writer wins says so, else kept.
pub open spec fn after_remote_update(
    local: Option<(Seq<char>, Seq<char>)>,
    remote: (Seq<char>, Seq<char>),
) -> Option<(Seq<char>, Seq<char>)> {
    let local_time = match local {
        Some(v) => Some(v.0),
        None => None,
    };
    if lww_applies(local_time, remote.0) {
        Some(remote)
    } else {
        local
    }
}

/// Two remote updates of an entity with different `updated_at` leave the same version
/// whichever is applied first: the newest of the three.
pub proof fn lemma_remote_updates_commute(
    local: Option<(Seq<char>, Seq<char>)>,
    a: (Seq<char>, Seq<char>),
    b: (Seq<char>, Seq<char>),
)
    requires
        a.0 != b.0,
    ensures
        after_remote_update(after_remote_update(local, a), b) == after_remote_update(
            after_remote_update(local, b),
            a,
        ),
{
    if let Some(l) = local {
        lemma_text_less_total(a.0, b.0);
        lemma_text_less_asymmetric(a.0, b.0);
        lemma_text_less_irreflexive(l.0);
        lemma_text_less_asymmetric(l.0, a.0);
        lemma_text_less_asymmetric(l.0, b.0);
        if text_less(l.0, a.0) && text_less(a.0, b.0) {
            lemma_text_less_transitive(l.0, a.0, b.0);
        }
        if text_less(l.0, b.0) && text_less(b.0, a.0) {
            lemma_text_less_transitive(l.0, b.0, a.0);
        }
        if text_less(a.0, l.0) && text_less(l.0, b.0) {
            lemma_text_less_transitive(a.0, l.0, b.0);
        }
        if text_less(b.0, l.0) && text_less(l.0, a.0) {
            lemma_text_less_transitive(b.0, l.0, a.0);
        }
    }
}

/// Entries of this device are never applied to it; an update never replaces data of the
/// same time; of two versions at most one replaces the other; a missing entity is not
/// recreated by an update.
pub proof fn lemma_remote_rules(entry: SyncLogEntry, a: Seq<char>, b: Seq<char>)
    ensures
        remote_action_for(entry, entry.device_id@) == RemoteAction::SkipOwnDevice,
        !lww_applies(Some(a), a),
        !(lww_applies(Some(a), b) && lww_applies(Some(b), a)),
        !lww_applies(None, a),
{
    lemma_text_less_irreflexive(a);
    lemma_text_less_asymmetric(a, b);
}

} // verus!
