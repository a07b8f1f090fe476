//! The stored state of the community themes: the records read back from the
//! settings, which of them stay installed and which one is active, and the
//! settings that a change writes.
//!
//! Two facts come from the theme catalogue for each stored record: whether
//! its id is a catalogue id, and whether its stylesheet URL is the one the
//! catalogue gives for it today. The caller asks the catalogue and hands
//! them in; everything else is decided here.

use vstd::prelude::*;

use crate::json::JsonValue;
use crate::error::{is_custom, Error};
use crate::system::community_theme::{
    build_install_record, config_text, config_text_of, merge_install_record, merged_ids, opt_str,
    override_enabled, override_on, record_ids, sha256_hex_of, CommunityThemeInstallMetadata,
    CommunityThemeInstalledRecord, CommunityThemeManifest, ConfigureOperations, SUPERSEDED_MESSAGE, KEY_CSS_SNAPSHOT, KEY_ENABLED,
    KEY_ID, KEY_INSTALLED_THEMES, KEY_INSTALL_METADATA, KEY_OVERRIDE_CSS, KEY_OVERRIDE_ENABLED,
    KEY_VERSION, LEGACY_NASA_APOD_WALLPAPER_THEME_ID,
};
use crate::text::{str_eq, trim, trim_str};

verus! {

// ---------------------------------------------------------------------------
// Reading stored records

/// The boolean stored under `key`, if it is one.
pub open spec fn bool_field(value: JsonValue, key: Seq<char>) -> Option<bool> {
    match value.field(key) {
        Some(JsonValue::Bool(b)) => Some(b),
        _ => None,
    }
}

/// The string stored under `key`, if it is one.
pub open spec fn string_field(value: JsonValue, key: Seq<char>) -> Option<Seq<char>> {
    match value.field(key) {
        Some(JsonValue::String(s)) => Some(s@),
        _ => None,
    }
}

/// The stored metadata of an install, when the value is an object with a
/// theme id, a name and a version. Dark mode is on unless it is stored as
/// `false`; accent mode is on when stored as `true` or as `"app"`.
pub open spec fn stored_metadata_ok(value: JsonValue) -> bool {
    &&& value is Object
    &&& config_text_of(value.field("themeId"@)).len() > 0
    &&& config_text_of(value.field("themeName"@)).len() > 0
    &&& config_text_of(value.field("version"@)).len() > 0
}

pub open spec fn stored_metadata_matches(value: JsonValue, m: CommunityThemeInstallMetadata) -> bool {
    &&& m.theme_id@ == config_text_of(value.field("themeId"@))
    &&& m.theme_name@ == config_text_of(value.field("themeName"@))
    &&& m.version@ == config_text_of(value.field("version"@))
    &&& m.source_url@ == config_text_of(value.field("sourceUrl"@))
    &&& m.sha256@ == config_text_of(value.field("sha256"@))
    &&& m.installed_at@ == config_text_of(value.field("installedAt"@))
    &&& m.updated_at@ == config_text_of(value.field("updatedAt"@))
    &&& m.dark_mode == (bool_field(value, "darkMode"@) != Some(false))
    &&& m.accent_mode == (bool_field(value, "accentMode"@) == Some(true) || string_field(
        value,
        "accentMode"@,
    ) == Some("app"@))
}

/// The metadata fields of a stored install. The catalogue check of the id
/// is not made here.
pub fn stored_install_metadata(value: &JsonValue) -> (r: Option<CommunityThemeInstallMetadata>)
    ensures
        match r {
            Some(m) => stored_metadata_ok(*value) && stored_metadata_matches(*value, m),
            None => !stored_metadata_ok(*value),
        },
{
    if !matches!(value, JsonValue::Object(_)) {
        return None;
    }
    let theme_id = config_text(value.get("themeId"));
    let theme_name = config_text(value.get("themeName"));
    let version = config_text(value.get("version"));
    if theme_id.as_str().is_empty() || theme_name.as_str().is_empty() || version.as_str().is_empty() {
        return None;
    }
    let dark_mode = match value.get("darkMode") {
        Some(JsonValue::Bool(false)) => false,
        _ => true,
    };
    let accent_mode = match value.get("accentMode") {
        Some(JsonValue::Bool(true)) => true,
        Some(JsonValue::String(s)) => str_eq(s.as_str(), "app"),
        _ => false,
    };
    proof {
        reveal_strlit("app");
    }
    Some(
        CommunityThemeInstallMetadata {
            theme_id,
            theme_name,
            version,
            source_url: config_text(value.get("sourceUrl")),
            sha256: config_text(value.get("sha256")),
            installed_at: config_text(value.get("installedAt")),
            updated_at: config_text(value.get("updatedAt")),
            dark_mode,
            accent_mode,
        },
    )
}

/// A stored install is a record when its metadata is and it kept a
/// stylesheet with something but whitespace.
pub open spec fn stored_record_ok(value: JsonValue) -> bool {
    stored_metadata_ok(value) && trim(config_text_of(value.field("cssSnapshot"@))).len() > 0
}

pub fn stored_install_record(value: &JsonValue) -> (r: Option<CommunityThemeInstalledRecord>)
    ensures
        match r {
            Some(rec) => stored_record_ok(*value) && stored_metadata_matches(*value, rec.metadata)
                && rec.css_snapshot@ == config_text_of(value.field("cssSnapshot"@)),
            None => !stored_record_ok(*value),
        },
{
    let metadata = match stored_install_metadata(value) {
        Some(m) => m,
        None => return None,
    };
    let css_snapshot = config_text(value.get("cssSnapshot"));
    let t = trim_str(css_snapshot.as_str());
    if t.as_str().is_empty() {
        return None;
    }
    Some(CommunityThemeInstalledRecord { metadata, css_snapshot })
}

/// The stored installs that are records, in order.
pub open spec fn record_items(items: Seq<JsonValue>) -> Seq<JsonValue>
    decreases items.len(),
{
    if items.len() == 0 {
        Seq::empty()
    } else {
        let rest = record_items(items.drop_last());
        if stored_record_ok(items.last()) {
            rest.push(items.last())
        } else {
            rest
        }
    }
}

/// The record read from each stored install that is one, in order; nothing
/// unless the stored value is a list.
pub fn stored_install_records(value: &JsonValue) -> (r: Vec<CommunityThemeInstalledRecord>)
    ensures
        match *value {
            JsonValue::Array(items) => {
                &&& r.len() == record_items(items@).len()
                &&& forall|k: int|
                    0 <= k < r.len() ==> stored_metadata_matches(
                        #[trigger] record_items(items@)[k],
                        r@[k].metadata,
                    ) && r@[k].css_snapshot@ == config_text_of(
                        record_items(items@)[k].field("cssSnapshot"@),
                    )
            },
            _ => r.len() == 0,
        },
{
    let items = match value {
        JsonValue::Array(items) => items,
        _ => return Vec::new(),
    };
    let mut out: Vec<CommunityThemeInstalledRecord> = Vec::new();
    let mut i: usize = 0;
    while i < items.len()
        invariant
            i <= items.len(),
            out.len() == record_items(items@.take(i as int)).len(),
            forall|k: int|
                0 <= k < out.len() ==> stored_metadata_matches(
                    #[trigger] record_items(items@.take(i as int))[k],
                    out@[k].metadata,
                ) && out@[k].css_snapshot@ == config_text_of(
                    record_items(items@.take(i as int))[k].field("cssSnapshot"@),
                ),
        decreases items.len() - i,
    {
        let ghost prev = record_items(items@.take(i as int));
        assert(items@.take(i + 1).drop_last() =~= items@.take(i as int));
        assert(items@.take(i + 1).last() == items@[i as int]);
        match stored_install_record(&items[i]) {
            Some(rec) => {
                let ghost before = out@;
                out.push(rec);
                let ghost now = record_items(items@.take(i + 1));
                assert(now == prev.push(items@[i as int]));
                assert forall|k: int| 0 <= k < out.len() implies stored_metadata_matches(
                    #[trigger] now[k],
                    out@[k].metadata,
                ) && out@[k].css_snapshot@ == config_text_of(now[k].field("cssSnapshot"@)) by {
                    if k < before.len() {
                        assert(out@[k] == before[k]);
                        assert(now[k] == prev[k]);
                    }
                }
            },
            None => {
                assert(record_items(items@.take(i + 1)) == prev);
            },
        }
        i = i + 1;
    }
    assert(items@.take(items.len() as int) =~= items@);
    out
}

// ---------------------------------------------------------------------------
// Settling the stored state

/// A stored record with what the catalogue says of it.
#[derive(Clone, Debug)]
pub struct StoredThemeRecord {
    pub record: CommunityThemeInstalledRecord,
    /// Its theme id is a catalogue id.
    pub id_valid: bool,
    /// Its stylesheet URL is the catalogue's URL for its theme.
    pub current: bool,
}

/// What the settings hold, with the catalogue's word on each record.
#[derive(Debug)]
pub struct StoredThemeState {
    pub enabled: bool,
    pub active_theme_id: String,
    /// The metadata of the single install that older versions stored.
    pub legacy_metadata: Option<CommunityThemeInstallMetadata>,
    pub legacy_id_valid: bool,
    pub legacy_current: bool,
    pub legacy_css_snapshot: String,
    pub records: Vec<StoredThemeRecord>,
    pub override_css: String,
    /// The raw text of the override switch, when it is set.
    pub override_switch: Option<String>,
}

/// The themes as they stand after reading the settings.
#[derive(Debug)]
pub struct PersistedCommunityThemeState {
    pub records: Vec<CommunityThemeInstalledRecord>,
    pub active_record: Option<CommunityThemeInstalledRecord>,
    pub override_css: String,
    pub override_css_enabled: bool,
    /// The retired NASA APOD wallpaper theme was the active theme.
    pub legacy_apod_was_active: bool,
}

/// A record with its `current` flag.
pub type FlaggedRecord = (CommunityThemeInstalledRecord, bool);

pub open spec fn rec_id(x: FlaggedRecord) -> Seq<char> {
    x.0.metadata.theme_id@
}

/// The stored records whose id is a catalogue id, in order.
pub open spec fn valid_records(s: Seq<StoredThemeRecord>) -> Seq<FlaggedRecord>
    decreases s.len(),
{
    if s.len() == 0 {
        Seq::empty()
    } else {
        let rest = valid_records(s.drop_last());
        if s.last().id_valid {
            rest.push((s.last().record, s.last().current))
        } else {
            rest
        }
    }
}

/// `k` is the first index of a record of theme `id`.
pub open spec fn first_of_id(s: Seq<FlaggedRecord>, id: Seq<char>, k: int) -> bool {
    0 <= k < s.len() && rec_id(s[k]) == id && forall|j: int| 0 <= j < k ==> rec_id(#[trigger] s[j]) != id
}

/// `x` replaces the first record of its theme, or is added at the end.
pub open spec fn merge_flagged(s: Seq<FlaggedRecord>, x: FlaggedRecord) -> Seq<FlaggedRecord> {
    if exists|k: int| first_of_id(s, rec_id(x), k) {
        s.update(choose|k: int| first_of_id(s, rec_id(x), k), x)
    } else {
        s.push(x)
    }
}

/// The legacy install merged in, when its id is a catalogue id and it kept
/// a stylesheet.
pub open spec fn with_legacy(st: StoredThemeState, s: Seq<FlaggedRecord>) -> Seq<FlaggedRecord> {
    match st.legacy_metadata {
        Some(m) => if st.legacy_id_valid && trim(st.legacy_css_snapshot@).len() > 0 {
            merge_flagged(
                s,
                (CommunityThemeInstalledRecord { metadata: m, css_snapshot: st.legacy_css_snapshot }, st.legacy_current),
            )
        } else {
            s
        },
        None => s,
    }
}

/// The records that stay: current ones, other than the retired wallpaper
/// theme, in order.
pub open spec fn settled_records(s: Seq<FlaggedRecord>) -> Seq<CommunityThemeInstalledRecord>
    decreases s.len(),
{
    if s.len() == 0 {
        Seq::empty()
    } else {
        let rest = settled_records(s.drop_last());
        if s.last().1 && rec_id(s.last()) != LEGACY_NASA_APOD_WALLPAPER_THEME_ID@ {
            rest.push(s.last().0)
        } else {
            rest
        }
    }
}

/// The first record of theme `id`.
pub open spec fn find_by_id(s: Seq<CommunityThemeInstalledRecord>, id: Seq<char>) -> Option<
    CommunityThemeInstalledRecord,
>
    decreases s.len(),
{
    if s.len() == 0 {
        None
    } else if s[0].metadata.theme_id@ == id {
        Some(s[0])
    } else {
        find_by_id(s.drop_first(), id)
    }
}

/// The legacy metadata, when its id is a catalogue id.
pub open spec fn checked_legacy(st: StoredThemeState) -> Option<CommunityThemeInstallMetadata> {
    if st.legacy_id_valid {
        st.legacy_metadata
    } else {
        None
    }
}

/// The active record: none unless themes are enabled; the record of the
/// active id, else the record of the legacy install's theme.
pub open spec fn active_of(st: StoredThemeState, records: Seq<CommunityThemeInstalledRecord>) -> Option<
    CommunityThemeInstalledRecord,
> {
    if !st.enabled {
        None
    } else {
        match find_by_id(records, st.active_theme_id@) {
            Some(r) => Some(r),
            None => match checked_legacy(st) {
                Some(m) => find_by_id(records, m.theme_id@),
                None => None,
            },
        }
    }
}

/// The retired wallpaper theme was active: themes are enabled and the
/// active id, or the legacy install, names it.
pub open spec fn apod_was_active(st: StoredThemeState) -> bool {
    st.enabled && (st.active_theme_id@ == LEGACY_NASA_APOD_WALLPAPER_THEME_ID@ || match checked_legacy(
        st,
    ) {
        Some(m) => m.theme_id@ == LEGACY_NASA_APOD_WALLPAPER_THEME_ID@,
        None => false,
    })
}

fn merge_flagged_exec(records: &mut Vec<FlaggedRecord>, x: FlaggedRecord)
    ensures
        final(records)@ == merge_flagged(old(records)@, x),
{
    let mut i: usize = 0;
    while i < records.len()
        invariant
            i <= records.len(),
            records@ == old(records)@,
            forall|j: int| 0 <= j < i ==> rec_id(#[trigger] records@[j]) != rec_id(x),
        decreases records.len() - i,
    {
        if str_eq(records[i].0.metadata.theme_id.as_str(), x.0.metadata.theme_id.as_str()) {
            proof {
                assert(first_of_id(records@, rec_id(x), i as int));
                let k = choose|k: int| first_of_id(records@, rec_id(x), k);
                if k < i {
                    assert(rec_id(records@[k]) != rec_id(x));
                }
                if k > i {
                    assert(rec_id(records@[i as int]) != rec_id(x));
                }
                assert(k == i);
            }
            records.set(i, x);
            return;
        }
        i = i + 1;
    }
    proof {
        assert(!exists|k: int| first_of_id(records@, rec_id(x), k)) by {
            if exists|k: int| first_of_id(records@, rec_id(x), k) {
                let k = choose|k: int| first_of_id(records@, rec_id(x), k);
                assert(rec_id(records@[k]) != rec_id(x));
            }
        }
    }
    records.push(x);
}

fn find_record_by_id(records: &Vec<CommunityThemeInstalledRecord>, id: &str) -> (r: Option<
    CommunityThemeInstalledRecord,
>)
    ensures
        r == find_by_id(records@, id@),
{
    let mut i: usize = 0;
    assert(records@.skip(0) =~= records@);
    while i < records.len()
        invariant
            i <= records.len(),
            find_by_id(records@, id@) == find_by_id(records@.skip(i as int), id@),
        decreases records.len() - i,
    {
        assert(records@.skip(i as int)[0] == records@[i as int]);
        if str_eq(records[i].metadata.theme_id.as_str(), id) {
            let r = records[i].clone_record();
            return Some(r);
        }
        assert(records@.skip(i as int).drop_first() =~= records@.skip(i + 1));
        i = i + 1;
    }
    None
}

/// What an install leaves: the records with the new one merged in, and the
/// new record, which becomes the active one.
pub struct ThemeInstallPlan {
    pub records: Vec<CommunityThemeInstalledRecord>,
    pub active_record: CommunityThemeInstalledRecord,
}

/// The install of `theme_id` once its manifest and stylesheet arrived:
/// refused, with nothing built, when a newer configure request began in the
/// meantime; else the record built from the manifest (first installed when
/// the earlier record of the requested theme was) merged into the stored
/// records.
pub fn plan_theme_install(
    operations: &ConfigureOperations,
    operation: u64,
    records: Vec<CommunityThemeInstalledRecord>,
    theme_id: &str,
    manifest: CommunityThemeManifest,
    source_url: String,
    css_snapshot: String,
    now: String,
) -> (r: Result<ThemeInstallPlan, Error>)
    ensures
        r is Err <==> operations.generation != operation,
        r matches Err(e) ==> is_custom(e, SUPERSEDED_MESSAGE@),
        r matches Ok(plan) ==> {
            let a = plan.active_record;
            &&& a.metadata.theme_id@ == manifest.id@
            &&& a.metadata.theme_name@ == manifest.name@
            &&& a.metadata.version@ == manifest.version@
            &&& a.metadata.source_url@ == source_url@
            &&& a.metadata.sha256@ == sha256_hex_of(css_snapshot@)
            &&& a.metadata.installed_at@ == match find_by_id(records@, theme_id@) {
                Some(p) => if p.metadata.installed_at@.len() > 0 {
                    p.metadata.installed_at@
                } else {
                    now@
                },
                None => now@,
            }
            &&& a.metadata.updated_at@ == now@
            &&& a.metadata.dark_mode == manifest.dark_mode
            &&& a.metadata.accent_mode == manifest.accent_mode
            &&& a.css_snapshot@ == css_snapshot@
            &&& record_ids(plan.records@) == merged_ids(record_ids(records@), manifest.id@)
            &&& exists|k: int|
                0 <= k < plan.records@.len() && plan.records@[k] == a && (forall|j: int|
                    0 <= j < k ==> records@[j].metadata.theme_id@ != manifest.id@)
            &&& forall|j: int|
                0 <= j < records@.len() && records@[j].metadata.theme_id@ != manifest.id@
                    ==> plan.records@[j] == records@[j]
        },
{
    operations.ensure(operation)?;
    let previous = find_record_by_id(&records, theme_id);
    let active_record = build_install_record(manifest, source_url, css_snapshot, previous.as_ref(), now);
    let mut merged = records;
    merge_install_record(&mut merged, active_record.clone_record());
    Ok(ThemeInstallPlan { records: merged, active_record })
}

/// The themes as the settings leave them: stored records with a catalogue
/// id, the legacy install merged in, then only the current records other
/// than the retired wallpaper theme; the active one among them; and the
/// override stylesheet with its switch.
pub fn settle_persisted_state(st: StoredThemeState) -> (r: PersistedCommunityThemeState)
    ensures
        r.records@ == settled_records(with_legacy(st, valid_records(st.records@))),
        r.active_record == active_of(st, settled_records(with_legacy(st, valid_records(st.records@)))),
        r.override_css@ == st.override_css@,
        r.override_css_enabled == override_on(
            st.override_css@,
            match st.override_switch {
                Some(s) => Some(s@),
                None => None,
            },
        ),
        r.legacy_apod_was_active == apod_was_active(st),
{
    let ghost st0 = st;
    let mut flagged: Vec<FlaggedRecord> = Vec::new();
    let mut i: usize = 0;
    while i < st.records.len()
        invariant
            i <= st.records.len(),
            st == st0,
            flagged@ == valid_records(st.records@.take(i as int)),
        decreases st.records.len() - i,
    {
        assert(st.records@.take(i + 1).drop_last() =~= st.records@.take(i as int));
        assert(st.records@.take(i + 1).last() == st.records@[i as int]);
        if st.records[i].id_valid {
            let rec = st.records[i].record.clone_record();
            flagged.push((rec, st.records[i].current));
        }
        i = i + 1;
    }
    assert(st.records@.take(st.records.len() as int) =~= st.records@);
    match &st.legacy_metadata {
        Some(m) => {
            let t = trim_str(st.legacy_css_snapshot.as_str());
            if st.legacy_id_valid && !t.as_str().is_empty() {
                let rec = CommunityThemeInstalledRecord {
                    metadata: m.clone_metadata(),
                    css_snapshot: st.legacy_css_snapshot.clone(),
                };
                merge_flagged_exec(&mut flagged, (rec, st.legacy_current));
            }
        },
        None => {},
    }
    let ghost merged = flagged@;
    let mut records: Vec<CommunityThemeInstalledRecord> = Vec::new();
    let mut j: usize = 0;
    while j < flagged.len()
        invariant
            j <= flagged.len(),
            flagged@ == merged,
            records@ == settled_records(merged.take(j as int)),
        decreases flagged.len() - j,
    {
        assert(merged.take(j + 1).drop_last() =~= merged.take(j as int));
        assert(merged.take(j + 1).last() == merged[j as int]);
        if flagged[j].1 && !str_eq(
            flagged[j].0.metadata.theme_id.as_str(),
            LEGACY_NASA_APOD_WALLPAPER_THEME_ID,
        ) {
            records.push(flagged[j].0.clone_record());
        }
        j = j + 1;
    }
    assert(merged.take(flagged.len() as int) =~= merged);
    let checked: Option<&CommunityThemeInstallMetadata> = if st.legacy_id_valid {
        match &st.legacy_metadata {
            Some(m) => Some(m),
            None => None,
        }
    } else {
        None
    };
    let legacy_apod_was_active = st.enabled && (str_eq(
        st.active_theme_id.as_str(),
        LEGACY_NASA_APOD_WALLPAPER_THEME_ID,
    ) || match checked {
        Some(m) => str_eq(m.theme_id.as_str(), LEGACY_NASA_APOD_WALLPAPER_THEME_ID),
        None => false,
    });
    let active_record = if !st.enabled {
        None
    } else {
        match find_record_by_id(&records, st.active_theme_id.as_str()) {
            Some(r) => Some(r),
            None => match checked {
                Some(m) => find_record_by_id(&records, m.theme_id.as_str()),
                None => None,
            },
        }
    };
    let override_css_enabled = override_enabled(
        st.override_css.as_str(),
        match &st.override_switch {
            Some(s) => Some(s.as_str()),
            None => None,
        },
    );
    PersistedCommunityThemeState {
        records,
        active_record,
        override_css: st.override_css,
        override_css_enabled,
        legacy_apod_was_active,
    }
}

// ---------------------------------------------------------------------------
// Writing the state

/// One change to the settings.
#[derive(Clone, Debug, PartialEq, Eq)]
pub enum ConfigMutation {
    SetValue { key: String, value: String },
    Remove { key: String },
}

pub open spec fn is_set(m: ConfigMutation, key: Seq<char>, value: Seq<char>) -> bool {
    m matches ConfigMutation::SetValue { key: k, value: v } && k@ == key && v@ == value
}

pub open spec fn is_remove(m: ConfigMutation, key: Seq<char>) -> bool {
    m matches ConfigMutation::Remove { key: k } && k@ == key
}

fn set(key: &str, value: String) -> (m: ConfigMutation)
    ensures
        is_set(m, key@, value@),
{
    ConfigMutation::SetValue { key: key.to_string(), value }
}

fn remove(key: &str) -> (m: ConfigMutation)
    ensures
        is_remove(m, key@),
{
    ConfigMutation::Remove { key: key.to_string() }
}

pub open spec fn bool_text(b: bool) -> Seq<char> {
    if b {
        "true"@
    } else {
        "false"@
    }
}

fn bool_string(b: bool) -> (r: String)
    ensures
        r@ == bool_text(b),
{
    proof {
        reveal_strlit("true");
        reveal_strlit("false");
    }
    if b {
        "true".to_string()
    } else {
        "false".to_string()
    }
}

/// The settings that store the installed themes and the active one. The
/// JSON texts of `records` and of the active record's metadata are written
/// by the caller; without records their setting is removed.
pub fn install_state_mutations(
    records: &[CommunityThemeInstalledRecord],
    records_json: String,
    active_record: Option<&CommunityThemeInstalledRecord>,
    active_metadata_json: String,
) -> (r: Vec<ConfigMutation>)
    ensures
        r.len() == 6,
        is_set(r@[0], KEY_ENABLED@, bool_text(active_record is Some)),
        if records.len() == 0 {
            is_remove(r@[1], KEY_INSTALLED_THEMES@)
        } else {
            is_set(r@[1], KEY_INSTALLED_THEMES@, records_json@)
        },
        match active_record {
            Some(a) => {
                &&& is_set(r@[2], KEY_ID@, a.metadata.theme_id@)
                &&& is_set(r@[3], KEY_VERSION@, a.metadata.version@)
                &&& is_set(r@[4], KEY_CSS_SNAPSHOT@, a.css_snapshot@)
                &&& is_set(r@[5], KEY_INSTALL_METADATA@, active_metadata_json@)
            },
            None => {
                &&& is_remove(r@[2], KEY_ID@)
                &&& is_remove(r@[3], KEY_VERSION@)
                &&& is_remove(r@[4], KEY_CSS_SNAPSHOT@)
                &&& is_remove(r@[5], KEY_INSTALL_METADATA@)
            },
        },
{
    let mut out: Vec<ConfigMutation> = Vec::new();
    out.push(set(KEY_ENABLED, bool_string(active_record.is_some())));
    if records.len() == 0 {
        out.push(remove(KEY_INSTALLED_THEMES));
    } else {
        out.push(set(KEY_INSTALLED_THEMES, records_json));
    }
    match active_record {
        Some(a) => {
            out.push(set(KEY_ID, a.metadata.theme_id.clone()));
            out.push(set(KEY_VERSION, a.metadata.version.clone()));
            out.push(set(KEY_CSS_SNAPSHOT, a.css_snapshot.clone()));
            out.push(set(KEY_INSTALL_METADATA, active_metadata_json));
        },
        None => {
            out.push(remove(KEY_ID));
            out.push(remove(KEY_VERSION));
            out.push(remove(KEY_CSS_SNAPSHOT));
            out.push(remove(KEY_INSTALL_METADATA));
        },
    }
    out
}

/// The settings that store the override stylesheet and its switch.
pub fn override_state_mutations(css_text: &str, enabled: bool) -> (r: Vec<ConfigMutation>)
    ensures
        r.len() == 2,
        is_set(r@[0], KEY_OVERRIDE_CSS@, css_text@),
        is_set(r@[1], KEY_OVERRIDE_ENABLED@, bool_text(enabled)),
{
    let mut out: Vec<ConfigMutation> = Vec::new();
    out.push(set(KEY_OVERRIDE_CSS, css_text.to_string()));
    out.push(set(KEY_OVERRIDE_ENABLED, bool_string(enabled)));
    out
}

} // verus!
