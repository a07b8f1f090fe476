//! Community themes: the installed records, which theme an enable or a
//! delete aims at, the override stylesheet, and what the projection shows.

use vstd::prelude::*;

use crate::error::{custom_error, is_custom, Error};
use crate::json::{serialized_json, JsonValue};
use crate::text::{chars_of, str_eq, string_from_chars, trim, trim_str};

verus! {

pub const KEY_ENABLED: &'static str = "VRCX_communityThemeEnabled";

pub const KEY_ID: &'static str = "VRCX_communityThemeId";

pub const KEY_VERSION: &'static str = "VRCX_communityThemeVersion";

pub const KEY_CSS_SNAPSHOT: &'static str = "VRCX_communityThemeCssSnapshot";

pub const KEY_OVERRIDE_CSS: &'static str = "VRCX_communityThemeOverrideCss";

pub const KEY_OVERRIDE_ENABLED: &'static str = "VRCX_communityThemeOverrideEnabled";

pub const KEY_INSTALL_METADATA: &'static str = "VRCX_communityThemeInstallMetadata";

pub const KEY_INSTALLED_THEMES: &'static str = "VRCX_communityThemeInstalledThemes";

pub const KEY_LEGACY_CATALOG_URL: &'static str = "VRCX_themeMarketplaceCatalogUrl";

pub const LEGACY_NASA_APOD_WALLPAPER_THEME_ID: &'static str = "nasa-apod-wallpaper";

pub const OVERRIDE_TOO_LARGE_MESSAGE: &'static str = "Community theme override CSS is too large.";

pub const SUPERSEDED_MESSAGE: &'static str =
    "Community theme operation was superseded by a newer request.";

#[derive(Clone, Debug, PartialEq, Eq)]
pub struct CommunityThemeInstallMetadata {
    pub theme_id: String,
    pub theme_name: String,
    pub version: String,
    pub source_url: String,
    pub sha256: String,
    pub installed_at: String,
    pub updated_at: String,
    pub dark_mode: bool,
    pub accent_mode: bool,
}

#[derive(Clone, Debug)]
pub struct CommunityThemeProjection {
    pub revision: u64,
    pub catalog_url: String,
    pub enabled: bool,
    pub installed_theme: Option<CommunityThemeInstallMetadata>,
    pub installed_themes: Vec<CommunityThemeInstallMetadata>,
    pub installed_css_snapshot: String,
    pub override_css: String,
    pub override_css_enabled: bool,
}

#[derive(Clone, Debug)]
pub enum CommunityThemeConfigureInput {
    Install { theme_id: String },
    Enable { theme_id: Option<String> },
    Disable,
    Delete { theme_id: Option<String> },
    SetOverride { css_text: String },
    DisableOverride,
}

/// An installed theme: its metadata and the stylesheet it installed.
#[derive(Clone, Debug)]
pub struct CommunityThemeInstalledRecord {
    pub metadata: CommunityThemeInstallMetadata,
    pub css_snapshot: String,
}

/// The text of a setting value: a string trimmed, a number or a boolean as
/// JSON writes it; nothing for other values.
pub open spec fn config_text_of(value: Option<JsonValue>) -> Seq<char> {
    match value {
        Some(JsonValue::String(s)) => trim(s@),
        Some(JsonValue::Number(n)) => serialized_json(JsonValue::Number(n)),
        Some(JsonValue::Bool(b)) => serialized_json(JsonValue::Bool(b)),
        _ => Seq::empty(),
    }
}

pub fn config_text(value: Option<&JsonValue>) -> (r: String)
    ensures
        r@ == config_text_of(match value {
            Some(v) => Some(*v),
            None => None,
        }),
{
    match value {
        Some(JsonValue::String(s)) => trim_str(s.as_str()),
        Some(v) => match v {
            JsonValue::Number(_) => crate::json::json_to_string(v),
            JsonValue::Bool(_) => crate::json::json_to_string(v),
            _ => String::new(),
        },
        None => String::new(),
    }
}

/// The ids of records, in order.
pub open spec fn record_ids(records: Seq<CommunityThemeInstalledRecord>) -> Seq<Seq<char>> {
    Seq::new(records.len(), |i: int| records[i].metadata.theme_id@)
}

/// The records after installing `record`: it replaces the first record of
/// the same theme, or is added at the end.
pub open spec fn merged_ids(ids: Seq<Seq<char>>, id: Seq<char>) -> Seq<Seq<char>> {
    if ids.contains(id) {
        ids
    } else {
        ids.push(id)
    }
}

pub fn merge_install_record(
    records: &mut Vec<CommunityThemeInstalledRecord>,
    record: CommunityThemeInstalledRecord,
)
    ensures
        record_ids(final(records)@) == merged_ids(record_ids(old(records)@), record.metadata.theme_id@),
        exists|k: int|
            0 <= k < final(records)@.len() && final(records)@[k] == record && (forall|j: int|
                0 <= j < k ==> old(records)@[j].metadata.theme_id@ != record.metadata.theme_id@),
        forall|j: int|
            0 <= j < old(records)@.len() && old(records)@[j].metadata.theme_id@
                != record.metadata.theme_id@ ==> final(records)@[j] == old(records)@[j],
{
    let mut i: usize = 0;
    while i < records.len()
        invariant
            i <= records.len(),
            records@ == old(records)@,
            forall|j: int| 0 <= j < i ==> records@[j].metadata.theme_id@ != record.metadata.theme_id@,
        decreases records.len() - i,
    {
        if str_eq(records[i].metadata.theme_id.as_str(), record.metadata.theme_id.as_str()) {
            let ghost before = records@;
            records.set(i, record);
            proof {
                assert(record_ids(records@) =~= record_ids(before));
                assert(record_ids(before)[i as int] == records@[i as int].metadata.theme_id@);
                assert(record_ids(before).contains(records@[i as int].metadata.theme_id@));
                assert(records@[i as int] == record);
            }
            return;
        }
        i = i + 1;
    }
    let ghost before = records@;
    proof {
        assert(!record_ids(before).contains(record.metadata.theme_id@)) by {
            if record_ids(before).contains(record.metadata.theme_id@) {
                let k = choose|k: int| 0 <= k < before.len() && record_ids(before)[k] == record.metadata.theme_id@;
                assert(before[k].metadata.theme_id@ != record.metadata.theme_id@);
            }
        }
    }
    records.push(record);
    proof {
        assert(record_ids(records@) =~= record_ids(before).push(records@.last().metadata.theme_id@));
        assert(records@[before.len() as int] == record);
    }
}

/// A requested theme id, trimmed, when it is not empty.
pub open spec fn requested_id(theme_id: Option<Seq<char>>) -> Option<Seq<char>> {
    match theme_id {
        Some(t) => if trim(t).len() > 0 {
            Some(trim(t))
        } else {
            None
        },
        None => None,
    }
}

fn requested(theme_id: Option<&str>) -> (r: Option<String>)
    ensures
        match r {
            Some(t) => requested_id(match theme_id {
                Some(x) => Some(x@),
                None => None,
            }) == Some(t@),
            None => requested_id(match theme_id {
                Some(x) => Some(x@),
                None => None,
            }) is None,
        },
{
    match theme_id {
        Some(t) => {
            let t = trim_str(t);
            if t.as_str().is_empty() {
                None
            } else {
                Some(t)
            }
        },
        None => None,
    }
}

pub open spec fn opt_str(o: Option<&str>) -> Option<Seq<char>> {
    match o {
        Some(s) => Some(s@),
        None => None,
    }
}

/// The theme an enable aims at: the one asked for, else the active one,
/// else the first installed one.
pub fn enable_target(theme_id: Option<&str>, active_theme_id: Option<&str>, first_theme_id: Option<
    &str,
>) -> (r: Option<String>)
    ensures
        match r {
            Some(t) => Some(t@) == match requested_id(opt_str(theme_id)) {
                Some(x) => Some(x),
                None => match opt_str(active_theme_id) {
                    Some(a) => Some(a),
                    None => opt_str(first_theme_id),
                },
            },
            None => requested_id(opt_str(theme_id)) is None && active_theme_id is None
                && first_theme_id is None,
        },
{
    match requested(theme_id) {
        Some(t) => Some(t),
        None => match active_theme_id {
            Some(a) => Some(a.to_string()),
            None => match first_theme_id {
                Some(f) => Some(f.to_string()),
                None => None,
            },
        },
    }
}

/// The theme a delete aims at: the one asked for, else the active one.
pub fn delete_target(theme_id: Option<&str>, active_theme_id: Option<&str>) -> (r: Option<String>)
    ensures
        match r {
            Some(t) => Some(t@) == match requested_id(opt_str(theme_id)) {
                Some(x) => Some(x),
                None => opt_str(active_theme_id),
            },
            None => requested_id(opt_str(theme_id)) is None && active_theme_id is None,
        },
{
    match requested(theme_id) {
        Some(t) => Some(t),
        None => match active_theme_id {
            Some(a) => Some(a.to_string()),
            None => None,
        },
    }
}

/// The records without those of one theme, in their order.
pub open spec fn without_theme(records: Seq<CommunityThemeInstalledRecord>, id: Seq<char>) -> Seq<
    CommunityThemeInstalledRecord,
>
    decreases records.len(),
{
    if records.len() == 0 {
        records
    } else {
        let rest = without_theme(records.drop_last(), id);
        if records.last().metadata.theme_id@ != id {
            rest.push(records.last())
        } else {
            rest
        }
    }
}

pub fn remove_theme(records: Vec<CommunityThemeInstalledRecord>, theme_id: &str) -> (r: Vec<
    CommunityThemeInstalledRecord,
>)
    ensures
        r@ == without_theme(records@, theme_id@),
{
    let mut out: Vec<CommunityThemeInstalledRecord> = Vec::new();
    let mut i: usize = 0;
    let ghost all = records@;
    let mut records = records;
    while i < records.len()
        invariant
            i <= records.len(),
            records@ == all,
            out@ == without_theme(all.take(i as int), theme_id@),
        decreases records.len() - i,
    {
        proof {
            assert(all.take(i as int + 1).drop_last() =~= all.take(i as int));
        }
        if !str_eq(records[i].metadata.theme_id.as_str(), theme_id) {
            out.push(records[i].clone_record());
        }
        i = i + 1;
    }
    proof {
        assert(all.take(i as int) =~= all);
    }
    out
}

/// Deleting a theme leaves no record of it and keeps every record of the
/// other themes.
pub proof fn law_delete_removes_only_that_theme(records: Seq<CommunityThemeInstalledRecord>, id: Seq<char>)
    ensures
        !record_ids(without_theme(records, id)).contains(id),
        forall|r: CommunityThemeInstalledRecord|
            records.contains(r) && r.metadata.theme_id@ != id ==> #[trigger] without_theme(
                records,
                id,
            ).contains(r),
    decreases records.len(),
{
    if records.len() > 0 {
        let d = records.drop_last();
        let rest = without_theme(d, id);
        law_delete_removes_only_that_theme(d, id);
        let out = without_theme(records, id);
        if records.last().metadata.theme_id@ != id {
            assert(record_ids(out) =~= record_ids(rest).push(records.last().metadata.theme_id@));
        } else {
            assert(out == rest);
        }
        assert forall|r: CommunityThemeInstalledRecord|
            records.contains(r) && r.metadata.theme_id@ != id implies #[trigger] out.contains(r) by {
            let k = choose|k: int| 0 <= k < records.len() && records[k] == r;
            if k < records.len() - 1 {
                assert(d[k] == r);
                assert(d.contains(r));
                assert(rest.contains(r));
                let m = choose|m: int| 0 <= m < rest.len() && rest[m] == r;
                assert(out[m] == r);
            } else {
                assert(out[out.len() - 1] == r);
            }
        }
    }
}

impl CommunityThemeInstallMetadata {
    pub fn clone_metadata(&self) -> (r: Self)
        ensures
            r == *self,
    {
        CommunityThemeInstallMetadata {
            theme_id: self.theme_id.clone(),
            theme_name: self.theme_name.clone(),
            version: self.version.clone(),
            source_url: self.source_url.clone(),
            sha256: self.sha256.clone(),
            installed_at: self.installed_at.clone(),
            updated_at: self.updated_at.clone(),
            dark_mode: self.dark_mode,
            accent_mode: self.accent_mode,
        }
    }
}

impl CommunityThemeInstalledRecord {
    pub fn clone_record(&self) -> (r: Self)
        ensures
            r == *self,
    {
        CommunityThemeInstalledRecord {
            metadata: self.metadata.clone_metadata(),
            css_snapshot: self.css_snapshot.clone(),
        }
    }
}

/// ASCII letters in lower case, other characters as they are.
pub open spec fn ascii_lower(s: Seq<char>) -> Seq<char> {
    Seq::new(
        s.len(),
        |i: int| if 'A' <= s[i] <= 'Z' { ((s[i] as int) + 32) as char } else { s[i] },
    )
}

fn to_ascii_lower(s: &str) -> (r: String)
    ensures
        r@ == ascii_lower(s@),
{
    let v = chars_of(s);
    let mut out: Vec<char> = Vec::new();
    let mut i: usize = 0;
    while i < v.len()
        invariant
            i <= v.len(),
            v@ == s@,
            out@ =~= ascii_lower(s@).take(i as int),
        decreases v.len() - i,
    {
        let c = v[i];
        if 'A' <= c && c <= 'Z' {
            out.push(((c as u8) + 32) as char);
        } else {
            out.push(c);
        }
        i = i + 1;
    }
    proof {
        assert(ascii_lower(s@).take(i as int) =~= ascii_lower(s@));
    }
    string_from_chars(out.as_slice())
}

/// Whether the override stylesheet applies: it has something but
/// whitespace, and its switch is absent or reads as on.
pub open spec fn override_on(css: Seq<char>, raw_switch: Option<Seq<char>>) -> bool {
    trim(css).len() > 0 && match raw_switch {
        None => true,
        Some(v) => {
            let t = ascii_lower(trim(v));
            t == "true"@ || t == "1"@ || t == "\"true\""@
        },
    }
}

pub fn override_enabled(css: &str, raw_switch: Option<&str>) -> (r: bool)
    ensures
        r == override_on(css@, opt_str(raw_switch)),
{
    let t = trim_str(css);
    if t.as_str().is_empty() {
        return false;
    }
    match raw_switch {
        None => true,
        Some(v) => {
            let trimmed = trim_str(v);
            let lower = to_ascii_lower(trimmed.as_str());
            str_eq(lower.as_str(), "true") || str_eq(lower.as_str(), "1") || str_eq(
                lower.as_str(),
                "\"true\"",
            )
        },
    }
}

/// An override stylesheet must fit in `max_bytes`.
pub fn check_override_size(byte_len: usize, max_bytes: usize) -> (r: Result<(), Error>)
    ensures
        r is Ok <==> byte_len <= max_bytes,
        r matches Err(e) ==> is_custom(e, OVERRIDE_TOO_LARGE_MESSAGE@),
{
    if byte_len > max_bytes {
        return Err(custom_error(OVERRIDE_TOO_LARGE_MESSAGE));
    }
    Ok(())
}

/// The error of an install asked for an id that is not a theme id.
pub fn invalid_theme_id_error(theme_id: &str) -> (e: Error)
    ensures
        e matches Error::Custom(m) && m@ == "Invalid community theme id: "@ + theme_id@ + "."@,
{
    let mut m = "Invalid community theme id: ".to_string();
    m.append(theme_id);
    m.append(".");
    Error::Custom(m)
}

/// A configure operation goes on only while no newer one began.
pub fn ensure_configure_operation(current: u64, operation: u64) -> (r: Result<(), Error>)
    ensures
        r is Ok <==> current == operation,
        r matches Err(e) ==> is_custom(e, SUPERSEDED_MESSAGE@),
{
    if current == operation {
        Ok(())
    } else {
        Err(custom_error(SUPERSEDED_MESSAGE))
    }
}

/// The count of configure requests; each request takes the count after it
/// as its operation number.
#[derive(Debug, Default)]
pub struct ConfigureOperations {
    pub generation: u64,
}

/// The count after one more request (it wraps as `fetch_add` does).
pub open spec fn next_generation(g: u64) -> u64 {
    if g == u64::MAX {
        0
    } else {
        (g + 1) as u64
    }
}

/// The operation number a request gets when the count is `g`.
pub open spec fn operation_number(g: u64) -> u64 {
    if g == u64::MAX {
        u64::MAX
    } else {
        (g + 1) as u64
    }
}

impl ConfigureOperations {
    /// A new request: the count goes up, and the request gets its number.
    pub fn begin(&mut self) -> (op: u64)
        ensures
            final(self).generation == next_generation(old(self).generation),
            op == operation_number(old(self).generation),
    {
        let g = self.generation;
        if g == u64::MAX {
            self.generation = 0;
            u64::MAX
        } else {
            self.generation = g + 1;
            g + 1
        }
    }

    /// A request goes on only while no newer one began.
    pub fn ensure(&self, operation: u64) -> (r: Result<(), Error>)
        ensures
            r is Ok <==> self.generation == operation,
            r matches Err(e) ==> is_custom(e, SUPERSEDED_MESSAGE@),
    {
        ensure_configure_operation(self.generation, operation)
    }
}

/// A request that no newer one followed goes on (while the count does not
/// wrap); once a newer request began, the older one is refused.
pub proof fn law_newer_request_supersedes(g: u64)
    ensures
        g < u64::MAX ==> next_generation(g) == operation_number(g),
        next_generation(next_generation(g)) != operation_number(g),
{
}

/// The projection of a theme state: enabled with the active record's
/// metadata and stylesheet, the installed themes in order, and the
/// override.
pub fn projection_from_state(
    catalog_url: &str,
    records: &Vec<CommunityThemeInstalledRecord>,
    active_record: Option<&CommunityThemeInstalledRecord>,
    override_css: &str,
    override_css_enabled: bool,
) -> (r: CommunityThemeProjection)
    ensures
        r.revision == 0,
        r.catalog_url@ == catalog_url@,
        r.enabled == active_record is Some,
        r.installed_theme == match active_record {
            Some(a) => Some(a.metadata),
            None => None,
        },
        r.installed_themes@.len() == records@.len(),
        forall|i: int| 0 <= i < records@.len() ==> r.installed_themes@[i] == (#[trigger] records@[i]).metadata,
        r.installed_css_snapshot@ == match active_record {
            Some(a) => a.css_snapshot@,
            None => Seq::<char>::empty(),
        },
        r.override_css@ == override_css@,
        r.override_css_enabled == override_css_enabled,
{
    let mut themes: Vec<CommunityThemeInstallMetadata> = Vec::new();
    let mut i: usize = 0;
    while i < records.len()
        invariant
            i <= records.len(),
            themes@.len() == i,
            forall|k: int| 0 <= k < i ==> themes@[k] == (#[trigger] records@[k]).metadata,
        decreases records.len() - i,
    {
        themes.push(records[i].metadata.clone_metadata());
        i = i + 1;
    }
    CommunityThemeProjection {
        revision: 0,
        catalog_url: catalog_url.to_string(),
        enabled: active_record.is_some(),
        installed_theme: match active_record {
            Some(a) => Some(a.metadata.clone_metadata()),
            None => None,
        },
        installed_themes: themes,
        installed_css_snapshot: match active_record {
            Some(a) => a.css_snapshot.clone(),
            None => String::new(),
        },
        override_css: override_css.to_string(),
        override_css_enabled,
    }
}

/// The hex SHA-256 digest of a stylesheet's bytes.
pub uninterp spec fn sha256_hex_of(text: Seq<char>) -> Seq<char>;

/// Wrapper of `sha2::Sha256::digest` on the UTF-8 bytes of the text,
/// written with `hex::encode`: the digest is only named.
#[verifier::external_body]
pub(crate) fn sha256_hex(text: &str) -> (r: String)
    ensures
        r@ == sha256_hex_of(text@),
{
    hex::encode(<sha2::Sha256 as sha2::Digest>::digest(text.as_bytes()))
}

/// The install date of a theme: the earlier install's, where there was one
/// with a date, else now.
pub fn installed_at(previous: Option<&CommunityThemeInstalledRecord>, now: &str) -> (r: String)
    ensures
        r@ == match previous {
            Some(p) => if p.metadata.installed_at@.len() > 0 {
                p.metadata.installed_at@
            } else {
                now@
            },
            None => now@,
        },
{
    match previous {
        Some(p) => {
            if p.metadata.installed_at.as_str().is_empty() {
                now.to_string()
            } else {
                p.metadata.installed_at.clone()
            }
        },
        None => now.to_string(),
    }
}

/// The fields of a theme manifest that an install reads.
#[derive(Clone, Debug)]
pub struct CommunityThemeManifest {
    pub id: String,
    pub name: String,
    pub version: String,
    pub dark_mode: bool,
    pub accent_mode: bool,
}

/// The first record of a theme, if it is installed.
pub fn find_record<'a>(records: &'a [CommunityThemeInstalledRecord], theme_id: &str) -> (r: Option<
    &'a CommunityThemeInstalledRecord,
>)
    ensures
        match r {
            Some(rec) => exists|k: int|
                0 <= k < records@.len() && records@[k] == *rec && rec.metadata.theme_id@ == theme_id@
                    && forall|j: int|
                    0 <= j < k ==> (#[trigger] records@[j]).metadata.theme_id@ != theme_id@,
            None => forall|j: int|
                0 <= j < records@.len() ==> (#[trigger] records@[j]).metadata.theme_id@ != theme_id@,
        },
{
    let mut i: usize = 0;
    while i < records.len()
        invariant
            i <= records.len(),
            forall|j: int| 0 <= j < i ==> (#[trigger] records@[j]).metadata.theme_id@ != theme_id@,
        decreases records.len() - i,
    {
        if str_eq(records[i].metadata.theme_id.as_str(), theme_id) {
            return Some(&records[i]);
        }
        i = i + 1;
    }
    None
}

/// The record an install writes: the manifest's metadata, the stylesheet
/// with its SHA-256 digest, updated now, and first installed when an
/// earlier install of the theme was, else now.
pub fn build_install_record(
    manifest: CommunityThemeManifest,
    source_url: String,
    css_snapshot: String,
    previous: Option<&CommunityThemeInstalledRecord>,
    now: String,
) -> (r: CommunityThemeInstalledRecord)
    ensures
        r.metadata.theme_id@ == manifest.id@,
        r.metadata.theme_name@ == manifest.name@,
        r.metadata.version@ == manifest.version@,
        r.metadata.source_url@ == source_url@,
        r.metadata.sha256@ == sha256_hex_of(css_snapshot@),
        r.metadata.installed_at@ == match previous {
            Some(p) => if p.metadata.installed_at@.len() > 0 {
                p.metadata.installed_at@
            } else {
                now@
            },
            None => now@,
        },
        r.metadata.updated_at@ == now@,
        r.metadata.dark_mode == manifest.dark_mode,
        r.metadata.accent_mode == manifest.accent_mode,
        r.css_snapshot@ == css_snapshot@,
{
    let sha256 = sha256_hex(css_snapshot.as_str());
    let first_installed = installed_at(previous, now.as_str());
    CommunityThemeInstalledRecord {
        metadata: CommunityThemeInstallMetadata {
            theme_id: manifest.id,
            theme_name: manifest.name,
            version: manifest.version,
            source_url,
            sha256,
            installed_at: first_installed,
            updated_at: now,
            dark_mode: manifest.dark_mode,
            accent_mode: manifest.accent_mode,
        },
        css_snapshot,
    }
}

} // verus!
