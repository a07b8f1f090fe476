//! The background image: its modes and sources, the choice of the next
//! custom image, the checks on provider replies and snapshots.

use std::time::Duration;

use vstd::prelude::*;

use crate::error::{custom_error, is_custom, Error};
use crate::hashing::{fnv1a_utf16, fnv1a_utf16_hash};
use crate::json::{scalar_text, text_of, JsonValue};
use crate::numbers::{decimal_i32, decimal_text};
use crate::text::{
    contains_str, join_strings, join_with, lowercase_of, str_eq, to_lowercase, trim, trim_str, views,
};

verus! {

pub const SNAPSHOT_TTL_HOURS: i64 = 24;

pub const DEFAULT_ROTATION_INTERVAL_MINUTES: u16 = 60;

pub const MIN_ROTATION_INTERVAL_MINUTES: u16 = 1;

pub const MAX_ROTATION_INTERVAL_MINUTES: u16 = 1_440;

pub const KEY_COMMUNITY_THEME_ENABLED: &'static str = "VRCX_communityThemeEnabled";

pub const KEY_COMMUNITY_THEME_INSTALLED_THEMES: &'static str = "VRCX_communityThemeInstalledThemes";

pub const KEY_COMMUNITY_THEME_INSTALL_METADATA: &'static str = "VRCX_communityThemeInstallMetadata";

pub const KEY_COMMUNITY_THEME_CSS_SNAPSHOT: &'static str = "VRCX_communityThemeCssSnapshot";

pub const RATE_LIMIT_MESSAGE: &'static str = "Background Image provider rate limit reached.";

pub const MISSING_IMAGE_MESSAGE: &'static str =
    "A selected background image is no longer available.";

#[derive(Clone, Copy, Debug, PartialEq, Eq, Structural)]
pub enum BackgroundImageMode {
    Off,
    Daily,
    Custom,
}

/// The daily image providers.
#[derive(Clone, Copy, Debug, PartialEq, Eq, Structural)]
pub enum BackgroundImageProviderId {
    NasaEpic,
    NasaApodSafe,
}

impl BackgroundImageProviderId {
    pub open spec fn config_name(self) -> Seq<char> {
        match self {
            BackgroundImageProviderId::NasaEpic => "nasa-epic"@,
            BackgroundImageProviderId::NasaApodSafe => "nasa-apod-safe"@,
        }
    }

    /// The provider a setting names, if any.
    pub fn from_config(value: &str) -> (r: Option<Self>)
        ensures
            match r {
                Some(p) => p.config_name() == value@,
                None => value@ != "nasa-epic"@ && value@ != "nasa-apod-safe"@,
            },
    {
        if str_eq(value, "nasa-epic") {
            Some(BackgroundImageProviderId::NasaEpic)
        } else if str_eq(value, "nasa-apod-safe") {
            Some(BackgroundImageProviderId::NasaApodSafe)
        } else {
            None
        }
    }
}

#[derive(Clone, Copy, Debug, PartialEq, Eq, Structural)]
pub enum BackgroundImageCustomSourceKind {
    Files,
    Folder,
}

/// The images a custom background rotates through: chosen files, or a
/// folder.
#[derive(Clone, Debug, PartialEq, Eq)]
pub struct BackgroundImageCustomSource {
    pub kind: BackgroundImageCustomSourceKind,
    pub paths: Vec<String>,
    pub folder_path: String,
    pub rotation_interval_minutes: u16,
}

/// The image shown now, and where it came from.
#[derive(Clone, Debug, PartialEq, Eq)]
pub struct BackgroundImageSnapshot {
    pub mode: BackgroundImageMode,
    pub provider_id: Option<BackgroundImageProviderId>,
    pub source_kind: Option<BackgroundImageCustomSourceKind>,
    pub image_url: String,
    pub image_path: Option<String>,
    pub image_count: Option<usize>,
    pub title: String,
    pub author: String,
    pub license: String,
    pub source: String,
    pub resolved_at: String,
    pub resolved_for_key: String,
}

/// A provider reply is accepted with a 2xx status; 429 means the rate
/// limit.
pub fn ensure_provider_status(status: i32) -> (r: Result<(), Error>)
    ensures
        r is Ok <==> (200 <= status < 300),
        r matches Err(e) ==> if status == 429 {
            is_custom(e, RATE_LIMIT_MESSAGE@)
        } else {
            is_custom(e, "Failed to load Background Image provider: "@ + decimal_text(status as int))
        },
{
    if status == 429 {
        return Err(custom_error(RATE_LIMIT_MESSAGE));
    }
    if !(200 <= status && status < 300) {
        let mut m = "Failed to load Background Image provider: ".to_string();
        let code = decimal_i32(status);
        m.append(code.as_str());
        return Err(Error::Custom(m));
    }
    Ok(())
}

pub fn mode_as_str(mode: BackgroundImageMode) -> (r: &'static str)
    ensures
        r@ == match mode {
            BackgroundImageMode::Off => "off"@,
            BackgroundImageMode::Daily => "daily"@,
            BackgroundImageMode::Custom => "custom"@,
        },
{
    match mode {
        BackgroundImageMode::Off => "off",
        BackgroundImageMode::Daily => "daily",
        BackgroundImageMode::Custom => "custom",
    }
}

/// The mode a setting names; anything unknown is off.
pub fn normalize_mode(value: &str) -> (r: BackgroundImageMode)
    ensures
        r == if trim(value@) == "daily"@ {
            BackgroundImageMode::Daily
        } else if trim(value@) == "custom"@ {
            BackgroundImageMode::Custom
        } else {
            BackgroundImageMode::Off
        },
{
    let v = trim_str(value);
    if str_eq(v.as_str(), "daily") {
        BackgroundImageMode::Daily
    } else if str_eq(v.as_str(), "custom") {
        BackgroundImageMode::Custom
    } else {
        BackgroundImageMode::Off
    }
}

/// The paths trimmed, empty ones dropped, each once, in their first order.
pub open spec fn unique_paths_of(paths: Seq<Seq<char>>) -> Seq<Seq<char>>
    decreases paths.len(),
{
    if paths.len() == 0 {
        Seq::empty()
    } else {
        let rest = unique_paths_of(paths.drop_last());
        let p = trim(paths.last());
        if p.len() == 0 || rest.contains(p) {
            rest
        } else {
            rest.push(p)
        }
    }
}

pub fn unique_paths(paths: &Vec<String>) -> (r: Vec<String>)
    ensures
        views(r@) == unique_paths_of(views(paths@)),
{
    let ghost ps = views(paths@);
    let mut seen: Vec<String> = Vec::new();
    let mut i: usize = 0;
    while i < paths.len()
        invariant
            i <= paths.len(),
            ps == views(paths@),
            views(seen@) == unique_paths_of(ps.take(i as int)),
        decreases paths.len() - i,
    {
        proof {
            assert(ps.take(i as int + 1).drop_last() =~= ps.take(i as int));
        }
        let trimmed = trim_str(paths[i].as_str());
        if !trimmed.as_str().is_empty() && !contains_str(seen.as_slice(), trimmed.as_str()) {
            let ghost before = seen@;
            let ghost tv = trimmed@;
            seen.push(trimmed);
            proof {
                assert(views(seen@) =~= views(before).push(tv));
            }
        }
        i = i + 1;
    }
    proof {
        assert(ps.take(i as int) =~= ps);
    }
    seen
}

/// A custom source with its paths or folder cleaned up; none where nothing
/// is left to show.
pub fn normalize_custom_source_struct(source: BackgroundImageCustomSource) -> (r: Option<
    BackgroundImageCustomSource,
>)
    ensures
        match source.kind {
            BackgroundImageCustomSourceKind::Folder => if trim(source.folder_path@).len() == 0 {
                r is None
            } else {
                r matches Some(s) && s.kind == BackgroundImageCustomSourceKind::Folder
                    && s.paths@.len() == 0 && s.folder_path@ == trim(source.folder_path@)
                    && s.rotation_interval_minutes == source.rotation_interval_minutes
            },
            BackgroundImageCustomSourceKind::Files => if unique_paths_of(views(source.paths@)).len()
                == 0 {
                r is None
            } else {
                r matches Some(s) && s.kind == BackgroundImageCustomSourceKind::Files && views(
                    s.paths@,
                ) == unique_paths_of(views(source.paths@)) && s.folder_path@.len() == 0
                    && s.rotation_interval_minutes == source.rotation_interval_minutes
            },
        },
{
    let paths = unique_paths(&source.paths);
    let folder_path = trim_str(source.folder_path.as_str());
    match source.kind {
        BackgroundImageCustomSourceKind::Folder => {
            if folder_path.as_str().is_empty() {
                None
            } else {
                Some(
                    BackgroundImageCustomSource {
                        kind: BackgroundImageCustomSourceKind::Folder,
                        paths: Vec::new(),
                        folder_path,
                        rotation_interval_minutes: source.rotation_interval_minutes,
                    },
                )
            }
        },
        BackgroundImageCustomSourceKind::Files => {
            if paths.len() == 0 {
                None
            } else {
                Some(
                    BackgroundImageCustomSource {
                        kind: BackgroundImageCustomSourceKind::Files,
                        paths,
                        folder_path: String::new(),
                        rotation_interval_minutes: source.rotation_interval_minutes,
                    },
                )
            }
        },
    }
}

/// The rotation interval a setting gives: a whole number of minutes in
/// range, else the default.
pub open spec fn rotation_interval_of(value: Option<JsonValue>) -> u16 {
    match value {
        Some(JsonValue::Number(n)) => match n.as_u64 {
            Some(m) => if MIN_ROTATION_INTERVAL_MINUTES <= m <= MAX_ROTATION_INTERVAL_MINUTES {
                m as u16
            } else {
                DEFAULT_ROTATION_INTERVAL_MINUTES
            },
            None => DEFAULT_ROTATION_INTERVAL_MINUTES,
        },
        _ => DEFAULT_ROTATION_INTERVAL_MINUTES,
    }
}

fn rotation_interval(value: Option<&JsonValue>) -> (r: u16)
    ensures
        r == rotation_interval_of(match value {
            Some(v) => Some(*v),
            None => None,
        }),
{
    match value {
        Some(JsonValue::Number(n)) => match n.as_u64 {
            Some(m) => {
                if MIN_ROTATION_INTERVAL_MINUTES as u64 <= m && m <= MAX_ROTATION_INTERVAL_MINUTES as u64 {
                    m as u16
                } else {
                    DEFAULT_ROTATION_INTERVAL_MINUTES
                }
            },
            None => DEFAULT_ROTATION_INTERVAL_MINUTES,
        },
        _ => DEFAULT_ROTATION_INTERVAL_MINUTES,
    }
}

/// The texts of the entries of a list.
pub open spec fn entry_texts(entries: Seq<JsonValue>) -> Seq<Seq<char>> {
    Seq::new(entries.len(), |i: int| scalar_text(Some(entries[i])))
}

/// A custom source read from its setting: a folder where `kind` says so,
/// else files; cleaned up as `normalize_custom_source_struct` does.
pub fn normalize_custom_source(value: &JsonValue) -> (r: Option<BackgroundImageCustomSource>)
    ensures
        !value.is_object() ==> r is None,
        r matches Some(s) ==> s.rotation_interval_minutes == rotation_interval_of(
            value.field("rotationIntervalMinutes"@),
        ) && s.kind == if scalar_text(value.field("kind"@)) == "folder"@ {
            BackgroundImageCustomSourceKind::Folder
        } else {
            BackgroundImageCustomSourceKind::Files
        },
        value.is_object() && scalar_text(value.field("kind"@)) == "folder"@ ==> match r {
            Some(s) => s.folder_path@ == trim(scalar_text(value.field("folderPath"@)))
                && s.folder_path@.len() > 0 && s.paths@.len() == 0,
            None => trim(scalar_text(value.field("folderPath"@))).len() == 0,
        },
        value.is_object() && scalar_text(value.field("kind"@)) != "folder"@ ==> {
            let given = match value.field("paths"@) {
                Some(JsonValue::Array(a)) => entry_texts(a@),
                _ => Seq::empty(),
            };
            match r {
                Some(s) => views(s.paths@) == unique_paths_of(given) && s.paths@.len() > 0,
                None => unique_paths_of(given).len() == 0,
            }
        },
{
    if !(match value {
        JsonValue::Object(_) => true,
        _ => false,
    }) {
        return None;
    }
    let kind_text = text_of(value.get("kind"));
    let kind = if str_eq(kind_text.as_str(), "folder") {
        BackgroundImageCustomSourceKind::Folder
    } else {
        BackgroundImageCustomSourceKind::Files
    };
    let mut paths: Vec<String> = Vec::new();
    match value.get("paths") {
        Some(JsonValue::Array(entries)) => {
            let mut i: usize = 0;
            while i < entries.len()
                invariant
                    i <= entries.len(),
                    views(paths@) =~= entry_texts(entries@).take(i as int),
                decreases entries.len() - i,
            {
                let ghost before = paths@;
                let t = text_of(Some(&entries[i]));
                paths.push(t);
                proof {
                    assert(views(paths@) =~= views(before).push(paths@.last()@));
                }
                i = i + 1;
            }
            proof {
                assert(entry_texts(entries@).take(i as int) =~= entry_texts(entries@));
            }
        },
        _ => {
            proof {
                assert(views(paths@) =~= Seq::<Seq<char>>::empty());
            }
        },
    }
    let rotation_interval_minutes = rotation_interval(value.get("rotationIntervalMinutes"));
    let folder_path = text_of(value.get("folderPath"));
    normalize_custom_source_struct(
        BackgroundImageCustomSource { kind, paths, folder_path, rotation_interval_minutes },
    )
}

pub fn files_source(paths: Vec<String>, rotation_interval_minutes: u16) -> (r:
    BackgroundImageCustomSource)
    ensures
        r.kind == BackgroundImageCustomSourceKind::Files,
        views(r.paths@) == unique_paths_of(views(paths@)),
        r.folder_path@.len() == 0,
        r.rotation_interval_minutes == rotation_interval_minutes,
{
    BackgroundImageCustomSource {
        kind: BackgroundImageCustomSourceKind::Files,
        paths: unique_paths(&paths),
        folder_path: String::new(),
        rotation_interval_minutes,
    }
}

pub fn folder_source(folder_path: String, rotation_interval_minutes: u16) -> (r:
    BackgroundImageCustomSource)
    ensures
        r.kind == BackgroundImageCustomSourceKind::Folder,
        r.paths@.len() == 0,
        r.folder_path@ == trim(folder_path@),
        r.rotation_interval_minutes == rotation_interval_minutes,
{
    BackgroundImageCustomSource {
        kind: BackgroundImageCustomSourceKind::Folder,
        paths: Vec::new(),
        folder_path: trim_str(folder_path.as_str()),
        rotation_interval_minutes,
    }
}

/// The key by which two paths are the same file: trimmed, in lower case.
pub open spec fn path_key_of(path: Seq<char>) -> Seq<char> {
    lowercase_of(trim(path))
}

pub fn path_key(path: &str) -> (r: String)
    ensures
        r@ == path_key_of(path@),
{
    let t = trim_str(path);
    to_lowercase(t.as_str())
}

pub open spec fn path_keys(paths: Seq<Seq<char>>) -> Seq<Seq<char>> {
    Seq::new(paths.len(), |i: int| path_key_of(paths[i]))
}

/// Every chosen file is still among the files found; a folder source has
/// nothing to check.
pub fn assert_selected_files_available(source: &BackgroundImageCustomSource, files: &Vec<String>) -> (r:
    Result<(), Error>)
    ensures
        r is Ok <==> (source.kind == BackgroundImageCustomSourceKind::Folder || forall|i: int|
            0 <= i < source.paths@.len() ==> path_keys(views(files@)).contains(
                path_key_of(#[trigger] source.paths@[i]@),
            )),
        r matches Err(e) ==> is_custom(e, MISSING_IMAGE_MESSAGE@),
{
    if source.kind != BackgroundImageCustomSourceKind::Files {
        return Ok(());
    }
    let mut available: Vec<String> = Vec::new();
    let mut i: usize = 0;
    while i < files.len()
        invariant
            i <= files.len(),
            views(available@) =~= path_keys(views(files@)).take(i as int),
        decreases files.len() - i,
    {
        let ghost before = available@;
        available.push(path_key(files[i].as_str()));
        proof {
            assert(views(available@) =~= views(before).push(available@.last()@));
        }
        i = i + 1;
    }
    proof {
        assert(path_keys(views(files@)).take(i as int) =~= path_keys(views(files@)));
    }
    let mut j: usize = 0;
    while j < source.paths.len()
        invariant
            j <= source.paths.len(),
            source.kind == BackgroundImageCustomSourceKind::Files,
            views(available@) == path_keys(views(files@)),
            forall|k: int|
                0 <= k < j ==> path_keys(views(files@)).contains(
                    path_key_of(#[trigger] source.paths@[k]@),
                ),
        decreases source.paths.len() - j,
    {
        let key = path_key(source.paths[j].as_str());
        if !contains_str(available.as_slice(), key.as_str()) {
            return Err(custom_error(MISSING_IMAGE_MESSAGE));
        }
        j = j + 1;
    }
    Ok(())
}

/// The text a custom source is hashed by.
pub open spec fn source_hash_key_of(source: BackgroundImageCustomSource) -> Seq<char> {
    match source.kind {
        BackgroundImageCustomSourceKind::Folder => "folder:"@ + source.folder_path@,
        BackgroundImageCustomSourceKind::Files => "files:"@ + join_with(views(source.paths@), "|"@),
    }
}

pub fn source_hash_key(source: &BackgroundImageCustomSource) -> (r: String)
    ensures
        r@ == source_hash_key_of(*source),
{
    match source.kind {
        BackgroundImageCustomSourceKind::Folder => {
            let mut r = "folder:".to_string();
            r.append(source.folder_path.as_str());
            r
        },
        BackgroundImageCustomSourceKind::Files => {
            let mut r = "files:".to_string();
            let joined = join_strings(source.paths.as_slice(), "|");
            r.append(joined.as_str());
            r
        },
    }
}

/// The FNV-1a hash of the text's UTF-16 units.
pub fn stable_hash(value: &str) -> (r: u32)
    ensures
        r == fnv1a_utf16(value@),
{
    fnv1a_utf16_hash(value)
}

/// A projection update goes through only for the latest operation, and,
/// where it expects a revision, only at that revision.
pub fn projection_update_is_current(
    current_operation: u64,
    operation: u64,
    current_revision: u64,
    expected_revision: Option<u64>,
) -> (r: bool)
    ensures
        r == (current_operation == operation && match expected_revision {
            Some(rev) => current_revision == rev,
            None => true,
        }),
{
    current_operation == operation && match expected_revision {
        Some(revision) => current_revision == revision,
        None => true,
    }
}

/// The path separators: `/` and `\\` (the client runs on Windows, where
/// both separate components).
pub open spec fn is_path_sep(c: char) -> bool {
    c == '/' || c == '\\'
}

/// The named components found so far, given the one being read: empty
/// components and `.` are not names.
pub open spec fn push_named(done: Seq<Seq<char>>, current: Seq<char>) -> Seq<Seq<char>> {
    if current.len() == 0 || current == seq!['.'] {
        done
    } else {
        done.push(current)
    }
}

/// A left-to-right reading of a path: the named components completed, and
/// the component being read.
pub open spec fn scan_path(s: Seq<char>) -> (Seq<Seq<char>>, Seq<char>)
    decreases s.len(),
{
    if s.len() == 0 {
        (Seq::empty(), Seq::empty())
    } else {
        let (done, current) = scan_path(s.drop_last());
        if is_path_sep(s.last()) {
            (push_named(done, current), Seq::empty())
        } else {
            (done, current.push(s.last()))
        }
    }
}

/// The named components of a path, in order.
pub open spec fn named_components(s: Seq<char>) -> Seq<Seq<char>> {
    push_named(scan_path(s).0, scan_path(s).1)
}

/// The file name of a path: its last named component, unless there is
/// none, it is `..`, or it is a lone drive prefix such as `C:`.
pub open spec fn file_name_of(path: Seq<char>) -> Option<Seq<char>> {
    let n = named_components(path);
    if n.len() == 0 {
        None
    } else if n.last() == seq!['.', '.'] {
        None
    } else if n.len() == 1 && n.last().last() == ':' {
        None
    } else {
        Some(n.last())
    }
}

/// The file name of a path, or the path itself where it has none.
pub fn file_name_from_path(path: &str) -> (r: String)
    ensures
        r@ == match file_name_of(path@) {
            Some(n) => n,
            None => path@,
        },
{
    let chars = crate::text::chars_of(path);
    let mut count: usize = 0;
    let mut last: Vec<char> = Vec::new();
    let mut current: Vec<char> = Vec::new();
    let mut i: usize = 0;
    while i < chars.len()
        invariant
            i <= chars.len(),
            chars@ == path@,
            count + current.len() <= i,
            count > 0 ==> last.len() > 0,
            count == scan_path(chars@.take(i as int)).0.len(),
            count > 0 ==> last@ == scan_path(chars@.take(i as int)).0.last(),
            current@ == scan_path(chars@.take(i as int)).1,
        decreases chars.len() - i,
    {
        assert(chars@.take(i + 1).drop_last() =~= chars@.take(i as int));
        assert(chars@.take(i + 1).last() == chars@[i as int]);
        let c = chars[i];
        if c == '/' || c == '\\' {
            let dot = current.len() == 1 && current[0] == '.';
            if current.len() > 0 && !dot {
                proof {
                    assert(current@ != seq!['.']);
                }
                last = current;
                count = count + 1;
            } else {
                proof {
                    if current.len() == 1 {
                        assert(current@ =~= seq!['.']);
                    }
                }
            }
            current = Vec::new();
        } else {
            current.push(c);
        }
        i = i + 1;
    }
    assert(chars@.take(chars.len() as int) =~= chars@);
    let ghost done = scan_path(path@).0;
    let ghost cur = scan_path(path@).1;
    let dot = current.len() == 1 && current[0] == '.';
    if current.len() > 0 && !dot {
        proof {
            assert(current@ != seq!['.']);
            assert(named_components(path@) == done.push(cur));
        }
        last = current;
        count = count + 1;
    } else {
        proof {
            if current.len() == 1 {
                assert(current@ =~= seq!['.']);
            }
            assert(named_components(path@) == done);
        }
    }
    assert(count == named_components(path@).len());
    assert(count > 0 ==> last@ == named_components(path@).last());
    if count == 0 {
        return path.to_string();
    }
    let dotdot = last.len() == 2 && last[0] == '.' && last[1] == '.';
    if dotdot {
        proof {
            assert(last@ =~= seq!['.', '.']);
        }
        return path.to_string();
    }
    proof {
        if last@ == seq!['.', '.'] {
            assert(last@[0] == '.' && last@[1] == '.');
        }
    }
    if count == 1 && last.len() > 0 && last[last.len() - 1] == ':' {
        return path.to_string();
    }
    crate::text::string_from_chars(last.as_slice())
}

/// Wrapper of `fastrand::usize(low..high)`: some number in the range.
#[verifier::external_body]
fn random_in_range(low: usize, high: usize) -> (r: usize)
    requires
        low < high,
    ensures
        low <= r < high,
{
    fastrand::usize(low..high)
}

/// Where the previous image is among the files, by path key.
pub open spec fn previous_position(files: Seq<Seq<char>>, previous: Seq<char>, k: int) -> bool {
    0 <= k < files.len() && path_key_of(files[k]) == path_key_of(previous) && forall|j: int|
        0 <= j < k ==> path_key_of(files[j]) != path_key_of(previous)
}

fn position_of(files: &Vec<String>, previous: &str) -> (r: Option<usize>)
    ensures
        match r {
            Some(k) => previous_position(views(files@), previous@, k as int),
            None => forall|j: int|
                0 <= j < files@.len() ==> path_key_of(#[trigger] files@[j]@) != path_key_of(previous@),
        },
{
    let key = path_key(previous);
    let mut i: usize = 0;
    while i < files.len()
        invariant
            i <= files.len(),
            key@ == path_key_of(previous@),
            forall|j: int| 0 <= j < i ==> path_key_of(#[trigger] files@[j]@) != path_key_of(previous@),
        decreases files.len() - i,
    {
        let k = path_key(files[i].as_str());
        if str_eq(k.as_str(), key.as_str()) {
            return Some(i);
        }
        i = i + 1;
    }
    None
}

/// The custom image to show next: with one file or none, the first; with a
/// previous image among the files, any other file; with a previous image
/// no longer there, any file; with none, the file the source's hash picks.
pub fn random_custom_image_index(
    source: &BackgroundImageCustomSource,
    files: &Vec<String>,
    previous: Option<&BackgroundImageSnapshot>,
) -> (r: usize)
    ensures
        files.len() <= 1 ==> r == 0,
        files.len() > 1 ==> r < files.len(),
        files.len() > 1 ==> match previous {
            Some(p) => match p.image_path {
                Some(path) => forall|k: int|
                    previous_position(views(files@), path@, k) ==> r != k,
                None => true,
            },
            None => r == fnv1a_utf16(source_hash_key_of(*source)) as int % files.len() as int,
        },
{
    if files.len() <= 1 {
        return 0;
    }
    let previous_index: Option<usize> = match previous {
        Some(snapshot) => match &snapshot.image_path {
            Some(path) => position_of(files, path.as_str()),
            None => None,
        },
        None => None,
    };
    match previous_index {
        Some(index) => {
            let step = random_in_range(1, files.len());
            let room = files.len() - index;
            let r = if step >= room {
                step - room
            } else {
                index + step
            };
            proof {
                assert forall|k: int| previous_position(views(files@), previous.unwrap().image_path.unwrap()@, k) implies r != k by {
                    if k != index {
                        if k < index {
                            assert(path_key_of(views(files@)[k]) != path_key_of(previous.unwrap().image_path.unwrap()@));
                        } else {
                            assert(path_key_of(views(files@)[index as int]) != path_key_of(previous.unwrap().image_path.unwrap()@));
                        }
                    }
                }
            }
            r
        },
        None => match previous {
            Some(_) => random_in_range(0, files.len()),
            None => {
                let key = source_hash_key(source);
                let h = stable_hash(key.as_str());
                ((h as u64) % (files.len() as u64)) as usize
            },
        },
    }
}

/// The duration of a number of seconds.
pub uninterp spec fn duration_of_secs(secs: u64) -> Duration;

/// Wrapper of `Duration::from_secs`: the duration is only named.
#[verifier::external_body]
fn duration_from_secs(secs: u64) -> (r: Duration)
    ensures
        r == duration_of_secs(secs),
{
    Duration::from_secs(secs)
}

/// The wait between two custom images.
pub fn rotation_delay(rotation_interval_minutes: u16) -> (r: Duration)
    ensures
        r == duration_of_secs((rotation_interval_minutes * 60) as u64),
{
    duration_from_secs(rotation_interval_minutes as u64 * 60)
}

/// The snapshot a stored daily-image setting gives, for the expected
/// provider: an object naming that provider, with an image address; the
/// key it was resolved for is `resolvedForKey`, else the older
/// `resolvedForDate`.
pub fn normalize_provider_snapshot(
    value: Option<&JsonValue>,
    expected_provider: BackgroundImageProviderId,
) -> (r: Option<BackgroundImageSnapshot>)
    ensures
        match value {
            None => r is None,
            Some(v) => if !v.is_object() || scalar_text(v.field("providerId"@))
                != expected_provider.config_name() || trim(scalar_text(v.field("imageUrl"@))).len()
                == 0 {
                r is None
            } else {
                r matches Some(s) && {
                    &&& s.mode == BackgroundImageMode::Daily
                    &&& s.provider_id == Some(expected_provider)
                    &&& s.source_kind is None && s.image_path is None && s.image_count is None
                    &&& s.image_url@ == trim(scalar_text(v.field("imageUrl"@)))
                    &&& s.title@ == scalar_text(v.field("title"@))
                    &&& s.author@ == scalar_text(v.field("author"@))
                    &&& s.license@ == scalar_text(v.field("license"@))
                    &&& s.source@ == scalar_text(v.field("source"@))
                    &&& s.resolved_at@ == scalar_text(v.field("resolvedAt"@))
                    &&& s.resolved_for_key@ == if scalar_text(v.field("resolvedForKey"@)).len() > 0 {
                        scalar_text(v.field("resolvedForKey"@))
                    } else {
                        scalar_text(v.field("resolvedForDate"@))
                    }
                }
            },
        },
{
    let value = match value {
        Some(v) => v,
        None => {
            return None;
        },
    };
    if !(match value {
        JsonValue::Object(_) => true,
        _ => false,
    }) {
        return None;
    }
    let provider_text = text_of(value.get("providerId"));
    match BackgroundImageProviderId::from_config(provider_text.as_str()) {
        Some(p) => {
            if p != expected_provider {
                proof {
                    reveal_strlit("nasa-epic");
                    reveal_strlit("nasa-apod-safe");
                    assert("nasa-epic"@.len() != "nasa-apod-safe"@.len());
                    assert(p.config_name() != expected_provider.config_name());
                }
                return None;
            }
        },
        None => {
            proof {
                reveal_strlit("nasa-epic");
                reveal_strlit("nasa-apod-safe");
            }
            return None;
        },
    }
    let image_url = trim_str(text_of(value.get("imageUrl")).as_str());
    if image_url.as_str().is_empty() {
        return None;
    }
    let key = text_of(value.get("resolvedForKey"));
    let resolved_for_key = if key.as_str().is_empty() {
        text_of(value.get("resolvedForDate"))
    } else {
        key
    };
    Some(
        BackgroundImageSnapshot {
            mode: BackgroundImageMode::Daily,
            provider_id: Some(expected_provider),
            source_kind: None,
            image_url,
            image_path: None,
            image_count: None,
            title: text_of(value.get("title")),
            author: text_of(value.get("author")),
            license: text_of(value.get("license")),
            source: text_of(value.get("source")),
            resolved_at: text_of(value.get("resolvedAt")),
            resolved_for_key,
        },
    )
}

/// The instant an RFC 3339 text names, in nanoseconds since the Unix epoch,
/// as chrono reads it.
pub uninterp spec fn rfc3339_nanos(text: Seq<char>) -> Option<i64>;

/// Wrapper of `DateTime::parse_from_rfc3339` followed by
/// `timestamp_nanos_opt`: `None` where the text does not parse or the
/// instant does not fit; the instant is only named.
#[verifier::external_body]
fn parse_rfc3339_nanos(text: &str) -> (r: Option<i64>)
    ensures
        r == rfc3339_nanos(text@),
{
    chrono::DateTime::parse_from_rfc3339(text).ok().and_then(|t| t.timestamp_nanos_opt())
}

/// Wrapper of `SystemTime::now().duration_since(UNIX_EPOCH)`: the current
/// time in nanoseconds since the Unix epoch; `None` when the clock reads
/// before the epoch or too far after it for an `i64`. Nothing is claimed
/// of the value.
#[verifier::external_body]
fn now_nanos() -> (r: Option<i64>) {
    std::time::SystemTime::now()
        .duration_since(std::time::UNIX_EPOCH)
        .ok()
        .and_then(|elapsed| i64::try_from(elapsed.as_nanos()).ok())
}

/// Nanoseconds in the lifetime of a daily snapshot.
pub open spec fn snapshot_ttl_nanos() -> int {
    SNAPSHOT_TTL_HOURS * 3_600_000_000_000
}

/// A daily snapshot is fresh at `now` when it names a provider and was
/// resolved at a readable instant less than a day before `now`.
pub open spec fn fresh_at(snapshot: Option<BackgroundImageSnapshot>, now: int) -> bool {
    match snapshot {
        None => false,
        Some(s) => s.provider_id is Some && s.resolved_at@.len() > 0 && match rfc3339_nanos(
            s.resolved_at@,
        ) {
            Some(t) => 0 <= now - t < snapshot_ttl_nanos(),
            None => false,
        },
    }
}

pub open spec fn opt_snapshot(s: Option<&BackgroundImageSnapshot>) -> Option<BackgroundImageSnapshot> {
    match s {
        Some(x) => Some(*x),
        None => None,
    }
}

pub fn is_snapshot_fresh_at(snapshot: Option<&BackgroundImageSnapshot>, now: i64) -> (r: bool)
    ensures
        r == fresh_at(opt_snapshot(snapshot), now as int),
{
    let snapshot = match snapshot {
        Some(s) => s,
        None => {
            return false;
        },
    };
    if snapshot.provider_id.is_none() || snapshot.resolved_at.as_str().is_empty() {
        return false;
    }
    match parse_rfc3339_nanos(snapshot.resolved_at.as_str()) {
        Some(t) => {
            let age: i128 = now as i128 - t as i128;
            0 <= age && age < 86_400_000_000_000i128
        },
        None => false,
    }
}

/// Whether a daily snapshot is fresh now; not fresh where the clock cannot
/// be read. The answer is the freshness at the instant the clock gives.
pub fn is_snapshot_fresh(snapshot: Option<&BackgroundImageSnapshot>) -> (r: bool)
    ensures
        exists|now: int| r == #[trigger] fresh_at(opt_snapshot(snapshot), now),
        r ==> exists|now: int| #[trigger] fresh_at(opt_snapshot(snapshot), now),
{
    match now_nanos() {
        Some(now) => {
            let r = is_snapshot_fresh_at(snapshot, now);
            assert(r == fresh_at(opt_snapshot(snapshot), now as int));
            r
        },
        None => {
            proof {
                lemma_stale_instant(opt_snapshot(snapshot));
            }
            false
        },
    }
}

/// Every snapshot is stale at some instant.
proof fn lemma_stale_instant(snapshot: Option<BackgroundImageSnapshot>)
    ensures
        exists|now: int| !#[trigger] fresh_at(snapshot, now),
{
    match snapshot {
        Some(s) => match rfc3339_nanos(s.resolved_at@) {
            Some(t) => {
                assert(!fresh_at(snapshot, t + snapshot_ttl_nanos()));
            },
            None => {
                assert(!fresh_at(snapshot, 0));
            },
        },
        None => {
            assert(!fresh_at(snapshot, 0));
        },
    }
}

/// Whether a community theme styles the app: the theme switch is on and
/// some theme is installed, named or has a stylesheet.
pub fn community_theme_appearance_active(
    enabled: bool,
    installed_themes: &JsonValue,
    install_metadata: &JsonValue,
    css_snapshot: &str,
) -> (r: bool)
    ensures
        r == (enabled && ((installed_themes matches JsonValue::Array(a) && a@.len() > 0) || trim(
            scalar_text(install_metadata.field("themeId"@)),
        ).len() > 0 || trim(css_snapshot@).len() > 0)),
{
    if !enabled {
        return false;
    }
    match installed_themes {
        JsonValue::Array(a) => {
            if a.len() > 0 {
                return true;
            }
        },
        _ => {},
    }
    let theme_id = trim_str(text_of(install_metadata.get("themeId")).as_str());
    if !theme_id.as_str().is_empty() {
        return true;
    }
    let css = trim_str(css_snapshot);
    !css.as_str().is_empty()
}

/// The paths of a files source are distinct, trimmed and not empty.
pub proof fn law_unique_paths(paths: Seq<Seq<char>>)
    ensures
        unique_paths_of(paths).no_duplicates(),
        forall|p: Seq<char>| #[trigger] unique_paths_of(paths).contains(p) ==> p.len() > 0,
    decreases paths.len(),
{
    if paths.len() > 0 {
        law_unique_paths(paths.drop_last());
        let rest = unique_paths_of(paths.drop_last());
        let p = trim(paths.last());
        assert forall|x: Seq<char>| #[trigger] unique_paths_of(paths).contains(x) implies x.len() > 0 by {
            assert(rest.contains(x) ==> x.len() > 0);
            if p.len() > 0 && !rest.contains(p) {
                let t = rest.push(p);
                let k = choose|k: int| 0 <= k < t.len() && t[k] == x;
                if k < rest.len() {
                    assert(rest[k] == x);
                }
            }
        }
    }
}

} // verus!
