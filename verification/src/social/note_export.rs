//! Exporting user notes to VRChat one note at a time: the input checks, the
//! reading of a save reply, the run's state and the runtime's status.

use vstd::prelude::*;

use crate::error::{custom_error, is_custom, Error};
use crate::json::{parse_json, parsed_json, JsonValue};
use crate::numbers::{decimal_i32, decimal_i64, decimal_text, decimal_u64};
use crate::text::{
    chars_of, contains_str, is_prefix, starts_with, str_eq, string_from_chars, trim, trim_str,
    views,
};
use crate::wire::{wire_count, wire_count_of};

verus! {

pub const NOTE_EXPORT_MAX_ITEMS: usize = 1_000;

/// The pause kept between two saved notes, in milliseconds.
pub const NOTE_EXPORT_INTERVAL_MS: u64 = 2_000;

/// How often a pause looks for a cancellation, in milliseconds.
pub const NOTE_EXPORT_CANCEL_POLL_MS: u64 = 50;

/// The longest note kept, in characters.
pub const NOTE_MAX_CHARS: usize = 256;

pub const EMPTY_EXPORT_MESSAGE: &'static str = "Note export requires at least one item.";

pub const TOO_MANY_NOTES_MESSAGE: &'static str = "Note export cannot exceed 1000 items.";

pub const INVALID_USER_MESSAGE: &'static str = "Note export contains an invalid user id.";

pub const EXPORT_ACTIVE_MESSAGE: &'static str = "Another note export is already active.";

pub const EXPORT_SESSION_MESSAGE: &'static str =
    "Note export requires an authenticated session.";

#[derive(Clone, Debug, PartialEq, Eq)]
pub struct NoteExportItemInput {
    pub user_id: String,
    pub display_name: String,
    pub note: String,
}

/// `(user_id, display_name, note)`.
pub type ItemInputView = (Seq<char>, Seq<char>, Seq<char>);

impl View for NoteExportItemInput {
    type V = ItemInputView;

    open spec fn view(&self) -> ItemInputView {
        (self.user_id@, self.display_name@, self.note@)
    }
}

#[derive(Clone, Copy, Debug, Default, PartialEq, Eq, Structural)]
pub enum NoteExportState {
    #[default]
    Idle,
    Running,
    Cancelling,
    Completed,
    Cancelled,
    Error,
}

#[derive(Clone, Copy, Debug, Default, PartialEq, Eq, Structural)]
pub enum NoteExportItemState {
    #[default]
    Pending,
    Succeeded,
    Failed,
    NotAttempted,
    Cancelled,
}

#[derive(Clone, Debug, Default, PartialEq, Eq)]
pub struct NoteExportItemStatus {
    pub user_id: String,
    pub display_name: String,
    pub note: String,
    pub state: NoteExportItemState,
    pub error: Option<String>,
}

#[derive(Clone, Debug, Default)]
pub struct NoteExportStatus {
    pub run_id: String,
    pub status: NoteExportState,
    pub total: u32,
    pub processed: u32,
    pub succeeded: u32,
    pub failed: u32,
    pub items: Vec<NoteExportItemStatus>,
    pub started_at: Option<String>,
    pub finished_at: Option<String>,
    pub last_error: Option<String>,
}

#[derive(Clone, Debug)]
pub struct NoteExportStartInput {
    pub items: Vec<NoteExportItemInput>,
}

#[derive(Clone, Debug, Default, PartialEq, Eq)]
pub struct NoteExportProgress {
    pub processed: usize,
    pub succeeded: usize,
    pub failed: usize,
    pub items: Vec<NoteExportItemStatus>,
    pub last_error: Option<String>,
}

#[derive(Clone, Debug, Default, PartialEq, Eq)]
pub struct NoteExportResult {
    pub total: usize,
    pub processed: usize,
    pub succeeded: usize,
    pub failed: usize,
    pub cancelled: bool,
    pub items: Vec<NoteExportItemStatus>,
    pub last_error: Option<String>,
}

// ---------------------------------------------------------------------------
// Preparing the items

/// A user id as VRChat writes it.
pub open spec fn valid_user_id(id: Seq<char>) -> bool {
    is_prefix("usr_"@, id) && id.len() > 4
}

/// A note on one line, cut to `NOTE_MAX_CHARS` characters.
pub open spec fn one_line_note(note: Seq<char>) -> Seq<char> {
    let n = if note.len() < NOTE_MAX_CHARS {
        note.len() as int
    } else {
        NOTE_MAX_CHARS as int
    };
    Seq::new(n as nat, |i: int| if note[i] == '\r' || note[i] == '\n' { ' ' } else { note[i] })
}

/// The message of a user that occurs twice.
pub open spec fn duplicate_message(user_id: Seq<char>) -> Seq<char> {
    "Note export contains duplicate user "@ + user_id + "."@
}

/// The items of an export, checked one after the other: each user id
/// trimmed and valid, each user once, the note on one line and cut, the
/// display name trimmed or else the user id. The first bad item gives the
/// error.
pub open spec fn prepared_items(items: Seq<ItemInputView>) -> Result<Seq<ItemInputView>, Seq<char>>
    decreases items.len(),
{
    if items.len() == 0 {
        Ok(Seq::empty())
    } else {
        match prepared_items(items.drop_last()) {
            Err(m) => Err(m),
            Ok(done) => {
                let item = items.last();
                let user_id = trim(item.0);
                if !valid_user_id(user_id) {
                    Err(INVALID_USER_MESSAGE@)
                } else if user_ids(done).contains(user_id) {
                    Err(duplicate_message(user_id))
                } else {
                    let display = if trim(item.1).len() == 0 {
                        user_id
                    } else {
                        trim(item.1)
                    };
                    Ok(done.push((user_id, display, one_line_note(item.2))))
                }
            },
        }
    }
}

/// The user ids of the items.
pub open spec fn user_ids(items: Seq<ItemInputView>) -> Seq<Seq<char>> {
    Seq::new(items.len(), |i: int| items[i].0)
}

pub open spec fn input_views(items: Seq<NoteExportItemInput>) -> Seq<ItemInputView> {
    Seq::new(items.len(), |i: int| items[i]@)
}

fn one_line(note: &str) -> (r: String)
    ensures
        r@ == one_line_note(note@),
{
    let v = chars_of(note);
    let mut out: Vec<char> = Vec::new();
    let mut i: usize = 0;
    while i < v.len() && i < NOTE_MAX_CHARS
        invariant
            i <= v.len(),
            i <= NOTE_MAX_CHARS,
            v@ == note@,
            out@ =~= Seq::new(
                i as nat,
                |k: int| if note@[k] == '\r' || note@[k] == '\n' { ' ' } else { note@[k] },
            ),
        decreases v.len() - i,
    {
        let c = v[i];
        if c == '\r' || c == '\n' {
            out.push(' ');
        } else {
            out.push(c);
        }
        i = i + 1;
    }
    string_from_chars(out.as_slice())
}

fn user_ids_of(items: &Vec<NoteExportItemInput>) -> (r: Vec<String>)
    ensures
        views(r@) == user_ids(input_views(items@)),
{
    let mut out: Vec<String> = Vec::new();
    let mut i: usize = 0;
    proof {
        assert(views(out@) =~= user_ids(input_views(items@).take(0)));
    }
    while i < items.len()
        invariant
            i <= items.len(),
            views(out@) == user_ids(input_views(items@).take(i as int)),
        decreases items.len() - i,
    {
        let ghost before = out@;
        out.push(items[i].user_id.clone());
        proof {
            assert(views(out@) =~= views(before).push(items@[i as int].user_id@));
            assert(views(out@) =~= user_ids(input_views(items@).take(i as int + 1)));
        }
        i = i + 1;
    }
    proof {
        assert(input_views(items@).take(i as int) =~= input_views(items@));
    }
    out
}

/// The items of an export, checked: at least one and at most
/// `NOTE_EXPORT_MAX_ITEMS`, then each as `prepared_items` says.
pub fn prepare_note_export(input: NoteExportStartInput) -> (r: Result<Vec<NoteExportItemInput>, Error>)
    ensures
        match r {
            Ok(items) => {
                &&& 1 <= input.items.len() <= NOTE_EXPORT_MAX_ITEMS
                &&& prepared_items(input_views(input.items@)) == Ok::<Seq<ItemInputView>, Seq<char>>(
                    input_views(items@),
                )
            },
            Err(e) => if input.items.len() == 0 {
                is_custom(e, EMPTY_EXPORT_MESSAGE@)
            } else if input.items.len() > NOTE_EXPORT_MAX_ITEMS {
                is_custom(e, TOO_MANY_NOTES_MESSAGE@)
            } else {
                prepared_items(input_views(input.items@)) matches Err(m) && is_custom(e, m)
            },
        },
{
    if input.items.len() == 0 {
        return Err(custom_error(EMPTY_EXPORT_MESSAGE));
    }
    if input.items.len() > NOTE_EXPORT_MAX_ITEMS {
        return Err(custom_error(TOO_MANY_NOTES_MESSAGE));
    }
    let ghost all = input_views(input.items@);
    let mut out: Vec<NoteExportItemInput> = Vec::new();
    let mut i: usize = 0;
    proof {
        assert(all.take(0) =~= Seq::<ItemInputView>::empty());
        assert(input_views(out@) =~= Seq::<ItemInputView>::empty());
    }
    while i < input.items.len()
        invariant
            i <= input.items.len(),
            1 <= input.items.len() <= NOTE_EXPORT_MAX_ITEMS,
            all == input_views(input.items@),
            prepared_items(all.take(i as int)) == Ok::<Seq<ItemInputView>, Seq<char>>(
                input_views(out@),
            ),
        decreases input.items.len() - i,
    {
        proof {
            assert(all.take(i as int + 1).drop_last() =~= all.take(i as int));
            assert(all.take(i as int + 1).last() == input.items@[i as int]@);
        }
        let item = &input.items[i];
        let user_id = trim_str(item.user_id.as_str());
        if !(starts_with(user_id.as_str(), "usr_") && chars_of(user_id.as_str()).len() > 4) {
            proof {
                reveal_strlit("usr_");
                assert(prepared_items(all.take(i as int + 1)) == Err::<Seq<ItemInputView>, Seq<char>>(
                    INVALID_USER_MESSAGE@,
                ));
                lemma_prepared_err_persists(all, i as int + 1);
            }
            return Err(custom_error(INVALID_USER_MESSAGE));
        }
        proof {
            reveal_strlit("usr_");
        }
        let seen = user_ids_of(&out);
        if contains_str(seen.as_slice(), user_id.as_str()) {
            let mut m = "Note export contains duplicate user ".to_string();
            m.append(user_id.as_str());
            m.append(".");
            proof {
                assert(prepared_items(all.take(i as int + 1)) == Err::<Seq<ItemInputView>, Seq<char>>(
                    duplicate_message(user_id@),
                ));
                lemma_prepared_err_persists(all, i as int + 1);
            }
            return Err(Error::Custom(m));
        }
        let note = one_line(item.note.as_str());
        let display_trimmed = trim_str(item.display_name.as_str());
        let display_name = if display_trimmed.as_str().is_empty() {
            user_id.clone()
        } else {
            display_trimmed
        };
        let ghost before = out@;
        out.push(NoteExportItemInput { display_name, user_id, note });
        proof {
            assert(input_views(out@) =~= input_views(before).push(out@.last()@));
        }
        i = i + 1;
    }
    proof {
        assert(all.take(i as int) =~= all);
    }
    Ok(out)
}

/// Once a prefix of the items fails, the whole list fails with its error.
pub proof fn lemma_prepared_err_persists(items: Seq<ItemInputView>, k: int)
    requires
        0 <= k <= items.len(),
        prepared_items(items.take(k)) is Err,
    ensures
        prepared_items(items) == prepared_items(items.take(k)),
    decreases items.len() - k,
{
    if k < items.len() {
        assert(items.take(k + 1).drop_last() =~= items.take(k));
        lemma_prepared_err_persists(items, k + 1);
    } else {
        assert(items.take(k) =~= items);
    }
}

// ---------------------------------------------------------------------------
// Reading a save reply

/// The reply as a document: its JSON, or the text itself as a string.
pub open spec fn reply_document(data: Seq<char>, parsed: Option<JsonValue>, as_text: JsonValue) -> JsonValue {
    match parsed {
        Some(v) => v,
        None => as_text,
    }
}

/// The message a failed save reports: `error.message`, else `error`, else
/// `message`, else the document itself, where that is a string with
/// something but whitespace in it; trimmed.
pub open spec fn reply_message(json: JsonValue) -> Option<Seq<char>> {
    let picked = match json.field("error"@) {
        Some(err) => match err.field("message"@) {
            Some(m) => Some(m),
            None => Some(err),
        },
        None => json.field("message"@),
    };
    let text = match picked {
        Some(v) => match v.str_of() {
            Some(s) => Some(s),
            None => json.str_of(),
        },
        None => json.str_of(),
    };
    match text {
        Some(s) => if trim(s).len() > 0 {
            Some(trim(s))
        } else {
            None
        },
        None => None,
    }
}

/// The error of a note save: none for a status below 400 without an
/// `error` member; else the reply's message, or a message with the status.
pub open spec fn save_error_of(status: int, json: JsonValue) -> Option<Seq<char>> {
    if status < 400 && json.field("error"@) is None {
        None
    } else {
        match reply_message(json) {
            Some(m) => Some(m),
            None => Some("Saving user note failed with status "@ + decimal_text(status) + "."@),
        }
    }
}

/// The error of a note save whose reply is not JSON: the reply is read as a
/// string.
pub open spec fn save_error_of_text(status: int, data: Seq<char>) -> Option<Seq<char>> {
    if status < 400 {
        None
    } else if trim(data).len() > 0 {
        Some(trim(data))
    } else {
        Some("Saving user note failed with status "@ + decimal_text(status) + "."@)
    }
}

pub fn note_save_response_error(status: i32, data: &str) -> (r: Option<String>)
    ensures
        match r {
            Some(m) => match parsed_json(data@) {
                Some(json) => save_error_of(status as int, json) == Some(m@),
                None => save_error_of_text(status as int, data@) == Some(m@),
            },
            None => match parsed_json(data@) {
                Some(json) => save_error_of(status as int, json) is None,
                None => save_error_of_text(status as int, data@) is None,
            },
        },
{
    let json = match parse_json(data) {
        Some(v) => v,
        None => JsonValue::String(data.to_string()),
    };
    save_error(status, &json)
}

pub fn save_error(status: i32, json: &JsonValue) -> (r: Option<String>)
    ensures
        match r {
            Some(m) => save_error_of(status as int, *json) == Some(m@),
            None => save_error_of(status as int, *json) is None,
        },
{
    if status < 400 && json.get("error").is_none() {
        return None;
    }
    let message = reply_text(json);
    match message {
        Some(m) => Some(m),
        None => {
            let mut m = "Saving user note failed with status ".to_string();
            let code = decimal_i32(status);
            m.append(code.as_str());
            m.append(".");
            Some(m)
        },
    }
}

/// The reply's message, as `reply_message` says.
pub fn reply_text(json: &JsonValue) -> (r: Option<String>)
    ensures
        match r {
            Some(m) => reply_message(*json) == Some(m@),
            None => reply_message(*json) is None,
        },
{
    let picked: Option<&JsonValue> = match json.get("error") {
        Some(err) => match err.get("message") {
            Some(m) => Some(m),
            None => Some(err),
        },
        None => json.get("message"),
    };
    let text: Option<&String> = match picked {
        Some(v) => match v.as_str() {
            Some(s) => Some(s),
            None => json.as_str(),
        },
        None => json.as_str(),
    };
    match text {
        Some(s) => {
            let t = trim_str(s.as_str());
            if t.as_str().is_empty() {
                None
            } else {
                Some(t)
            }
        },
        None => None,
    }
}

/// An authentication failure is reported for a 401 while the session that
/// started the export is still the current one.
pub fn should_report_auth_failure(status_code: i32, scope_matches: bool) -> (r: bool)
    ensures
        r == (status_code == 401 && scope_matches),
{
    status_code == 401 && scope_matches
}

// ---------------------------------------------------------------------------
// The run

/// `(user_id, display_name, note, state, error)` of an item's status.
pub type ItemStatusView = (Seq<char>, Seq<char>, Seq<char>, NoteExportItemState, Option<Seq<char>>);

pub open spec fn opt_view(o: Option<String>) -> Option<Seq<char>> {
    match o {
        Some(s) => Some(s@),
        None => None,
    }
}

impl View for NoteExportItemStatus {
    type V = ItemStatusView;

    open spec fn view(&self) -> ItemStatusView {
        (self.user_id@, self.display_name@, self.note@, self.state, opt_view(self.error))
    }
}

/// An item status with another state and error.
pub open spec fn with_state(
    it: ItemStatusView,
    state: NoteExportItemState,
    error: Option<Seq<char>>,
) -> ItemStatusView {
    (it.0, it.1, it.2, state, error)
}

pub open spec fn status_views(items: Seq<NoteExportItemStatus>) -> Seq<ItemStatusView> {
    Seq::new(items.len(), |i: int| items[i]@)
}

/// Each item from `from` on that is still pending takes `state`; the others
/// keep theirs.
pub open spec fn marked_remaining(items: Seq<ItemStatusView>, from: int, state: NoteExportItemState) -> Seq<
    ItemStatusView,
> {
    Seq::new(
        items.len(),
        |i: int|
            if i >= from && items[i].3 == NoteExportItemState::Pending {
                (items[i].0, items[i].1, items[i].2, state, items[i].4)
            } else {
                items[i]
            },
    )
}

pub fn mark_remaining(items: &mut Vec<NoteExportItemStatus>, from: usize, state: NoteExportItemState)
    ensures
        status_views(final(items)@) == marked_remaining(status_views(old(items)@), from as int, state),
{
    let ghost initial = status_views(items@);
    let mut i: usize = from;
    while i < items.len()
        invariant
            from <= i,
            items.len() == initial.len(),
            forall|k: int|
                0 <= k < items.len() ==> (#[trigger] items@[k])@ == if from <= k < i {
                    marked_remaining(initial, from as int, state)[k]
                } else {
                    initial[k]
                },
        decreases items.len() - i,
    {
        if items[i].state == NoteExportItemState::Pending {
            let item = NoteExportItemStatus {
                user_id: items[i].user_id.clone(),
                display_name: items[i].display_name.clone(),
                note: items[i].note.clone(),
                state,
                error: match &items[i].error {
                    Some(e) => Some(e.clone()),
                    None => None,
                },
            };
            items.set(i, item);
        }
        i = i + 1;
    }
    proof {
        assert(status_views(items@) =~= marked_remaining(initial, from as int, state));
    }
}

fn clone_status(item: &NoteExportItemStatus) -> (r: NoteExportItemStatus)
    ensures
        r@ == item@,
{
    NoteExportItemStatus {
        user_id: item.user_id.clone(),
        display_name: item.display_name.clone(),
        note: item.note.clone(),
        state: item.state,
        error: match &item.error {
            Some(e) => Some(e.clone()),
            None => None,
        },
    }
}

/// A copy of item statuses.
pub fn clone_statuses(items: &Vec<NoteExportItemStatus>) -> (r: Vec<NoteExportItemStatus>)
    ensures
        status_views(r@) == status_views(items@),
{
    let mut out: Vec<NoteExportItemStatus> = Vec::new();
    let mut i: usize = 0;
    while i < items.len()
        invariant
            i <= items.len(),
            status_views(out@) =~= status_views(items@).take(i as int),
        decreases items.len() - i,
    {
        let ghost before = out@;
        out.push(clone_status(&items[i]));
        proof {
            assert(status_views(out@) =~= status_views(before).push(out@.last()@));
        }
        i = i + 1;
    }
    proof {
        assert(status_views(items@).take(i as int) =~= status_views(items@));
    }
    out
}

fn pending_status(item: &NoteExportItemInput) -> (r: NoteExportItemStatus)
    ensures
        r@ == (item.user_id@, item.display_name@, item.note@, NoteExportItemState::Pending, None::<Seq<char>>),
{
    NoteExportItemStatus {
        user_id: item.user_id.clone(),
        display_name: item.display_name.clone(),
        note: item.note.clone(),
        state: NoteExportItemState::Pending,
        error: None,
    }
}

/// The statuses of new items: each pending, without error.
pub open spec fn pending_views(items: Seq<NoteExportItemInput>) -> Seq<ItemStatusView> {
    Seq::new(
        items.len(),
        |i: int| (items[i].user_id@, items[i].display_name@, items[i].note@, NoteExportItemState::Pending, None::<Seq<char>>),
    )
}

pub fn pending_statuses(items: &Vec<NoteExportItemInput>) -> (r: Vec<NoteExportItemStatus>)
    ensures
        status_views(r@) == pending_views(items@),
{
    let mut out: Vec<NoteExportItemStatus> = Vec::new();
    let mut i: usize = 0;
    while i < items.len()
        invariant
            i <= items.len(),
            status_views(out@) =~= pending_views(items@).take(i as int),
        decreases items.len() - i,
    {
        let ghost before = out@;
        out.push(pending_status(&items[i]));
        proof {
            assert(status_views(out@) =~= status_views(before).push(out@.last()@));
        }
        i = i + 1;
    }
    proof {
        assert(pending_views(items@).take(i as int) =~= pending_views(items@));
    }
    out
}

/// An export in progress: the result so far and the next item to save.
#[derive(Debug)]
pub struct NoteExportRun {
    pub result: NoteExportResult,
    pub next: usize,
}

impl NoteExportRun {
    /// Items before `next` were saved or failed; the others are pending,
    /// unless the run stopped, which gave them their final state; the
    /// counts add up.
    pub open spec fn wf(&self) -> bool {
        let items = self.result.items@;
        &&& self.next <= items.len()
        &&& self.result.total == items.len()
        &&& self.result.processed == self.next
        &&& self.result.succeeded + self.result.failed == self.result.processed
        &&& self.result.failed <= 1
        &&& forall|i: int|
            0 <= i < self.next ==> (#[trigger] items[i]).state == NoteExportItemState::Succeeded
                || items[i].state == NoteExportItemState::Failed
        &&& forall|i: int|
            self.next <= i < items.len() ==> (#[trigger] items[i]).state != NoteExportItemState::Succeeded
                && items[i].state != NoteExportItemState::Failed
        &&& (self.result.failed == 0 && !self.result.cancelled) ==> forall|i: int|
            self.next <= i < items.len() ==> (#[trigger] items[i]).state == NoteExportItemState::Pending
    }

    /// The run has stopped: an item failed or the export was cancelled.
    pub open spec fn stopped(&self) -> bool {
        self.result.failed > 0 || self.result.cancelled
    }

    /// The run has nothing more to do.
    pub open spec fn done(&self) -> bool {
        self.stopped() || self.next == self.result.items.len()
    }

    /// A run over prepared items, nothing saved yet.
    pub fn new(items: &Vec<NoteExportItemInput>) -> (r: NoteExportRun)
        ensures
            r.wf(),
            r.next == 0,
            !r.result.cancelled,
            r.result.failed == 0,
            status_views(r.result.items@) == pending_views(items@),
            r.result.last_error is None,
    {
        let statuses = pending_statuses(items);
        proof {
            assert(status_views(statuses@).len() == statuses@.len());
            assert forall|i: int| 0 <= i < statuses@.len() implies (#[trigger] statuses@[i]).state
                == NoteExportItemState::Pending by {
                assert(status_views(statuses@)[i] == statuses@[i]@);
                assert(pending_views(items@)[i].3 == NoteExportItemState::Pending);
            }
        }
        NoteExportRun {
            result: NoteExportResult {
                total: items.len(),
                processed: 0,
                succeeded: 0,
                failed: 0,
                cancelled: false,
                items: statuses,
                last_error: None,
            },
            next: 0,
        }
    }

    pub fn is_done(&self) -> (r: bool)
        ensures
            r == self.done(),
    {
        self.result.failed > 0 || self.result.cancelled || self.next == self.result.items.len()
    }

    /// The export was cancelled: every item still pending is cancelled.
    pub fn cancel(&mut self)
        requires
            old(self).wf(),
        ensures
            final(self).wf(),
            final(self).result.cancelled,
            final(self).next == old(self).next,
            final(self).result.processed == old(self).result.processed,
            final(self).result.succeeded == old(self).result.succeeded,
            final(self).result.failed == old(self).result.failed,
            status_views(final(self).result.items@) == marked_remaining(
                status_views(old(self).result.items@),
                old(self).next as int,
                NoteExportItemState::Cancelled,
            ),
            opt_view(final(self).result.last_error) == opt_view(old(self).result.last_error),
    {
        self.result.cancelled = true;
        let ghost before = self.result.items@;
        mark_remaining(&mut self.result.items, self.next, NoteExportItemState::Cancelled);
        proof {
            assert(status_views(self.result.items@).len() == self.result.items@.len());
            assert(status_views(before).len() == before.len());
            assert forall|i: int| 0 <= i < self.result.items@.len() implies (#[trigger] self.result.items@[i]).state
                == if i >= self.next && before[i].state == NoteExportItemState::Pending {
                NoteExportItemState::Cancelled
            } else {
                before[i].state
            } by {
                assert(status_views(self.result.items@)[i] == self.result.items@[i]@);
                assert(status_views(before)[i] == before[i]@);
            }
        }
    }

    /// Records the save of the next item: a success, or a failure with its
    /// message, which stops the run and leaves the later items not
    /// attempted. Gives the progress to report.
    pub fn record(&mut self, outcome: Result<(), String>) -> (p: NoteExportProgress)
        requires
            old(self).wf(),
            !old(self).done(),
        ensures
            final(self).wf(),
            final(self).next == old(self).next + 1,
            !final(self).result.cancelled,
            final(self).result.succeeded == old(self).result.succeeded + if outcome is Ok {
                1int
            } else {
                0
            },
            final(self).result.failed == if outcome is Ok {
                0int
            } else {
                1
            },
            match outcome {
                Ok(_) => status_views(final(self).result.items@) == status_views(
                    old(self).result.items@,
                ).update(
                    old(self).next as int,
                    with_state(
                        status_views(old(self).result.items@)[old(self).next as int],
                        NoteExportItemState::Succeeded,
                        None,
                    ),
                ) && opt_view(final(self).result.last_error) == opt_view(
                    old(self).result.last_error,
                ),
                Err(m) => status_views(final(self).result.items@) == marked_remaining(
                    status_views(old(self).result.items@).update(
                        old(self).next as int,
                        with_state(
                            status_views(old(self).result.items@)[old(self).next as int],
                            NoteExportItemState::Failed,
                            Some(m@),
                        ),
                    ),
                    old(self).next + 1,
                    NoteExportItemState::NotAttempted,
                ) && opt_view(final(self).result.last_error) == Some(m@),
            },
            p.processed == final(self).result.processed,
            p.succeeded == final(self).result.succeeded,
            p.failed == final(self).result.failed,
            status_views(p.items@) == status_views(final(self).result.items@),
            opt_view(p.last_error) == opt_view(final(self).result.last_error),
    {
        let index = self.next;
        let ghost before = self.result.items@;
        let old_item = &self.result.items[index];
        let ghost old_view = old_item@;
        match outcome {
            Ok(()) => {
                let item = NoteExportItemStatus {
                    user_id: old_item.user_id.clone(),
                    display_name: old_item.display_name.clone(),
                    note: old_item.note.clone(),
                    state: NoteExportItemState::Succeeded,
                    error: None,
                };
                self.result.items.set(index, item);
                self.result.processed = self.result.processed + 1;
                self.result.succeeded = self.result.succeeded + 1;
                proof {
                    assert(status_views(self.result.items@) =~= status_views(before).update(
                        index as int,
                        with_state(old_view, NoteExportItemState::Succeeded, None),
                    ));
                }
            },
            Err(m) => {
                let item = NoteExportItemStatus {
                    user_id: old_item.user_id.clone(),
                    display_name: old_item.display_name.clone(),
                    note: old_item.note.clone(),
                    state: NoteExportItemState::Failed,
                    error: Some(m.clone()),
                };
                self.result.items.set(index, item);
                self.result.processed = self.result.processed + 1;
                self.result.failed = self.result.failed + 1;
                self.result.last_error = Some(m);
                let ghost updated = self.result.items@;
                proof {
                    assert(status_views(updated) =~= status_views(before).update(
                        index as int,
                        (old_view.0, old_view.1, old_view.2, NoteExportItemState::Failed, Some(m@)),
                    ));
                }
                mark_remaining(&mut self.result.items, index + 1, NoteExportItemState::NotAttempted);
                proof {
                    assert(status_views(self.result.items@).len() == self.result.items@.len());
                    assert(status_views(updated).len() == updated.len());
                    assert forall|i: int| 0 <= i < self.result.items@.len() implies (#[trigger] self.result.items@[i]).state
                        == if i >= index + 1 && updated[i].state == NoteExportItemState::Pending {
                        NoteExportItemState::NotAttempted
                    } else {
                        updated[i].state
                    } by {
                        assert(status_views(self.result.items@)[i] == self.result.items@[i]@);
                        assert(status_views(updated)[i] == updated[i]@);
                    }
                }
            },
        }
        self.next = index + 1;
        NoteExportProgress {
            processed: self.result.processed,
            succeeded: self.result.succeeded,
            failed: self.result.failed,
            items: clone_statuses(&self.result.items),
            last_error: match &self.result.last_error {
                Some(e) => Some(e.clone()),
                None => None,
            },
        }
    }
}

// ---------------------------------------------------------------------------
// The runtime's status

/// A run is under way: running, or cancelling.
pub open spec fn active_state(state: NoteExportState) -> bool {
    state == NoteExportState::Running || state == NoteExportState::Cancelling
}

pub fn is_active_status(status: NoteExportState) -> (r: bool)
    ensures
        r == active_state(status),
{
    match status {
        NoteExportState::Running => true,
        NoteExportState::Cancelling => true,
        _ => false,
    }
}

/// The status the runtime reports, the cancel flag of the current run, and
/// the session generation it started in.
#[derive(Debug, Default)]
pub struct NoteExportRuntimeInner {
    pub status: NoteExportStatus,
    pub cancel: Option<bool>,
    pub auth_generation: u64,
}

/// Two statuses agree in every field.
pub open spec fn same_status(a: NoteExportStatus, b: NoteExportStatus) -> bool {
    &&& a.run_id@ == b.run_id@
    &&& a.status == b.status
    &&& a.total == b.total
    &&& a.processed == b.processed
    &&& a.succeeded == b.succeeded
    &&& a.failed == b.failed
    &&& status_views(a.items@) == status_views(b.items@)
    &&& opt_view(a.started_at) == opt_view(b.started_at)
    &&& opt_view(a.finished_at) == opt_view(b.finished_at)
    &&& opt_view(a.last_error) == opt_view(b.last_error)
}

/// A copy of a status.
pub fn clone_export_status(status: &NoteExportStatus) -> (r: NoteExportStatus)
    ensures
        r.run_id@ == status.run_id@,
        r.status == status.status,
        r.total == status.total,
        r.processed == status.processed,
        r.succeeded == status.succeeded,
        r.failed == status.failed,
        status_views(r.items@) == status_views(status.items@),
        opt_view(r.started_at) == opt_view(status.started_at),
        opt_view(r.finished_at) == opt_view(status.finished_at),
        opt_view(r.last_error) == opt_view(status.last_error),
{
    NoteExportStatus {
        run_id: status.run_id.clone(),
        status: status.status,
        total: status.total,
        processed: status.processed,
        succeeded: status.succeeded,
        failed: status.failed,
        items: clone_statuses(&status.items),
        started_at: clone_opt(&status.started_at),
        finished_at: clone_opt(&status.finished_at),
        last_error: clone_opt(&status.last_error),
    }
}

fn clone_opt(o: &Option<String>) -> (r: Option<String>)
    ensures
        opt_view(r) == opt_view(*o),
{
    match o {
        Some(s) => Some(s.clone()),
        None => None,
    }
}

/// Fails unless a session is active for an account.
pub fn check_start_session(active: bool, current_user_id: &str) -> (r: Result<(), Error>)
    ensures
        r is Ok <==> (active && trim(current_user_id@).len() > 0),
        r matches Err(e) ==> is_custom(e, EXPORT_SESSION_MESSAGE@),
{
    let id = trim_str(current_user_id);
    if !active || id.as_str().is_empty() {
        return Err(custom_error(EXPORT_SESSION_MESSAGE));
    }
    Ok(())
}

/// The id of the run started at `timestamp_ms` as run number `run_number`.
pub open spec fn run_id_text(timestamp_ms: int, run_number: int) -> Seq<char> {
    "note-export-"@ + decimal_text(timestamp_ms) + "-"@ + decimal_text(run_number)
}

/// The id of the run started at `timestamp_ms` (milliseconds since the
/// epoch) as run number `run_number`.
pub fn note_export_run_id(timestamp_ms: i64, run_number: u64) -> (r: String)
    ensures
        r@ == run_id_text(timestamp_ms as int, run_number as int),
{
    let mut id = "note-export-".to_string();
    let ms = decimal_i64(timestamp_ms);
    id.append(ms.as_str());
    id.append("-");
    let n = decimal_u64(run_number);
    id.append(n.as_str());
    id
}

impl NoteExportRuntimeInner {
    /// Starts a run over prepared items, unless one is under way: the status
    /// becomes running, with every item pending, and a fresh cancel flag.
    pub fn start(
        &mut self,
        items: &Vec<NoteExportItemInput>,
        run_id: String,
        started_at: String,
        scope_generation: u64,
    ) -> (r: Result<NoteExportStatus, Error>)
        ensures
            match r {
                Ok(st) => {
                    &&& !active_state(old(self).status.status)
                    &&& final(self).status.status == NoteExportState::Running
                    &&& final(self).status.run_id@ == run_id@
                    &&& final(self).status.total == wire_count_of(items.len() as int)
                    &&& final(self).status.processed == 0 && final(self).status.succeeded == 0
                        && final(self).status.failed == 0
                    &&& status_views(final(self).status.items@) == pending_views(items@)
                    &&& opt_view(final(self).status.started_at) == Some(started_at@)
                    &&& final(self).status.finished_at is None
                    &&& final(self).status.last_error is None
                    &&& final(self).cancel == Some(false)
                    &&& final(self).auth_generation == scope_generation
                    &&& same_status(st, final(self).status)
                },
                Err(e) => active_state(old(self).status.status) && is_custom(
                    e,
                    EXPORT_ACTIVE_MESSAGE@,
                ) && *final(self) == *old(self),
            },
    {
        if is_active_status(self.status.status) {
            return Err(custom_error(EXPORT_ACTIVE_MESSAGE));
        }
        let status = NoteExportStatus {
            run_id,
            status: NoteExportState::Running,
            total: wire_count(items.len()),
            processed: 0,
            succeeded: 0,
            failed: 0,
            items: pending_statuses(items),
            started_at: Some(started_at),
            finished_at: None,
            last_error: None,
        };
        let reported = clone_export_status(&status);
        self.status = status;
        self.cancel = Some(false);
        self.auth_generation = scope_generation;
        Ok(reported)
    }

    /// Starts a run unless one is under way. The run count goes up only when
    /// the run starts, and the run is named by its start time and its place
    /// in the count; the status is then that of `start`.
    pub fn begin(
        &mut self,
        run_count: &mut u64,
        items: &Vec<NoteExportItemInput>,
        timestamp_ms: i64,
        started_at: String,
        scope_generation: u64,
    ) -> (r: Result<NoteExportStatus, Error>)
        requires
            *old(run_count) < u64::MAX,
        ensures
            match r {
                Ok(st) => {
                    &&& !active_state(old(self).status.status)
                    &&& *final(run_count) == *old(run_count) + 1
                    &&& final(self).status.status == NoteExportState::Running
                    &&& final(self).status.run_id@ == run_id_text(
                        timestamp_ms as int,
                        *final(run_count) as int,
                    )
                    &&& final(self).status.total == wire_count_of(items.len() as int)
                    &&& final(self).status.processed == 0 && final(self).status.succeeded == 0
                        && final(self).status.failed == 0
                    &&& status_views(final(self).status.items@) == pending_views(items@)
                    &&& opt_view(final(self).status.started_at) == Some(started_at@)
                    &&& final(self).status.finished_at is None
                    &&& final(self).status.last_error is None
                    &&& final(self).cancel == Some(false)
                    &&& final(self).auth_generation == scope_generation
                    &&& same_status(st, final(self).status)
                },
                Err(e) => active_state(old(self).status.status) && is_custom(
                    e,
                    EXPORT_ACTIVE_MESSAGE@,
                ) && *final(self) == *old(self) && *final(run_count) == *old(run_count),
            },
    {
        if is_active_status(self.status.status) {
            return Err(custom_error(EXPORT_ACTIVE_MESSAGE));
        }
        *run_count = *run_count + 1;
        let run_id = note_export_run_id(timestamp_ms, *run_count);
        self.start(items, run_id, started_at, scope_generation)
    }

    /// Asks the current run to stop: its flag is raised and the status
    /// becomes cancelling. Nothing changes when no run is under way.
    pub fn cancel(&mut self) -> (r: NoteExportStatus)
        ensures
            active_state(old(self).status.status) ==> final(self).status.status
                == NoteExportState::Cancelling && final(self).cancel == match old(self).cancel {
                Some(_) => Some(true),
                None => None::<bool>,
            },
            !active_state(old(self).status.status) ==> final(self).status.status == old(
                self,
            ).status.status && final(self).cancel == old(self).cancel,
            final(self).status.run_id@ == old(self).status.run_id@,
            r.status == final(self).status.status,
            r.run_id@ == final(self).status.run_id@,
    {
        if !is_active_status(self.status.status) {
            return clone_export_status(&self.status);
        }
        if self.cancel.is_some() {
            self.cancel = Some(true);
        }
        self.status.status = NoteExportState::Cancelling;
        clone_export_status(&self.status)
    }

    /// Marks the current run cancelling when the session changed since it
    /// started; `true` when it did so.
    pub fn mark_cancelling_if_scope_mismatch(&mut self, scope_generation: u64) -> (r: bool)
        ensures
            r == (active_state(old(self).status.status) && old(self).auth_generation
                != scope_generation),
            r ==> final(self).status.status == NoteExportState::Cancelling && final(self).cancel
                == match old(self).cancel {
                Some(_) => Some(true),
                None => None::<bool>,
            },
            !r ==> final(self).status.status == old(self).status.status && final(self).cancel
                == old(self).cancel,
            final(self).auth_generation == old(self).auth_generation,
            final(self).status.run_id@ == old(self).status.run_id@,
    {
        if !is_active_status(self.status.status) || self.auth_generation == scope_generation {
            return false;
        }
        if self.cancel.is_some() {
            self.cancel = Some(true);
        }
        self.status.status = NoteExportState::Cancelling;
        true
    }

    /// Takes in the progress of the current run; a report from another run,
    /// or after the run ended, is ignored.
    pub fn apply_progress(&mut self, run_id: &str, progress: NoteExportProgress) -> (r: Option<
        NoteExportStatus,
    >)
        ensures
            match r {
                Some(st) => {
                    &&& old(self).status.run_id@ == run_id@ && active_state(old(self).status.status)
                    &&& final(self).status.processed == wire_count_of(progress.processed as int)
                    &&& final(self).status.succeeded == wire_count_of(progress.succeeded as int)
                    &&& final(self).status.failed == wire_count_of(progress.failed as int)
                    &&& final(self).status.items@ == progress.items@
                    &&& opt_view(final(self).status.last_error) == opt_view(progress.last_error)
                    &&& final(self).status.status == old(self).status.status
                    &&& st.processed == final(self).status.processed
                    &&& st.status == final(self).status.status
                },
                None => !(old(self).status.run_id@ == run_id@ && active_state(
                    old(self).status.status,
                )) && final(self).status.status == old(self).status.status,
            },
    {
        if !str_eq(self.status.run_id.as_str(), run_id) || !is_active_status(self.status.status) {
            return None;
        }
        self.status.processed = wire_count(progress.processed);
        self.status.succeeded = wire_count(progress.succeeded);
        self.status.failed = wire_count(progress.failed);
        self.status.items = progress.items;
        self.status.last_error = progress.last_error;
        Some(clone_export_status(&self.status))
    }

    /// Ends the current run with its result: cancelled when it was
    /// cancelled, an error when an item failed, completed otherwise; the
    /// cancel flag is dropped. A result of another run, or after the run
    /// ended, is ignored.
    pub fn finish(&mut self, run_id: &str, result: NoteExportResult, finished_at: String) -> (r:
        Option<NoteExportStatus>)
        ensures
            match r {
                Some(st) => {
                    &&& old(self).status.run_id@ == run_id@ && active_state(old(self).status.status)
                    &&& final(self).status.status == if result.cancelled {
                        NoteExportState::Cancelled
                    } else if result.failed > 0 {
                        NoteExportState::Error
                    } else {
                        NoteExportState::Completed
                    }
                    &&& final(self).status.processed == wire_count_of(result.processed as int)
                    &&& final(self).status.succeeded == wire_count_of(result.succeeded as int)
                    &&& final(self).status.failed == wire_count_of(result.failed as int)
                    &&& final(self).status.items@ == result.items@
                    &&& opt_view(final(self).status.last_error) == opt_view(result.last_error)
                    &&& opt_view(final(self).status.finished_at) == Some(finished_at@)
                    &&& final(self).cancel is None
                    &&& st.status == final(self).status.status
                    &&& !active_state(final(self).status.status)
                },
                None => !(old(self).status.run_id@ == run_id@ && active_state(
                    old(self).status.status,
                )) && final(self).status.status == old(self).status.status && final(self).cancel
                    == old(self).cancel,
            },
    {
        if !str_eq(self.status.run_id.as_str(), run_id) || !is_active_status(self.status.status) {
            return None;
        }
        self.status.processed = wire_count(result.processed);
        self.status.succeeded = wire_count(result.succeeded);
        self.status.failed = wire_count(result.failed);
        self.status.items = result.items;
        self.status.last_error = result.last_error;
        self.status.status = if result.cancelled {
            NoteExportState::Cancelled
        } else if result.failed > 0 {
            NoteExportState::Error
        } else {
            NoteExportState::Completed
        };
        self.status.finished_at = Some(finished_at);
        self.cancel = None;
        Some(clone_export_status(&self.status))
    }
}

/// The items of an export that was accepted name each user once, with a
/// valid user id, and each note fits on one line of at most
/// `NOTE_MAX_CHARS` characters.
pub proof fn law_prepared_notes_distinct(items: Seq<ItemInputView>)
    requires
        prepared_items(items) is Ok,
    ensures
        user_ids(prepared_items(items)->Ok_0).no_duplicates(),
        forall|i: int|
            0 <= i < prepared_items(items)->Ok_0.len() ==> {
                let it = #[trigger] prepared_items(items)->Ok_0[i];
                &&& valid_user_id(it.0)
                &&& it.2.len() <= NOTE_MAX_CHARS
                &&& !it.2.contains('\r') && !it.2.contains('\n')
            },
    decreases items.len(),
{
    if items.len() > 0 {
        let done = prepared_items(items.drop_last())->Ok_0;
        law_prepared_notes_distinct(items.drop_last());
        let out = prepared_items(items)->Ok_0;
        let item = items.last();
        let note = one_line_note(item.2);
        assert(out =~= done.push((trim(item.0), if trim(item.1).len() == 0 { trim(item.0) } else { trim(item.1) }, note)));
        assert(user_ids(out) =~= user_ids(done).push(trim(item.0)));
        assert forall|i: int| 0 <= i < out.len() implies {
            let it = #[trigger] out[i];
            &&& valid_user_id(it.0)
            &&& it.2.len() <= NOTE_MAX_CHARS
            &&& !it.2.contains('\r') && !it.2.contains('\n')
        } by {
            if i == out.len() - 1 {
                if note.contains('\r') {
                    let k = choose|k: int| 0 <= k < note.len() && note[k] == '\r';
                }
                if note.contains('\n') {
                    let k = choose|k: int| 0 <= k < note.len() && note[k] == '\n';
                }
            } else {
                assert(out[i] == done[i]);
            }
        }
    }
}

/// An accepted export keeps every item, in order: the user id trimmed; the
/// display name trimmed, or the user id where the display name is blank;
/// and the note with line breaks made spaces, cut to `NOTE_MAX_CHARS`
/// characters.
pub proof fn law_prepared_items_keep_each_item(items: Seq<ItemInputView>)
    requires
        prepared_items(items) is Ok,
    ensures
        prepared_items(items)->Ok_0.len() == items.len(),
        forall|i: int|
            0 <= i < items.len() ==> {
                let out = #[trigger] prepared_items(items)->Ok_0[i];
                let given = items[i];
                &&& out.0 == trim(given.0)
                &&& trim(given.1).len() > 0 ==> out.1 == trim(given.1)
                &&& trim(given.1).len() == 0 ==> out.1 == trim(given.0)
                &&& out.2.len() == if given.2.len() < NOTE_MAX_CHARS {
                    given.2.len() as int
                } else {
                    NOTE_MAX_CHARS as int
                }
                &&& forall|k: int|
                    0 <= k < out.2.len() ==> out.2[k] == if given.2[k] == '\r' || given.2[k]
                        == '\n' {
                        ' '
                    } else {
                        given.2[k]
                    }
            },
    decreases items.len(),
{
    if items.len() > 0 {
        let rest = items.drop_last();
        law_prepared_items_keep_each_item(rest);
        let done = prepared_items(rest)->Ok_0;
        let out = prepared_items(items)->Ok_0;
        assert(out.len() == done.len() + 1);
        assert forall|i: int| 0 <= i < items.len() - 1 implies out[i] == done[i] && items[i] == rest[i] by {}
    }
}

/// A run's counts add up: every processed item succeeded or failed, and at
/// most one failed, since a failure stops the run.
pub proof fn law_run_counts(run: NoteExportRun)
    requires
        run.wf(),
    ensures
        run.result.succeeded + run.result.failed == run.result.processed,
        run.result.processed <= run.result.total,
        run.result.failed <= 1,
{
}

} // verus!
