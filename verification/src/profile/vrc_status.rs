//! The VRChat service status: how the status page and its component summary
//! become the snapshot that the client shows and polls by.

use vstd::prelude::*;

use crate::error::Error;
use crate::json::{str_field, str_field_of, JsonValue};
use crate::text::{join_strings, join_with, str_eq, trim, trim_str, views};

verus! {

pub const OK_POLL_MS: u32 = 300000;

pub const ISSUE_POLL_MS: u32 = 120000;

pub const ALL_SYSTEMS_OPERATIONAL: &'static str = "All Systems Operational";

pub const ISSUE_FALLBACK_STATUS: &'static str = "VRChat Server Issues";

/// The status snapshot that the client shows.
#[derive(Clone, Debug)]
pub struct VrcStatusSnapshot {
    pub status: String,
    pub indicator: String,
    pub summary: String,
    pub updated_at: Option<String>,
    pub last_fetched_at: Option<String>,
    pub polling_interval_ms: u32,
    pub refreshing: bool,
    pub error: String,
}

/// The strongest component indicator and the names of the affected
/// components.
#[derive(Debug)]
pub struct SummaryIssue {
    pub indicator: String,
    pub summary: String,
}

pub open spec fn severity_of(indicator: Seq<char>) -> u8 {
    if indicator == "critical"@ {
        3
    } else if indicator == "major"@ {
        2
    } else if indicator == "minor"@ || indicator == "maintenance"@ {
        1
    } else {
        0
    }
}

pub fn indicator_severity(indicator: &str) -> (r: u8)
    ensures
        r == severity_of(indicator@),
{
    if str_eq(indicator, "critical") {
        3
    } else if str_eq(indicator, "major") {
        2
    } else if str_eq(indicator, "minor") || str_eq(indicator, "maintenance") {
        1
    } else {
        0
    }
}

/// The indicator that a component status stands for.
pub open spec fn component_indicator_of(status: Seq<char>) -> Seq<char> {
    if status == "major_outage"@ {
        "major"@
    } else if status == "partial_outage"@ || status == "degraded_performance"@ || status
        == "under_maintenance"@ {
        "minor"@
    } else {
        ""@
    }
}

pub fn component_indicator(status: &str) -> (r: &'static str)
    ensures
        r@ == component_indicator_of(status@),
{
    if str_eq(status, "major_outage") {
        "major"
    } else if str_eq(status, "partial_outage") || str_eq(status, "degraded_performance") || str_eq(
        status,
        "under_maintenance",
    ) {
        "minor"
    } else {
        ""
    }
}

/// `right` when it is strictly more severe than `left`, else `left`.
pub open spec fn stronger_of(left: Seq<char>, right: Seq<char>) -> Seq<char> {
    if severity_of(right) > severity_of(left) {
        right
    } else {
        left
    }
}

pub fn stronger_indicator<'a>(left: &'a str, right: &'a str) -> (r: &'a str)
    ensures
        r@ == stronger_of(left@, right@),
{
    if indicator_severity(right) > indicator_severity(left) {
        right
    } else {
        left
    }
}

/// A status indicator or description that reports a problem.
pub open spec fn status_issue(indicator: Seq<char>, description: Seq<char>) -> bool {
    (indicator.len() > 0 && indicator != "none"@) || (description.len() > 0 && description
        != ALL_SYSTEMS_OPERATIONAL@)
}

pub fn has_status_issue(indicator: &str, description: &str) -> (r: bool)
    ensures
        r == status_issue(indicator@, description@),
{
    (!indicator.is_empty() && !str_eq(indicator, "none")) || (!description.is_empty() && !str_eq(
        description,
        ALL_SYSTEMS_OPERATIONAL,
    ))
}

/// The status of a component entry, empty when absent.
pub open spec fn component_status(component: JsonValue) -> Seq<char> {
    match str_field_of(component, "status"@) {
        Some(s) => s,
        None => Seq::empty(),
    }
}

/// The trimmed name of a component entry, when present and not blank.
pub open spec fn component_name(component: JsonValue) -> Option<Seq<char>> {
    match str_field_of(component, "name"@) {
        Some(s) => if trim(s).len() > 0 {
            Some(trim(s))
        } else {
            None
        },
        None => None,
    }
}

pub open spec fn is_component_issue(component: JsonValue) -> bool {
    component_status(component).len() > 0 && component_status(component) != "operational"@
}

/// The strongest indicator among the components that report a problem.
pub open spec fn components_indicator(components: Seq<JsonValue>) -> Seq<char>
    decreases components.len(),
{
    if components.len() == 0 {
        ""@
    } else {
        let rest = components_indicator(components.drop_last());
        let c = components.last();
        if is_component_issue(c) {
            stronger_of(rest, component_indicator_of(component_status(c)))
        } else {
            rest
        }
    }
}

/// The names of the components that report a problem.
pub open spec fn components_names(components: Seq<JsonValue>) -> Seq<Seq<char>>
    decreases components.len(),
{
    if components.len() == 0 {
        Seq::empty()
    } else {
        let rest = components_names(components.drop_last());
        let c = components.last();
        if is_component_issue(c) && component_name(c) is Some {
            rest.push(component_name(c).unwrap())
        } else {
            rest
        }
    }
}

/// The component list of a summary document.
pub open spec fn components_of(summary: JsonValue) -> Seq<JsonValue> {
    match summary.field("components"@) {
        Some(JsonValue::Array(a)) => a@,
        _ => Seq::empty(),
    }
}

pub fn summarize_components(value: &JsonValue) -> (r: SummaryIssue)
    ensures
        r.indicator@ == components_indicator(components_of(*value)),
        r.summary@ == join_with(components_names(components_of(*value)), ", "@),
{
    let mut indicator: &'static str = "";
    let mut names: Vec<String> = Vec::new();
    let empty: Vec<JsonValue> = Vec::new();
    let components: &Vec<JsonValue> = match value.get("components") {
        Some(c) => match c.as_array() {
            Some(a) => a,
            None => &empty,
        },
        None => &empty,
    };
    let ghost all = components@;
    assert(all == components_of(*value));
    let mut i: usize = 0;
    while i < components.len()
        invariant
            i <= components.len(),
            all == components@,
            indicator@ == components_indicator(all.take(i as int)),
            views(names@) == components_names(all.take(i as int)),
        decreases components.len() - i,
    {
        let ghost t = all.take(i + 1);
        assert(t.drop_last() =~= all.take(i as int));
        assert(t.last() == all[i as int]);
        let component = &components[i];
        proof {
            reveal_strlit("");
        }
        let status: &str = match str_field(component, "status") {
            Some(s) => s.as_str(),
            None => "",
        };
        assert(status@ == component_status(all[i as int]));
        if !(status.is_empty() || str_eq(status, "operational")) {
            assert(is_component_issue(all[i as int]));
            indicator = stronger_indicator(indicator, component_indicator(status));
            match str_field(component, "name") {
                Some(n) => {
                    let name = trim_str(n.as_str());
                    if !name.as_str().is_empty() {
                        assert(component_name(all[i as int]) == Some(name@));
                        names.push(name);
                        assert(views(names@) =~= components_names(t));
                    }
                },
                None => {},
            }
        }
        i += 1;
    }
    assert(all.take(components.len() as int) =~= all);
    SummaryIssue { indicator: indicator.to_owned(), summary: join_strings(names.as_slice(), ", ") }
}

/// The value found by following `path` from `value`.
pub open spec fn value_at(value: JsonValue, path: Seq<Seq<char>>) -> Option<JsonValue>
    decreases path.len(),
{
    if path.len() == 0 {
        Some(value)
    } else {
        match value_at(value, path.drop_last()) {
            Some(v) => v.field(path.last()),
            None => None,
        }
    }
}

/// The trimmed, non-blank string found along `path`.
pub open spec fn text_at_path(value: JsonValue, path: Seq<Seq<char>>) -> Option<Seq<char>> {
    match value_at(value, path) {
        Some(JsonValue::String(s)) => if trim(s@).len() > 0 {
            Some(trim(s@))
        } else {
            None
        },
        _ => None,
    }
}

pub open spec fn str_views(path: Seq<&str>) -> Seq<Seq<char>> {
    path.map_values(|p: &str| p@)
}

pub fn optional_text_at(value: &JsonValue, path: &[&str]) -> (r: Option<String>)
    ensures
        match r {
            Some(s) => text_at_path(*value, str_views(path@)) == Some(s@),
            None => text_at_path(*value, str_views(path@)) is None,
        },
{
    let ghost p = str_views(path@);
    let mut current: &JsonValue = value;
    let mut i: usize = 0;
    assert(p.take(0) =~= Seq::<Seq<char>>::empty());
    while i < path.len()
        invariant
            i <= path.len(),
            p == str_views(path@),
            value_at(*value, p.take(i as int)) == Some(*current),
        decreases path.len() - i,
    {
        assert(p.take(i + 1).drop_last() =~= p.take(i as int));
        assert(p.take(i + 1).last() == path@[i as int]@);
        match current.get(path[i]) {
            Some(next) => {
                current = next;
            },
            None => {
                proof {
                    lemma_value_at_none(*value, p, i as int + 1);
                }
                assert(p.take(path.len() as int) =~= p);
                return None;
            },
        }
        i += 1;
    }
    assert(p.take(path.len() as int) =~= p);
    match current.as_str() {
        Some(s) => {
            let t = trim_str(s.as_str());
            if t.as_str().is_empty() {
                None
            } else {
                Some(t)
            }
        },
        None => None,
    }
}

proof fn lemma_value_at_none(value: JsonValue, p: Seq<Seq<char>>, k: int)
    requires
        0 <= k <= p.len(),
        value_at(value, p.take(k)) is None,
    ensures
        value_at(value, p) is None,
    decreases p.len() - k,
{
    if k < p.len() {
        assert(p.take(k + 1).drop_last() =~= p.take(k));
        lemma_value_at_none(value, p, k + 1);
    } else {
        assert(p.take(k) =~= p);
    }
}

/// `optional_text_at`, empty when absent.
pub fn text_at(value: &JsonValue, path: &[&str]) -> (r: String)
    ensures
        r@ == match text_at_path(*value, str_views(path@)) {
            Some(s) => s,
            None => Seq::empty(),
        },
{
    match optional_text_at(value, path) {
        Some(s) => s,
        None => String::new(),
    }
}

/// The status page description, empty when absent.
pub open spec fn status_description(status: JsonValue) -> Seq<char> {
    match text_at_path(status, seq!["status"@, "description"@]) {
        Some(s) => s,
        None => Seq::empty(),
    }
}

/// The status page indicator, empty when absent.
pub open spec fn status_indicator(status: JsonValue) -> Seq<char> {
    match text_at_path(status, seq!["status"@, "indicator"@]) {
        Some(s) => s,
        None => Seq::empty(),
    }
}

/// The components of the summary, none when the summary request failed.
pub open spec fn summary_components(summary: Option<JsonValue>) -> Seq<JsonValue> {
    match summary {
        Some(v) => components_of(v),
        None => Seq::empty(),
    }
}

/// The stronger of the page indicator and the component indicator.
pub open spec fn effective_indicator(status: JsonValue, summary: Option<JsonValue>) -> Seq<char> {
    stronger_of(status_indicator(status), components_indicator(summary_components(summary)))
}

pub open spec fn snapshot_has_issue(status: JsonValue, summary: Option<JsonValue>) -> bool {
    status_issue(effective_indicator(status, summary), status_description(status))
}

/// The status line shown for an issue.
pub open spec fn issue_status_text(status: JsonValue) -> Seq<char> {
    let d = status_description(status);
    if d.len() == 0 || d == ALL_SYSTEMS_OPERATIONAL@ {
        ISSUE_FALLBACK_STATUS@
    } else {
        d
    }
}

pub open spec fn opt_ref<T>(o: Option<&T>) -> Option<T> {
    match o {
        Some(v) => Some(*v),
        None => None,
    }
}

/// The snapshot that a fetched status gives. `summary` is `None` when the
/// summary request failed; `fetched_at` is the time of the fetch.
pub fn snapshot_from_status(status: &JsonValue, summary: Option<&JsonValue>, fetched_at: String) -> (r:
    VrcStatusSnapshot)
    ensures
        r.status@ == (if snapshot_has_issue(*status, opt_ref(summary)) {
            issue_status_text(*status)
        } else {
            Seq::empty()
        }),
        r.indicator@ == (if snapshot_has_issue(*status, opt_ref(summary)) {
            effective_indicator(*status, opt_ref(summary))
        } else {
            Seq::empty()
        }),
        r.summary@ == (if snapshot_has_issue(*status, opt_ref(summary)) {
            join_with(components_names(summary_components(opt_ref(summary))), ", "@)
        } else {
            Seq::empty()
        }),
        match r.updated_at {
            Some(u) => text_at_path(*status, seq!["page"@, "updated_at"@]) == Some(u@),
            None => text_at_path(*status, seq!["page"@, "updated_at"@]) is None,
        },
        r.last_fetched_at == Some(fetched_at),
        r.polling_interval_ms == (if snapshot_has_issue(*status, opt_ref(summary)) {
            ISSUE_POLL_MS
        } else {
            OK_POLL_MS
        }),
        !r.refreshing,
        r.error@ == Seq::<char>::empty(),
{
    proof {
        reveal_strlit("");
    }
    let description = text_at(status, &["status", "description"]);
    let indicator = text_at(status, &["status", "indicator"]);
    let updated_at = optional_text_at(status, &["page", "updated_at"]);
    assert(str_views(seq!["status", "description"]) =~= seq!["status"@, "description"@]);
    assert(str_views(seq!["status", "indicator"]) =~= seq!["status"@, "indicator"@]);
    assert(str_views(seq!["page", "updated_at"]) =~= seq!["page"@, "updated_at"@]);
    let issue = match summary {
        Some(v) => summarize_components(v),
        None => SummaryIssue { indicator: String::new(), summary: String::new() },
    };
    assert(components_indicator(Seq::<JsonValue>::empty()) == ""@);
    assert(join_with(components_names(Seq::<JsonValue>::empty()), ", "@) == Seq::<char>::empty());
    let effective = stronger_indicator(indicator.as_str(), issue.indicator.as_str()).to_owned();
    let has_issue = has_status_issue(effective.as_str(), description.as_str());
    assert(description@ == status_description(*status));
    assert(indicator@ == status_indicator(*status));
    assert(issue.indicator@ == components_indicator(summary_components(opt_ref(summary))));
    assert(effective@ == effective_indicator(*status, opt_ref(summary)));
    assert(has_issue == snapshot_has_issue(*status, opt_ref(summary)));
    let status_text = if has_issue {
        if description.as_str().is_empty() || str_eq(description.as_str(), ALL_SYSTEMS_OPERATIONAL) {
            ISSUE_FALLBACK_STATUS.to_owned()
        } else {
            description
        }
    } else {
        String::new()
    };
    VrcStatusSnapshot {
        status: status_text,
        indicator: if has_issue {
            effective
        } else {
            String::new()
        },
        summary: if has_issue {
            issue.summary
        } else {
            String::new()
        },
        updated_at,
        last_fetched_at: Some(fetched_at),
        polling_interval_ms: if has_issue {
            ISSUE_POLL_MS
        } else {
            OK_POLL_MS
        },
        refreshing: false,
        error: String::new(),
    }
}

/// The snapshot that a new service starts from.
pub fn initial_snapshot() -> (r: VrcStatusSnapshot)
    ensures
        r.status@.len() == 0,
        r.indicator@.len() == 0,
        r.summary@.len() == 0,
        r.updated_at is None,
        r.last_fetched_at is None,
        r.polling_interval_ms == OK_POLL_MS,
        !r.refreshing,
        r.error@.len() == 0,
{
    VrcStatusSnapshot {
        status: String::new(),
        indicator: String::new(),
        summary: String::new(),
        updated_at: None,
        last_fetched_at: None,
        polling_interval_ms: OK_POLL_MS,
        refreshing: false,
        error: String::new(),
    }
}

/// Marks a snapshot as refreshing while a fetch runs.
pub fn mark_refreshing(snapshot: &mut VrcStatusSnapshot)
    ensures
        final(snapshot).refreshing,
        final(snapshot).status == old(snapshot).status,
        final(snapshot).indicator == old(snapshot).indicator,
        final(snapshot).summary == old(snapshot).summary,
        final(snapshot).updated_at == old(snapshot).updated_at,
        final(snapshot).last_fetched_at == old(snapshot).last_fetched_at,
        final(snapshot).polling_interval_ms == old(snapshot).polling_interval_ms,
        final(snapshot).error == old(snapshot).error,
{
    snapshot.refreshing = true;
}

/// Records a failed fetch: the time, the issue poll interval and the error,
/// keeping what was shown before.
pub fn record_refresh_failure(snapshot: &mut VrcStatusSnapshot, fetched_at: String, message: String)
    ensures
        final(snapshot).last_fetched_at == Some(fetched_at),
        final(snapshot).polling_interval_ms == ISSUE_POLL_MS,
        !final(snapshot).refreshing,
        final(snapshot).error == message,
        final(snapshot).status == old(snapshot).status,
        final(snapshot).indicator == old(snapshot).indicator,
        final(snapshot).summary == old(snapshot).summary,
        final(snapshot).updated_at == old(snapshot).updated_at,
{
    snapshot.last_fetched_at = Some(fetched_at);
    snapshot.polling_interval_ms = ISSUE_POLL_MS;
    snapshot.refreshing = false;
    snapshot.error = message;
}

/// The error of a refresh that failed with `message`.
pub fn refresh_failure_error(message: &str) -> (e: Error)
    ensures
        e matches Error::Custom(m) && m@ == "VRChat status refresh failed: "@ + message@,
{
    let mut m = "VRChat status refresh failed: ".to_string();
    m.append(message);
    Error::Custom(m)
}

/// A component counts as an issue exactly when its status is one of the
/// four non-operational statuses: a major outage is major, and a partial
/// outage, degraded performance or maintenance is minor; any other status
/// (operational, or unknown) gives no indicator.
pub proof fn law_component_status_table(status: Seq<char>)
    ensures
        severity_of(component_indicator_of(status)) == 2 <==> status == "major_outage"@,
        severity_of(component_indicator_of(status)) == 1 <==> (status == "partial_outage"@
            || status == "degraded_performance"@ || status == "under_maintenance"@),
        component_indicator_of(status).len() == 0 <==> !(status == "major_outage"@ || status
            == "partial_outage"@ || status == "degraded_performance"@ || status
            == "under_maintenance"@),
{
    reveal_strlit("major");
    reveal_strlit("minor");
    reveal_strlit("critical");
    reveal_strlit("maintenance");
    reveal_strlit("");
    reveal_strlit("major_outage");
    reveal_strlit("partial_outage");
    reveal_strlit("degraded_performance");
    reveal_strlit("under_maintenance");
    assert("major"@ != "critical"@) by {
        assert("major"@.len() != "critical"@.len());
    }
    assert("minor"@ != "critical"@) by {
        assert("minor"@.len() != "critical"@.len());
    }
    assert("minor"@ != "major"@) by {
        assert("minor"@[1] != "major"@[1]);
    }
    assert(""@ != "critical"@ && ""@ != "major"@ && ""@ != "minor"@ && ""@ != "maintenance"@) by {
        assert(""@.len() == 0);
    }
    assert("major_outage"@ != "partial_outage"@ && "major_outage"@ != "degraded_performance"@
        && "major_outage"@ != "under_maintenance"@) by {
        assert("major_outage"@.len() == 12);
    }
    assert(severity_of("major"@) == 2);
    assert(severity_of("minor"@) == 1);
    assert(severity_of(""@) == 0);
}

} // verus!
