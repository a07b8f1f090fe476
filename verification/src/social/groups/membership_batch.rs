//! Leaving many groups, or changing the member visibility in many groups, one
//! request at a time: the input checks, the run's state and its summary.

use vstd::prelude::*;

use crate::error::{custom_error, is_custom, Error};
use crate::social::groups::types::GroupMemberVisibility;
use crate::text::{chars_of, contains_str, is_prefix, starts_with, str_eq, trim, trim_str, views};
use crate::wire::{wire_count, wire_count_of};

verus! {

pub const GROUP_MEMBERSHIP_BATCH_MAX_TARGETS: usize = 250;

/// The pause kept between two membership requests, in milliseconds.
pub const GROUP_MEMBERSHIP_REMOTE_INTERVAL_MS: u64 = 250;

pub const SCOPE_CHANGED_MESSAGE: &'static str =
    "Group membership batch authentication scope changed.";

pub const INVALID_GROUP_MESSAGE: &'static str =
    "Group membership batch contains an invalid group id.";

pub const EMPTY_BATCH_MESSAGE: &'static str =
    "Group membership batch requires at least one group.";

pub const TOO_MANY_GROUPS_MESSAGE: &'static str =
    "Group membership batch cannot exceed 250 groups.";

pub const STALE_BATCH_MESSAGE: &'static str =
    "Group membership batch is stale for the current auth scope.";

pub const BATCH_RUNNING_MESSAGE: &'static str =
    "A group membership batch is already running for this account.";

/// What a batch does to each group.
#[derive(Clone, Copy, Debug, PartialEq, Eq, Structural)]
pub enum GroupMembershipBatchAction {
    Leave,
    SetVisibility { visibility: GroupMemberVisibility },
}

/// A batch as the caller asks for it.
#[derive(Clone, Debug)]
pub struct GroupMembershipBatchInput {
    pub expected_owner_user_id: String,
    pub expected_endpoint: String,
    pub action: GroupMembershipBatchAction,
    pub group_ids: Vec<String>,
}

#[derive(Clone, Copy, Debug, PartialEq, Eq, Structural)]
pub enum GroupMembershipBatchItemState {
    Applied,
    Failed,
    NotAttempted,
}

/// What became of one group of a batch.
#[derive(Clone, Debug)]
pub struct GroupMembershipBatchItemResult {
    pub group_id: String,
    pub state: GroupMembershipBatchItemState,
    pub message: String,
}

impl View for GroupMembershipBatchItemResult {
    /// `(group_id, state, message)`.
    type V = (Seq<char>, GroupMembershipBatchItemState, Seq<char>);

    open spec fn view(&self) -> (Seq<char>, GroupMembershipBatchItemState, Seq<char>) {
        (self.group_id@, self.state, self.message@)
    }
}

#[derive(Clone, Debug)]
pub struct GroupMembershipBatchResult {
    pub owner_user_id: String,
    pub endpoint: String,
    pub total: u32,
    pub succeeded: u32,
    pub failed: u32,
    pub items: Vec<GroupMembershipBatchItemResult>,
    pub last_error: Option<String>,
}

#[derive(Clone, Debug)]
pub struct GroupMembershipBatchProgress {
    pub owner_user_id: String,
    pub endpoint: String,
    pub completed: u32,
    pub total: u32,
}

/// How a membership request that went through left the session.
#[derive(Clone, Copy, Debug, PartialEq, Eq, Structural)]
pub enum GroupMembershipRemoteOutcome {
    Applied,
    AppliedScopeChanged,
}

/// The request to send for one group.
#[derive(Clone, Debug)]
pub enum GroupMembershipOperation {
    Leave { group_id: String },
    SetVisibility { group_id: String, user_id: String, visibility: GroupMemberVisibility },
}

/// The checked groups of a batch: trimmed, each once, in their first order.
#[derive(Clone, Debug)]
pub struct PreparedGroupMembershipBatch {
    pub action: GroupMembershipBatchAction,
    pub group_ids: Vec<String>,
}

/// A group id as VRChat writes it.
pub open spec fn valid_group_id(id: Seq<char>) -> bool {
    is_prefix("grp_"@, id) && id.len() > 4
}

/// Each entry trimmed.
pub open spec fn trimmed_all(ids: Seq<Seq<char>>) -> Seq<Seq<char>> {
    Seq::new(ids.len(), |i: int| trim(ids[i]))
}

/// The entries with later repeats left out.
pub open spec fn dedup(s: Seq<Seq<char>>) -> Seq<Seq<char>>
    decreases s.len(),
{
    if s.len() == 0 {
        s
    } else {
        let d = dedup(s.drop_last());
        if d.contains(s.last()) {
            d
        } else {
            d.push(s.last())
        }
    }
}

/// The trimmed group ids of a batch, each once, in their first order.
pub open spec fn prepared_ids(ids: Seq<Seq<char>>) -> Seq<Seq<char>> {
    dedup(trimmed_all(ids))
}

/// Every group id of a batch is valid once trimmed.
pub open spec fn all_valid_ids(ids: Seq<Seq<char>>) -> bool {
    forall|i: int| 0 <= i < ids.len() ==> valid_group_id(#[trigger] trim(ids[i]))
}

pub proof fn lemma_dedup_no_duplicates(s: Seq<Seq<char>>)
    ensures
        dedup(s).no_duplicates(),
        forall|x: Seq<char>| dedup(s).contains(x) <==> s.contains(x),
    decreases s.len(),
{
    if s.len() > 0 {
        lemma_dedup_no_duplicates(s.drop_last());
        let d = dedup(s.drop_last());
        assert forall|x: Seq<char>| dedup(s).contains(x) <==> s.contains(x) by {
            if s.contains(x) && !s.drop_last().contains(x) {
                let k = choose|k: int| 0 <= k < s.len() && s[k] == x;
                if k < s.len() - 1 {
                    assert(s.drop_last()[k] == x);
                }
                assert(x == s.last());
            }
            if s.drop_last().contains(x) {
                let k = choose|k: int| 0 <= k < s.drop_last().len() && s.drop_last()[k] == x;
                assert(s[k] == x);
            }
            if !d.contains(s.last()) {
                if d.push(s.last()).contains(x) && x != s.last() {
                    let k = choose|k: int| 0 <= k < d.push(s.last()).len() && d.push(s.last())[k] == x;
                    assert(d[k] == x);
                }
                if x == s.last() {
                    assert(d.push(s.last())[d.len() as int] == x);
                }
                if d.contains(x) {
                    let k = choose|k: int| 0 <= k < d.len() && d[k] == x;
                    assert(d.push(s.last())[k] == x);
                }
            }
        }
    }
}

/// A group id, trimmed, or an error where it does not name a group.
pub fn require_group_id(value: &str) -> (r: Result<String, Error>)
    ensures
        match r {
            Ok(id) => id@ == trim(value@) && valid_group_id(id@),
            Err(e) => !valid_group_id(trim(value@)) && is_custom(e, INVALID_GROUP_MESSAGE@),
        },
{
    let value = trim_str(value);
    if starts_with(value.as_str(), "grp_") && chars_of(value.as_str()).len() > 4 {
        proof {
            reveal_strlit("grp_");
        }
        Ok(value)
    } else {
        proof {
            reveal_strlit("grp_");
        }
        Err(custom_error(INVALID_GROUP_MESSAGE))
    }
}

/// The checked groups of a batch: every id valid, then at least one and at
/// most `GROUP_MEMBERSHIP_BATCH_MAX_TARGETS` distinct groups.
pub fn prepare_input(input: GroupMembershipBatchInput) -> (r: Result<
    PreparedGroupMembershipBatch,
    Error,
>)
    ensures
        match r {
            Ok(p) => {
                &&& all_valid_ids(views(input.group_ids@))
                &&& views(p.group_ids@) == prepared_ids(views(input.group_ids@))
                &&& 1 <= p.group_ids.len() <= GROUP_MEMBERSHIP_BATCH_MAX_TARGETS
                &&& p.action == input.action
            },
            Err(e) => if !all_valid_ids(views(input.group_ids@)) {
                is_custom(e, INVALID_GROUP_MESSAGE@)
            } else if prepared_ids(views(input.group_ids@)).len() == 0 {
                is_custom(e, EMPTY_BATCH_MESSAGE@)
            } else {
                prepared_ids(views(input.group_ids@)).len() > GROUP_MEMBERSHIP_BATCH_MAX_TARGETS
                    && is_custom(e, TOO_MANY_GROUPS_MESSAGE@)
            },
        },
{
    let ghost ids = views(input.group_ids@);
    let mut group_ids: Vec<String> = Vec::new();
    let mut i: usize = 0;
    while i < input.group_ids.len()
        invariant
            i <= input.group_ids.len(),
            ids == views(input.group_ids@),
            forall|k: int| 0 <= k < i ==> valid_group_id(#[trigger] trim(ids[k])),
            views(group_ids@) == dedup(trimmed_all(ids).take(i as int)),
        decreases input.group_ids.len() - i,
    {
        let group_id = match require_group_id(input.group_ids[i].as_str()) {
            Ok(g) => g,
            Err(e) => {
                proof {
                    assert(ids[i as int] == input.group_ids@[i as int]@);
                    assert(!valid_group_id(trim(ids[i as int])));
                }
                return Err(e);
            },
        };
        proof {
            assert(trimmed_all(ids).take(i as int + 1).drop_last() =~= trimmed_all(ids).take(
                i as int,
            ));
            assert(trimmed_all(ids).take(i as int + 1).last() == group_id@);
        }
        if !contains_str(group_ids.as_slice(), group_id.as_str()) {
            let ghost before = group_ids@;
            let ghost gv = group_id@;
            group_ids.push(group_id);
            proof {
                assert(views(group_ids@) =~= views(before).push(gv));
            }
        }
        i = i + 1;
    }
    proof {
        assert(trimmed_all(ids).take(i as int) =~= trimmed_all(ids));
    }
    if group_ids.len() == 0 {
        return Err(custom_error(EMPTY_BATCH_MESSAGE));
    }
    if group_ids.len() > GROUP_MEMBERSHIP_BATCH_MAX_TARGETS {
        return Err(custom_error(TOO_MANY_GROUPS_MESSAGE));
    }
    Ok(PreparedGroupMembershipBatch { action: input.action, group_ids })
}

/// `(group_id, state, message)` of an item.
pub type ItemView = (Seq<char>, GroupMembershipBatchItemState, Seq<char>);

pub open spec fn item_views(items: Seq<GroupMembershipBatchItemResult>) -> Seq<ItemView> {
    Seq::new(items.len(), |i: int| items[i]@)
}

/// How many items were applied.
pub open spec fn count_applied(items: Seq<ItemView>) -> nat
    decreases items.len(),
{
    if items.len() == 0 {
        0
    } else {
        count_applied(items.drop_last()) + if items.last().1 == GroupMembershipBatchItemState::Applied {
            1nat
        } else {
            0nat
        }
    }
}

/// The message of the last item that carries one.
pub open spec fn last_message(items: Seq<ItemView>) -> Option<Seq<char>>
    decreases items.len(),
{
    if items.len() == 0 {
        None
    } else if items.last().2.len() > 0 {
        Some(items.last().2)
    } else {
        last_message(items.drop_last())
    }
}

/// No more items are applied than there are items.
pub proof fn lemma_count_applied_bounded(items: Seq<ItemView>)
    ensures
        count_applied(items) <= items.len(),
    decreases items.len(),
{
    if items.len() > 0 {
        lemma_count_applied_bounded(items.drop_last());
    }
}

pub fn applied(group_id: &str) -> (r: GroupMembershipBatchItemResult)
    ensures
        r@ == (group_id@, GroupMembershipBatchItemState::Applied, Seq::<char>::empty()),
{
    GroupMembershipBatchItemResult {
        group_id: group_id.to_string(),
        state: GroupMembershipBatchItemState::Applied,
        message: String::new(),
    }
}

pub fn failed(group_id: &str, message: String) -> (r: GroupMembershipBatchItemResult)
    ensures
        r@ == (group_id@, GroupMembershipBatchItemState::Failed, message@),
{
    GroupMembershipBatchItemResult {
        group_id: group_id.to_string(),
        state: GroupMembershipBatchItemState::Failed,
        message,
    }
}

pub fn not_attempted(group_id: &str) -> (r: GroupMembershipBatchItemResult)
    ensures
        r@ == (group_id@, GroupMembershipBatchItemState::NotAttempted, Seq::<char>::empty()),
{
    GroupMembershipBatchItemResult {
        group_id: group_id.to_string(),
        state: GroupMembershipBatchItemState::NotAttempted,
        message: String::new(),
    }
}

fn count_applied_items(items: &Vec<GroupMembershipBatchItemResult>) -> (n: usize)
    ensures
        n == count_applied(item_views(items@)),
{
    let mut n: usize = 0;
    let mut i: usize = 0;
    while i < items.len()
        invariant
            i <= items.len(),
            n == count_applied(item_views(items@).take(i as int)),
            n <= i,
        decreases items.len() - i,
    {
        proof {
            assert(item_views(items@).take(i as int + 1).drop_last() =~= item_views(items@).take(
                i as int,
            ));
        }
        if items[i].state == GroupMembershipBatchItemState::Applied {
            n = n + 1;
        }
        i = i + 1;
    }
    proof {
        assert(item_views(items@).take(i as int) =~= item_views(items@));
    }
    n
}

fn last_item_message(items: &Vec<GroupMembershipBatchItemResult>) -> (r: Option<String>)
    ensures
        match r {
            Some(m) => last_message(item_views(items@)) == Some(m@),
            None => last_message(item_views(items@)) is None,
        },
{
    let mut i: usize = items.len();
    proof {
        assert(item_views(items@).take(i as int) =~= item_views(items@));
    }
    while i > 0
        invariant
            i <= items.len(),
            last_message(item_views(items@)) == last_message(item_views(items@).take(i as int)),
        decreases i,
    {
        proof {
            assert(item_views(items@).take(i as int).drop_last() =~= item_views(items@).take(
                i as int - 1,
            ));
        }
        if !items[i - 1].message.as_str().is_empty() {
            return Some(items[i - 1].message.clone());
        }
        i = i - 1;
    }
    None
}

/// The summary of a batch: how many groups were applied, how many not, and
/// the last message, the scope message first.
pub fn summarize(
    owner_user_id: String,
    endpoint: String,
    items: Vec<GroupMembershipBatchItemResult>,
    scope_error: Option<String>,
) -> (r: GroupMembershipBatchResult)
    ensures
        r.owner_user_id@ == owner_user_id@,
        r.endpoint@ == endpoint@,
        r.items@ == items@,
        r.total == wire_count_of(items.len() as int),
        r.succeeded == wire_count_of(count_applied(item_views(items@)) as int),
        r.failed == wire_count_of(items.len() - count_applied(item_views(items@))),
        items.len() <= u32::MAX ==> r.succeeded + r.failed == r.total,
        match scope_error {
            Some(m) => r.last_error matches Some(l) && l@ == m@,
            None => match r.last_error {
                Some(l) => last_message(item_views(items@)) == Some(l@),
                None => last_message(item_views(items@)) is None,
            },
        },
{
    let succeeded = count_applied_items(&items);
    proof {
        lemma_count_applied_bounded(item_views(items@));
    }
    let last_error = match scope_error {
        Some(m) => Some(m),
        None => last_item_message(&items),
    };
    let total = wire_count(items.len());
    let failed_count = wire_count(items.len() - succeeded);
    GroupMembershipBatchResult {
        owner_user_id,
        endpoint,
        total,
        succeeded: wire_count(succeeded),
        failed: failed_count,
        items,
        last_error,
    }
}

/// The items of a run as its summary reports them: where the run stopped on a
/// changed session, every item from the stopping point carries the message.
pub open spec fn finished_items(items: Seq<ItemView>, next: int, stopped: Option<Seq<char>>) -> Seq<
    ItemView,
> {
    Seq::new(
        items.len(),
        |i: int|
            match stopped {
                Some(m) => if i >= next {
                    (items[i].0, items[i].1, m)
                } else {
                    items[i]
                },
                None => items[i],
            },
    )
}

/// A batch in progress: the items so far, the next group to send, and the
/// message it stopped with, if it stopped early.
#[derive(Debug)]
pub struct GroupMembershipBatchRun {
    pub owner_user_id: String,
    pub endpoint: String,
    pub action: GroupMembershipBatchAction,
    pub group_ids: Vec<String>,
    pub items: Vec<GroupMembershipBatchItemResult>,
    pub next: usize,
    pub stopped: Option<String>,
}

impl GroupMembershipBatchRun {
    pub open spec fn wf(&self) -> bool {
        &&& self.items.len() == self.group_ids.len()
        &&& self.next <= self.items.len()
        &&& forall|i: int|
            0 <= i < self.items.len() ==> (#[trigger] self.items@[i])@.0 == self.group_ids@[i]@
        &&& forall|i: int|
            self.next <= i < self.items.len() ==> (#[trigger] self.items@[i]).state
                == GroupMembershipBatchItemState::NotAttempted && self.items@[i].message@.len() == 0
        &&& forall|i: int|
            0 <= i < self.next ==> (#[trigger] self.items@[i]).state
                != GroupMembershipBatchItemState::NotAttempted
    }

    /// No group is left to send, or the run stopped early.
    pub open spec fn done(&self) -> bool {
        self.stopped is Some || self.next == self.items.len()
    }

    pub open spec fn stopped_message(&self) -> Option<Seq<char>> {
        match self.stopped {
            Some(m) => Some(m@),
            None => None,
        }
    }

    /// A run over the prepared groups, with nothing sent yet.
    pub fn start(owner_user_id: &str, endpoint: &str, prepared: PreparedGroupMembershipBatch) -> (r:
        GroupMembershipBatchRun)
        ensures
            r.wf(),
            r.next == 0,
            r.stopped is None,
            r.owner_user_id@ == owner_user_id@,
            r.endpoint@ == endpoint@,
            r.action == prepared.action,
            r.group_ids@ == prepared.group_ids@,
    {
        let mut items: Vec<GroupMembershipBatchItemResult> = Vec::new();
        let mut i: usize = 0;
        while i < prepared.group_ids.len()
            invariant
                i <= prepared.group_ids.len(),
                items.len() == i,
                forall|k: int|
                    0 <= k < i ==> (#[trigger] items@[k])@ == (
                        prepared.group_ids@[k]@,
                        GroupMembershipBatchItemState::NotAttempted,
                        Seq::<char>::empty(),
                    ),
            decreases prepared.group_ids.len() - i,
        {
            items.push(not_attempted(prepared.group_ids[i].as_str()));
            i = i + 1;
        }
        GroupMembershipBatchRun {
            owner_user_id: owner_user_id.to_string(),
            endpoint: endpoint.to_string(),
            action: prepared.action,
            group_ids: prepared.group_ids,
            items,
            next: 0,
            stopped: None,
        }
    }

    pub fn is_done(&self) -> (r: bool)
        ensures
            r == self.done(),
    {
        self.stopped.is_some() || self.next == self.items.len()
    }

    /// The request for the next group, while the run goes on.
    pub fn next_operation(&self) -> (r: Option<GroupMembershipOperation>)
        requires
            self.wf(),
        ensures
            self.done() <==> r is None,
            r matches Some(op) ==> match self.action {
                GroupMembershipBatchAction::Leave => op matches GroupMembershipOperation::Leave {
                    group_id } && group_id@ == self.group_ids@[self.next as int]@,
                GroupMembershipBatchAction::SetVisibility { visibility } => op matches GroupMembershipOperation::SetVisibility {
                    group_id, user_id, visibility: v } && group_id@
                    == self.group_ids@[self.next as int]@ && user_id@ == self.owner_user_id@ && v
                    == visibility,
            },
    {
        if self.is_done() {
            return None;
        }
        let group_id = self.group_ids[self.next].clone();
        match self.action {
            GroupMembershipBatchAction::Leave => Some(GroupMembershipOperation::Leave { group_id }),
            GroupMembershipBatchAction::SetVisibility { visibility } => Some(
                GroupMembershipOperation::SetVisibility {
                    group_id,
                    user_id: self.owner_user_id.clone(),
                    visibility,
                },
            ),
        }
    }

    /// The session changed before the next group was sent: stop there.
    pub fn stop_for_scope_change(&mut self)
        requires
            old(self).wf(),
            !old(self).done(),
        ensures
            final(self).wf(),
            final(self).stopped_message() == Some(SCOPE_CHANGED_MESSAGE@),
            final(self).items@ == old(self).items@,
            final(self).next == old(self).next,
            final(self).group_ids@ == old(self).group_ids@,
            final(self).owner_user_id@ == old(self).owner_user_id@,
            final(self).endpoint@ == old(self).endpoint@,
            final(self).action == old(self).action,
    {
        self.stopped = Some(SCOPE_CHANGED_MESSAGE.to_string());
    }

    /// Records what the request for the next group gave: applied, or failed
    /// with the message. A failure does not stop the run; a request that
    /// went through as the session changed stops it after this group.
    pub fn record(&mut self, outcome: Result<GroupMembershipRemoteOutcome, String>) -> (p:
        GroupMembershipBatchProgress)
        requires
            old(self).wf(),
            !old(self).done(),
        ensures
            final(self).wf(),
            final(self).next == old(self).next + 1,
            final(self).group_ids@ == old(self).group_ids@,
            final(self).owner_user_id@ == old(self).owner_user_id@,
            final(self).endpoint@ == old(self).endpoint@,
            final(self).action == old(self).action,
            item_views(final(self).items@) == item_views(old(self).items@).update(
                old(self).next as int,
                match outcome {
                    Ok(_) => (
                        old(self).group_ids@[old(self).next as int]@,
                        GroupMembershipBatchItemState::Applied,
                        Seq::<char>::empty(),
                    ),
                    Err(m) => (
                        old(self).group_ids@[old(self).next as int]@,
                        GroupMembershipBatchItemState::Failed,
                        m@,
                    ),
                },
            ),
            final(self).stopped_message() == match outcome {
                Ok(GroupMembershipRemoteOutcome::AppliedScopeChanged) => Some(SCOPE_CHANGED_MESSAGE@),
                _ => None::<Seq<char>>,
            },
            p.owner_user_id@ == old(self).owner_user_id@,
            p.endpoint@ == old(self).endpoint@,
            p.completed == wire_count_of(old(self).next + 1),
            p.total == wire_count_of(old(self).items.len() as int),
    {
        let index = self.next;
        let ghost before = self.items@;
        let item = match outcome {
            Ok(o) => {
                if o == GroupMembershipRemoteOutcome::AppliedScopeChanged {
                    self.stopped = Some(SCOPE_CHANGED_MESSAGE.to_string());
                }
                applied(self.group_ids[index].as_str())
            },
            Err(m) => failed(self.group_ids[index].as_str(), m),
        };
        self.items.set(index, item);
        self.next = index + 1;
        proof {
            assert(item_views(self.items@) =~= item_views(before).update(index as int, item@));
        }
        GroupMembershipBatchProgress {
            owner_user_id: self.owner_user_id.clone(),
            endpoint: self.endpoint.clone(),
            completed: wire_count(index + 1),
            total: wire_count(self.items.len()),
        }
    }

    /// The end of a run: a last progress report where groups were left
    /// unsent, and the summary, whose items from the stopping point carry the
    /// stop message.
    pub fn finish(self) -> (r: (Option<GroupMembershipBatchProgress>, GroupMembershipBatchResult))
        requires
            self.wf(),
        ensures
            match r.0 {
                Some(p) => self.next < self.items.len() && p.completed == wire_count_of(
                    self.items.len() as int,
                ) && p.total == wire_count_of(self.items.len() as int),
                None => self.next == self.items.len(),
            },
            r.1.owner_user_id@ == self.owner_user_id@,
            r.1.endpoint@ == self.endpoint@,
            item_views(r.1.items@) == finished_items(
                item_views(self.items@),
                self.next as int,
                self.stopped_message(),
            ),
            forall|i: int|
                self.next <= i < r.1.items.len() ==> (#[trigger] r.1.items@[i]).state
                    == GroupMembershipBatchItemState::NotAttempted,
            r.1.total == wire_count_of(self.items.len() as int),
            r.1.succeeded == wire_count_of(count_applied(item_views(self.items@)) as int),
            self.items.len() <= u32::MAX ==> r.1.succeeded + r.1.failed == r.1.total,
            match self.stopped {
                Some(m) => r.1.last_error matches Some(l) && l@ == m@,
                None => match r.1.last_error {
                    Some(l) => last_message(item_views(self.items@)) == Some(l@),
                    None => last_message(item_views(self.items@)) is None,
                },
            },
    {
        let total = self.items.len();
        let progress = if self.next < total {
            Some(
                GroupMembershipBatchProgress {
                    owner_user_id: self.owner_user_id.clone(),
                    endpoint: self.endpoint.clone(),
                    completed: wire_count(total),
                    total: wire_count(total),
                },
            )
        } else {
            None
        };
        let ghost initial = self.items@;
        let mut items = self.items;
        match &self.stopped {
            Some(m) => {
                let mut i: usize = self.next;
                while i < items.len()
                    invariant
                        self.next <= i <= items.len(),
                        items.len() == initial.len(),
                        forall|k: int|
                            0 <= k < items.len() ==> (#[trigger] items@[k]).state == initial[k].state
                                && items@[k].group_id@ == initial[k].group_id@,
                        forall|k: int|
                            0 <= k < self.next ==> (#[trigger] items@[k])@ == initial[k]@,
                        forall|k: int|
                            self.next <= k < i ==> (#[trigger] items@[k]).message@ == m@,
                        forall|k: int|
                            i <= k < items.len() ==> (#[trigger] items@[k])@ == initial[k]@,
                    decreases items.len() - i,
                {
                    let item = GroupMembershipBatchItemResult {
                        group_id: items[i].group_id.clone(),
                        state: items[i].state,
                        message: m.clone(),
                    };
                    items.set(i, item);
                    i = i + 1;
                }
            },
            None => {},
        }
        proof {
            assert(item_views(items@) =~= finished_items(
                item_views(initial),
                self.next as int,
                self.stopped_message(),
            ));
            assert(count_applied(item_views(items@)) == count_applied(item_views(initial))) by {
                lemma_count_applied_same_states(item_views(items@), item_views(initial));
            }
        }
        let result = summarize(self.owner_user_id, self.endpoint, items, self.stopped);
        (progress, result)
    }
}

/// Two item lists with the same states have the same applied count.
pub proof fn lemma_count_applied_same_states(a: Seq<ItemView>, b: Seq<ItemView>)
    requires
        a.len() == b.len(),
        forall|i: int| 0 <= i < a.len() ==> (#[trigger] a[i]).1 == b[i].1,
    ensures
        count_applied(a) == count_applied(b),
    decreases a.len(),
{
    if a.len() > 0 {
        lemma_count_applied_same_states(a.drop_last(), b.drop_last());
    }
}

/// Fails where the batch was asked for another account or endpoint than the
/// session's.
pub fn check_batch_scope(
    input: &GroupMembershipBatchInput,
    current_user_id: &str,
    endpoint: &str,
) -> (r: Result<(), Error>)
    ensures
        r is Ok <==> (trim(input.expected_owner_user_id@) == current_user_id@ && trim(
            input.expected_endpoint@,
        ) == endpoint@),
        r matches Err(e) ==> is_custom(e, STALE_BATCH_MESSAGE@),
{
    let owner = trim_str(input.expected_owner_user_id.as_str());
    let expected_endpoint = trim_str(input.expected_endpoint.as_str());
    if !str_eq(owner.as_str(), current_user_id) || !str_eq(expected_endpoint.as_str(), endpoint) {
        return Err(custom_error(STALE_BATCH_MESSAGE));
    }
    Ok(())
}

/// The accounts that have a batch running; one batch per account.
#[derive(Debug)]
pub struct GroupMembershipBatchCoordinator {
    active: Vec<String>,
}

impl GroupMembershipBatchCoordinator {
    /// The accounts with a running batch.
    pub closed spec fn active_owners(&self) -> Seq<Seq<char>> {
        views(self.active@)
    }

    pub closed spec fn wf(&self) -> bool {
        self.active_owners().no_duplicates()
    }

    pub fn new() -> (r: Self)
        ensures
            r.wf(),
            r.active_owners() == Seq::<Seq<char>>::empty(),
    {
        let r = GroupMembershipBatchCoordinator { active: Vec::new() };
        proof {
            assert(views(r.active@) =~= Seq::<Seq<char>>::empty());
        }
        r
    }

    /// Marks a batch as running for the account, unless one already runs.
    pub fn try_begin(&mut self, owner_user_id: &str) -> (r: Result<String, Error>)
        requires
            old(self).wf(),
        ensures
            final(self).wf(),
            match r {
                Ok(key) => !old(self).active_owners().contains(owner_user_id@) && key@
                    == owner_user_id@ && final(self).active_owners() == old(
                    self,
                ).active_owners().push(owner_user_id@),
                Err(e) => old(self).active_owners().contains(owner_user_id@) && is_custom(
                    e,
                    BATCH_RUNNING_MESSAGE@,
                ) && final(self).active_owners() == old(self).active_owners(),
            },
    {
        if contains_str(self.active.as_slice(), owner_user_id) {
            return Err(custom_error(BATCH_RUNNING_MESSAGE));
        }
        let ghost before = self.active@;
        self.active.push(owner_user_id.to_string());
        proof {
            assert(views(self.active@) =~= views(before).push(owner_user_id@));
        }
        Ok(owner_user_id.to_string())
    }

    /// Marks the account's batch as ended.
    pub fn end(&mut self, key: &str)
        requires
            old(self).wf(),
        ensures
            final(self).wf(),
            !final(self).active_owners().contains(key@),
            forall|o: Seq<char>|
                o != key@ ==> (final(self).active_owners().contains(o) <==> old(
                    self,
                ).active_owners().contains(o)),
    {
        let mut kept: Vec<String> = Vec::new();
        let mut i: usize = 0;
        while i < self.active.len()
            invariant
                i <= self.active.len(),
                views(self.active@).no_duplicates(),
                views(kept@).no_duplicates(),
                !views(kept@).contains(key@),
                forall|o: Seq<char>|
                    #![trigger views(kept@).contains(o)]
                    views(kept@).contains(o) <==> (o != key@ && views(self.active@).take(
                        i as int,
                    ).contains(o)),
            decreases self.active.len() - i,
        {
            let ghost before = kept@;
            proof {
                broadcast use vstd::seq_lib::lemma_seq_contains_after_push;
                assert(views(self.active@).take(i as int + 1) =~= views(self.active@).take(
                    i as int,
                ).push(self.active@[i as int]@));
            }
            if !str_eq(self.active[i].as_str(), key) {
                kept.push(self.active[i].clone());
                proof {
                    assert(views(kept@) =~= views(before).push(self.active@[i as int]@));
                    assert(!views(before).contains(self.active@[i as int]@)) by {
                        if views(before).contains(self.active@[i as int]@) {
                            let k = choose|k: int|
                                0 <= k < i && views(self.active@).take(i as int)[k]
                                    == self.active@[i as int]@;
                            assert(views(self.active@)[k] == views(self.active@)[i as int]);
                        }
                    }
                }
            }
            i = i + 1;
        }
        proof {
            assert(views(self.active@).take(i as int) =~= views(self.active@));
        }
        self.active = kept;
    }
}

/// The groups of a prepared batch are distinct, and each is a valid group
/// id, trimmed.
pub proof fn law_prepared_groups_distinct_and_valid(ids: Seq<Seq<char>>)
    requires
        all_valid_ids(ids),
    ensures
        prepared_ids(ids).no_duplicates(),
        forall|g: Seq<char>| #[trigger] prepared_ids(ids).contains(g) ==> valid_group_id(g) && trim(g) == g,
{
    lemma_dedup_no_duplicates(trimmed_all(ids));
    assert forall|g: Seq<char>| #[trigger] prepared_ids(ids).contains(g) implies valid_group_id(g) && trim(g)
        == g by {
        let t = trimmed_all(ids);
        assert(t.contains(g));
        let k = choose|k: int| 0 <= k < t.len() && t[k] == g;
        assert(valid_group_id(trim(ids[k])));
        crate::text::lemma_trim_idempotent(ids[k]);
    }
}

} // verus!
