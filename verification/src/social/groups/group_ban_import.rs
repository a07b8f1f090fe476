//! Banning a list of users from a group: the checks on the list.

use vstd::prelude::*;

use crate::error::{custom_error, is_custom, Error};
use crate::text::{contains_str, trim, trim_str, views};
use crate::vrchat_ids::{canonical_id, is_group_id, is_user_id};

verus! {

pub const INVALID_GROUP_MESSAGE: &'static str = "Group ban import requires a valid group id.";

pub const NO_USERS_MESSAGE: &'static str = "Group ban import requires at least one valid user id.";

#[derive(Clone, Debug)]
pub struct GroupBanImportStartInput {
    pub group_id: String,
    pub user_ids: Vec<String>,
}

/// A checked ban list: the group, and the users to ban, each once.
#[derive(Clone, Debug)]
pub struct PreparedGroupBanImport {
    pub group_id: String,
    pub user_ids: Vec<String>,
}

/// The users of a ban list: trimmed, canonical user ids only, each once,
/// in their first order.
pub open spec fn ban_targets(ids: Seq<Seq<char>>) -> Seq<Seq<char>>
    decreases ids.len(),
{
    if ids.len() == 0 {
        Seq::empty()
    } else {
        let rest = ban_targets(ids.drop_last());
        let id = trim(ids.last());
        if canonical_id("usr_"@, id) && !rest.contains(id) {
            rest.push(id)
        } else {
            rest
        }
    }
}

/// The checked ban list: the group id trimmed and canonical, the users as
/// `ban_targets` gives them, at least one.
pub fn prepare_group_ban_import(input: GroupBanImportStartInput) -> (r: Result<
    PreparedGroupBanImport,
    Error,
>)
    ensures
        match r {
            Ok(p) => {
                &&& canonical_id("grp_"@, trim(input.group_id@)) && p.group_id@ == trim(
                    input.group_id@,
                )
                &&& views(p.user_ids@) == ban_targets(views(input.user_ids@))
                &&& p.user_ids@.len() > 0
            },
            Err(e) => if !canonical_id("grp_"@, trim(input.group_id@)) {
                is_custom(e, INVALID_GROUP_MESSAGE@)
            } else {
                ban_targets(views(input.user_ids@)).len() == 0 && is_custom(e, NO_USERS_MESSAGE@)
            },
        },
{
    let group_id = trim_str(input.group_id.as_str());
    if !is_group_id(group_id.as_str()) {
        return Err(custom_error(INVALID_GROUP_MESSAGE));
    }
    let ghost ids = views(input.user_ids@);
    let mut users: Vec<String> = Vec::new();
    let mut i: usize = 0;
    while i < input.user_ids.len()
        invariant
            i <= input.user_ids.len(),
            ids == views(input.user_ids@),
            views(users@) == ban_targets(ids.take(i as int)),
        decreases input.user_ids.len() - i,
    {
        proof {
            assert(ids.take(i as int + 1).drop_last() =~= ids.take(i as int));
        }
        let id = trim_str(input.user_ids[i].as_str());
        if is_user_id(id.as_str()) && !contains_str(users.as_slice(), id.as_str()) {
            let ghost before = users@;
            let ghost idv = id@;
            users.push(id);
            proof {
                assert(views(users@) =~= views(before).push(idv));
            }
        }
        i = i + 1;
    }
    proof {
        assert(ids.take(i as int) =~= ids);
    }
    if users.len() == 0 {
        return Err(custom_error(NO_USERS_MESSAGE));
    }
    Ok(PreparedGroupBanImport { group_id, user_ids: users })
}

} // verus!
