//! VRChat ids in their canonical form: a kind prefix and a UUID written
//! with hyphens.

use vstd::prelude::*;

use crate::text::{chars_of, is_prefix, starts_with};

verus! {

pub open spec fn is_hex(c: char) -> bool {
    ('0' <= c <= '9') || ('a' <= c <= 'f') || ('A' <= c <= 'F')
}

/// A UUID in its hyphenated form: 36 characters, hyphens at 8, 13, 18 and
/// 23, hex digits elsewhere.
pub open spec fn canonical_uuid(s: Seq<char>) -> bool {
    s.len() == 36 && forall|i: int|
        0 <= i < 36 ==> if i == 8 || i == 13 || i == 18 || i == 23 {
            #[trigger] s[i] == '-'
        } else {
            is_hex(s[i])
        }
}

/// An id made of a prefix and a canonical UUID.
pub open spec fn canonical_id(prefix: Seq<char>, s: Seq<char>) -> bool {
    is_prefix(prefix, s) && canonical_uuid(s.subrange(prefix.len() as int, s.len() as int))
}

fn is_canonical_uuid_at(v: &Vec<char>, start: usize) -> (r: bool)
    requires
        start <= v.len(),
    ensures
        r == canonical_uuid(v@.subrange(start as int, v@.len() as int)),
{
    if v.len() - start != 36 {
        return false;
    }
    let ghost u = v@.subrange(start as int, v@.len() as int);
    let mut i: usize = 0;
    while i < 36
        invariant
            i <= 36,
            v.len() - start == 36,
            u == v@.subrange(start as int, v@.len() as int),
            forall|k: int|
                0 <= k < i ==> if k == 8 || k == 13 || k == 18 || k == 23 {
                    #[trigger] u[k] == '-'
                } else {
                    is_hex(u[k])
                },
        decreases 36 - i,
    {
        let c = v[start + i];
        assert(c == u[i as int]);
        let ok = if i == 8 || i == 13 || i == 18 || i == 23 {
            c == '-'
        } else {
            ('0' <= c && c <= '9') || ('a' <= c && c <= 'f') || ('A' <= c && c <= 'F')
        };
        if !ok {
            return false;
        }
        i = i + 1;
    }
    true
}

fn is_canonical_id(s: &str, prefix: &str) -> (r: bool)
    ensures
        r == canonical_id(prefix@, s@),
{
    if !starts_with(s, prefix) {
        return false;
    }
    let v = chars_of(s);
    let p = chars_of(prefix);
    is_canonical_uuid_at(&v, p.len())
}

/// `grp_` and a canonical UUID.
pub fn is_group_id(s: &str) -> (r: bool)
    ensures
        r == canonical_id("grp_"@, s@),
{
    is_canonical_id(s, "grp_")
}

/// `usr_` and a canonical UUID.
pub fn is_user_id(s: &str) -> (r: bool)
    ensures
        r == canonical_id("usr_"@, s@),
{
    is_canonical_id(s, "usr_")
}

} // verus!
