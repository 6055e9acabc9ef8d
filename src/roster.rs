use vstd::prelude::*;

verus! {

/// The public profile of a member, when the platform has told us about it.
#[derive(Debug, Clone)]
pub struct Profile {
    pub username: Option<String>,
    pub first_name: String,
    pub last_name: Option<String>,
}

/// One entry of the membership roster: the member's id, whether the member
/// is currently active (eligible to be counted as a pending voter), and the
/// profile if one is known.
#[derive(Debug, Clone)]
pub struct Member {
    pub id: u64,
    pub active: bool,
    pub profile: Option<Profile>,
}

fn copy_opt_string(s: &Option<String>) -> (r: Option<String>)
    ensures
        r == *s,
{
    match s {
        Some(v) => Some(v.clone()),
        None => None,
    }
}

impl Profile {
    /// A field-by-field copy.
    pub fn duplicate(&self) -> (r: Profile)
        ensures
            r == *self,
    {
        Profile {
            username: copy_opt_string(&self.username),
            first_name: self.first_name.clone(),
            last_name: copy_opt_string(&self.last_name),
        }
    }
}

/// A field-by-field copy of an optional profile.
pub fn copy_profile(p: &Option<Profile>) -> (r: Option<Profile>)
    ensures
        r == *p,
{
    match p {
        Some(v) => Some(v.duplicate()),
        None => None,
    }
}

impl Member {
    /// A field-by-field copy.
    pub fn duplicate(&self) -> (r: Member)
        ensures
            r == *self,
    {
        Member { id: self.id, active: self.active, profile: copy_profile(&self.profile) }
    }
}

/// The ids of a list of members, in order.
pub open spec fn ids_of(members: Seq<Member>) -> Seq<u64> {
    members.map_values(|m: Member| m.id)
}

/// The pending members: the active roster entries whose id is not among the
/// voters, in roster order, each id kept at its first occurrence only.
pub open spec fn pending_members(roster: Seq<Member>, voters: Set<u64>) -> Seq<Member>
    decreases roster.len(),
{
    if roster.len() == 0 {
        Seq::empty()
    } else {
        let rest = pending_members(roster.drop_last(), voters);
        let m = roster.last();
        if m.active && !voters.contains(m.id) && !ids_of(rest).contains(m.id) {
            rest.push(m)
        } else {
            rest
        }
    }
}

/// The profile that the roster records for `id`: that of its first entry
/// with this id, or none when no entry has it.
pub open spec fn profile_in(roster: Seq<Member>, id: u64) -> Option<Profile>
    decreases roster.len(),
{
    if roster.len() == 0 {
        None
    } else if roster[0].id == id {
        roster[0].profile
    } else {
        profile_in(roster.drop_first(), id)
    }
}

/// Whether `id` occurs in `ids`.
fn contains_id(ids: &Vec<u64>, id: u64) -> (r: bool)
    ensures
        r == ids@.contains(id),
{
    let mut i: usize = 0;
    while i < ids.len()
        invariant
            i <= ids@.len(),
            forall|k: int| 0 <= k < i ==> ids@[k] != id,
        decreases ids@.len() - i,
    {
        if ids[i] == id {
            return true;
        }
        i = i + 1;
    }
    false
}

fn has_member(members: &Vec<Member>, id: u64) -> (r: bool)
    ensures
        r == ids_of(members@).contains(id),
{
    let mut i: usize = 0;
    while i < members.len()
        invariant
            i <= members@.len(),
            forall|k: int| 0 <= k < i ==> members@[k].id != id,
        decreases members@.len() - i,
    {
        if members[i].id == id {
            proof {
                assert(ids_of(members@)[i as int] == id);
            }
            return true;
        }
        i = i + 1;
    }
    proof {
        if ids_of(members@).contains(id) {
            let k = choose|k: int| 0 <= k < ids_of(members@).len() && ids_of(members@)[k] == id;
            assert(members@[k].id == id);
        }
    }
    false
}

/// The members who have not voted yet: active roster entries whose id is not
/// in `voted_users`, in roster order and without repeated ids.
pub fn find_non_voters(roster: &Vec<Member>, voted_users: &Vec<u64>) -> (r: Vec<Member>)
    ensures
        r@ == pending_members(roster@, voted_users@.to_set()),
{
    let mut r: Vec<Member> = Vec::new();
    let mut i: usize = 0;
    while i < roster.len()
        invariant
            i <= roster@.len(),
            r@ == pending_members(roster@.take(i as int), voted_users@.to_set()),
        decreases roster@.len() - i,
    {
        let m = &roster[i];
        proof {
            assert(roster@.take(i + 1).drop_last() =~= roster@.take(i as int));
            assert(roster@.take(i + 1).last() == roster@[i as int]);
        }
        if m.active && !contains_id(voted_users, m.id) && !has_member(&r, m.id) {
            r.push(m.duplicate());
        }
        i = i + 1;
    }
    proof {
        assert(roster@.take(roster@.len() as int) =~= roster@);
    }
    r
}

/// The profile that the roster records for `id` (see `profile_in`).
pub fn find_profile(roster: &Vec<Member>, id: u64) -> (r: Option<Profile>)
    ensures
        r == profile_in(roster@, id),
{
    let mut i: usize = 0;
    proof {
        assert(roster@.skip(0) =~= roster@);
    }
    while i < roster.len()
        invariant
            i <= roster@.len(),
            profile_in(roster@.skip(i as int), id) == profile_in(roster@, id),
        decreases roster@.len() - i,
    {
        proof {
            assert(roster@.skip(i as int).drop_first() =~= roster@.skip(i + 1));
        }
        if roster[i].id == id {
            return copy_profile(&roster[i].profile);
        }
        i = i + 1;
    }
    proof {
        assert(roster@.skip(i as int) =~= Seq::<Member>::empty());
    }
    None
}

} // verus!
