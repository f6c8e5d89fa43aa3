use vstd::prelude::*;
use crate::book_edit::{book_edit_empty, BookEdit, InnerEditData, PersonEdit};
use crate::edit_kind::{status_accepted, EditStatus};
use crate::ids::{EditVoteId, MemberId};

verus! {

/// A vote on an edit, as the edit list shows it.
#[derive(Debug, Clone, Copy, PartialEq, Eq, Structural)]
pub struct VoteRecord {
    pub id: EditVoteId,
    pub member_id: Option<MemberId>,
    pub vote: bool,
    /// When the vote was cast, in milliseconds since the Unix epoch.
    pub created_at: i64,
}

/// The first position at or after `i` of a vote cast by `member`.
pub open spec fn find_member_vote(votes: Seq<VoteRecord>, member: MemberId, i: int) -> Option<int>
    decreases votes.len() - i,
{
    if i < 0 || i >= votes.len() {
        None
    } else if votes[i].member_id == Some(member) {
        Some(i)
    } else {
        find_member_vote(votes, member, i + 1)
    }
}

/// The vote the signed-in member cast, if any: the first vote recorded for
/// that member.
pub open spec fn my_vote_spec(votes: Option<Seq<VoteRecord>>, me: Option<MemberId>) -> Option<bool> {
    match (votes, me) {
        (Some(v), Some(m)) => match find_member_vote(v, m, 0) {
            Some(k) => Some(v[k].vote),
            None => None,
        },
        _ => None,
    }
}

/// The vote the signed-in member `me` cast on an edit.
pub fn get_my_vote(votes: &Option<Vec<VoteRecord>>, me: Option<MemberId>) -> (res: Option<bool>)
    ensures
        res == my_vote_spec(
            match votes {
                Some(v) => Some(v@),
                None => None,
            },
            me,
        ),
{
    let v = match votes {
        Some(v) => v,
        None => return None,
    };
    let m = match me {
        Some(m) => m,
        None => return None,
    };
    let mut i: usize = 0;
    while i < v.len()
        invariant
            0 <= i <= v.len(),
            *votes matches Some(vv) && vv@ == v@,
            me == Some(m),
            find_member_vote(v@, m, 0) == find_member_vote(v@, m, i as int),
        decreases v.len() - i,
    {
        let same = match v[i].member_id {
            Some(x) => x == m,
            None => false,
        };
        if same {
            return Some(v[i].vote);
        }
        i = i + 1;
    }
    None
}

/// The first position at or after `i` of the vote with id `id`.
pub open spec fn find_vote_id(votes: Seq<VoteRecord>, id: EditVoteId, i: int) -> Option<int>
    decreases votes.len() - i,
{
    if i < 0 || i >= votes.len() {
        None
    } else if votes[i].id == id {
        Some(i)
    } else {
        find_vote_id(votes, id, i + 1)
    }
}

/// The votes after the member's own vote `mine` comes back from the server:
/// casting the same vote again withdraws it, casting the other vote replaces
/// it, and a first vote is appended.
pub open spec fn votes_after(votes: Seq<VoteRecord>, mine: VoteRecord) -> Seq<VoteRecord> {
    match find_vote_id(votes, mine.id, 0) {
        Some(k) => if votes[k].vote == mine.vote {
            votes.remove(k)
        } else {
            votes.update(k, mine)
        },
        None => votes.push(mine),
    }
}

/// Records the member's own vote in the vote list of an edit.
pub fn apply_my_vote(votes: &mut Vec<VoteRecord>, mine: VoteRecord)
    ensures
        final(votes)@ == votes_after(old(votes)@, mine),
{
    let mut i: usize = 0;
    while i < votes.len()
        invariant
            0 <= i <= votes.len(),
            *votes == *old(votes),
            find_vote_id(votes@, mine.id, 0) == find_vote_id(votes@, mine.id, i as int),
        decreases votes.len() - i,
    {
        if votes[i].id == mine.id {
            if votes[i].vote == mine.vote {
                votes.remove(i);
            } else {
                votes.set(i, mine);
            }
            return;
        }
        i = i + 1;
    }
    votes.push(mine);
}

proof fn lemma_find_vote_id(votes: Seq<VoteRecord>, id: EditVoteId, i: int)
    requires
        0 <= i,
    ensures
        match find_vote_id(votes, id, i) {
            Some(k) => i <= k < votes.len() && votes[k].id == id,
            None => forall|j: int| i <= j < votes.len() ==> votes[j].id != id,
        },
    decreases votes.len() - i,
{
    if i < votes.len() && votes[i].id != id {
        lemma_find_vote_id(votes, id, i + 1);
    }
}

proof fn lemma_find_vote_id_push(votes: Seq<VoteRecord>, mine: VoteRecord, i: int)
    requires
        0 <= i <= votes.len(),
        forall|j: int| 0 <= j < votes.len() ==> votes[j].id != mine.id,
    ensures
        find_vote_id(votes.push(mine), mine.id, i) == Some(votes.len() as int),
    decreases votes.len() - i,
{
    if i < votes.len() {
        assert(votes.push(mine)[i] == votes[i]);
        lemma_find_vote_id_push(votes, mine, i + 1);
    }
}

/// Casting a new vote and then the same vote again leaves the votes as they
/// were.
pub proof fn law_same_vote_twice_withdraws(votes: Seq<VoteRecord>, mine: VoteRecord)
    requires
        find_vote_id(votes, mine.id, 0) is None,
    ensures
        votes_after(votes_after(votes, mine), mine) == votes,
{
    lemma_find_vote_id(votes, mine.id, 0);
    lemma_find_vote_id_push(votes, mine, 0);
    assert(votes.push(mine).remove(votes.len() as int) =~= votes);
}

/// The new and old values of a field when the edit carries a new value.
pub fn determine_new_old<'a, V>(new: &'a Option<V>, old: &'a Option<V>) -> (res: Option<
    (&'a V, &'a Option<V>),
>)
    ensures
        match *new {
            Some(n) => res matches Some((a, b)) && *a == n && *b == *old,
            None => res is None,
        },
{
    match new {
        Some(n) => Some((n, old)),
        None => None,
    }
}

/// How the proposed value in a row of an edit's comparison is marked.
#[derive(Debug, Clone, Copy, PartialEq, Eq, Structural)]
pub enum ValueMark {
    /// The edit was accepted and the model took the value.
    Applied,
    /// The model now holds something other than the value the edit replaces,
    /// so the proposal would not be used if approved.
    Stale,
    /// A proposal still open.
    Proposed,
}

/// The mark of the proposed value of a row: applied where the edit was
/// accepted and the field updated, else stale where the model has a value
/// that differs from the one the edit replaces, else a plain proposal.
pub fn proposed_value_mark(
    status: EditStatus,
    is_updated: bool,
    has_current: bool,
    current_is_old: bool,
) -> (res: ValueMark)
    ensures
        res == (if status_accepted(status) && is_updated {
            ValueMark::Applied
        } else if has_current && !current_is_old {
            ValueMark::Stale
        } else {
            ValueMark::Proposed
        }),
{
    if status.is_accepted() && is_updated {
        ValueMark::Applied
    } else if has_current && !current_is_old {
        ValueMark::Stale
    } else {
        ValueMark::Proposed
    }
}

/// Gives a book edit without old values an empty set of them, so that each
/// row of the edit list compares a new value with an old one. Nothing else
/// changes.
pub fn fill_missing_old_book<C, U>(data: &mut InnerEditData<C, BookEdit, U>)
    ensures
        final(data).current == old(data).current,
        final(data).new == old(data).new,
        final(data).updated == old(data).updated,
        old(data).old is Some ==> final(data).old == old(data).old,
        old(data).old is None ==> (final(data).old matches Some(e) && book_edit_empty(e)),
{
    if data.old.is_none() {
        data.old = Some(BookEdit::default());
    }
}

/// Gives a person edit without old values an empty set of them. Nothing else
/// changes.
pub fn fill_missing_old_person<C, U>(data: &mut InnerEditData<C, PersonEdit, U>)
    ensures
        final(data).current == old(data).current,
        final(data).new == old(data).new,
        final(data).updated == old(data).updated,
        old(data).old is Some ==> final(data).old == old(data).old,
        old(data).old is None ==> (final(data).old matches Some(e) && e.name is None
            && e.description is None && e.birth_date is None && e.added_images is None
            && e.removed_images is None),
{
    if data.old.is_none() {
        data.old = Some(PersonEdit::default());
    }
}

} // verus!
