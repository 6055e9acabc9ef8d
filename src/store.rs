use vstd::prelude::*;

use crate::render::{pending_report, pending_report_text, poll_text, summary_text};
use crate::roster::{find_non_voters, find_profile, pending_members, profile_in, Member};
use crate::stop::{is_stop_keyboard, make_keyboard, Keyboard};
use crate::tally::{
    after_answer, canonical_voters, is_canonical, lemma_canonical_unique, record_answer,
};

verus! {

/// The record of one relayed poll: the id the platform gave the replacement
/// poll, the member who created it, where its summary message is, and the
/// members who have voted.
#[derive(Debug, Clone)]
pub struct TrackedPoll {
    pub poll_id: String,
    pub creator_id: u64,
    pub info_chat_id: i64,
    pub info_message_id: i32,
    pub voted_users: Vec<u64>,
}

/// The record stored for `poll_id`: the first one with that id, if any.
pub open spec fn lookup(polls: Seq<TrackedPoll>, poll_id: Seq<char>) -> Option<TrackedPoll>
    decreases polls.len(),
{
    if polls.len() == 0 {
        None
    } else if polls[0].poll_id@ == poll_id {
        Some(polls[0])
    } else {
        lookup(polls.drop_first(), poll_id)
    }
}

/// The record `p` with its voter list replaced by `voters`.
pub open spec fn with_voters(p: TrackedPoll, voters: Vec<u64>) -> TrackedPoll {
    TrackedPoll { voted_users: voters, ..p }
}

/// An edit of a summary message: where it is, its new text and keyboard.
#[derive(Debug, Clone)]
pub struct SummaryEdit {
    pub chat_id: i64,
    pub message_id: i32,
    pub text: String,
    pub keyboard: Keyboard,
}

/// The tracked polls, one record per poll id.
pub struct PollStore {
    polls: Vec<TrackedPoll>,
}

impl View for PollStore {
    type V = Seq<TrackedPoll>;

    closed spec fn view(&self) -> Seq<TrackedPoll> {
        self.polls@
    }
}

proof fn lemma_lookup_index(polls: Seq<TrackedPoll>, poll_id: Seq<char>)
    ensures
        lookup(polls, poll_id) matches Some(p) ==> exists|i: int|
            0 <= i < polls.len() && polls[i] == p && p.poll_id@ == poll_id,
        lookup(polls, poll_id) is None ==> forall|i: int|
            0 <= i < polls.len() ==> (#[trigger] polls[i]).poll_id@ != poll_id,
    decreases polls.len(),
{
    if polls.len() > 0 {
        lemma_lookup_index(polls.drop_first(), poll_id);
        if polls[0].poll_id@ != poll_id {
            if let Some(p) = lookup(polls, poll_id) {
                let i = choose|i: int|
                    0 <= i < polls.drop_first().len() && polls.drop_first()[i] == p
                        && p.poll_id@ == poll_id;
                assert(polls[i + 1] == p);
            } else {
                assert forall|i: int| 0 <= i < polls.len() implies (#[trigger] polls[i]).poll_id@
                    != poll_id by {
                    if i > 0 {
                        assert(polls[i] == polls.drop_first()[i - 1]);
                    }
                }
            }
        }
    }
}

proof fn lemma_lookup_at(polls: Seq<TrackedPoll>, i: int)
    requires
        0 <= i < polls.len(),
        forall|j: int| 0 <= j < i ==> (#[trigger] polls[j]).poll_id@ != polls[i].poll_id@,
    ensures
        lookup(polls, polls[i].poll_id@) == Some(polls[i]),
    decreases i,
{
    if i > 0 {
        assert forall|j: int| 0 <= j < i - 1 implies (#[trigger] polls.drop_first()[j]).poll_id@
            != polls.drop_first()[i - 1].poll_id@ by {
            assert(polls.drop_first()[j] == polls[j + 1]);
        }
        lemma_lookup_at(polls.drop_first(), i - 1);
    }
}

proof fn lemma_lookup_push(polls: Seq<TrackedPoll>, p: TrackedPoll, poll_id: Seq<char>)
    requires
        lookup(polls, p.poll_id@) is None,
    ensures
        lookup(polls.push(p), poll_id) == if poll_id == p.poll_id@ {
            Some(p)
        } else {
            lookup(polls, poll_id)
        },
    decreases polls.len(),
{
    if polls.len() == 0 {
        assert(polls.push(p).drop_first() =~= Seq::<TrackedPoll>::empty());
    } else {
        assert(polls.push(p).drop_first() =~= polls.drop_first().push(p));
        if polls[0].poll_id@ != p.poll_id@ {
            lemma_lookup_push(polls.drop_first(), p, poll_id);
        }
    }
}

proof fn lemma_lookup_update(polls: Seq<TrackedPoll>, i: int, p: TrackedPoll, poll_id: Seq<char>)
    requires
        0 <= i < polls.len(),
        p.poll_id@ == polls[i].poll_id@,
        forall|j: int| 0 <= j < polls.len() && j != i ==> (#[trigger] polls[j]).poll_id@ != p.poll_id@,
    ensures
        lookup(polls.update(i, p), poll_id) == if poll_id == p.poll_id@ {
            Some(p)
        } else {
            lookup(polls, poll_id)
        },
    decreases polls.len(),
{
    if i == 0 {
        assert(polls.update(0, p).drop_first() =~= polls.drop_first());
    } else {
        assert(polls.update(i, p).drop_first() =~= polls.drop_first().update(i - 1, p));
        assert forall|j: int| 0 <= j < polls.drop_first().len() && j != i - 1 implies (
        #[trigger] polls.drop_first()[j]).poll_id@ != p.poll_id@ by {
            assert(polls.drop_first()[j] == polls[j + 1]);
        }
        lemma_lookup_update(polls.drop_first(), i - 1, p, poll_id);
    }
}

/// The store's invariant: no two records share a poll id, and every voter
/// list is canonical.
pub open spec fn store_wf(polls: Seq<TrackedPoll>) -> bool {
    &&& forall|i: int, j: int|
        0 <= i < j < polls.len() ==> (#[trigger] polls[i]).poll_id@ != (#[trigger] polls[j]).poll_id@
    &&& forall|i: int| 0 <= i < polls.len() ==> is_canonical((#[trigger] polls[i]).voted_users@)
}

impl PollStore {
    pub open spec fn wf(&self) -> bool {
        store_wf(self@)
    }

    /// An empty store.
    pub fn new() -> (r: PollStore)
        ensures
            r.wf(),
            forall|id: Seq<char>| lookup(r@, id) is None,
    {
        let r = PollStore { polls: Vec::new() };
        proof {
            assert forall|id: Seq<char>| lookup(r@, id) is None by {
                assert(r@.len() == 0);
            }
        }
        r
    }

    fn find_index(&self, poll_id: &str) -> (r: Option<usize>)
        requires
            self.wf(),
        ensures
            match r {
                Some(i) => i < self@.len() && lookup(self@, poll_id@) == Some(self@[i as int]),
                None => lookup(self@, poll_id@) is None,
            },
    {
        let key = String::from_str(poll_id);
        let mut i: usize = 0;
        while i < self.polls.len()
            invariant
                i <= self@.len(),
                self.wf(),
                key@ == poll_id@,
                self@ == self.polls@,
                forall|k: int| 0 <= k < i ==> (#[trigger] self@[k]).poll_id@ != poll_id@,
            decreases self@.len() - i,
        {
            if self.polls[i].poll_id == key {
                proof {
                    lemma_lookup_at(self@, i as int);
                }
                return Some(i);
            }
            i = i + 1;
        }
        proof {
            lemma_lookup_index(self@, poll_id@);
        }
        None
    }

    /// The record of the poll `poll_id`, if it is tracked.
    pub fn find(&self, poll_id: &str) -> (r: Option<&TrackedPoll>)
        requires
            self.wf(),
        ensures
            match r {
                Some(p) => lookup(self@, poll_id@) == Some(*p),
                None => lookup(self@, poll_id@) is None,
            },
    {
        match self.find_index(poll_id) {
            Some(i) => Some(&self.polls[i]),
            None => None,
        }
    }

    /// Starts tracking a poll. Its voter list is stored in canonical form.
    /// Returns false, and changes nothing, when the poll id is tracked
    /// already.
    pub fn insert(&mut self, poll: TrackedPoll) -> (r: bool)
        requires
            old(self).wf(),
        ensures
            final(self).wf(),
            r == (lookup(old(self)@, poll.poll_id@) is None),
            !r ==> final(self)@ == old(self)@,
            r ==> (lookup(final(self)@, poll.poll_id@) matches Some(p) && p.poll_id == poll.poll_id
                && p.creator_id == poll.creator_id && p.info_chat_id == poll.info_chat_id
                && p.info_message_id == poll.info_message_id && is_canonical(p.voted_users@)
                && p.voted_users@.to_set() == poll.voted_users@.to_set()),
            r ==> forall|id: Seq<char>|
                id != poll.poll_id@ ==> lookup(final(self)@, id) == lookup(old(self)@, id),
    {
        if self.find_index(poll.poll_id.as_str()).is_some() {
            return false;
        }
        let voters = canonical_voters(&poll.voted_users);
        let stored = TrackedPoll {
            poll_id: poll.poll_id,
            creator_id: poll.creator_id,
            info_chat_id: poll.info_chat_id,
            info_message_id: poll.info_message_id,
            voted_users: voters,
        };
        proof {
            lemma_lookup_index(self@, stored.poll_id@);
        }
        self.polls.push(stored);
        proof {
            assert forall|id: Seq<char>| lookup(self@, id) == (if id == stored.poll_id@ {
                Some(stored)
            } else {
                lookup(old(self)@, id)
            }) by {
                lemma_lookup_push(old(self)@, stored, id);
            }
        }
        true
    }

    /// Applies a vote-answer event of `member` on the poll `poll_id` and
    /// renders the summary message anew. An event for a poll that is not
    /// tracked changes nothing and gives `None`. Otherwise the poll's voter
    /// list gains `member` when `option_ids` is non-empty and loses it when
    /// it is empty, the other records stay as they were, and the result is
    /// the edit of the summary message: the text over the creator's profile
    /// and the pending members of `roster`, with the stop keyboard.
    pub fn record_answer(
        &mut self,
        poll_id: &str,
        member: u64,
        option_ids: &Vec<u32>,
        roster: &Vec<Member>,
    ) -> (r: Option<SummaryEdit>)
        requires
            old(self).wf(),
        ensures
            final(self).wf(),
            match lookup(old(self)@, poll_id@) {
                None => r is None && final(self)@ == old(self)@,
                Some(p) => exists|v: Vec<u64>|
                    {
                        &&& is_canonical(v@)
                        &&& v@.to_set() == after_answer(
                            p.voted_users@.to_set(),
                            member,
                            option_ids@.len() > 0,
                        )
                        &&& lookup(final(self)@, poll_id@) == Some(with_voters(p, v))
                        &&& r matches Some(e) && e.chat_id == p.info_chat_id && e.message_id
                            == p.info_message_id && e.text@ == summary_text(
                            p.creator_id,
                            profile_in(roster@, p.creator_id),
                            pending_members(roster@, v@.to_set()),
                            v@.len(),
                        ) && is_stop_keyboard(e.keyboard, poll_id@)
                    },
            },
            forall|id: Seq<char>| id != poll_id@ ==> lookup(final(self)@, id) == lookup(old(self)@, id),
    {
        let i = match self.find_index(poll_id) {
            Some(i) => i,
            None => return None,
        };
        let voters = record_answer(&self.polls[i].voted_users, member, option_ids);
        let non_voters = find_non_voters(roster, &voters);
        let creator_id = self.polls[i].creator_id;
        let creator = find_profile(roster, creator_id);
        let text = poll_text(creator_id, &creator, &non_voters, voters.len() as u64);
        let edit = SummaryEdit {
            chat_id: self.polls[i].info_chat_id,
            message_id: self.polls[i].info_message_id,
            text,
            keyboard: make_keyboard(poll_id),
        };
        let ghost p = self@[i as int];
        let ghost v = voters;
        self.polls[i].voted_users = voters;
        proof {
            lemma_lookup_index(old(self)@, poll_id@);
            assert(p.poll_id@ == poll_id@);
            assert(self@ == old(self)@.update(i as int, with_voters(p, v)));
            assert forall|id: Seq<char>| lookup(self@, id) == (if id == p.poll_id@ {
                Some(with_voters(p, v))
            } else {
                lookup(old(self)@, id)
            }) by {
                lemma_lookup_update(old(self)@, i as int, with_voters(p, v), id);
            }
            assert(lookup(self@, poll_id@) == Some(with_voters(p, v)));
            assert({
                &&& is_canonical(v@)
                &&& v@.to_set() == after_answer(
                    p.voted_users@.to_set(),
                    member,
                    option_ids@.len() > 0,
                )
                &&& lookup(self@, poll_id@) == Some(with_voters(p, v))
            });
        }
        Some(edit)
    }

    /// The reply to a privately forwarded summary of the poll `poll_id`: the
    /// pending members of a tracked poll, or "Unknown poll". Reading only,
    /// the store is not changed.
    pub fn pending_report(&self, poll_id: &str, roster: &Vec<Member>) -> (r: String)
        requires
            self.wf(),
        ensures
            r@ == pending_report_text(
                match lookup(self@, poll_id@) {
                    Some(p) => Some(pending_members(roster@, p.voted_users@.to_set())),
                    None => None,
                },
            ),
    {
        match self.find(poll_id) {
            Some(p) => {
                let non_voters = find_non_voters(roster, &p.voted_users);
                pending_report(Some(&non_voters))
            },
            None => pending_report(None),
        }
    }
}

/// A voter list read back from the store and brought into canonical form,
/// as a reload does, is the very list that was stored.
pub proof fn lemma_stored_voters_round_trip(store: PollStore, poll_id: Seq<char>, reloaded: Seq<u64>)
    requires
        store.wf(),
        lookup(store@, poll_id) is Some,
        is_canonical(reloaded),
        reloaded.to_set() == lookup(store@, poll_id)->0.voted_users@.to_set(),
    ensures
        reloaded == lookup(store@, poll_id)->0.voted_users@,
{
    lemma_lookup_index(store@, poll_id);
    lemma_canonical_unique(reloaded, lookup(store@, poll_id)->0.voted_users@);
}

} // verus!
