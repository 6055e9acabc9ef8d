use vstd::prelude::*;

use crate::render::{poll_text, summary_text};
use crate::roster::{find_non_voters, pending_members, Member, Profile};

verus! {

/// What the relay needs to know of a poll that arrived in a chat.
#[derive(Debug, Clone)]
pub struct InboundPoll {
    pub poll_id: String,
    pub question: String,
    pub total_voter_count: u32,
    pub is_closed: bool,
    pub is_anonymous: bool,
    /// A plain poll, as opposed to a quiz.
    pub is_regular: bool,
}

/// Where the message that carries a poll comes from.
#[derive(Debug, Clone, Copy, PartialEq, Eq, Structural)]
pub enum MessageOrigin {
    /// Posted directly by its sender.
    Direct,
    /// A forward of a message that the bot itself sent.
    ForwardedFromBot,
    /// Any other forward.
    ForwardedFromOther,
}

/// How an incoming poll message is to be handled.
#[derive(Debug, Clone)]
pub enum PollKind {
    /// A new poll to relay.
    New,
    /// A private forward of a summary: report who has not voted on this poll.
    Forward(String),
}

/// A poll that may be relayed: its question starts with `!`, nobody voted
/// yet, it is open, not anonymous and not a quiz.
pub open spec fn relayable(poll: InboundPoll) -> bool {
    &&& poll.question@.len() > 0
    &&& poll.question@[0] == '!'
    &&& poll.total_voter_count == 0
    &&& !poll.is_closed
    &&& !poll.is_anonymous
    &&& poll.is_regular
}

/// Sorts an incoming poll message. A relayable poll posted directly by a
/// member is a new poll to relay; a forward of the bot's own message, sent by
/// a member in a private chat, asks who has not voted on the poll it
/// carries; anything else is ignored.
pub fn filter_polls(
    poll: &InboundPoll,
    origin: MessageOrigin,
    chat_is_private: bool,
    sender_is_member: bool,
) -> (r: Option<PollKind>)
    ensures
        r matches Some(PollKind::New) <==> (origin == MessageOrigin::Direct && relayable(*poll)
            && sender_is_member),
        r matches Some(PollKind::Forward(id)) ==> id@ == poll.poll_id@,
        r matches Some(PollKind::Forward(_)) <==> (origin == MessageOrigin::ForwardedFromBot
            && chat_is_private && sender_is_member),
{
    match origin {
        MessageOrigin::Direct => {
            let n = poll.question.as_str().unicode_len();
            if n > 0 && poll.question.as_str().get_char(0) == '!' && poll.total_voter_count == 0
                && !poll.is_closed && !poll.is_anonymous && poll.is_regular && sender_is_member {
                Some(PollKind::New)
            } else {
                None
            }
        },
        MessageOrigin::ForwardedFromBot => {
            if chat_is_private && sender_is_member {
                Some(PollKind::Forward(poll.poll_id.clone()))
            } else {
                None
            }
        },
        MessageOrigin::ForwardedFromOther => None,
    }
}

/// The outcome of one step of relaying a poll.
#[derive(Debug, Clone, Copy, PartialEq, Eq, Structural)]
pub enum RelayEvent {
    /// The replacement poll was sent; `carries_poll` tells whether the
    /// message the platform returned holds a poll.
    PollSent { carries_poll: bool },
    /// Deleting the original message succeeded or failed.
    OriginalDeleted { ok: bool },
    /// The summary message was posted.
    SummaryPosted,
}

/// The next step of relaying a poll.
#[derive(Debug, Clone, Copy, PartialEq, Eq, Structural)]
pub enum RelayAction {
    /// Delete the original message, then continue.
    DeleteOriginal,
    /// Delete the original message and give up, tracking nothing.
    DeleteOriginalAndAbort,
    /// Delete the replacement poll and give up, tracking nothing.
    DeleteReplacementAndAbort,
    /// Post the summary message with the stop keyboard.
    PostSummary,
    /// Record the poll in the store.
    Track,
}

/// Decides the next step of relaying a poll from the outcome of the last
/// one. A replacement that carries no poll is given up after deleting the
/// original; when the original cannot be deleted, the replacement is deleted
/// so that no duplicate poll outlives it; the poll is tracked only once the
/// summary is posted.
pub fn relay_next(event: RelayEvent) -> (r: RelayAction)
    ensures
        r == match event {
            RelayEvent::PollSent { carries_poll } => if carries_poll {
                RelayAction::DeleteOriginal
            } else {
                RelayAction::DeleteOriginalAndAbort
            },
            RelayEvent::OriginalDeleted { ok } => if ok {
                RelayAction::PostSummary
            } else {
                RelayAction::DeleteReplacementAndAbort
            },
            RelayEvent::SummaryPosted => RelayAction::Track,
        },
{
    match event {
        RelayEvent::PollSent { carries_poll } => {
            if carries_poll {
                RelayAction::DeleteOriginal
            } else {
                RelayAction::DeleteOriginalAndAbort
            }
        },
        RelayEvent::OriginalDeleted { ok } => {
            if ok {
                RelayAction::PostSummary
            } else {
                RelayAction::DeleteReplacementAndAbort
            }
        },
        RelayEvent::SummaryPosted => RelayAction::Track,
    }
}

/// The first summary of a relayed poll: nobody has voted, so every active
/// member of the roster is pending.
pub fn initial_summary(creator_id: u64, creator: &Option<Profile>, roster: &Vec<Member>) -> (r:
    String)
    ensures
        r@ == summary_text(creator_id, *creator, pending_members(roster@, Set::empty()), 0),
{
    let nobody: Vec<u64> = Vec::new();
    let non_voters = find_non_voters(roster, &nobody);
    proof {
        assert(nobody@.to_set() =~= Set::<u64>::empty());
    }
    poll_text(creator_id, creator, &non_voters, 0)
}

} // verus!
