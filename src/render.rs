use vstd::prelude::*;

use crate::roster::{Member, Profile};

verus! {

/// The character of a decimal digit.
pub open spec fn digit_char(d: nat) -> char {
    seq!['0', '1', '2', '3', '4', '5', '6', '7', '8', '9'][d as int]
}

/// The decimal notation of `n`, without sign or leading zeros.
pub open spec fn decimal(n: nat) -> Seq<char>
    decreases n,
{
    if n < 10 {
        seq![digit_char(n)]
    } else {
        decimal(n / 10) + seq![digit_char(n % 10)]
    }
}

/// Relies on the `Display` impl of `u64` (through `ToString`), which writes
/// the plain decimal digits of the value.
#[verifier::external_body]
fn decimal_string(n: u64) -> (r: String)
    ensures
        r@ == decimal(n as nat),
{
    n.to_string()
}

/// How a member is named in a summary: `@username` when the profile has one,
/// the first name followed by the last name otherwise, and a fallback naming
/// the numeric id when no profile is known.
pub open spec fn user_label(id: u64, profile: Option<Profile>) -> Seq<char> {
    match profile {
        None => "unknown user, id="@ + decimal(id as nat),
        Some(p) => match p.username {
            Some(u) => "@"@ + u@,
            None => match p.last_name {
                Some(l) => p.first_name@ + " "@ + l@,
                None => p.first_name@,
            },
        },
    }
}

/// The labels of the members, separated by `", "`.
pub open spec fn member_list(members: Seq<Member>) -> Seq<char>
    decreases members.len(),
{
    if members.len() == 0 {
        Seq::empty()
    } else if members.len() == 1 {
        user_label(members[0].id, members[0].profile)
    } else {
        member_list(members.drop_last()) + ", "@ + user_label(
            members.last().id,
            members.last().profile,
        )
    }
}

/// `"s"` unless the count is one.
pub open spec fn plural(n: nat) -> Seq<char> {
    if n == 1 {
        Seq::empty()
    } else {
        "s"@
    }
}

/// The text of a poll's summary message.
pub open spec fn summary_text(
    creator_id: u64,
    creator: Option<Profile>,
    non_voters: Seq<Member>,
    total_voters: nat,
) -> Seq<char> {
    "Poll by "@ + user_label(creator_id, creator) + ". "@ + if non_voters.len() == 0 {
        "Everyone voted!"@
    } else {
        "Voted "@ + decimal(total_voters) + " user"@ + plural(total_voters) + ", pending vote "@
            + decimal(non_voters.len()) + " user"@ + plural(non_voters.len()) + ": "@
            + member_list(non_voters) + ".\n"@
    }
}

/// The `@username` mentions of the members that have a username, each
/// preceded by a space; members without one are left out.
pub open spec fn mentions(members: Seq<Member>) -> Seq<char>
    decreases members.len(),
{
    if members.len() == 0 {
        Seq::empty()
    } else {
        mentions(members.drop_last()) + match members.last().profile {
            Some(p) => match p.username {
                Some(u) => " @"@ + u@,
                None => Seq::empty(),
            },
            None => Seq::empty(),
        }
    }
}

/// The reply to a privately forwarded summary: "Unknown poll" when the poll
/// is not tracked, "Everyone voted!" when nobody is pending, and the
/// mentions of the pending members otherwise.
pub open spec fn pending_report_text(non_voters: Option<Seq<Member>>) -> Seq<char> {
    match non_voters {
        None => "Unknown poll"@,
        Some(ms) => if ms.len() == 0 {
            "Everyone voted!"@
        } else {
            mentions(ms)
        },
    }
}

/// Appends the label of a member (see `user_label`).
pub fn push_user_label(text: &mut String, id: u64, profile: &Option<Profile>)
    ensures
        final(text)@ == old(text)@ + user_label(id, *profile),
{
    match profile {
        None => {
            text.append("unknown user, id=");
            let d = decimal_string(id);
            text.append(d.as_str());
        },
        Some(p) => match &p.username {
            Some(u) => {
                text.append("@");
                text.append(u.as_str());
            },
            None => {
                text.append(p.first_name.as_str());
                match &p.last_name {
                    Some(l) => {
                        text.append(" ");
                        text.append(l.as_str());
                    },
                    None => {},
                }
            },
        },
    }
    proof {
        assert(final(text)@ =~= old(text)@ + user_label(id, *profile));
    }
}

/// Appends the labels of the members, separated by `", "`.
pub fn push_member_list(text: &mut String, members: &Vec<Member>)
    ensures
        final(text)@ == old(text)@ + member_list(members@),
{
    let ghost start = text@;
    let mut i: usize = 0;
    while i < members.len()
        invariant
            i <= members@.len(),
            text@ == start + member_list(members@.take(i as int)),
        decreases members@.len() - i,
    {
        proof {
            assert(members@.take(i + 1).drop_last() =~= members@.take(i as int));
        }
        if i > 0 {
            text.append(", ");
        }
        push_user_label(text, members[i].id, &members[i].profile);
        proof {
            assert(text@ =~= start + member_list(members@.take(i + 1)));
        }
        i = i + 1;
    }
    proof {
        assert(members@.take(members@.len() as int) =~= members@);
    }
}

/// Renders the summary message of a poll: who created it, and either
/// "Everyone voted!" or the counts of voters and pending members followed by
/// the list of pending members.
pub fn poll_text(
    creator_id: u64,
    creator: &Option<Profile>,
    non_voters: &Vec<Member>,
    total_voters: u64,
) -> (r: String)
    ensures
        r@ == summary_text(creator_id, *creator, non_voters@, total_voters as nat),
{
    let mut text = String::new();
    text.append("Poll by ");
    push_user_label(&mut text, creator_id, creator);
    text.append(". ");
    if non_voters.len() == 0 {
        text.append("Everyone voted!");
    } else {
        text.append("Voted ");
        text.append(decimal_string(total_voters).as_str());
        text.append(" user");
        if total_voters != 1 {
            text.append("s");
        }
        text.append(", pending vote ");
        let pending = non_voters.len() as u64;
        text.append(decimal_string(pending).as_str());
        text.append(" user");
        if pending != 1 {
            text.append("s");
        }
        text.append(": ");
        push_member_list(&mut text, non_voters);
        text.append(".\n");
    }
    proof {
        assert(text@ =~= summary_text(creator_id, *creator, non_voters@, total_voters as nat));
    }
    text
}

/// Renders the reply to a privately forwarded summary message from the
/// pending members of the poll, or from `None` when the poll is unknown.
pub fn pending_report(non_voters: Option<&Vec<Member>>) -> (r: String)
    ensures
        r@ == pending_report_text(
            match non_voters {
                Some(v) => Some(v@),
                None => None,
            },
        ),
{
    match non_voters {
        None => String::from_str("Unknown poll"),
        Some(ms) => {
            if ms.len() == 0 {
                String::from_str("Everyone voted!")
            } else {
                let mut text = String::new();
                let mut i: usize = 0;
                while i < ms.len()
                    invariant
                        i <= ms@.len(),
                        text@ == mentions(ms@.take(i as int)),
                    decreases ms@.len() - i,
                {
                    proof {
                        assert(ms@.take(i + 1).drop_last() =~= ms@.take(i as int));
                    }
                    match &ms[i].profile {
                        Some(p) => match &p.username {
                            Some(u) => {
                                text.append(" @");
                                text.append(u.as_str());
                            },
                            None => {},
                        },
                        None => {},
                    }
                    proof {
                        assert(text@ =~= mentions(ms@.take(i + 1)));
                    }
                    i = i + 1;
                }
                proof {
                    assert(ms@.take(ms@.len() as int) =~= ms@);
                }
                text
            }
        },
    }
}

} // verus!
