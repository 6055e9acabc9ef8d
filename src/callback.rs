use vstd::prelude::*;

verus! {

/// What a button press on a summary message asks for.
#[derive(Debug, Clone, Copy, PartialEq, Eq, Structural)]
pub enum StopAction {
    Stop,
    Confirm,
    Cancel,
}

/// The word that names an action inside a callback payload.
pub open spec fn action_word(action: StopAction) -> Seq<char> {
    match action {
        StopAction::Stop => "stop"@,
        StopAction::Confirm => "confirm"@,
        StopAction::Cancel => "cancel"@,
    }
}

/// The callback payload of a button: `p:<action>:<poll id>`.
pub open spec fn callback_data(action: StopAction, poll_id: Seq<char>) -> Seq<char> {
    "p:"@ + action_word(action) + ":"@ + poll_id
}

/// A decoded button press: which poll it is about and what it asks for.
#[derive(Debug, Clone)]
pub struct StopPollQuery {
    pub poll_id: String,
    pub action: StopAction,
}

/// Writes the callback payload for `action` on the poll `poll_id`.
pub fn encode_callback(action: StopAction, poll_id: &str) -> (r: String)
    ensures
        r@ == callback_data(action, poll_id@),
{
    let mut r = String::from_str("p:");
    match action {
        StopAction::Stop => r.append("stop"),
        StopAction::Confirm => r.append("confirm"),
        StopAction::Cancel => r.append("cancel"),
    }
    r.append(":");
    r.append(poll_id);
    r
}

proof fn lemma_callback_data_shape(action: StopAction, poll_id: Seq<char>)
    ensures
        ({
            let d = callback_data(action, poll_id);
            let w = action_word(action);
            &&& d.len() == w.len() as int + 3 + poll_id.len()
            &&& d[0] == 'p'
            &&& d[1] == ':'
            &&& d[w.len() as int + 2] == ':'
            &&& d.subrange(2, w.len() as int + 2) == w
            &&& d.subrange(w.len() as int + 3, d.len() as int) == poll_id
            &&& forall|k: int| 0 <= k < w.len() ==> w[k] != ':'
        }),
{
    reveal_strlit("p:");
    reveal_strlit(":");
    reveal_strlit("stop");
    reveal_strlit("confirm");
    reveal_strlit("cancel");
    let d = callback_data(action, poll_id);
    let w = action_word(action);
    assert(d.subrange(2, w.len() as int + 2) =~= w);
    assert(d.subrange(w.len() as int + 3, d.len() as int) =~= poll_id);
}

/// Decodes a callback payload. It succeeds exactly on the payloads that
/// `encode_callback` writes, and gives back the action and poll id that
/// were encoded.
pub fn parse_callback(data: &str) -> (r: Option<StopPollQuery>)
    ensures
        match r {
            Some(q) => data@ == callback_data(q.action, q.poll_id@),
            None => forall|a: StopAction, id: Seq<char>| data@ != #[trigger] callback_data(a, id),
        },
{
    let n = data.unicode_len();
    if n < 2 || data.get_char(0) != 'p' || data.get_char(1) != ':' {
        proof {
            assert forall|a: StopAction, id: Seq<char>| data@ != #[trigger] callback_data(a, id) by {
                lemma_callback_data_shape(a, id);
            }
        }
        return None;
    }
    let mut j: usize = 2;
    while j < n && data.get_char(j) != ':'
        invariant
            2 <= j <= n,
            n == data@.len(),
            forall|k: int| 2 <= k < j ==> data@[k] != ':',
        decreases n - j,
    {
        j = j + 1;
    }
    let ghost colon = j;
    proof {
        assert forall|a: StopAction, id: Seq<char>| #[trigger]
            callback_data(a, id) == data@ implies action_word(a).len() as int + 2 == colon by {
            lemma_callback_data_shape(a, id);
            let w = action_word(a);
            if (j as int) < w.len() as int + 2 {
                assert(data@.subrange(2, w.len() as int + 2)[j - 2] == data@[j as int]);
            }
        }
    }
    if j == n {
        proof {
            assert forall|a: StopAction, id: Seq<char>| data@ != #[trigger] callback_data(a, id) by {
                lemma_callback_data_shape(a, id);
            }
        }
        return None;
    }
    let word = String::from_str(data.substring_char(2, j));
    let action = if word == String::from_str("stop") {
        Some(StopAction::Stop)
    } else if word == String::from_str("confirm") {
        Some(StopAction::Confirm)
    } else if word == String::from_str("cancel") {
        Some(StopAction::Cancel)
    } else {
        None
    };
    match action {
        Some(a) => {
            let poll_id = String::from_str(data.substring_char(j + 1, n));
            proof {
                reveal_strlit("p:");
                reveal_strlit(":");
                assert(data@ =~= callback_data(a, poll_id@));
            }
            Some(StopPollQuery { poll_id, action: a })
        },
        None => {
            proof {
                assert forall|a: StopAction, id: Seq<char>| data@ != #[trigger] callback_data(
                    a,
                    id,
                ) by {
                    lemma_callback_data_shape(a, id);
                }
            }
            None
        },
    }
}

/// No two different (action, poll id) pairs share a payload; with the
/// contract of `parse_callback`, decoding an encoded payload therefore gives
/// back the action and poll id that were encoded.
pub proof fn lemma_callback_round_trip(
    action: StopAction,
    poll_id: Seq<char>,
    other: StopAction,
    other_id: Seq<char>,
)
    requires
        callback_data(action, poll_id) == callback_data(other, other_id),
    ensures
        action == other,
        poll_id == other_id,
{
    lemma_callback_data_shape(action, poll_id);
    lemma_callback_data_shape(other, other_id);
    reveal_strlit("stop");
    reveal_strlit("confirm");
    reveal_strlit("cancel");
    let d = callback_data(action, poll_id);
    let w = action_word(action);
    let v = action_word(other);
    if w.len() < v.len() {
        assert(d[w.len() as int + 2] == v[w.len() as int]);
    } else if v.len() < w.len() {
        assert(d[v.len() as int + 2] == w[v.len() as int]);
    }
    assert(w == v);
    if action != other {
        assert(w[0] != v[0] || w[1] != v[1]);
    }
}

} // verus!
