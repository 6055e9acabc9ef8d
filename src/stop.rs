use vstd::prelude::*;

use crate::callback::{callback_data, encode_callback, StopAction, StopPollQuery};

verus! {

/// An inline button: the label shown and the callback payload it sends.
#[derive(Debug, Clone)]
pub struct Button {
    pub label: String,
    pub data: String,
}

/// An inline keyboard, as rows of buttons.
#[derive(Debug, Clone)]
pub struct Keyboard {
    pub rows: Vec<Vec<Button>>,
}

/// Where the stop protocol of a poll stands.
#[derive(Debug, Clone, Copy, PartialEq, Eq, Structural)]
pub enum StopState {
    /// The single "Stop poll" button is shown.
    Idle,
    /// The confirm / cancel pair is shown.
    PendingConfirm,
    /// The poll was closed and its keyboard removed.
    Stopped,
}

/// The keyboard with the single "Stop poll" button of the poll `poll_id`.
pub open spec fn is_stop_keyboard(kb: Keyboard, poll_id: Seq<char>) -> bool {
    &&& kb.rows@.len() == 1
    &&& kb.rows@[0]@.len() == 1
    &&& kb.rows@[0]@[0].label@ == "Stop poll"@
    &&& kb.rows@[0]@[0].data@ == callback_data(StopAction::Stop, poll_id)
}

/// The keyboard with the cancel and confirm buttons of the poll `poll_id`.
pub open spec fn is_confirmation_keyboard(kb: Keyboard, poll_id: Seq<char>) -> bool {
    &&& kb.rows@.len() == 1
    &&& kb.rows@[0]@.len() == 2
    &&& kb.rows@[0]@[0].label@ == "Cancel (do not stop)"@
    &&& kb.rows@[0]@[0].data@ == callback_data(StopAction::Cancel, poll_id)
    &&& kb.rows@[0]@[1].label@ == "Confirm (stop poll)"@
    &&& kb.rows@[0]@[1].data@ == callback_data(StopAction::Confirm, poll_id)
}

/// The state that the keyboard attached to a summary message stands for: no
/// keyboard (or an empty one) once the poll is stopped, a two-button row
/// while a stop waits for confirmation, and a single button otherwise.
pub open spec fn keyboard_state(markup: Option<Keyboard>) -> StopState {
    match markup {
        None => StopState::Stopped,
        Some(kb) => if kb.rows@.len() == 0 || kb.rows@[0]@.len() == 0 {
            StopState::Stopped
        } else if kb.rows@[0]@.len() >= 2 {
            StopState::PendingConfirm
        } else {
            StopState::Idle
        },
    }
}

/// The state after an authorized press of `action`. A stopped poll stays
/// stopped; `stop` asks for confirmation, `cancel` withdraws the request, and
/// `confirm` closes the poll only while a confirmation is pending.
pub open spec fn next_state(state: StopState, action: StopAction) -> StopState {
    match state {
        StopState::Stopped => StopState::Stopped,
        StopState::Idle => match action {
            StopAction::Stop => StopState::PendingConfirm,
            _ => StopState::Idle,
        },
        StopState::PendingConfirm => match action {
            StopAction::Stop => StopState::PendingConfirm,
            StopAction::Confirm => StopState::Stopped,
            StopAction::Cancel => StopState::Idle,
        },
    }
}

/// Whether an authorized press of `action` in `state` closes the poll.
pub open spec fn closes(state: StopState, action: StopAction) -> bool {
    state == StopState::PendingConfirm && action == StopAction::Confirm
}

/// The state after a sequence of authorized presses.
pub open spec fn state_after(start: StopState, actions: Seq<StopAction>) -> StopState
    decreases actions.len(),
{
    if actions.len() == 0 {
        start
    } else {
        next_state(state_after(start, actions.drop_last()), actions.last())
    }
}

/// Builds the single-button "Stop poll" keyboard of a poll.
pub fn make_keyboard(poll_id: &str) -> (r: Keyboard)
    ensures
        is_stop_keyboard(r, poll_id@),
        keyboard_state(Some(r)) == StopState::Idle,
{
    let stop = Button {
        label: String::from_str("Stop poll"),
        data: encode_callback(StopAction::Stop, poll_id),
    };
    let mut row: Vec<Button> = Vec::new();
    row.push(stop);
    let mut rows: Vec<Vec<Button>> = Vec::new();
    rows.push(row);
    Keyboard { rows }
}

/// Builds the cancel / confirm keyboard shown after "Stop poll" was pressed.
pub fn make_keyboard_confirmation(poll_id: &str) -> (r: Keyboard)
    ensures
        is_confirmation_keyboard(r, poll_id@),
        keyboard_state(Some(r)) == StopState::PendingConfirm,
{
    let cancel = Button {
        label: String::from_str("Cancel (do not stop)"),
        data: encode_callback(StopAction::Cancel, poll_id),
    };
    let confirm = Button {
        label: String::from_str("Confirm (stop poll)"),
        data: encode_callback(StopAction::Confirm, poll_id),
    };
    let mut row: Vec<Button> = Vec::new();
    row.push(cancel);
    row.push(confirm);
    let mut rows: Vec<Vec<Button>> = Vec::new();
    rows.push(row);
    Keyboard { rows }
}

/// Reads the stop state from the keyboard attached to a summary message.
pub fn stop_state_of(markup: &Option<Keyboard>) -> (r: StopState)
    ensures
        r == keyboard_state(*markup),
{
    match markup {
        None => StopState::Stopped,
        Some(kb) => {
            if kb.rows.len() == 0 || kb.rows[0].len() == 0 {
                StopState::Stopped
            } else if kb.rows[0].len() >= 2 {
                StopState::PendingConfirm
            } else {
                StopState::Idle
            }
        },
    }
}

/// What to do with the keyboard of the summary message.
#[derive(Debug, Clone)]
pub enum MarkupChange {
    /// Leave it as it is.
    Keep,
    /// Attach this keyboard.
    Replace(Keyboard),
    /// Remove the keyboard.
    Clear,
}

/// The response to a button press: the answer shown to the presser (as an
/// alert when `show_alert`), whether to close the poll, and what becomes of
/// the keyboard.
#[derive(Debug, Clone)]
pub struct CallbackReply {
    pub text: Option<String>,
    pub show_alert: bool,
    pub close_poll: bool,
    pub markup: MarkupChange,
}

/// Why a press is refused before any action is taken, if it is: the poll is
/// unknown, the presser is not its creator, or the summary message no longer
/// replies to the poll message.
pub open spec fn rejection(creator_id: Option<u64>, actor: u64, poll_message_known: bool) -> Option<
    Seq<char>,
> {
    match creator_id {
        None => Some("Poll not found."@),
        Some(c) => if c != actor {
            Some("You are not the creator of this poll."@)
        } else if !poll_message_known {
            Some("Poll message not found."@)
        } else {
            None
        },
    }
}

/// The warning shown before a poll is stopped.
pub open spec fn stop_warning() -> Seq<char> {
    "If you stop this poll now, nobody will be able to vote in anymore. This action cannot be undone."@
}

/// What an authorized press of `action` in `state` does to the keyboard.
pub open spec fn markup_after(
    markup: MarkupChange,
    state: StopState,
    action: StopAction,
    poll_id: Seq<char>,
) -> bool {
    if state == StopState::Stopped {
        markup is Keep
    } else {
        match action {
            StopAction::Stop => markup matches MarkupChange::Replace(kb) && is_confirmation_keyboard(
                kb,
                poll_id,
            ),
            StopAction::Cancel => markup matches MarkupChange::Replace(kb) && is_stop_keyboard(
                kb,
                poll_id,
            ),
            StopAction::Confirm => if state == StopState::PendingConfirm {
                markup is Clear
            } else {
                markup is Keep
            },
        }
    }
}

/// Decides the response to a press on a summary message's keyboard.
/// `creator_id` is the creator of the tracked poll the payload names (none if
/// the poll is unknown), `actor` the member who pressed, `poll_message_known`
/// whether the summary still replies to the poll message, and `state` the
/// state shown by the keyboard.
///
/// A refused press (see `rejection`) only answers with the reason. Otherwise
/// `stop` shows the irreversibility warning as an alert and attaches the
/// confirmation keyboard, `cancel` restores the stop keyboard, and `confirm`
/// closes the poll and removes the keyboard when a confirmation is pending;
/// presses on a stopped poll, and `confirm` without a pending confirmation,
/// change nothing.
pub fn handle_callback(
    query: &StopPollQuery,
    creator_id: Option<u64>,
    actor: u64,
    poll_message_known: bool,
    state: StopState,
) -> (r: CallbackReply)
    ensures
        match rejection(creator_id, actor, poll_message_known) {
            Some(reason) => {
                &&& r.text matches Some(t) && t@ == reason
                &&& !r.show_alert
                &&& !r.close_poll
                &&& r.markup is Keep
            },
            None => {
                &&& r.close_poll == closes(state, query.action)
                &&& markup_after(r.markup, state, query.action, query.poll_id@)
                &&& (state != StopState::Stopped && query.action == StopAction::Stop) ==> (
                r.text matches Some(t) && t@ == stop_warning() && r.show_alert)
                &&& (state == StopState::Stopped || query.action != StopAction::Stop) ==> (
                r.text is None && !r.show_alert)
            },
        },
        r.markup matches MarkupChange::Replace(kb) ==> keyboard_state(Some(kb)) == next_state(
            state,
            query.action,
        ),
        r.markup is Clear ==> next_state(state, query.action) == StopState::Stopped,
{
    let refused = match creator_id {
        None => Some(String::from_str("Poll not found.")),
        Some(c) => {
            if c != actor {
                Some(String::from_str("You are not the creator of this poll."))
            } else if !poll_message_known {
                Some(String::from_str("Poll message not found."))
            } else {
                None
            }
        },
    };
    if let Some(reason) = refused {
        return CallbackReply {
            text: Some(reason),
            show_alert: false,
            close_poll: false,
            markup: MarkupChange::Keep,
        };
    }
    let quiet = CallbackReply {
        text: None,
        show_alert: false,
        close_poll: false,
        markup: MarkupChange::Keep,
    };
    if state == StopState::Stopped {
        return quiet;
    }
    match query.action {
        StopAction::Stop => CallbackReply {
            text: Some(
                String::from_str(
                    "If you stop this poll now, nobody will be able to vote in anymore. This action cannot be undone.",
                ),
            ),
            show_alert: true,
            close_poll: false,
            markup: MarkupChange::Replace(make_keyboard_confirmation(query.poll_id.as_str())),
        },
        StopAction::Confirm => {
            if state == StopState::PendingConfirm {
                CallbackReply {
                    text: None,
                    show_alert: false,
                    close_poll: true,
                    markup: MarkupChange::Clear,
                }
            } else {
                quiet
            }
        },
        StopAction::Cancel => CallbackReply {
            text: None,
            show_alert: false,
            close_poll: false,
            markup: MarkupChange::Replace(make_keyboard(query.poll_id.as_str())),
        },
    }
}

/// A press that closes the poll is always directly preceded, among the
/// authorized presses, by a `stop`: closing takes a stop followed by a
/// confirm, never a stop alone or a confirm alone.
pub proof fn lemma_close_needs_prior_stop(actions: Seq<StopAction>, k: int)
    requires
        0 <= k < actions.len(),
        closes(state_after(StopState::Idle, actions.take(k)), actions[k]),
    ensures
        k > 0,
        actions[k - 1] == StopAction::Stop,
        actions[k] == StopAction::Confirm,
{
    if k == 0 {
        assert(actions.take(0) =~= Seq::<StopAction>::empty());
    } else {
        assert(actions.take(k).drop_last() =~= actions.take(k - 1));
        assert(actions.take(k).last() == actions[k - 1]);
    }
}

/// Once a press has closed the poll, no later press closes it again.
pub proof fn lemma_closes_at_most_once(actions: Seq<StopAction>, k: int, l: int)
    requires
        0 <= k < l < actions.len(),
        closes(state_after(StopState::Idle, actions.take(k)), actions[k]),
    ensures
        !closes(state_after(StopState::Idle, actions.take(l)), actions[l]),
    decreases l - k,
{
    lemma_stopped_stays_stopped(actions, k + 1, l);
    assert(actions.take(k + 1).drop_last() =~= actions.take(k));
    assert(actions.take(k + 1).last() == actions[k]);
}

proof fn lemma_stopped_stays_stopped(actions: Seq<StopAction>, k: int, l: int)
    requires
        0 <= k <= l <= actions.len(),
        state_after(StopState::Idle, actions.take(k)) == StopState::Stopped,
    ensures
        state_after(StopState::Idle, actions.take(l)) == StopState::Stopped,
    decreases l - k,
{
    if k < l {
        assert(actions.take(k + 1).drop_last() =~= actions.take(k));
        lemma_stopped_stays_stopped(actions, k + 1, l);
    }
}

} // verus!
