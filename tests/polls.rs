use botka::codec::{voters_from_text, voters_to_text};
use botka::callback::{encode_callback, parse_callback, StopAction, StopPollQuery};
use botka::relay::{
    filter_polls, initial_summary, relay_next, InboundPoll, MessageOrigin, PollKind, RelayAction,
    RelayEvent,
};
use botka::render::{pending_report, poll_text};
use botka::roster::{find_non_voters, find_profile, Member, Profile};
use botka::stop::{
    handle_callback, make_keyboard, make_keyboard_confirmation, stop_state_of, MarkupChange,
    StopState,
};
use botka::store::{PollStore, TrackedPoll};
use botka::tally::{canonical_voters, record_answer};
use botka::version;

fn profile(username: Option<&str>, first: &str, last: Option<&str>) -> Option<Profile> {
    Some(Profile {
        username: username.map(|s| s.to_string()),
        first_name: first.to_string(),
        last_name: last.map(|s| s.to_string()),
    })
}

fn roster() -> Vec<Member> {
    vec![
        Member { id: 10, active: true, profile: profile(Some("alice"), "Alice", None) },
        Member { id: 20, active: true, profile: profile(None, "Bob", Some("Smith")) },
        Member { id: 30, active: false, profile: profile(Some("carol"), "Carol", None) },
        Member { id: 40, active: true, profile: None },
        Member { id: 50, active: true, profile: profile(Some("dave"), "Dave", None) },
    ]
}

fn store_with_poll() -> PollStore {
    let mut store = PollStore::new();
    let added = store.insert(TrackedPoll {
        poll_id: "poll-1".to_string(),
        creator_id: 10,
        info_chat_id: -100,
        info_message_id: 77,
        voted_users: Vec::new(),
    });
    assert!(added);
    store
}

fn query(action: StopAction) -> StopPollQuery {
    StopPollQuery { poll_id: "poll-1".to_string(), action }
}

#[test]
fn answer_adds_member_in_order() {
    assert_eq!(record_answer(&vec![3, 9], 5, &vec![0]), vec![3, 5, 9]);
    assert_eq!(record_answer(&vec![], 5, &vec![1, 2]), vec![5]);
    assert_eq!(record_answer(&vec![3, 9], 12, &vec![0]), vec![3, 9, 12]);
}

#[test]
fn retraction_removes_member() {
    assert_eq!(record_answer(&vec![3, 5, 9], 5, &vec![]), vec![3, 9]);
    assert_eq!(record_answer(&vec![3, 9], 5, &vec![]), vec![3, 9]);
}

#[test]
fn repeated_answer_is_idempotent() {
    let once = record_answer(&vec![1, 4], 2, &vec![0]);
    let twice = record_answer(&once, 2, &vec![0]);
    assert_eq!(once, twice);
    assert_eq!(twice, vec![1, 2, 4]);
}

#[test]
fn latest_answer_decides_regardless_of_order() {
    // member 1 votes then retracts, member 2 votes, member 3 retracts then votes
    let events: Vec<(u64, Vec<u32>)> =
        vec![(1, vec![0]), (3, vec![]), (2, vec![1]), (1, vec![]), (3, vec![0])];
    let mut voters = Vec::new();
    for (m, opts) in &events {
        voters = record_answer(&voters, *m, opts);
    }
    assert_eq!(voters, vec![2, 3]);
    let reordered: Vec<(u64, Vec<u32>)> =
        vec![(3, vec![0]), (2, vec![1]), (1, vec![0]), (1, vec![])];
    let mut other = Vec::new();
    for (m, opts) in &reordered {
        other = record_answer(&other, *m, opts);
    }
    assert_eq!(voters, other);
}

#[test]
fn canonical_form_sorts_and_dedups() {
    assert_eq!(canonical_voters(&vec![9, 3, 9, 1, 3]), vec![1, 3, 9]);
    assert_eq!(canonical_voters(&vec![1, 3, 9]), vec![1, 3, 9]);
    assert_eq!(canonical_voters(&vec![]), Vec::<u64>::new());
}

#[test]
fn stored_voters_round_trip() {
    let mut store = PollStore::new();
    store.insert(TrackedPoll {
        poll_id: "p".to_string(),
        creator_id: 1,
        info_chat_id: 1,
        info_message_id: 1,
        voted_users: vec![8, 2, 8, 5],
    });
    let stored = store.find("p").unwrap().voted_users.clone();
    assert_eq!(stored, vec![2, 5, 8]);
    assert_eq!(canonical_voters(&stored), stored);
}

#[test]
fn insert_refuses_duplicate_id() {
    let mut store = store_with_poll();
    let again = store.insert(TrackedPoll {
        poll_id: "poll-1".to_string(),
        creator_id: 99,
        info_chat_id: 0,
        info_message_id: 0,
        voted_users: vec![1],
    });
    assert!(!again);
    assert_eq!(store.find("poll-1").unwrap().creator_id, 10);
    assert!(store.find("poll-2").is_none());
}

#[test]
fn callback_payloads() {
    assert_eq!(encode_callback(StopAction::Stop, "abc"), "p:stop:abc");
    assert_eq!(encode_callback(StopAction::Confirm, "abc"), "p:confirm:abc");
    assert_eq!(encode_callback(StopAction::Cancel, "a:b"), "p:cancel:a:b");
}

#[test]
fn callback_parse_round_trip() {
    for action in [StopAction::Stop, StopAction::Confirm, StopAction::Cancel] {
        let data = encode_callback(action, "5x:y");
        let q = parse_callback(&data).unwrap();
        assert_eq!(q.action, action);
        assert_eq!(q.poll_id, "5x:y");
    }
    let q = parse_callback("p:stop:").unwrap();
    assert_eq!(q.poll_id, "");
}

#[test]
fn callback_parse_rejects_foreign_payloads() {
    assert!(parse_callback("").is_none());
    assert!(parse_callback("p:").is_none());
    assert!(parse_callback("p:stop").is_none());
    assert!(parse_callback("q:stop:1").is_none());
    assert!(parse_callback("p:halt:1").is_none());
    assert!(parse_callback("p:stopp:1").is_none());
    assert!(parse_callback("n:stop:1").is_none());
}

#[test]
fn keyboards() {
    let kb = make_keyboard("42");
    assert_eq!(kb.rows.len(), 1);
    assert_eq!(kb.rows[0].len(), 1);
    assert_eq!(kb.rows[0][0].label, "Stop poll");
    assert_eq!(kb.rows[0][0].data, "p:stop:42");
    let kb = make_keyboard_confirmation("42");
    assert_eq!(kb.rows[0].len(), 2);
    assert_eq!(kb.rows[0][0].label, "Cancel (do not stop)");
    assert_eq!(kb.rows[0][0].data, "p:cancel:42");
    assert_eq!(kb.rows[0][1].label, "Confirm (stop poll)");
    assert_eq!(kb.rows[0][1].data, "p:confirm:42");
}

#[test]
fn keyboard_shows_state() {
    assert_eq!(stop_state_of(&Some(make_keyboard("1"))), StopState::Idle);
    assert_eq!(stop_state_of(&Some(make_keyboard_confirmation("1"))), StopState::PendingConfirm);
    assert_eq!(stop_state_of(&None), StopState::Stopped);
}

#[test]
fn non_voters_skip_voted_inactive_and_repeats() {
    let mut r = roster();
    r.push(Member { id: 20, active: true, profile: None });
    let pending = find_non_voters(&r, &vec![50]);
    let ids: Vec<u64> = pending.iter().map(|m| m.id).collect();
    assert_eq!(ids, vec![10, 20, 40]);
    assert_eq!(find_profile(&r, 20).unwrap().first_name, "Bob");
    assert!(find_profile(&r, 99).is_none());
}

#[test]
fn poll_text_everyone_voted() {
    let text = poll_text(10, &profile(Some("alice"), "Alice", None), &vec![], 4);
    assert_eq!(text, "Poll by @alice. Everyone voted!");
}

#[test]
fn poll_text_counts_and_names() {
    let pending = find_non_voters(&roster(), &vec![10]);
    let text = poll_text(10, &profile(Some("alice"), "Alice", None), &pending, 1);
    assert_eq!(
        text,
        "Poll by @alice. Voted 1 user, pending vote 3 users: Bob Smith, unknown user, id=40, @dave.\n"
    );
    let one = vec![Member { id: 7, active: true, profile: profile(None, "Eve", None) }];
    let text = poll_text(12345, &None, &one, 12);
    assert_eq!(text, "Poll by unknown user, id=12345. Voted 12 users, pending vote 1 user: Eve.\n");
}

#[test]
fn scenario_relay_new_poll() {
    let poll = InboundPoll {
        poll_id: "orig".to_string(),
        question: "!Pizza tonight?".to_string(),
        total_voter_count: 0,
        is_closed: false,
        is_anonymous: false,
        is_regular: true,
    };
    assert!(matches!(
        filter_polls(&poll, MessageOrigin::Direct, false, true),
        Some(PollKind::New)
    ));
    assert_eq!(relay_next(RelayEvent::PollSent { carries_poll: true }), RelayAction::DeleteOriginal);
    assert_eq!(relay_next(RelayEvent::OriginalDeleted { ok: true }), RelayAction::PostSummary);
    assert_eq!(relay_next(RelayEvent::SummaryPosted), RelayAction::Track);
    let text = initial_summary(10, &profile(Some("alice"), "Alice", None), &roster());
    assert!(!text.contains("Everyone voted!"));
    assert_eq!(
        text,
        "Poll by @alice. Voted 0 users, pending vote 4 users: @alice, Bob Smith, unknown user, id=40, @dave.\n"
    );
    let mut store = PollStore::new();
    assert!(store.insert(TrackedPoll {
        poll_id: "new-1".to_string(),
        creator_id: 10,
        info_chat_id: -5,
        info_message_id: 3,
        voted_users: Vec::new(),
    }));
    assert!(store.find("new-1").unwrap().voted_users.is_empty());
}

#[test]
fn relay_filters_unqualified_polls() {
    let base = InboundPoll {
        poll_id: "orig".to_string(),
        question: "!Lunch?".to_string(),
        total_voter_count: 0,
        is_closed: false,
        is_anonymous: false,
        is_regular: true,
    };
    let mut p = base.clone();
    p.question = "Lunch?".to_string();
    assert!(filter_polls(&p, MessageOrigin::Direct, false, true).is_none());
    let mut p = base.clone();
    p.total_voter_count = 1;
    assert!(filter_polls(&p, MessageOrigin::Direct, false, true).is_none());
    let mut p = base.clone();
    p.is_closed = true;
    assert!(filter_polls(&p, MessageOrigin::Direct, false, true).is_none());
    let mut p = base.clone();
    p.is_anonymous = true;
    assert!(filter_polls(&p, MessageOrigin::Direct, false, true).is_none());
    let mut p = base.clone();
    p.is_regular = false;
    assert!(filter_polls(&p, MessageOrigin::Direct, false, true).is_none());
    assert!(filter_polls(&base, MessageOrigin::Direct, false, false).is_none());
    assert!(filter_polls(&base, MessageOrigin::ForwardedFromOther, true, true).is_none());
    assert!(filter_polls(&base, MessageOrigin::ForwardedFromBot, false, true).is_none());
    match filter_polls(&base, MessageOrigin::ForwardedFromBot, true, true) {
        Some(PollKind::Forward(id)) => assert_eq!(id, "orig"),
        other => panic!("unexpected {:?}", other),
    }
}

#[test]
fn relay_compensates_failures() {
    assert_eq!(
        relay_next(RelayEvent::PollSent { carries_poll: false }),
        RelayAction::DeleteOriginalAndAbort
    );
    assert_eq!(
        relay_next(RelayEvent::OriginalDeleted { ok: false }),
        RelayAction::DeleteReplacementAndAbort
    );
}

#[test]
fn scenario_vote_then_retract() {
    let mut store = store_with_poll();
    let edit = store.record_answer("poll-1", 20, &vec![0], &roster()).unwrap();
    assert_eq!(edit.chat_id, -100);
    assert_eq!(edit.message_id, 77);
    assert_eq!(
        edit.text,
        "Poll by @alice. Voted 1 user, pending vote 3 users: @alice, unknown user, id=40, @dave.\n"
    );
    assert_eq!(edit.keyboard.rows[0][0].data, "p:stop:poll-1");
    assert_eq!(store.find("poll-1").unwrap().voted_users, vec![20]);

    let edit = store.record_answer("poll-1", 20, &vec![], &roster()).unwrap();
    assert_eq!(
        edit.text,
        "Poll by @alice. Voted 0 users, pending vote 4 users: @alice, Bob Smith, unknown user, id=40, @dave.\n"
    );
    assert!(store.find("poll-1").unwrap().voted_users.is_empty());
}

#[test]
fn everyone_voted_after_all_answers() {
    let mut store = store_with_poll();
    let mut last = None;
    for m in [50, 10, 40, 20] {
        last = store.record_answer("poll-1", m, &vec![1], &roster());
    }
    assert_eq!(last.unwrap().text, "Poll by @alice. Everyone voted!");
    assert_eq!(store.find("poll-1").unwrap().voted_users, vec![10, 20, 40, 50]);
}

#[test]
fn answer_on_unknown_poll_is_ignored() {
    let mut store = store_with_poll();
    assert!(store.record_answer("other", 20, &vec![0], &roster()).is_none());
    assert!(store.find("poll-1").unwrap().voted_users.is_empty());
}

#[test]
fn scenario_forwarded_summary_report() {
    let mut store = store_with_poll();
    store.record_answer("poll-1", 50, &vec![0], &roster());
    let report = store.pending_report("poll-1", &roster());
    assert_eq!(report, " @alice");
    assert_eq!(store.find("poll-1").unwrap().voted_users, vec![50]);
    assert_eq!(store.pending_report("nope", &roster()), "Unknown poll");
    store.record_answer("poll-1", 10, &vec![0], &roster());
    store.record_answer("poll-1", 20, &vec![0], &roster());
    store.record_answer("poll-1", 40, &vec![0], &roster());
    assert_eq!(store.pending_report("poll-1", &roster()), "Everyone voted!");
    assert_eq!(pending_report(None), "Unknown poll");
}

#[test]
fn scenario_stop_then_confirm() {
    let stop = handle_callback(&query(StopAction::Stop), Some(10), 10, true, StopState::Idle);
    assert!(stop.show_alert);
    assert!(!stop.close_poll);
    assert_eq!(
        stop.text.as_deref(),
        Some("If you stop this poll now, nobody will be able to vote in anymore. This action cannot be undone.")
    );
    let kb = match stop.markup {
        MarkupChange::Replace(kb) => kb,
        other => panic!("unexpected {:?}", other),
    };
    assert_eq!(kb.rows[0][1].data, "p:confirm:poll-1");
    let state = stop_state_of(&Some(kb));
    assert_eq!(state, StopState::PendingConfirm);

    let confirm = handle_callback(&query(StopAction::Confirm), Some(10), 10, true, state);
    assert!(confirm.close_poll);
    assert!(confirm.text.is_none());
    assert!(matches!(confirm.markup, MarkupChange::Clear));

    let again = handle_callback(&query(StopAction::Confirm), Some(10), 10, true, StopState::Stopped);
    assert!(!again.close_poll);
    assert!(matches!(again.markup, MarkupChange::Keep));
}

#[test]
fn confirm_without_stop_does_not_close() {
    let r = handle_callback(&query(StopAction::Confirm), Some(10), 10, true, StopState::Idle);
    assert!(!r.close_poll);
    assert!(matches!(r.markup, MarkupChange::Keep));
}

#[test]
fn cancel_restores_stop_keyboard() {
    let r = handle_callback(&query(StopAction::Cancel), Some(10), 10, true, StopState::PendingConfirm);
    assert!(!r.close_poll);
    assert!(r.text.is_none());
    match r.markup {
        MarkupChange::Replace(kb) => {
            assert_eq!(kb.rows[0][0].data, "p:stop:poll-1");
            assert_eq!(stop_state_of(&Some(kb)), StopState::Idle);
        }
        other => panic!("unexpected {:?}", other),
    }
}

#[test]
fn scenario_non_creator_is_refused() {
    for state in [StopState::Idle, StopState::PendingConfirm] {
        for action in [StopAction::Stop, StopAction::Confirm, StopAction::Cancel] {
            let r = handle_callback(&query(action), Some(10), 20, true, state);
            assert_eq!(r.text.as_deref(), Some("You are not the creator of this poll."));
            assert!(!r.close_poll);
            assert!(!r.show_alert);
            assert!(matches!(r.markup, MarkupChange::Keep));
        }
    }
}

#[test]
fn unknown_poll_and_missing_message() {
    let r = handle_callback(&query(StopAction::Stop), None, 10, true, StopState::Idle);
    assert_eq!(r.text.as_deref(), Some("Poll not found."));
    assert!(matches!(r.markup, MarkupChange::Keep));
    let r = handle_callback(&query(StopAction::Confirm), Some(10), 10, false, StopState::PendingConfirm);
    assert_eq!(r.text.as_deref(), Some("Poll message not found."));
    assert!(!r.close_poll);
}

#[test]
fn version_prefers_given_revision() {
    assert_eq!(version(Some("abc123".to_string()), "v1.0-3-gdead"), "abc123");
    assert_eq!(version(None, "v1.0-3-gdead"), "v1.0-3-gdead");
    assert_eq!(version(None, "unknown"), "unknown");
}

#[test]
fn voter_list_text() {
    assert_eq!(voters_to_text(&vec![1, 20, 3]), "[1,20,3]");
    assert_eq!(voters_to_text(&vec![]), "[]");
    assert_eq!(voters_to_text(&vec![18446744073709551615]), "[18446744073709551615]");
    assert_eq!(voters_from_text("[3,1,3]"), Some(vec![1, 3]));
    assert_eq!(voters_from_text("[]"), Some(vec![]));
    assert_eq!(voters_from_text("not a list"), None);
    assert_eq!(voters_from_text("[-1]"), None);
}

#[test]
fn voter_list_text_round_trip() {
    let voters = record_answer(&record_answer(&vec![], 42, &vec![0]), 7, &vec![1]);
    let text = voters_to_text(&voters);
    assert_eq!(text, "[7,42]");
    assert_eq!(voters_from_text(&text), Some(voters));
}
