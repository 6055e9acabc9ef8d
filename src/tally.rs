use vstd::prelude::*;

verus! {

/// A voter list in canonical form: sorted in strictly increasing order,
/// hence free of duplicates.
pub open spec fn is_canonical(s: Seq<u64>) -> bool {
    forall|i: int, j: int| 0 <= i < j < s.len() ==> s[i] < s[j]
}

/// The voter set after one vote-answer event: the member joins the set when
/// the answer selects at least one option and leaves it when the answer is a
/// retraction.
pub open spec fn after_answer(voters: Set<u64>, member: u64, voted: bool) -> Set<u64> {
    if voted {
        voters.insert(member)
    } else {
        voters.remove(member)
    }
}

/// Two canonical lists that hold the same members are the same list.
pub proof fn lemma_canonical_unique(a: Seq<u64>, b: Seq<u64>)
    requires
        is_canonical(a),
        is_canonical(b),
        a.to_set() == b.to_set(),
    ensures
        a == b,
    decreases a.len(),
{
    if a.len() == 0 {
        if b.len() > 0 {
            assert(b.to_set().contains(b[0]));
            assert(!a.to_set().contains(b[0]));
        }
    } else if b.len() == 0 {
        assert(a.to_set().contains(a[0]));
        assert(!b.to_set().contains(a[0]));
    } else {
        assert(a.to_set().contains(a[0]));
        assert(b.to_set().contains(b[0]));
        let i = choose|i: int| 0 <= i < a.len() && a[i] == b[0];
        let j = choose|j: int| 0 <= j < b.len() && b[j] == a[0];
        assert(a[0] == b[0]) by {
            if a[0] < b[0] {
                assert(j > 0 ==> b[0] < b[j]);
            } else if b[0] < a[0] {
                assert(i > 0 ==> a[0] < a[i]);
            }
        }
        let a1 = a.drop_first();
        let b1 = b.drop_first();
        assert forall|x: u64| a1.to_set().contains(x) implies b1.to_set().contains(x) by {
            let k = choose|k: int| 0 <= k < a1.len() && a1[k] == x;
            assert(a[k + 1] == x);
            assert(b.to_set().contains(x));
            let l = choose|l: int| 0 <= l < b.len() && b[l] == x;
            assert(l != 0);
            assert(b1[l - 1] == x);
        }
        assert forall|x: u64| b1.to_set().contains(x) implies a1.to_set().contains(x) by {
            let k = choose|k: int| 0 <= k < b1.len() && b1[k] == x;
            assert(b[k + 1] == x);
            assert(a.to_set().contains(x));
            let l = choose|l: int| 0 <= l < a.len() && a[l] == x;
            assert(l != 0);
            assert(a1[l - 1] == x);
        }
        assert(a1.to_set() =~= b1.to_set());
        lemma_canonical_unique(a1, b1);
        assert(a =~= seq![a[0]] + a1);
        assert(b =~= seq![b[0]] + b1);
    }
}

/// Applies one vote-answer event to a canonical voter list: `member` is added
/// when `option_ids` is non-empty and removed when it is empty (a retracted
/// vote). The result is canonical again; an answer that agrees with what the
/// list already records leaves the list as it is.
pub fn record_answer(voted_users: &Vec<u64>, member: u64, option_ids: &Vec<u32>) -> (r: Vec<u64>)
    requires
        is_canonical(voted_users@),
    ensures
        is_canonical(r@),
        r@.to_set() == after_answer(voted_users@.to_set(), member, option_ids@.len() > 0),
        voted_users@.contains(member) == (option_ids@.len() > 0) ==> r@ == voted_users@,
{
    with_member(voted_users, member, option_ids.len() > 0)
}

/// Brings a stored voter list into canonical form: sorted, each member once.
/// A list that is canonical already comes back unchanged.
pub fn canonical_voters(voted_users: &Vec<u64>) -> (r: Vec<u64>)
    ensures
        is_canonical(r@),
        r@.to_set() == voted_users@.to_set(),
        is_canonical(voted_users@) ==> r@ == voted_users@,
{
    broadcast use vstd::seq_lib::group_seq_properties;
    let mut r: Vec<u64> = Vec::new();
    let mut i: usize = 0;
    while i < voted_users.len()
        invariant
            i <= voted_users@.len(),
            is_canonical(r@),
            r@.to_set() == voted_users@.take(i as int).to_set(),
        decreases voted_users@.len() - i,
    {
        r = with_member(&r, voted_users[i], true);
        proof {
            voted_users@.lemma_take_succ_push(i as int);
            voted_users@.take(i as int).lemma_push_to_set_commute(voted_users@[i as int]);
        }
        i = i + 1;
    }
    proof {
        assert(voted_users@.take(voted_users@.len() as int) == voted_users@);
        if is_canonical(voted_users@) {
            lemma_canonical_unique(r@, voted_users@);
        }
    }
    r
}

fn with_member(voted_users: &Vec<u64>, member: u64, voted: bool) -> (r: Vec<u64>)
    requires
        is_canonical(voted_users@),
    ensures
        is_canonical(r@),
        r@.to_set() == after_answer(voted_users@.to_set(), member, voted),
        voted_users@.contains(member) == voted ==> r@ == voted_users@,
{
    broadcast use vstd::seq_lib::group_seq_properties;
    let n = voted_users.len();
    let mut r: Vec<u64> = Vec::new();
    let mut placed = !voted;
    let mut i: usize = 0;
    while i < n
        invariant
            n == voted_users@.len(),
            i <= n,
            !voted ==> placed,
            is_canonical(voted_users@),
            is_canonical(r@),
            i < n ==> forall|k: int| 0 <= k < r@.len() ==> r@[k] < voted_users@[i as int],
            !placed ==> forall|k: int| 0 <= k < r@.len() ==> r@[k] < member,
            r@.to_set() == (if placed && voted {
                voted_users@.take(i as int).to_set().insert(member)
            } else {
                voted_users@.take(i as int).to_set().remove(member)
            }),
        decreases n - i,
    {
        let x = voted_users[i];
        let ghost r0 = r@;
        let ghost placed0 = placed;
        if !placed && member <= x {
            r.push(member);
            placed = true;
        }
        let ghost r1 = r@;
        if x != member {
            r.push(x);
        }
        proof {
            voted_users@.lemma_take_succ_push(i as int);
            voted_users@.take(i as int).lemma_push_to_set_commute(x);
            if placed && !placed0 {
                r0.lemma_push_to_set_commute(member);
            }
            if x != member {
                r1.lemma_push_to_set_commute(x);
            }
            let t = voted_users@.take(i as int).to_set();
            if placed && voted {
                assert(r@.to_set() =~= t.insert(x).insert(member));
            } else {
                assert(r@.to_set() =~= t.insert(x).remove(member));
            }
            if i + 1 < n {
                assert(voted_users@[i as int] < voted_users@[i + 1]);
            }
        }
        i = i + 1;
    }
    let ghost r2 = r@;
    if !placed {
        r.push(member);
        placed = true;
        proof {
            r2.lemma_push_to_set_commute(member);
        }
    }
    proof {
        assert(voted_users@.take(n as int) == voted_users@);
        assert(r@.to_set() =~= after_answer(voted_users@.to_set(), member, voted));
        if voted_users@.contains(member) == voted {
            assert(after_answer(voted_users@.to_set(), member, voted) =~= voted_users@.to_set());
            lemma_canonical_unique(r@, voted_users@);
        }
    }
    r
}

/// The voter set after a sequence of vote-answer events, each given as the
/// member and whether the answer selected at least one option.
pub open spec fn voters_after(start: Set<u64>, answers: Seq<(u64, bool)>) -> Set<u64>
    decreases answers.len(),
{
    if answers.len() == 0 {
        start
    } else {
        after_answer(
            voters_after(start, answers.drop_last()),
            answers.last().0,
            answers.last().1,
        )
    }
}

/// Whether `member` sent any answer in the sequence.
pub open spec fn has_answered(answers: Seq<(u64, bool)>, member: u64) -> bool {
    exists|i: int| 0 <= i < answers.len() && (#[trigger] answers[i]).0 == member
}

/// Whether the most recent answer of `member` in the sequence selected at
/// least one option.
pub open spec fn latest_answer_votes(answers: Seq<(u64, bool)>, member: u64) -> bool {
    exists|i: int|
        0 <= i < answers.len() && (#[trigger] answers[i]).0 == member && answers[i].1 && forall|
            j: int,
        |
            i < j < answers.len() ==> (#[trigger] answers[j]).0 != member
}

/// After any sequence of vote-answer events, a member is among the voters
/// exactly when their most recent answer selected an option; members who
/// sent no answer keep the status they had before the sequence.
pub proof fn lemma_voters_follow_latest_answer(start: Set<u64>, answers: Seq<(u64, bool)>)
    ensures
        forall|m: u64|
            #[trigger] voters_after(start, answers).contains(m) <==> (if has_answered(answers, m) {
                latest_answer_votes(answers, m)
            } else {
                start.contains(m)
            }),
    decreases answers.len(),
{
    if answers.len() > 0 {
        let prev = answers.drop_last();
        let n = answers.len() - 1;
        let (lm, lv) = answers.last();
        lemma_voters_follow_latest_answer(start, prev);
        assert forall|m: u64|
            #[trigger] voters_after(start, answers).contains(m) <==> (if has_answered(answers, m) {
                latest_answer_votes(answers, m)
            } else {
                start.contains(m)
            }) by {
            assert(voters_after(start, prev).contains(m) <==> (if has_answered(prev, m) {
                latest_answer_votes(prev, m)
            } else {
                start.contains(m)
            }));
            if m == lm {
                assert(answers[n].0 == m);
                assert(has_answered(answers, m));
                if lv {
                    assert(latest_answer_votes(answers, m));
                } else if latest_answer_votes(answers, m) {
                    let i = choose|i: int|
                        0 <= i < answers.len() && (#[trigger] answers[i]).0 == m && answers[i].1
                            && forall|j: int| i < j < answers.len() ==> (#[trigger] answers[j]).0 != m;
                    assert(i != n);
                    assert(answers[n].0 != m);
                }
            } else {
                if has_answered(answers, m) {
                    let i = choose|i: int| 0 <= i < answers.len() && (#[trigger] answers[i]).0 == m;
                    assert(i != n);
                    assert(prev[i].0 == m);
                }
                if has_answered(prev, m) {
                    let i = choose|i: int| 0 <= i < prev.len() && (#[trigger] prev[i]).0 == m;
                    assert(answers[i].0 == m);
                }
                if latest_answer_votes(answers, m) {
                    let i = choose|i: int|
                        0 <= i < answers.len() && (#[trigger] answers[i]).0 == m && answers[i].1
                            && forall|j: int| i < j < answers.len() ==> (#[trigger] answers[j]).0 != m;
                    assert(i != n);
                    assert(prev[i].0 == m);
                    assert forall|j: int| i < j < prev.len() implies (#[trigger] prev[j]).0 != m by {
                        assert(answers[j] == prev[j]);
                    }
                    assert(latest_answer_votes(prev, m));
                }
                if latest_answer_votes(prev, m) {
                    let i = choose|i: int|
                        0 <= i < prev.len() && (#[trigger] prev[i]).0 == m && prev[i].1 && forall|
                            j: int,
                        |
                            i < j < prev.len() ==> (#[trigger] prev[j]).0 != m;
                    assert(answers[i] == prev[i]);
                    assert forall|j: int| i < j < answers.len() implies (#[trigger] answers[j]).0
                        != m by {
                        if j < n {
                            assert(answers[j] == prev[j]);
                        }
                    }
                    assert(latest_answer_votes(answers, m));
                }
            }
        }
    }
}

/// Two sequences of vote-answer events that leave every member with the same
/// latest status produce the same voter set, whatever order the events
/// arrived in.
pub proof fn lemma_arrival_order_does_not_matter(
    start: Set<u64>,
    a: Seq<(u64, bool)>,
    b: Seq<(u64, bool)>,
)
    requires
        forall|m: u64| has_answered(a, m) == has_answered(b, m),
        forall|m: u64| latest_answer_votes(a, m) == latest_answer_votes(b, m),
    ensures
        voters_after(start, a) == voters_after(start, b),
{
    lemma_voters_follow_latest_answer(start, a);
    lemma_voters_follow_latest_answer(start, b);
    assert(voters_after(start, a) =~= voters_after(start, b));
}

/// Applying the same non-empty answer a second time changes nothing: the
/// canonical list after the repeat is the list after the first application.
pub proof fn lemma_repeated_answer_is_idempotent(
    voters: Set<u64>,
    member: u64,
    once: Seq<u64>,
    twice: Seq<u64>,
)
    requires
        is_canonical(once),
        is_canonical(twice),
        once.to_set() == after_answer(voters, member, true),
        twice.to_set() == after_answer(once.to_set(), member, true),
    ensures
        after_answer(after_answer(voters, member, true), member, true) == after_answer(
            voters,
            member,
            true,
        ),
        twice == once,
{
    assert(after_answer(after_answer(voters, member, true), member, true) =~= after_answer(
        voters,
        member,
        true,
    ));
    lemma_canonical_unique(twice, once);
}

} // verus!
