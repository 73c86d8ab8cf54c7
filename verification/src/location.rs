//! Location webhooks: tell Telegram when a subscriber changes country, and
//! warn the support channel when a subscriber has been refused roaming for
//! the last half hour.
use vstd::prelude::*;
use crate::reply::{StatusReply, reply_ok, reply_something_went_wrong};
use crate::text::text_eq;

verus! {

/// What a location webhook ends in.
#[derive(PartialEq, Eq, Structural, Clone, Copy, Debug)]
pub enum LocationOutcome {
    /// No earlier location is on record: nothing is compared.
    NoPreviousLocation,
    /// The location was compared with the one on record; `notify` tells
    /// whether Telegram hears of the new country.
    Checked { notify: bool },
}

impl LocationOutcome {
    /// The reply to the webhook: 500 when no earlier location is on record, 200 otherwise.
    pub fn reply(&self) -> (r: StatusReply)
        ensures
            match self {
                LocationOutcome::NoPreviousLocation => r@ == (500u16, "Something went wrong"@),
                LocationOutcome::Checked { .. } => r@ == (200u16, "Ok"@),
            },
    {
        match self {
            LocationOutcome::NoPreviousLocation => reply_something_went_wrong(),
            LocationOutcome::Checked { .. } => reply_ok(),
        }
    }
}

/// Compares the penultimate location on record with the reported one:
/// Telegram hears of the location exactly when they differ.
pub fn location_outcome(last_location: Option<&str>, location: &str) -> (r: LocationOutcome)
    ensures
        match last_location {
            None => r == LocationOutcome::NoPreviousLocation,
            Some(last) => r == (LocationOutcome::Checked { notify: last@ != location@ }),
        },
{
    match last_location {
        None => LocationOutcome::NoPreviousLocation,
        Some(last) => LocationOutcome::Checked { notify: !text_eq(last, location) },
    }
}

/// How many entries of `states` equal `state`.
pub open spec fn count_state(states: Seq<Seq<char>>, state: Seq<char>) -> nat
    decreases states.len(),
{
    if states.len() == 0 {
        0
    } else {
        count_state(states.drop_last(), state) + if states.last() == state {
            1nat
        } else {
            0nat
        }
    }
}

/// The count of a state is the number of times it occurs among the states:
/// its multiplicity in the multiset of the states. Entries that differ from
/// it do not count.
pub proof fn lemma_count_state_is_multiplicity(states: Seq<Seq<char>>, state: Seq<char>)
    ensures
        count_state(states, state) == states.to_multiset().count(state),
    decreases states.len(),
{
    broadcast use vstd::seq_lib::group_to_multiset_ensures;

    if states.len() == 0 {
        assert(!states.contains(state));
    } else {
        lemma_count_state_is_multiplicity(states.drop_last(), state);
        assert(states =~= states.drop_last().push(states.last()));
    }
}

/// A state counts at least once exactly when it occurs among the states.
pub proof fn lemma_count_state_positive(states: Seq<Seq<char>>, state: Seq<char>)
    ensures
        count_state(states, state) >= 1 <==> states.contains(state),
{
    broadcast use vstd::seq_lib::group_to_multiset_ensures;

    lemma_count_state_is_multiplicity(states, state);
}

/// A state counts at least twice exactly when it occurs at two different
/// places among the states.
pub proof fn lemma_count_state_twice(states: Seq<Seq<char>>, state: Seq<char>)
    ensures
        count_state(states, state) >= 2 <==> exists|i: int, j: int|
            0 <= i < j < states.len() && #[trigger] states[i] == state && #[trigger] states[j] == state,
    decreases states.len(),
{
    if states.len() > 0 {
        let rest = states.drop_last();
        let n = states.len() - 1;
        lemma_count_state_twice(rest, state);
        lemma_count_state_positive(rest, state);
        if count_state(states, state) >= 2 {
            if states.last() == state {
                let i = choose|i: int| 0 <= i < rest.len() && rest[i] == state;
                assert(states[i] == state && states[n] == state);
            } else {
                let (i, j) = choose|i: int, j: int|
                    0 <= i < j < rest.len() && #[trigger] rest[i] == state && #[trigger] rest[j] == state;
                assert(states[i] == state && states[j] == state);
            }
        }
        if exists|i: int, j: int|
            0 <= i < j < states.len() && #[trigger] states[i] == state && #[trigger] states[j] == state {
            let (i, j) = choose|i: int, j: int|
                0 <= i < j < states.len() && #[trigger] states[i] == state && #[trigger] states[j] == state;
            if j == n {
                assert(rest[i] == state);
                assert(rest.contains(state));
            } else {
                assert(rest[i] == state && rest[j] == state);
            }
        }
    }
}

pub open spec fn states_view(states: Seq<String>) -> Seq<Seq<char>> {
    states.map_values(|s: String| s@)
}

/// The state that a refused roaming attempt reports.
pub open spec fn roaming_refused_text() -> Seq<char> {
    "plmnRoamingNotAllowed"@
}

/// The state that an accepted attempt reports.
pub open spec fn roaming_allowed_text() -> Seq<char> {
    "ALLOW"@
}

/// Only a report of refused roaming leads to a look at the recent states.
pub fn roaming_check_needed(state: &str) -> (r: bool)
    ensures
        r == (state@ == roaming_refused_text()),
{
    text_eq(state, "plmnRoamingNotAllowed")
}

/// Whether the support channel is warned, given the states of the last half
/// hour: no attempt in them was accepted and at least two were refused.
pub fn roaming_alert_due(last_states: &Vec<String>) -> (r: bool)
    ensures
        r == (!states_view(last_states@).contains(roaming_allowed_text())
            && count_state(states_view(last_states@), roaming_refused_text()) >= 2),
        r == (!states_view(last_states@).contains(roaming_allowed_text()) && exists|i: int, j: int|
            0 <= i < j < last_states@.len() && #[trigger] last_states@[i]@ == roaming_refused_text()
                && #[trigger] last_states@[j]@ == roaming_refused_text()),
{
    let ghost sv = states_view(last_states@);
    let mut is_send_alert = false;
    let mut count_roaming_errors: usize = 0;
    let mut i: usize = 0;
    while i < last_states.len()
        invariant
            i <= last_states.len(),
            sv == states_view(last_states@),
            !sv.take(i as int).contains(roaming_allowed_text()),
            count_roaming_errors as nat == count_state(sv.take(i as int), roaming_refused_text()),
            count_roaming_errors <= i,
            is_send_alert == (count_roaming_errors > 0),
        decreases last_states.len() - i,
    {
        let item = last_states[i].as_str();
        assert(sv[i as int] == item@);
        proof {
            assert(sv.take(i + 1).drop_last() =~= sv.take(i as int));
        }
        if text_eq(item, "ALLOW") {
            assert(sv.contains(roaming_allowed_text()));
            return false;
        }
        proof {
            assert forall|x: Seq<char>| sv.take(i + 1).contains(x) implies sv.take(i as int).contains(x) || x == sv[i as int] by {
                let k = choose|k: int| 0 <= k < i + 1 && #[trigger] sv.take(i + 1)[k] == x;
                if k < i {
                    assert(sv.take(i as int)[k] == x);
                }
            }
        }
        if text_eq(item, "plmnRoamingNotAllowed") {
            is_send_alert = true;
            count_roaming_errors = count_roaming_errors + 1;
        }
        i = i + 1;
    }
    assert(sv.take(i as int) =~= sv);
    proof {
        lemma_count_state_twice(sv, roaming_refused_text());
        if exists|a: int, b: int|
            0 <= a < b < sv.len() && #[trigger] sv[a] == roaming_refused_text() && #[trigger] sv[b]
                == roaming_refused_text() {
            let (a, b) = choose|a: int, b: int|
                0 <= a < b < sv.len() && #[trigger] sv[a] == roaming_refused_text() && #[trigger] sv[b]
                    == roaming_refused_text();
            assert(last_states@[a]@ == sv[a] && last_states@[b]@ == sv[b]);
        }
        if exists|a: int, b: int|
            0 <= a < b < last_states@.len() && #[trigger] last_states@[a]@ == roaming_refused_text()
                && #[trigger] last_states@[b]@ == roaming_refused_text() {
            let (a, b) = choose|a: int, b: int|
                0 <= a < b < last_states@.len() && #[trigger] last_states@[a]@ == roaming_refused_text()
                    && #[trigger] last_states@[b]@ == roaming_refused_text();
            assert(sv[a] == last_states@[a]@ && sv[b] == last_states@[b]@);
        }
    }
    is_send_alert && count_roaming_errors > 1
}

/// The text of the warning for the support channel.
pub fn roaming_warning_message(imsi: &str) -> (m: String)
    ensures
        m@ == "WARNING: IMSI "@ + imsi@ + " could not connect to roaming during 30 min"@,
{
    let mut m = "WARNING: IMSI ".to_owned();
    m.append(imsi);
    m.append(" could not connect to roaming during 30 min");
    m
}

} // verus!
