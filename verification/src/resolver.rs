//! The cache-aside resolution protocol, written as a step function from
//! protocol state and store/upstream outcome to the next state and the next
//! action. The unverified shell performs each returned action against the
//! key-value store or the upstream endpoint and feeds the outcome back in;
//! every decision of the protocol is taken here.
//!
//! The protocol: resolve the concrete hour-bucket key (for yesterday, by
//! enumerating the stored keys of that day and taking the newest); read it;
//! on a hit return the stored payload; on a miss or a failed read fetch
//! from the upstream; on fetch success write the payload back (a failed
//! write is ignored) and return it; on fetch failure give up.

use vstd::prelude::*;
use vstd::string::StringExecFns;
use crate::errors::ErrorKind;
use crate::keys::{
    KeyQuery, create_key, spec_current_key, spec_search_pattern,
    lemma_current_key_stable_within_hour,
};
use crate::select::{extract_newest_key, spec_newest};
use crate::time::{LogicalTime, spec_previous_day};

verus! {

/// What the shell must do next on the protocol's behalf.
pub enum Action {
    /// Enumerate the store's keys matching `pattern`.
    ListKeys { pattern: String },
    /// Point-read `key` from the store.
    ReadKey { key: String },
    /// Perform the single upstream fetch for `studio_id`.
    FetchUpstream { studio_id: String },
    /// Write `payload` under `key`, overwriting any previous bucket.
    WriteKey { key: String, payload: String },
    /// The resolution is over: hand `outcome` to the caller.
    Finish { outcome: Result<String, ErrorKind> },
}

/// What the store or the upstream answered to the previous action.
pub enum Event {
    /// The enumeration returned these keys (possibly none).
    KeysListed { keys: Vec<String> },
    /// The enumeration itself failed.
    KeysFailed,
    /// The point read found a stored payload.
    ReadHit { payload: String },
    /// The point read found nothing under the key.
    ReadMiss,
    /// The point read failed; treated like a miss, staleness being
    /// preferable to unavailability.
    ReadFailed,
    /// The upstream fetch returned a raw payload.
    FetchSucceeded { payload: String },
    /// The upstream fetch failed or timed out.
    FetchFailed,
    /// The write-back succeeded.
    WriteSucceeded,
    /// The write-back failed; ignored, the payload is already in hand.
    WriteFailed,
}

/// Where a resolution stands between two actions.
pub enum ResolveState {
    /// Waiting for the enumeration of yesterday's keys.
    AwaitingKeys { studio_id: String },
    /// Waiting for the point read of the resolved bucket key.
    AwaitingRead { studio_id: String, key: String },
    /// Waiting for the upstream fetch; `key` is the bucket to write back.
    AwaitingFetch { key: String },
    /// Waiting for the write-back of the fetched payload.
    AwaitingWrite { payload: String },
    /// The resolution has finished.
    Finished,
}

/// Which outcomes answer which state: the shell may only feed an event
/// that belongs to the action this state is waiting on.
pub open spec fn spec_accepts(pre: ResolveState, ev: Event) -> bool {
    match (pre, ev) {
        (ResolveState::AwaitingKeys { .. }, Event::KeysListed { .. }) => true,
        (ResolveState::AwaitingKeys { .. }, Event::KeysFailed) => true,
        (ResolveState::AwaitingRead { .. }, Event::ReadHit { .. }) => true,
        (ResolveState::AwaitingRead { .. }, Event::ReadMiss) => true,
        (ResolveState::AwaitingRead { .. }, Event::ReadFailed) => true,
        (ResolveState::AwaitingFetch { .. }, Event::FetchSucceeded { .. }) => true,
        (ResolveState::AwaitingFetch { .. }, Event::FetchFailed) => true,
        (ResolveState::AwaitingWrite { .. }, Event::WriteSucceeded) => true,
        (ResolveState::AwaitingWrite { .. }, Event::WriteFailed) => true,
        _ => false,
    }
}

/// The transition relation of the protocol: from state `pre` under outcome
/// `ev`, the next state is `post` and the next action is `act`. The
/// relation pins both completely.
pub open spec fn spec_step(pre: ResolveState, ev: Event, post: ResolveState, act: Action) -> bool {
    match (pre, ev) {
        (ResolveState::AwaitingKeys { studio_id }, Event::KeysListed { keys }) => {
            if keys@.len() == 0 {
                &&& post == ResolveState::Finished
                &&& act == (Action::Finish {
                    outcome: Err::<String, ErrorKind>(ErrorKind::NoHistoricalData),
                })
            } else {
                &&& (post matches ResolveState::AwaitingRead { studio_id: s, key: k } && s
                    == studio_id && k@ == spec_newest(keys.deep_view()))
                &&& (act matches Action::ReadKey { key: k } && k@ == spec_newest(keys.deep_view()))
            }
        },
        (ResolveState::AwaitingKeys { studio_id }, Event::KeysFailed) => {
            &&& post == ResolveState::Finished
            &&& act == (Action::Finish { outcome: Err::<String, ErrorKind>(ErrorKind::StoreError) })
        },
        (ResolveState::AwaitingRead { studio_id, key }, Event::ReadHit { payload }) => {
            &&& post == ResolveState::Finished
            &&& act == (Action::Finish { outcome: Ok::<String, ErrorKind>(payload) })
        },
        (ResolveState::AwaitingRead { studio_id, key }, Event::ReadMiss) => {
            &&& post == (ResolveState::AwaitingFetch { key })
            &&& act == (Action::FetchUpstream { studio_id })
        },
        (ResolveState::AwaitingRead { studio_id, key }, Event::ReadFailed) => {
            &&& post == (ResolveState::AwaitingFetch { key })
            &&& act == (Action::FetchUpstream { studio_id })
        },
        (ResolveState::AwaitingFetch { key }, Event::FetchSucceeded { payload }) => {
            &&& post == (ResolveState::AwaitingWrite { payload })
            &&& act == (Action::WriteKey { key, payload })
        },
        (ResolveState::AwaitingFetch { key }, Event::FetchFailed) => {
            &&& post == ResolveState::Finished
            &&& act == (Action::Finish {
                outcome: Err::<String, ErrorKind>(ErrorKind::UpstreamUnavailable),
            })
        },
        (ResolveState::AwaitingWrite { payload }, Event::WriteSucceeded) => {
            &&& post == ResolveState::Finished
            &&& act == (Action::Finish { outcome: Ok::<String, ErrorKind>(payload) })
        },
        (ResolveState::AwaitingWrite { payload }, Event::WriteFailed) => {
            &&& post == ResolveState::Finished
            &&& act == (Action::Finish { outcome: Ok::<String, ErrorKind>(payload) })
        },
        _ => false,
    }
}

/// Decides `spec_accepts`, so the unverified shell can test that it is
/// about to feed the protocol an outcome that answers the pending action.
pub fn accepts(state: &ResolveState, event: &Event) -> (b: bool)
    ensures
        b == spec_accepts(*state, *event),
{
    match (state, event) {
        (ResolveState::AwaitingKeys { .. }, Event::KeysListed { .. }) => true,
        (ResolveState::AwaitingKeys { .. }, Event::KeysFailed) => true,
        (ResolveState::AwaitingRead { .. }, Event::ReadHit { .. }) => true,
        (ResolveState::AwaitingRead { .. }, Event::ReadMiss) => true,
        (ResolveState::AwaitingRead { .. }, Event::ReadFailed) => true,
        (ResolveState::AwaitingFetch { .. }, Event::FetchSucceeded { .. }) => true,
        (ResolveState::AwaitingFetch { .. }, Event::FetchFailed) => true,
        (ResolveState::AwaitingWrite { .. }, Event::WriteSucceeded) => true,
        (ResolveState::AwaitingWrite { .. }, Event::WriteFailed) => true,
        _ => false,
    }
}

/// Opens a resolution for `studio_id` at time `now`: a request for today
/// goes straight to the point read of the current hour's bucket; a request
/// for yesterday first asks for the enumeration of yesterday's keys.
pub fn start_resolve(studio_id: String, yesterday: bool, now: &LogicalTime) -> (r: (
    ResolveState,
    Action,
))
    requires
        now.wf(),
        yesterday ==> !now.is_first_day(),
    ensures
        !yesterday ==> (r.0 matches ResolveState::AwaitingRead { studio_id: s, key: k } && s
            == studio_id && k@ == spec_current_key(studio_id@, *now)),
        !yesterday ==> (r.1 matches Action::ReadKey { key: k } && k@ == spec_current_key(
            studio_id@,
            *now,
        )),
        yesterday ==> (r.0 matches ResolveState::AwaitingKeys { studio_id: s } && s == studio_id),
        yesterday ==> (r.1 matches Action::ListKeys { pattern: p } && p@ == spec_search_pattern(
            studio_id@,
            spec_previous_day(*now),
        )),
{
    match create_key(&studio_id, yesterday, now) {
        KeyQuery::Ready { key } => {
            let action_key = key.clone();
            (ResolveState::AwaitingRead { studio_id, key }, Action::ReadKey { key: action_key })
        },
        KeyQuery::Search { pattern } => {
            (ResolveState::AwaitingKeys { studio_id }, Action::ListKeys { pattern })
        },
    }
}

/// Takes one protocol step: consumes the outcome of the previous action
/// and returns the next state and action, as `spec_step` prescribes.
pub fn resolve_step(state: ResolveState, event: Event) -> (r: (ResolveState, Action))
    requires
        spec_accepts(state, event),
    ensures
        spec_step(state, event, r.0, r.1),
{
    match (state, event) {
        (ResolveState::AwaitingKeys { studio_id }, Event::KeysListed { keys }) => {
            if keys.len() == 0 {
                (
                    ResolveState::Finished,
                    Action::Finish { outcome: Err(ErrorKind::NoHistoricalData) },
                )
            } else {
                match extract_newest_key(keys) {
                    Ok(key) => {
                        let action_key = key.clone();
                        (
                            ResolveState::AwaitingRead { studio_id, key },
                            Action::ReadKey { key: action_key },
                        )
                    },
                    Err(_) => vstd::pervasive::unreached(),
                }
            }
        },
        (ResolveState::AwaitingKeys { .. }, Event::KeysFailed) => {
            (ResolveState::Finished, Action::Finish { outcome: Err(ErrorKind::StoreError) })
        },
        (ResolveState::AwaitingRead { .. }, Event::ReadHit { payload }) => {
            (ResolveState::Finished, Action::Finish { outcome: Ok(payload) })
        },
        (ResolveState::AwaitingRead { studio_id, key }, Event::ReadMiss) => {
            (ResolveState::AwaitingFetch { key }, Action::FetchUpstream { studio_id })
        },
        (ResolveState::AwaitingRead { studio_id, key }, Event::ReadFailed) => {
            (ResolveState::AwaitingFetch { key }, Action::FetchUpstream { studio_id })
        },
        (ResolveState::AwaitingFetch { key }, Event::FetchSucceeded { payload }) => {
            let stored_payload = payload.clone();
            (
                ResolveState::AwaitingWrite { payload },
                Action::WriteKey { key, payload: stored_payload },
            )
        },
        (ResolveState::AwaitingFetch { .. }, Event::FetchFailed) => {
            (ResolveState::Finished, Action::Finish { outcome: Err(ErrorKind::UpstreamUnavailable) })
        },
        (ResolveState::AwaitingWrite { payload }, Event::WriteSucceeded) => {
            (ResolveState::Finished, Action::Finish { outcome: Ok(payload) })
        },
        (ResolveState::AwaitingWrite { payload }, Event::WriteFailed) => {
            (ResolveState::Finished, Action::Finish { outcome: Ok(payload) })
        },
        _ => vstd::pervasive::unreached(),
    }
}

/// The upstream capacity endpoint for one studio: a fixed origin,
/// parameterized only by the studio id in the query string.
pub fn upstream_url(studio_id: &String) -> (url: String)
    ensures
        url@ == "https://typo3.johnreed.fitness/studiocapacity.json?studioId="@ + studio_id@,
{
    let mut url = String::from_str("https://typo3.johnreed.fitness/studiocapacity.json?studioId=");
    url.append(studio_id.as_str());
    url
}

/// Re-resolving within the same clock hour is idempotent: the second call
/// derives the very key the first call wrote, and a hit on that key ends
/// the resolution with the stored payload byte for byte.
pub proof fn lemma_resolve_idempotent(
    studio_id: String,
    t1: LogicalTime,
    t2: LogicalTime,
    written_key: String,
    read_key: String,
    stored: String,
    post: ResolveState,
    act: Action,
)
    requires
        t1.wf(),
        t2.wf(),
        t1.same_hour(t2),
        written_key@ == spec_current_key(studio_id@, t1),
        read_key@ == spec_current_key(studio_id@, t2),
        spec_step(
            ResolveState::AwaitingRead { studio_id, key: read_key },
            Event::ReadHit { payload: stored },
            post,
            act,
        ),
    ensures
        written_key@ == read_key@,
        post == ResolveState::Finished,
        act == (Action::Finish { outcome: Ok::<String, ErrorKind>(stored) }),
{
    lemma_current_key_stable_within_hour(studio_id@, t1, t2);
}

} // verus!
