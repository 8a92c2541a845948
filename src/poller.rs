use vstd::prelude::*;

use crate::clock::now_millis;
use crate::decode::{decode_leaders, decode_spec, json_text};
use crate::snapshot::{Leader, LeaderView, SharedSnapshot, SnapshotView, after_attempt, opt_leaders_view};

verus! {

/// The refresh interval used unless another is given: ten seconds.
pub const DEFAULT_REFRESH_INTERVAL_MS: i64 = 10_000;

/// A fetch is due once at least `interval` milliseconds have passed since
/// the last attempt.
pub open spec fn refresh_due(last_updated: i64, now: i64, interval: i64) -> bool {
    now - last_updated >= interval
}

/// Decides [`refresh_due`] without overflow.
pub fn is_refresh_due(last_updated: i64, now: i64, interval: i64) -> (r: bool)
    ensures
        r == refresh_due(last_updated, now, interval),
{
    (now as i128) - (last_updated as i128) >= interval as i128
}

/// What came back from one fetch attempt.
pub enum FetchOutcome {
    /// The request could not be sent or its response not read.
    TransportFailed,
    /// A response arrived with this body.
    Received(Vec<u8>),
}

/// The leader list that an outcome yields: `None` for a transport failure
/// and for a body that does not decode.
pub open spec fn outcome_leaders(o: FetchOutcome) -> Option<Seq<LeaderView>> {
    match o {
        FetchOutcome::TransportFailed => None,
        FetchOutcome::Received(body) => decode_spec(body@),
    }
}

/// The poller's decisions: when a fetch is due, with at most one in flight,
/// and how its outcome updates the snapshot.
pub struct Poller {
    refresh_interval_ms: i64,
    in_flight: Option<i64>,
}

/// The mathematical value of a [`Poller`]: its interval, and the time at
/// which the fetch in flight, if any, was dispatched.
pub struct PollerView {
    pub refresh_interval_ms: i64,
    pub in_flight: Option<i64>,
}

impl View for Poller {
    type V = PollerView;

    closed spec fn view(&self) -> PollerView {
        PollerView { refresh_interval_ms: self.refresh_interval_ms, in_flight: self.in_flight }
    }
}

impl Poller {
    pub fn new(refresh_interval_ms: i64) -> (r: Poller)
        ensures
            r@ == (PollerView { refresh_interval_ms, in_flight: None }),
    {
        Poller { refresh_interval_ms, in_flight: None }
    }

    pub fn refresh_interval_ms(&self) -> (r: i64)
        ensures
            r == self@.refresh_interval_ms,
    {
        self.refresh_interval_ms
    }

    pub fn is_fetching(&self) -> (r: bool)
        ensures
            r == self@.in_flight is Some,
    {
        self.in_flight.is_some()
    }

    /// One check of the loop at time `now`. Returns whether a fetch is to be
    /// dispatched: only where none is in flight and the refresh is due. The
    /// snapshot is only read.
    pub fn poll_at(&mut self, snapshot: &SharedSnapshot, now: i64) -> (dispatch: bool)
        ensures
            dispatch == (old(self)@.in_flight is None && refresh_due(
                snapshot@.last_updated,
                now,
                old(self)@.refresh_interval_ms,
            )),
            final(self)@ == (if dispatch {
                PollerView { refresh_interval_ms: old(self)@.refresh_interval_ms, in_flight: Some(now) }
            } else {
                old(self)@
            }),
    {
        if self.in_flight.is_none() && is_refresh_due(
            snapshot.last_updated(),
            now,
            self.refresh_interval_ms,
        ) {
            self.in_flight = Some(now);
            true
        } else {
            false
        }
    }

    /// [`Poller::poll_at`] at the time the system clock gives.
    pub fn poll(&mut self, snapshot: &SharedSnapshot) -> (dispatch: bool)
        ensures
            dispatch ==> old(self)@.in_flight is None && final(self)@.refresh_interval_ms
                == old(self)@.refresh_interval_ms && final(self)@.in_flight is Some && refresh_due(
                snapshot@.last_updated,
                final(self)@.in_flight->Some_0,
                old(self)@.refresh_interval_ms,
            ),
            !dispatch ==> final(self)@ == old(self)@,
    {
        let now = now_millis();
        self.poll_at(snapshot, now)
    }

    /// Applies the decoded result of the fetch in flight to the snapshot,
    /// stamped with the time the fetch was dispatched, and clears it. With
    /// no fetch in flight nothing changes.
    pub fn complete(&mut self, shared: &mut SharedSnapshot, decoded: Option<Vec<Leader>>)
        ensures
            match old(self)@.in_flight {
                Some(t) => final(shared)@ == after_attempt(old(shared)@, opt_leaders_view(decoded), t)
                    && final(self)@ == (PollerView {
                    refresh_interval_ms: old(self)@.refresh_interval_ms,
                    in_flight: None,
                }),
                None => final(shared)@ == old(shared)@ && final(self)@ == old(self)@,
            },
    {
        match self.in_flight {
            Some(t) => {
                shared.apply_decoded(decoded, t);
                self.in_flight = None;
            },
            None => {},
        }
    }

    /// Decodes the outcome of the fetch in flight and applies it: a body
    /// that does not decode counts as a failure, like a transport error.
    pub fn complete_fetch(&mut self, shared: &mut SharedSnapshot, outcome: FetchOutcome)
        ensures
            match old(self)@.in_flight {
                Some(t) => final(shared)@ == after_attempt(old(shared)@, outcome_leaders(outcome), t)
                    && final(self)@ == (PollerView {
                    refresh_interval_ms: old(self)@.refresh_interval_ms,
                    in_flight: None,
                }),
                None => final(shared)@ == old(shared)@ && final(self)@ == old(self)@,
            },
    {
        let decoded = match &outcome {
            FetchOutcome::TransportFailed => None,
            FetchOutcome::Received(body) => decode_leaders(body.as_slice()),
        };
        self.complete(shared, decoded);
    }
}

/// A transport failure keeps the leader list as it was; only the status
/// (now offline) and the time of the attempt move.
pub proof fn transport_failure_keeps_leaders(s: SnapshotView, at: i64)
    ensures
        after_attempt(s, outcome_leaders(FetchOutcome::TransportFailed), at) == (SnapshotView {
            leaders: s.leaders,
            last_updated: at,
            online: false,
        }),
{
}

/// A body that decodes replaces the leader list whole with the decoded one,
/// with nothing kept of the old list, and marks the board online.
pub proof fn decoded_body_replaces_leaders(s: SnapshotView, body: Vec<u8>, at: i64)
    requires
        decode_spec(body@) is Some,
    ensures
        after_attempt(s, outcome_leaders(FetchOutcome::Received(body)), at) == (SnapshotView {
            leaders: decode_spec(body@)->Some_0,
            last_updated: at,
            online: true,
        }),
{
}

/// A body that is not JSON has the same effect on the snapshot as a
/// transport failure.
pub proof fn malformed_body_is_like_transport_failure(s: SnapshotView, body: Vec<u8>, at: i64)
    requires
        json_text(body@) is None,
    ensures
        after_attempt(s, outcome_leaders(FetchOutcome::Received(body)), at) == after_attempt(
            s,
            outcome_leaders(FetchOutcome::TransportFailed),
            at,
        ),
        after_attempt(s, outcome_leaders(FetchOutcome::Received(body)), at).leaders == s.leaders,
        !after_attempt(s, outcome_leaders(FetchOutcome::Received(body)), at).online,
{
}

impl Default for Poller {
    fn default() -> (r: Poller)
        ensures
            r@ == (PollerView { refresh_interval_ms: DEFAULT_REFRESH_INTERVAL_MS, in_flight: None }),
    {
        Poller::new(DEFAULT_REFRESH_INTERVAL_MS)
    }
}

} // verus!
