use vstd::prelude::*;

use crate::clock::now_millis;

verus! {

/// One ranked entrant. `clicks` is kept as the server's text.
#[derive(Debug, PartialEq, Eq)]
pub struct Leader {
    pub user_id: String,
    pub clicks: String,
}

/// The mathematical value of a [`Leader`].
pub struct LeaderView {
    pub user_id: Seq<char>,
    pub clicks: Seq<char>,
}

impl View for Leader {
    type V = LeaderView;

    open spec fn view(&self) -> LeaderView {
        LeaderView { user_id: self.user_id@, clicks: self.clicks@ }
    }
}

pub open spec fn leaders_view(v: Seq<Leader>) -> Seq<LeaderView> {
    v.map_values(|l: Leader| l@)
}

pub open spec fn opt_leaders_view(d: Option<Vec<Leader>>) -> Option<Seq<LeaderView>> {
    match d {
        Some(v) => Some(leaders_view(v@)),
        None => None,
    }
}

impl Leader {
    pub fn new(user_id: String, clicks: String) -> (r: Leader)
        ensures
            r@ == (LeaderView { user_id: user_id@, clicks: clicks@ }),
    {
        Leader { user_id, clicks }
    }

    /// A copy with the same text in both fields.
    pub fn copy(&self) -> (r: Leader)
        ensures
            r@ == self@,
    {
        Leader { user_id: self.user_id.clone(), clicks: self.clicks.clone() }
    }
}

/// Copies a leader list, keeping its order.
pub fn copy_leaders(v: &Vec<Leader>) -> (r: Vec<Leader>)
    ensures
        leaders_view(r@) == leaders_view(v@),
{
    let mut r: Vec<Leader> = Vec::new();
    let mut i: usize = 0;
    while i < v.len()
        invariant
            i <= v@.len(),
            r@.len() == i,
            forall|j: int| 0 <= j < i ==> (#[trigger] r@[j])@ == v@[j]@,
        decreases v@.len() - i,
    {
        r.push(v[i].copy());
        i = i + 1;
    }
    assert(leaders_view(r@) =~= leaders_view(v@));
    r
}

/// The latest known leaderboard, with the time (milliseconds since the Unix
/// epoch) of the last fetch attempt and whether that attempt succeeded.
#[derive(Debug, PartialEq, Eq)]
pub struct LeaderboardSnapshot {
    pub leaders: Vec<Leader>,
    pub last_updated: i64,
    pub online: bool,
}

/// The mathematical value of a [`LeaderboardSnapshot`].
pub struct SnapshotView {
    pub leaders: Seq<LeaderView>,
    pub last_updated: i64,
    pub online: bool,
}

impl View for LeaderboardSnapshot {
    type V = SnapshotView;

    open spec fn view(&self) -> SnapshotView {
        SnapshotView {
            leaders: leaders_view(self.leaders@),
            last_updated: self.last_updated,
            online: self.online,
        }
    }
}

/// The snapshot after a fetch attempt made at `at`: a decoded leader list
/// replaces the old one whole and marks the board online; a failed attempt
/// keeps the old list and marks it offline. Either way the time moves to `at`.
pub open spec fn after_attempt(
    s: SnapshotView,
    decoded: Option<Seq<LeaderView>>,
    at: i64,
) -> SnapshotView {
    match decoded {
        Some(l) => SnapshotView { leaders: l, last_updated: at, online: true },
        None => SnapshotView { leaders: s.leaders, last_updated: at, online: false },
    }
}

/// The single container of the current snapshot. Readers get copies; a
/// writer replaces the leaders, the status and the time together.
pub struct SharedSnapshot {
    current: LeaderboardSnapshot,
}

impl View for SharedSnapshot {
    type V = SnapshotView;

    closed spec fn view(&self) -> SnapshotView {
        self.current@
    }
}

impl SharedSnapshot {
    /// The startup snapshot: no leaders, offline, last updated at `at`.
    pub fn new_at(at: i64) -> (r: SharedSnapshot)
        ensures
            r@ == (SnapshotView { leaders: Seq::empty(), last_updated: at, online: false }),
    {
        let r = SharedSnapshot {
            current: LeaderboardSnapshot { leaders: Vec::new(), last_updated: at, online: false },
        };
        assert(r@.leaders =~= Seq::<LeaderView>::empty());
        r
    }

    /// The startup snapshot, last updated at the time the system clock
    /// gives.
    pub fn new() -> (r: SharedSnapshot)
        ensures
            r@.leaders == Seq::<LeaderView>::empty(),
            !r@.online,
    {
        SharedSnapshot::new_at(now_millis())
    }

    /// A copy of the current snapshot. It changes nothing, so two reads with
    /// no write between them return equal snapshots.
    pub fn read(&self) -> (r: LeaderboardSnapshot)
        ensures
            r@ == self@,
    {
        LeaderboardSnapshot {
            leaders: copy_leaders(&self.current.leaders),
            last_updated: self.current.last_updated,
            online: self.current.online,
        }
    }

    pub fn last_updated(&self) -> (r: i64)
        ensures
            r == self@.last_updated,
    {
        self.current.last_updated
    }

    pub fn is_online(&self) -> (r: bool)
        ensures
            r == self@.online,
    {
        self.current.online
    }

    /// Replaces all three fields at once; no state mixing old and new
    /// fields is ever held.
    pub fn write(&mut self, leaders: Vec<Leader>, online: bool, at: i64)
        ensures
            final(self)@ == (SnapshotView {
                leaders: leaders_view(leaders@),
                last_updated: at,
                online,
            }),
    {
        self.current = LeaderboardSnapshot { leaders, last_updated: at, online };
    }

    /// Records a failed attempt at `at`: the leaders stay, the board goes
    /// offline, the time moves.
    pub fn record_failure(&mut self, at: i64)
        ensures
            final(self)@ == after_attempt(old(self)@, None, at),
    {
        self.current.online = false;
        self.current.last_updated = at;
    }

    /// Records the outcome of an attempt made at `at`, given the decoded
    /// leader list or `None` where the attempt failed.
    pub fn apply_decoded(&mut self, decoded: Option<Vec<Leader>>, at: i64)
        ensures
            final(self)@ == after_attempt(old(self)@, opt_leaders_view(decoded), at),
    {
        match decoded {
            Some(leaders) => self.write(leaders, true, at),
            None => self.record_failure(at),
        }
    }
}

} // verus!
