//! Leaderboard client core: the shared snapshot of the latest leaderboard,
//! decoding of the leaderboard service's JSON answer, and the poller's
//! decisions on when to fetch and how an attempt changes the snapshot.
mod clock;
pub mod decode;
pub mod poller;
pub mod request;
pub mod snapshot;
