//! The game record the supervisor consults: its presence is the "in-game"
//! predicate, and spawning the main process derives its plan from it.

use vstd::prelude::*;

use crate::MAX_TIMESTAMP;

verus! {

/// What the game-record collaborator stores about the running game: its
/// identifier on disk, when the current session started (seconds since the
/// Unix epoch), and whether the game offers the in-game menu overlay.
#[derive(Clone, Debug)]
pub struct GameRecord {
    pub path: String,
    pub start_time: i64,
    pub has_menu: bool,
}

/// What to launch as the main process.
#[derive(Clone, Debug)]
pub enum LaunchTarget {
    /// Resume the recorded game, its session restarted now.
    Game(GameRecord),
    /// No game is recorded: launch the fallback launcher.
    Launcher,
}

/// Decide what the main slot runs: a recorded game resumes with a fresh
/// session start time; with no record the launcher runs.
pub fn spawn_plan(game: Option<GameRecord>, now: i64) -> (r: LaunchTarget)
    ensures
        match game {
            Option::Some(g) => r == LaunchTarget::Game(
                GameRecord { path: g.path, start_time: now, has_menu: g.has_menu },
            ),
            Option::None => r == LaunchTarget::Launcher,
        },
{
    match game {
        Option::Some(g) => LaunchTarget::Game(
            GameRecord { path: g.path, start_time: now, has_menu: g.has_menu },
        ),
        Option::None => LaunchTarget::Launcher,
    }
}

/// Elapsed play time of a session: the clock reading `now` against the
/// session's start, floored at zero (a start recorded ahead of the clock
/// counts as no time played).
pub fn play_time(start_time: i64, now: i64) -> (r: i64)
    requires
        0 <= start_time <= MAX_TIMESTAMP,
        0 <= now <= MAX_TIMESTAMP,
    ensures
        r == (if now >= start_time {
            now - start_time
        } else {
            0int
        }),
{
    if now >= start_time {
        now - start_time
    } else {
        0
    }
}

} // verus!
