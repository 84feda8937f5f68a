//! The daemon's durable state: volume, brightness and the time of the last
//! save, together with construction, loading (with corruption recovery and
//! real-time-clock repair) and the round-trip law for the on-disk record.

use vstd::prelude::*;

use crate::MAX_TIMESTAMP;
use crate::codec;

verus! {

/// The sole unit of durable state: `time` is seconds since the Unix epoch of
/// the last save, `volume` lies in `[0, 20]`, `brightness` in `[0, 100]`.
#[derive(Clone, Copy, Debug, PartialEq, Eq, Structural)]
pub struct AlliumDState {
    pub time: i64,
    pub volume: i32,
    pub brightness: u8,
}

impl AlliumDState {
    /// Well-formedness: the clamp invariants and a printable timestamp.
    pub open spec fn wf(self) -> bool {
        &&& 0 <= self.time <= MAX_TIMESTAMP
        &&& 0 <= self.volume <= 20
        &&& self.brightness <= 100
    }

    /// A fresh state: defaults, stamped `now`.
    pub open spec fn spec_fresh(now: i64) -> AlliumDState {
        AlliumDState { time: now, volume: 0, brightness: 50 }
    }

    /// The default state stamped with the given clock reading.
    pub fn fresh(now: i64) -> (r: AlliumDState)
        requires
            0 <= now <= MAX_TIMESTAMP,
        ensures
            r == AlliumDState::spec_fresh(now),
            r.wf(),
    {
        AlliumDState { time: now, volume: 0, brightness: 50 }
    }

    /// Decide well-formedness executably, for callers outside the proof.
    pub fn is_wf(&self) -> (r: bool)
        ensures
            r == self.wf(),
    {
        0 <= self.time && self.time <= MAX_TIMESTAMP && 0 <= self.volume && self.volume <= 20
            && self.brightness <= 100
    }

    /// A fresh default state stamped with the current wall clock.
    pub fn new() -> (r: AlliumDState)
        ensures
            r.wf(),
            r.volume == 0,
            r.brightness == 50,
    {
        AlliumDState::fresh(clamped_now())
    }
}

/// Relies on `std::time::SystemTime::now` for the current wall-clock time,
/// read as whole seconds since the Unix epoch; a clock before the epoch
/// reads as zero (`duration_since` reports that case as an error rather
/// than panicking, and zero is the conservative reading of it). Nothing is
/// promised of the value: it depends on the machine's clock.
#[verifier::external_body]
fn now_seconds() -> (r: u64) {
    std::time::SystemTime::now()
        .duration_since(std::time::UNIX_EPOCH)
        .map(|d| d.as_secs())
        .unwrap_or(0)
}

/// The current wall clock, forced into the representable timestamp range.
pub fn clamped_now() -> (r: i64)
    ensures
        0 <= r <= MAX_TIMESTAMP,
{
    let t = now_seconds();
    if t > (MAX_TIMESTAMP as u64) {
        MAX_TIMESTAMP
    } else {
        t as i64
    }
}

/// Whether `data` is the record of the well-formed state `s`.
pub open spec fn spec_decodes(data: Seq<u8>, s: AlliumDState) -> bool {
    s.wf() && data == codec::spec_encode(s)
}

/// What loading yields: the state to run with, whether the file on disk must
/// be removed, and the timestamp the system clock must be advanced to, if
/// any.
#[derive(Clone, Copy, Debug)]
pub struct LoadOutcome {
    pub state: AlliumDState,
    pub remove_file: bool,
    pub advance_clock_to: Option<i64>,
}

/// The value of the loaded view of `data` (`None`: no file) at clock reading
/// `now`: a parseable record is the sole source of truth and repairs a clock
/// that lags it; anything else yields defaults, and a present but corrupt
/// file is removed.
pub open spec fn spec_load(data: Option<Seq<u8>>, now: i64) -> LoadOutcome {
    match data {
        Option::None => LoadOutcome {
            state: AlliumDState::spec_fresh(now),
            remove_file: false,
            advance_clock_to: Option::None,
        },
        Option::Some(d) => if exists|s: AlliumDState| spec_decodes(d, s) {
            let s = choose|s: AlliumDState| spec_decodes(d, s);
            LoadOutcome {
                state: s,
                remove_file: false,
                advance_clock_to: if s.time > now {
                    Option::Some(s.time)
                } else {
                    Option::None
                },
            }
        } else {
            LoadOutcome {
                state: AlliumDState::spec_fresh(now),
                remove_file: true,
                advance_clock_to: Option::None,
            }
        },
    }
}

/// The view of optional file contents.
pub open spec fn spec_contents(contents: Option<Vec<u8>>) -> Option<Seq<u8>> {
    match contents {
        Option::None => Option::None,
        Option::Some(v) => Option::Some(v@),
    }
}

impl AlliumDState {
    /// Decide the load outcome from the raw file contents (`None` when no
    /// file exists) and the clock reading `now`.
    pub fn load_from(contents: Option<Vec<u8>>, now: i64) -> (r: LoadOutcome)
        requires
            0 <= now <= MAX_TIMESTAMP,
        ensures
            r == spec_load(spec_contents(contents), now),
            r.state.wf(),
    {
        match contents {
            Option::None => LoadOutcome {
                state: AlliumDState::fresh(now),
                remove_file: false,
                advance_clock_to: Option::None,
            },
            Option::Some(data) => {
                match codec::parse_state(&data) {
                    Option::Some(s) => {
                        proof {
                            assert(spec_decodes(data@, s));
                            let c = choose|c: AlliumDState| spec_decodes(data@, c);
                            codec::lemma_encode_injective(s, c);
                        }
                        LoadOutcome {
                            state: s,
                            remove_file: false,
                            advance_clock_to: if s.time > now {
                                Option::Some(s.time)
                            } else {
                                Option::None
                            },
                        }
                    },
                    Option::None => LoadOutcome {
                        state: AlliumDState::fresh(now),
                        remove_file: true,
                        advance_clock_to: Option::None,
                    },
                }
            },
        }
    }

    /// Load against the current wall clock.
    pub fn load(contents: Option<Vec<u8>>) -> (r: LoadOutcome)
        ensures
            exists|now: i64|
                0 <= now <= MAX_TIMESTAMP && r == spec_load(spec_contents(contents), now),
            r.state.wf(),
    {
        let now = clamped_now();
        let r = AlliumDState::load_from(contents, now);
        proof {
            assert(0 <= now <= MAX_TIMESTAMP && r == spec_load(
                spec_contents(contents),
                now,
            ));
        }
        r
    }

    /// The bytes this state is persisted as: one fixed-layout JSON record,
    /// fully overwriting whatever was there (see the codec module for its
    /// exact shape).
    pub fn save(&self) -> (v: Vec<u8>)
        requires
            self.wf(),
        ensures
            v@ == codec::spec_encode(*self),
    {
        codec::encode_state(self)
    }
}

/// The round-trip law: saving a well-formed state and loading it back yields
/// exactly that state, removes nothing, and asks for a clock repair exactly
/// when the stored timestamp lies ahead of the clock — to exactly the stored
/// timestamp.
pub proof fn lemma_save_load_round_trip(s: AlliumDState, now: i64)
    requires
        s.wf(),
        0 <= now <= MAX_TIMESTAMP,
    ensures
        spec_load(Option::Some(codec::spec_encode(s)), now).state == s,
        !spec_load(Option::Some(codec::spec_encode(s)), now).remove_file,
        spec_load(Option::Some(codec::spec_encode(s)), now).advance_clock_to == if s.time > now {
            Option::Some(s.time)
        } else {
            Option::None::<i64>
        },
{
    assert(spec_decodes(codec::spec_encode(s), s));
    let c = choose|c: AlliumDState| spec_decodes(codec::spec_encode(s), c);
    codec::lemma_encode_injective(s, c);
}

/// The corruption-recovery law: contents that record no well-formed state
/// load as the defaults (volume 0, brightness 50, stamped `now`) and have
/// the bad file removed.
pub proof fn lemma_corrupt_load_defaults(data: Seq<u8>, now: i64)
    requires
        forall|s: AlliumDState| !spec_decodes(data, s),
    ensures
        spec_load(Option::Some(data), now).state == AlliumDState::spec_fresh(now),
        spec_load(Option::Some(data), now).remove_file,
{
}

} // verus!
