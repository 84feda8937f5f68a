//! The supervisor itself: the process-slot state machine, the dispatch of
//! each arriving event to a decision, and the quit sequence. Every handler
//! returns the list of `Action`s the surrounding process must carry out, in
//! order; the handlers themselves only decide.

use vstd::prelude::*;

use crate::BATTERY_SHUTDOWN_THRESHOLD;
use crate::MAX_TIMESTAMP;
use crate::input::{alone_after, classify, classify_event, keys_after, Gesture, Key, KeyEvent,
    KeyState};
use crate::state::AlliumDState;

verus! {

/// The lifecycle state of the main process slot.
#[derive(Clone, Copy, Debug, PartialEq, Eq, Structural)]
pub enum ProcState {
    Absent,
    Running,
    Suspended,
}

/// One order to the surrounding process, to be carried out as it stands in
/// the returned list. Settings values carried here are already clamped.
#[derive(Clone, Copy, Debug, PartialEq, Eq, Structural)]
pub enum Action {
    /// Apply this volume to the hardware.
    SetVolume(i32),
    /// Apply this brightness to the hardware.
    SetBrightness(u8),
    /// Send the suspend signal to the main process.
    SuspendMain,
    /// Send the resume signal to the main process.
    ResumeMain,
    /// Start the menu overlay executable.
    SpawnMenu,
    /// Send the menu the graceful-terminate signal and wait for its exit.
    TerminateMenu,
    /// Kill the menu outright (quit path).
    KillMenu,
    /// Record the session's play time against the game record.
    RecordPlayTime,
    /// Delete the game record.
    ClearGameRecord,
    /// Start a fresh main process.
    SpawnMain,
    /// Persist the daemon state to disk.
    SaveState,
    /// Send the main process the graceful-terminate signal and wait.
    TerminateMain,
    /// Power the device down.
    Shutdown,
}

/// The supervisor: pressed keys, the menu-toggle flag, whether the quit
/// sequence has begun, the durable settings, and the two process slots.
#[derive(Clone, Copy, Debug, PartialEq, Eq, Structural)]
pub struct AlliumD {
    pub keys: KeyState,
    pub is_menu_pressed_alone: bool,
    pub is_terminating: bool,
    pub state: AlliumDState,
    pub main: ProcState,
    pub menu_open: bool,
}

/// Volume forced into `[0, 20]`.
pub open spec fn clamp_volume(v: int) -> int {
    if v < 0 {
        0
    } else if v > 20 {
        20
    } else {
        v
    }
}

/// Brightness forced into `[0, 100]`.
pub open spec fn clamp_brightness(b: int) -> int {
    if b < 0 {
        0
    } else if b > 100 {
        100
    } else {
        b
    }
}

impl AlliumD {
    /// The supervisor invariant: settings well-formed and, until the quit
    /// sequence begins, the menu overlay exists exactly while the main
    /// process is suspended, and a main process always exists.
    pub open spec fn wf(self) -> bool {
        &&& self.state.wf()
        &&& (!self.is_terminating ==> (self.menu_open <==> self.main == ProcState::Suspended))
        &&& (!self.is_terminating ==> self.main != ProcState::Absent)
    }

    /// Decide the invariant executably, for callers outside the proof.
    pub fn is_wf(&self) -> (r: bool)
        ensures
            r == self.wf(),
    {
        self.state.is_wf() && (self.is_terminating || ((self.menu_open == (self.main
            == ProcState::Suspended)) && !(self.main == ProcState::Absent)))
    }

    /// A freshly started supervisor: no key held, no menu, not quitting, the
    /// main process just spawned and running.
    pub fn new(state: AlliumDState) -> (d: AlliumD)
        requires
            state.wf(),
        ensures
            d.wf(),
            d.state == state,
            d.main == ProcState::Running,
            !d.menu_open,
            !d.is_terminating,
            !d.is_menu_pressed_alone,
            forall|k: Key| !d.keys.spec_get(k),
    {
        AlliumD {
            keys: KeyState::all_released(),
            is_menu_pressed_alone: false,
            is_terminating: false,
            state,
            main: ProcState::Running,
            menu_open: false,
        }
    }
}

/// The supervisor after the quit sequence: marked terminating, stamped with
/// the quit time, menu gone, and the main process terminated if a game was
/// running (the launcher is left to die with the device).
pub open spec fn spec_quit_state(d: AlliumD, now: i64, ingame: bool) -> AlliumD {
    AlliumD {
        is_terminating: true,
        menu_open: false,
        main: if ingame {
            ProcState::Absent
        } else {
            d.main
        },
        state: AlliumDState { time: now, volume: d.state.volume, brightness: d.state.brightness },
        ..d
    }
}

/// The quit sequence, in order: save state, record play time if in-game,
/// kill the menu if one exists, resume main before terminating it if it was
/// suspended (a suspended process cannot act on terminate), terminate and
/// reap main if in-game, and finally shut the device down.
pub open spec fn spec_quit_actions(d: AlliumD, ingame: bool) -> Seq<Action> {
    seq![Action::SaveState] + (if ingame {
        seq![Action::RecordPlayTime]
    } else {
        Seq::empty()
    }) + (if d.menu_open {
        seq![Action::KillMenu]
    } else {
        Seq::empty()
    }) + (if ingame {
        (if d.menu_open {
            seq![Action::ResumeMain]
        } else {
            Seq::empty()
        }) + seq![Action::TerminateMain]
    } else {
        Seq::empty()
    }) + seq![Action::Shutdown]
}

/// The supervisor after one key transition is fully handled.
#[verifier::opaque]
pub open spec fn spec_key_event_state(
    d: AlliumD,
    ev: KeyEvent,
    now: i64,
    ingame: bool,
    has_menu: bool,
) -> AlliumD {
    let keys = keys_after(d.keys, ev);
    let base = AlliumD {
        keys: keys,
        is_menu_pressed_alone: alone_after(d.is_menu_pressed_alone, ev),
        ..d
    };
    match classify(keys, ev) {
        Gesture::Nothing => base,
        Gesture::AddVolume(dv) => AlliumD {
            state: AlliumDState {
                volume: clamp_volume(d.state.volume + dv) as i32,
                ..d.state
            },
            ..base
        },
        Gesture::AddBrightness(db) => AlliumD {
            state: AlliumDState {
                brightness: clamp_brightness(d.state.brightness + db) as u8,
                ..d.state
            },
            ..base
        },
        Gesture::Quit => spec_quit_state(base, now, ingame),
        Gesture::MenuReleased => if d.is_menu_pressed_alone && ingame
            && keys.spec_only_menu_held() {
            if d.menu_open {
                base  // told to terminate; the slot clears on its exit event
            } else if has_menu {
                AlliumD { main: ProcState::Suspended, menu_open: true, ..base }
            } else {
                base
            }
        } else {
            base
        },
    }
}

/// The actions one key transition orders.
#[verifier::opaque]
pub open spec fn spec_key_event_actions(
    d: AlliumD,
    ev: KeyEvent,
    ingame: bool,
    has_menu: bool,
) -> Seq<Action> {
    let keys = keys_after(d.keys, ev);
    match classify(keys, ev) {
        Gesture::Nothing => Seq::empty(),
        Gesture::AddVolume(dv) => seq![Action::SetVolume(clamp_volume(d.state.volume + dv) as i32)],
        Gesture::AddBrightness(db) => seq![
            Action::SetBrightness(clamp_brightness(d.state.brightness + db) as u8),
        ],
        Gesture::Quit => spec_quit_actions(d, ingame),
        Gesture::MenuReleased => if d.is_menu_pressed_alone && ingame
            && keys.spec_only_menu_held() {
            if d.menu_open {
                seq![Action::TerminateMenu]
            } else if has_menu {
                seq![Action::SuspendMain, Action::SpawnMenu]
            } else {
                Seq::empty()
            }
        } else {
            Seq::empty()
        },
    }
}

/// The actions an unexpected main-process exit orders: nothing while
/// quitting; otherwise record play time if in-game, clear the record, and
/// respawn — exactly once.
pub open spec fn spec_main_exit_actions(d: AlliumD, ingame: bool) -> Seq<Action> {
    if d.is_terminating {
        Seq::empty()
    } else {
        (if ingame {
            seq![Action::RecordPlayTime]
        } else {
            Seq::empty()
        }) + seq![Action::ClearGameRecord, Action::SpawnMain]
    }
}

/// The supervisor after the menu process exits on its own: the slot clears
/// and a suspended main process resumes.
pub open spec fn spec_menu_exit_state(d: AlliumD) -> AlliumD {
    if d.menu_open {
        AlliumD {
            menu_open: false,
            main: if d.main == ProcState::Suspended {
                ProcState::Running
            } else {
                d.main
            },
            ..d
        }
    } else {
        d
    }
}

impl AlliumD {
    /// Adjust volume by `dv`, clamped, and order the hardware write.
    fn add_volume(&mut self, dv: i32) -> (a: Action)
        ensures
            *final(self) == (AlliumD {
                state: AlliumDState {
                    volume: clamp_volume(old(self).state.volume + dv) as i32,
                    ..old(self).state
                },
                ..*old(self)
            }),
            a == Action::SetVolume(clamp_volume(old(self).state.volume + dv) as i32),
    {
        let x = (self.state.volume as i64) + (dv as i64);
        let c: i32 = if x < 0 {
            0
        } else if x > 20 {
            20
        } else {
            x as i32
        };
        self.state.volume = c;
        Action::SetVolume(c)
    }

    /// Adjust brightness by `db`, clamped, and order the hardware write.
    fn add_brightness(&mut self, db: i32) -> (a: Action)
        ensures
            *final(self) == (AlliumD {
                state: AlliumDState {
                    brightness: clamp_brightness(old(self).state.brightness + db) as u8,
                    ..old(self).state
                },
                ..*old(self)
            }),
            a == Action::SetBrightness(clamp_brightness(old(self).state.brightness + db) as u8),
    {
        let x = (self.state.brightness as i64) + (db as i64);
        let c: u8 = if x < 0 {
            0
        } else if x > 100 {
            100
        } else {
            x as u8
        };
        self.state.brightness = c;
        Action::SetBrightness(c)
    }

    /// Run the quit decision: mark terminating, stamp the state with `now`,
    /// and order the whole quit sequence. The loop must not dispatch
    /// anything after this.
    pub fn handle_quit(&mut self, now: i64, ingame: bool) -> (actions: Vec<Action>)
        requires
            old(self).wf(),
            0 <= now <= MAX_TIMESTAMP,
        ensures
            final(self).wf(),
            *final(self) == spec_quit_state(*old(self), now, ingame),
            actions@ == spec_quit_actions(*old(self), ingame),
    {
        let had_menu = self.menu_open;
        self.is_terminating = true;
        self.state.time = now;
        self.menu_open = false;
        let mut actions: Vec<Action> = Vec::new();
        actions.push(Action::SaveState);
        if ingame {
            actions.push(Action::RecordPlayTime);
        }
        if had_menu {
            actions.push(Action::KillMenu);
        }
        if ingame {
            if had_menu {
                actions.push(Action::ResumeMain);
            }
            actions.push(Action::TerminateMain);
            self.main = ProcState::Absent;
        }
        actions.push(Action::Shutdown);
        proof {
            assert(actions@ =~= spec_quit_actions(*old(self), ingame));
        }
        actions
    }

    /// Fold one transition into the pressed-key map and the menu-toggle
    /// flag, returning whether the flag stood before the event.
    #[verifier::rlimit(60)]
    fn apply_transition(&mut self, ev: KeyEvent) -> (was_alone: bool)
        ensures
            *final(self) == (AlliumD {
                keys: keys_after(old(self).keys, ev),
                is_menu_pressed_alone: alone_after(old(self).is_menu_pressed_alone, ev),
                ..*old(self)
            }),
            was_alone == old(self).is_menu_pressed_alone,
    {
        let cur = *self;
        let was_alone = cur.is_menu_pressed_alone;
        let alone = match ev {
            KeyEvent::Pressed(Key::Menu) => true,
            KeyEvent::Pressed(_) => false,
            KeyEvent::Released(Key::Menu) => false,
            KeyEvent::Released(_) | KeyEvent::Autorepeat(_) => was_alone,
        };
        let mut ks = cur.keys;
        match ev {
            KeyEvent::Pressed(k) => ks.set(k, true),
            KeyEvent::Released(k) => ks.set(k, false),
            KeyEvent::Autorepeat(_) => {},
        }
        *self = AlliumD { keys: ks, is_menu_pressed_alone: alone, ..cur };
        was_alone
    }

    /// Handle one raw key transition: update the pressed-key map and the
    /// menu-toggle flag, then dispatch the gesture it classifies as.
    /// `ingame` is whether a game record exists, `has_menu` that record's
    /// menu capability.
    #[verifier::rlimit(50)]
    pub fn handle_key_event(
        &mut self,
        ev: KeyEvent,
        now: i64,
        ingame: bool,
        has_menu: bool,
    ) -> (actions: Vec<Action>)
        requires
            old(self).wf(),
            0 <= now <= MAX_TIMESTAMP,
        ensures
            final(self).wf(),
            *final(self) == spec_key_event_state(*old(self), ev, now, ingame, has_menu),
            actions@ == spec_key_event_actions(*old(self), ev, ingame, has_menu),
    {
        let was_alone = self.apply_transition(ev);
        let ghost base = AlliumD {
            keys: keys_after(old(self).keys, ev),
            is_menu_pressed_alone: alone_after(old(self).is_menu_pressed_alone, ev),
            ..*old(self)
        };
        let g = classify_event(&self.keys, ev);
        let mut actions: Vec<Action> = Vec::new();
        match g {
            Gesture::Nothing => {
                proof {
                    lemma_step_nothing(*old(self), ev, now, ingame, has_menu);
                    assert(actions@ =~= Seq::<Action>::empty());
                }
            },
            Gesture::AddVolume(dv) => {
                let a = self.add_volume(dv);
                actions.push(a);
                proof {
                    lemma_step_volume(*old(self), ev, now, ingame, has_menu, dv);
                    assert(actions@ =~= seq![a]);
                }
            },
            Gesture::AddBrightness(db) => {
                let a = self.add_brightness(db);
                actions.push(a);
                proof {
                    lemma_step_brightness(*old(self), ev, now, ingame, has_menu, db);
                    assert(actions@ =~= seq![a]);
                }
            },
            Gesture::Quit => {
                let qa = self.handle_quit(now, ingame);
                proof {
                    lemma_step_quit(*old(self), ev, now, ingame, has_menu);
                }
                return qa;
            },
            Gesture::MenuReleased => {
                if was_alone {
                    if ingame && self.keys.only_menu_held() {
                        if self.menu_open {
                            actions.push(Action::TerminateMenu);
                        } else if has_menu {
                            actions.push(Action::SuspendMain);
                            actions.push(Action::SpawnMenu);
                            self.main = ProcState::Suspended;
                            self.menu_open = true;
                        }
                    }
                }
                proof {
                    lemma_step_menu_released(*old(self), ev, now, ingame, has_menu);
                    assert(actions@ =~= spec_key_event_actions(*old(self), ev, ingame, has_menu));
                }
            },
        }
        actions
    }

    /// Handle the main process having exited, however it died (on its own,
    /// or killed from outside even while suspended). While not quitting this
    /// orders exactly one play-time recording (if in-game), clears the
    /// record, and orders exactly one respawn; the slot never stays empty,
    /// and keeps its regime (a slot that was suspended for the menu overlay
    /// stays so until the menu's own exit resumes it).
    pub fn on_main_exit(&mut self, ingame: bool) -> (actions: Vec<Action>)
        requires
            old(self).wf(),
        ensures
            final(self).wf(),
            *final(self) == *old(self),
            actions@ == spec_main_exit_actions(*old(self), ingame),
    {
        let mut actions: Vec<Action> = Vec::new();
        if !self.is_terminating {
            if ingame {
                actions.push(Action::RecordPlayTime);
            }
            actions.push(Action::ClearGameRecord);
            actions.push(Action::SpawnMain);
        }
        proof {
            assert(actions@ =~= spec_main_exit_actions(*old(self), ingame));
        }
        actions
    }

    /// Handle the menu process having exited on its own (the user closed
    /// it): clear the slot and resume the suspended main process.
    pub fn on_menu_exit(&mut self) -> (actions: Vec<Action>)
        requires
            old(self).wf(),
        ensures
            final(self).wf(),
            *final(self) == spec_menu_exit_state(*old(self)),
            actions@ == (if old(self).menu_open {
                seq![Action::ResumeMain]
            } else {
                Seq::<Action>::empty()
            }),
    {
        let mut actions: Vec<Action> = Vec::new();
        if self.menu_open {
            self.menu_open = false;
            if self.main == ProcState::Suspended {
                self.main = ProcState::Running;
            }
            actions.push(Action::ResumeMain);
        }
        actions
    }

    /// Handle an OS termination signal: run the quit sequence.
    pub fn on_term_signal(&mut self, now: i64, ingame: bool) -> (actions: Vec<Action>)
        requires
            old(self).wf(),
            0 <= now <= MAX_TIMESTAMP,
        ensures
            final(self).wf(),
            *final(self) == spec_quit_state(*old(self), now, ingame),
            actions@ == spec_quit_actions(*old(self), ingame),
    {
        self.handle_quit(now, ingame)
    }

    /// Handle the periodic battery sample: at or under the shutdown
    /// threshold and not charging, quit; otherwise nothing.
    pub fn on_battery_tick(
        &mut self,
        percentage: u8,
        charging: bool,
        now: i64,
        ingame: bool,
    ) -> (actions: Vec<Action>)
        requires
            old(self).wf(),
            0 <= now <= MAX_TIMESTAMP,
        ensures
            final(self).wf(),
            percentage <= BATTERY_SHUTDOWN_THRESHOLD && !charging ==> {
                &&& *final(self) == spec_quit_state(*old(self), now, ingame)
                &&& actions@ == spec_quit_actions(*old(self), ingame)
            },
            !(percentage <= BATTERY_SHUTDOWN_THRESHOLD && !charging) ==> {
                &&& *final(self) == *old(self)
                &&& actions@ == Seq::<Action>::empty()
            },
    {
        if percentage <= BATTERY_SHUTDOWN_THRESHOLD && !charging {
            self.handle_quit(now, ingame)
        } else {
            Vec::new()
        }
    }

    /// Handle the auto-sleep timeout (the loop has already re-armed the
    /// timer): with the battery reading refreshed, quit unless charging.
    pub fn on_auto_sleep_timeout(
        &mut self,
        charging: bool,
        now: i64,
        ingame: bool,
    ) -> (actions: Vec<Action>)
        requires
            old(self).wf(),
            0 <= now <= MAX_TIMESTAMP,
        ensures
            final(self).wf(),
            !charging ==> {
                &&& *final(self) == spec_quit_state(*old(self), now, ingame)
                &&& actions@ == spec_quit_actions(*old(self), ingame)
            },
            charging ==> *final(self) == *old(self) && actions@ == Seq::<Action>::empty(),
    {
        if !charging {
            self.handle_quit(now, ingame)
        } else {
            Vec::new()
        }
    }
}


/// A transition classified as no gesture only updates the key map and the
/// menu-toggle flag.
proof fn lemma_step_nothing(d: AlliumD, ev: KeyEvent, now: i64, ingame: bool, has_menu: bool)
    requires
        classify(keys_after(d.keys, ev), ev) == Gesture::Nothing,
    ensures
        spec_key_event_state(d, ev, now, ingame, has_menu) == (AlliumD {
            keys: keys_after(d.keys, ev),
            is_menu_pressed_alone: alone_after(d.is_menu_pressed_alone, ev),
            ..d
        }),
        spec_key_event_actions(d, ev, ingame, has_menu) == Seq::<Action>::empty(),
{
    reveal(spec_key_event_state);
    reveal(spec_key_event_actions);
}

/// A volume gesture clamps the new volume and orders exactly its hardware
/// write.
proof fn lemma_step_volume(
    d: AlliumD,
    ev: KeyEvent,
    now: i64,
    ingame: bool,
    has_menu: bool,
    dv: i32,
)
    requires
        classify(keys_after(d.keys, ev), ev) == Gesture::AddVolume(dv),
    ensures
        spec_key_event_state(d, ev, now, ingame, has_menu) == (AlliumD {
            keys: keys_after(d.keys, ev),
            is_menu_pressed_alone: alone_after(d.is_menu_pressed_alone, ev),
            state: (AlliumDState { volume: clamp_volume(d.state.volume + dv) as i32, ..d.state }),
            ..d
        }),
        spec_key_event_actions(d, ev, ingame, has_menu) == seq![
            Action::SetVolume(clamp_volume(d.state.volume + dv) as i32),
        ],
{
    reveal(spec_key_event_state);
    reveal(spec_key_event_actions);
}

/// A brightness gesture clamps the new brightness and orders exactly its
/// hardware write.
proof fn lemma_step_brightness(
    d: AlliumD,
    ev: KeyEvent,
    now: i64,
    ingame: bool,
    has_menu: bool,
    db: i32,
)
    requires
        classify(keys_after(d.keys, ev), ev) == Gesture::AddBrightness(db),
    ensures
        spec_key_event_state(d, ev, now, ingame, has_menu) == (AlliumD {
            keys: keys_after(d.keys, ev),
            is_menu_pressed_alone: alone_after(d.is_menu_pressed_alone, ev),
            state: (AlliumDState {
                brightness: clamp_brightness(d.state.brightness + db) as u8,
                ..d.state
            }),
            ..d
        }),
        spec_key_event_actions(d, ev, ingame, has_menu) == seq![
            Action::SetBrightness(clamp_brightness(d.state.brightness + db) as u8),
        ],
{
    reveal(spec_key_event_state);
    reveal(spec_key_event_actions);
}

/// A held Power key runs the quit sequence on the updated recognizer state;
/// the actions it orders depend only on fields the key update leaves alone.
proof fn lemma_step_quit(d: AlliumD, ev: KeyEvent, now: i64, ingame: bool, has_menu: bool)
    requires
        classify(keys_after(d.keys, ev), ev) == Gesture::Quit,
    ensures
        spec_key_event_state(d, ev, now, ingame, has_menu) == spec_quit_state(
            AlliumD {
                keys: keys_after(d.keys, ev),
                is_menu_pressed_alone: alone_after(d.is_menu_pressed_alone, ev),
                ..d
            },
            now,
            ingame,
        ),
        spec_quit_actions(
            AlliumD {
                keys: keys_after(d.keys, ev),
                is_menu_pressed_alone: alone_after(d.is_menu_pressed_alone, ev),
                ..d
            },
            ingame,
        ) == spec_quit_actions(d, ingame),
        spec_key_event_actions(d, ev, ingame, has_menu) == spec_quit_actions(d, ingame),
{
    reveal(spec_key_event_state);
    reveal(spec_key_event_actions);
}

/// Releasing Menu fires the toggle exactly when Menu was pressed alone, a
/// game is running, and no other key is now held: it terminates an open
/// menu, or suspends main and spawns the menu where the game offers one.
proof fn lemma_step_menu_released(d: AlliumD, ev: KeyEvent, now: i64, ingame: bool, has_menu: bool)
    requires
        classify(keys_after(d.keys, ev), ev) == Gesture::MenuReleased,
    ensures
        ({
            let keys = keys_after(d.keys, ev);
            let fires = d.is_menu_pressed_alone && ingame && keys.spec_only_menu_held();
            &&& spec_key_event_state(d, ev, now, ingame, has_menu) == (if fires && !d.menu_open
                && has_menu {
                AlliumD {
                    keys: keys,
                    is_menu_pressed_alone: false,
                    main: ProcState::Suspended,
                    menu_open: true,
                    ..d
                }
            } else {
                AlliumD { keys: keys, is_menu_pressed_alone: false, ..d }
            })
            &&& spec_key_event_actions(d, ev, ingame, has_menu) == (if fires {
                if d.menu_open {
                    seq![Action::TerminateMenu]
                } else if has_menu {
                    seq![Action::SuspendMain, Action::SpawnMenu]
                } else {
                    Seq::<Action>::empty()
                }
            } else {
                Seq::<Action>::empty()
            })
        }),
{
    reveal(spec_key_event_state);
    reveal(spec_key_event_actions);
    assert(ev == KeyEvent::Released(Key::Menu));
}

/// How many times `a` occurs in `s`.
pub open spec fn count_action(s: Seq<Action>, a: Action) -> int
    decreases s.len(),
{
    if s.len() == 0 {
        0
    } else {
        count_action(s.drop_last(), a) + if s.last() == a {
            1int
        } else {
            0int
        }
    }
}

/// Any volume step from any starting point lands in `[0, 20]`; likewise
/// brightness in `[0, 100]`: no sequence of adjustments can escape the
/// ranges.
pub proof fn lemma_settings_stay_clamped(v: int, b: int, dv: int, db: int)
    ensures
        0 <= clamp_volume(v + dv) <= 20,
        0 <= clamp_brightness(b + db) <= 100,
{
}

/// Volume after a whole sequence of adjustments, each applied clamped —
/// exactly the step every volume gesture performs.
pub open spec fn volume_after_adds(v: int, deltas: Seq<int>) -> int
    decreases deltas.len(),
{
    if deltas.len() == 0 {
        v
    } else {
        clamp_volume(volume_after_adds(v, deltas.drop_last()) + deltas.last())
    }
}

/// Brightness after a whole sequence of adjustments, each applied clamped.
pub open spec fn brightness_after_adds(b: int, deltas: Seq<int>) -> int
    decreases deltas.len(),
{
    if deltas.len() == 0 {
        b
    } else {
        clamp_brightness(brightness_after_adds(b, deltas.drop_last()) + deltas.last())
    }
}

/// The sequence form of the clamp law: from any starting values, any
/// non-empty sequence of adjustments leaves volume in `[0, 20]` and
/// brightness in `[0, 100]`.
pub proof fn lemma_settings_sequence_bounded(v: int, b: int, deltas: Seq<int>)
    requires
        deltas.len() > 0,
    ensures
        0 <= volume_after_adds(v, deltas) <= 20,
        0 <= brightness_after_adds(b, deltas) <= 100,
{
}

/// The overlay law: until the quit sequence begins, a menu process existing
/// means the main process is suspended, and no menu means main is running.
pub proof fn lemma_menu_suspends_main(d: AlliumD)
    requires
        d.wf(),
        !d.is_terminating,
    ensures
        d.menu_open ==> d.main == ProcState::Suspended,
        !d.menu_open ==> d.main == ProcState::Running,
{
}

/// The respawn law: an unexpected main-process exit while not quitting
/// orders exactly one respawn, and exactly one play-time recording when a
/// game was running.
pub proof fn lemma_main_exit_respawns_once(d: AlliumD, ingame: bool)
    requires
        !d.is_terminating,
    ensures
        count_action(spec_main_exit_actions(d, ingame), Action::SpawnMain) == 1,
        count_action(spec_main_exit_actions(d, ingame), Action::RecordPlayTime) == if ingame {
            1int
        } else {
            0int
        },
{
    reveal_with_fuel(count_action, 5);
    let s = spec_main_exit_actions(d, ingame);
    if ingame {
        assert(s =~= seq![Action::RecordPlayTime, Action::ClearGameRecord, Action::SpawnMain]);
        assert(s.drop_last() =~= seq![Action::RecordPlayTime, Action::ClearGameRecord]);
        assert(s.drop_last().drop_last() =~= seq![Action::RecordPlayTime]);
        assert(s.drop_last().drop_last().drop_last() =~= Seq::<Action>::empty());
    } else {
        assert(s =~= seq![Action::ClearGameRecord, Action::SpawnMain]);
        assert(s.drop_last() =~= seq![Action::ClearGameRecord]);
        assert(s.drop_last().drop_last() =~= Seq::<Action>::empty());
    }
}


/// The quit-sequence law: every quit path saves the state first and powers
/// the device down last, whatever else lies between.
pub proof fn lemma_quit_saves_before_shutdown(d: AlliumD, ingame: bool)
    ensures
        0 < spec_quit_actions(d, ingame).len(),
        spec_quit_actions(d, ingame).first() == Action::SaveState,
        spec_quit_actions(d, ingame).last() == Action::Shutdown,
{
    let s = spec_quit_actions(d, ingame);
    if ingame {
        if d.menu_open {
            assert(s =~= seq![
                Action::SaveState,
                Action::RecordPlayTime,
                Action::KillMenu,
                Action::ResumeMain,
                Action::TerminateMain,
                Action::Shutdown,
            ]);
        } else {
            assert(s =~= seq![
                Action::SaveState,
                Action::RecordPlayTime,
                Action::TerminateMain,
                Action::Shutdown,
            ]);
        }
    } else {
        if d.menu_open {
            assert(s =~= seq![Action::SaveState, Action::KillMenu, Action::Shutdown]);
        } else {
            assert(s =~= seq![Action::SaveState, Action::Shutdown]);
        }
    }
}

} // verus!
