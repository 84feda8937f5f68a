use alliumd::daemon::{Action, AlliumD, ProcState};
use alliumd::game::{play_time, spawn_plan, GameRecord, LaunchTarget};
use alliumd::input::{Key, KeyEvent};
use alliumd::state::AlliumDState;

const NOW: i64 = 1_800_000_000;

fn boot() -> AlliumD {
    let state = AlliumDState { time: 1_700_000_000, volume: 10, brightness: 50 };
    AlliumD::new(state)
}

#[test]
fn menu_alone_flag_follows_presses() {
    let mut d = boot();
    d.handle_key_event(KeyEvent::Pressed(Key::Menu), NOW, false, false);
    assert!(d.is_menu_pressed_alone);
    d.handle_key_event(KeyEvent::Pressed(Key::A), NOW, false, false);
    assert!(!d.is_menu_pressed_alone);
    d.handle_key_event(KeyEvent::Released(Key::A), NOW, false, false);
    d.handle_key_event(KeyEvent::Pressed(Key::Menu), NOW, false, false);
    assert!(d.is_menu_pressed_alone);
    d.handle_key_event(KeyEvent::Released(Key::Menu), NOW, false, false);
    assert!(!d.is_menu_pressed_alone);
}

#[test]
fn menu_release_alone_opens_menu_and_suspends_main() {
    let mut d = boot();
    let a1 = d.handle_key_event(KeyEvent::Pressed(Key::Menu), NOW, true, true);
    assert!(a1.is_empty());
    let a2 = d.handle_key_event(KeyEvent::Released(Key::Menu), NOW, true, true);
    assert_eq!(a2, vec![Action::SuspendMain, Action::SpawnMenu]);
    assert!(d.menu_open);
    assert_eq!(d.main, ProcState::Suspended);
}

#[test]
fn other_key_breaks_the_alone_condition() {
    let mut d = boot();
    d.handle_key_event(KeyEvent::Pressed(Key::Menu), NOW, true, true);
    // VolUp while Menu is held adjusts brightness, not the menu
    let a = d.handle_key_event(KeyEvent::Pressed(Key::VolUp), NOW, true, true);
    assert_eq!(a, vec![Action::SetBrightness(55)]);
    let a = d.handle_key_event(KeyEvent::Released(Key::Menu), NOW, true, true);
    assert!(a.is_empty());
    assert!(!d.menu_open);
    assert_eq!(d.main, ProcState::Running);
}

#[test]
fn menu_release_without_menu_capability_is_a_no_op() {
    let mut d = boot();
    d.handle_key_event(KeyEvent::Pressed(Key::Menu), NOW, true, false);
    let a = d.handle_key_event(KeyEvent::Released(Key::Menu), NOW, true, false);
    assert!(a.is_empty());
    assert!(!d.menu_open);
    assert_eq!(d.main, ProcState::Running);
}

#[test]
fn menu_release_toggles_open_menu_closed() {
    let mut d = boot();
    d.handle_key_event(KeyEvent::Pressed(Key::Menu), NOW, true, true);
    d.handle_key_event(KeyEvent::Released(Key::Menu), NOW, true, true);
    assert!(d.menu_open);
    d.handle_key_event(KeyEvent::Pressed(Key::Menu), NOW, true, true);
    let a = d.handle_key_event(KeyEvent::Released(Key::Menu), NOW, true, true);
    assert_eq!(a, vec![Action::TerminateMenu]);
    // the slot clears when the menu's exit is observed
    assert!(d.menu_open);
    let a = d.on_menu_exit();
    assert_eq!(a, vec![Action::ResumeMain]);
    assert!(!d.menu_open);
    assert_eq!(d.main, ProcState::Running);
}

#[test]
fn volume_stays_clamped_over_any_sequence() {
    let mut d = boot();
    for _ in 0..40 {
        d.handle_key_event(KeyEvent::Autorepeat(Key::VolUp), NOW, false, false);
        assert!(0 <= d.state.volume && d.state.volume <= 20);
    }
    assert_eq!(d.state.volume, 20);
    let a = d.handle_key_event(KeyEvent::Autorepeat(Key::VolUp), NOW, false, false);
    assert_eq!(a, vec![Action::SetVolume(20)]);
    for _ in 0..60 {
        d.handle_key_event(KeyEvent::Autorepeat(Key::VolDown), NOW, false, false);
        assert!(0 <= d.state.volume && d.state.volume <= 20);
    }
    assert_eq!(d.state.volume, 0);
}

#[test]
fn brightness_chords_stay_clamped() {
    let mut d = boot();
    d.handle_key_event(KeyEvent::Pressed(Key::Start), NOW, false, false);
    for _ in 0..30 {
        d.handle_key_event(KeyEvent::Autorepeat(Key::R2), NOW, false, false);
        assert!(d.state.brightness <= 100);
    }
    assert_eq!(d.state.brightness, 100);
    for _ in 0..30 {
        d.handle_key_event(KeyEvent::Autorepeat(Key::L2), NOW, false, false);
        assert!(d.state.brightness <= 100);
    }
    assert_eq!(d.state.brightness, 0);
}

#[test]
fn select_chord_adjusts_volume() {
    let mut d = boot();
    d.handle_key_event(KeyEvent::Pressed(Key::Select), NOW, false, false);
    let a = d.handle_key_event(KeyEvent::Pressed(Key::R2), NOW, false, false);
    assert_eq!(a, vec![Action::SetVolume(11)]);
    let a = d.handle_key_event(KeyEvent::Pressed(Key::L2), NOW, false, false);
    assert_eq!(a, vec![Action::SetVolume(10)]);
}

#[test]
fn power_autorepeat_quits_regardless_of_held_keys() {
    let mut d = boot();
    d.handle_key_event(KeyEvent::Pressed(Key::A), NOW, false, false);
    d.handle_key_event(KeyEvent::Pressed(Key::Start), NOW, false, false);
    let a = d.handle_key_event(KeyEvent::Autorepeat(Key::Power), NOW, false, false);
    assert_eq!(a, vec![Action::SaveState, Action::Shutdown]);
    assert!(d.is_terminating);
    assert_eq!(d.state.time, NOW);
}

#[test]
fn quit_while_ingame_with_menu_runs_full_sequence() {
    let mut d = boot();
    d.handle_key_event(KeyEvent::Pressed(Key::Menu), NOW, true, true);
    d.handle_key_event(KeyEvent::Released(Key::Menu), NOW, true, true);
    assert!(d.menu_open);
    let a = d.on_term_signal(NOW, true);
    assert_eq!(
        a,
        vec![
            Action::SaveState,
            Action::RecordPlayTime,
            Action::KillMenu,
            Action::ResumeMain,
            Action::TerminateMain,
            Action::Shutdown,
        ]
    );
    assert!(d.is_terminating);
    assert!(!d.menu_open);
    assert_eq!(d.main, ProcState::Absent);
}

#[test]
fn battery_at_threshold_quits_once_with_save_before_shutdown() {
    let mut d = boot();
    let a = d.on_battery_tick(5, false, NOW, false);
    assert_eq!(a, vec![Action::SaveState, Action::Shutdown]);
    assert_eq!(a.iter().filter(|x| **x == Action::Shutdown).count(), 1);
    let save_at = a.iter().position(|x| *x == Action::SaveState).unwrap();
    let shutdown_at = a.iter().position(|x| *x == Action::Shutdown).unwrap();
    assert!(save_at < shutdown_at);
    assert!(d.is_terminating);
}

#[test]
fn battery_above_threshold_or_charging_does_nothing() {
    let mut d = boot();
    let a = d.on_battery_tick(50, false, NOW, false);
    assert!(a.is_empty());
    let a = d.on_battery_tick(5, true, NOW, false);
    assert!(a.is_empty());
    assert!(!d.is_terminating);
}

#[test]
fn auto_sleep_quits_unless_charging() {
    let mut d = boot();
    let a = d.on_auto_sleep_timeout(true, NOW, false);
    assert!(a.is_empty());
    assert!(!d.is_terminating);
    let a = d.on_auto_sleep_timeout(false, NOW, false);
    assert_eq!(a, vec![Action::SaveState, Action::Shutdown]);
    assert!(d.is_terminating);
}

#[test]
fn main_exit_respawns_exactly_once() {
    let mut d = boot();
    let a = d.on_main_exit(true);
    assert_eq!(
        a,
        vec![Action::RecordPlayTime, Action::ClearGameRecord, Action::SpawnMain]
    );
    assert_eq!(a.iter().filter(|x| **x == Action::SpawnMain).count(), 1);
    assert_eq!(a.iter().filter(|x| **x == Action::RecordPlayTime).count(), 1);
    let a = d.on_main_exit(false);
    assert_eq!(a, vec![Action::ClearGameRecord, Action::SpawnMain]);
}

#[test]
fn main_exit_while_quitting_does_nothing() {
    let mut d = boot();
    d.on_term_signal(NOW, false);
    let a = d.on_main_exit(false);
    assert!(a.is_empty());
}

#[test]
fn menu_exit_when_no_menu_is_benign() {
    let mut d = boot();
    let a = d.on_menu_exit();
    assert!(a.is_empty());
    assert_eq!(d.main, ProcState::Running);
}

#[test]
fn spawn_plan_resumes_game_or_launches_launcher() {
    let g = GameRecord { path: String::from("roms/example.gba"), start_time: 5, has_menu: true };
    match spawn_plan(Some(g), NOW) {
        LaunchTarget::Game(g2) => {
            assert_eq!(g2.path, "roms/example.gba");
            assert_eq!(g2.start_time, NOW);
            assert!(g2.has_menu);
        },
        LaunchTarget::Launcher => panic!("expected the recorded game"),
    }
    match spawn_plan(None, NOW) {
        LaunchTarget::Launcher => {},
        LaunchTarget::Game(_) => panic!("expected the launcher"),
    }
}

#[test]
fn play_time_is_elapsed_seconds_floored_at_zero() {
    assert_eq!(play_time(1_700_000_000, 1_700_000_090), 90);
    assert_eq!(play_time(NOW, NOW), 0);
    // a session start recorded ahead of the clock counts as no time played
    assert_eq!(play_time(NOW + 100, NOW), 0);
}
