use shortcut_registry::callback::Callback;
use shortcut_registry::config::Config;
use shortcut_registry::effect::Effect;

const TV: [u8; 6] = [0xAA, 0xBB, 0xCC, 0xDD, 0xEE, 0xFF];

fn config() -> Config {
    Config { screen_dir: "C:\\shots".to_string(), tv_mac_addr: TV }
}

/// Runs a callback to its end the way a host does, with a stand-in for the
/// desktop that only records what it is asked to do. `fails` tells which
/// effects the stand-in reports as failed.
fn drive(callback: Callback, config: &Config, fails: fn(&Effect) -> bool) -> Vec<Effect> {
    let mut performed = Vec::new();
    let mut outcomes = Vec::new();
    while let Some(effect) = callback.next_effect(config, &outcomes) {
        outcomes.push(!fails(&effect));
        performed.push(effect);
        assert!(performed.len() <= 16, "a run must come to an end");
    }
    performed
}

fn count(performed: &[Effect], wanted: &Effect) -> usize {
    performed.iter().filter(|e| *e == wanted).count()
}

fn nothing_fails(_: &Effect) -> bool {
    false
}

fn everything_fails(_: &Effect) -> bool {
    true
}

fn wake_fails(effect: &Effect) -> bool {
    matches!(effect, Effect::SendWake { .. })
}

fn all_but_wake_fail(effect: &Effect) -> bool {
    !matches!(effect, Effect::SendWake { .. })
}

#[test]
fn tv_switch_does_nothing_more_when_wake_fails() {
    let performed = drive(Callback::SwitchToTv, &config(), wake_fails);
    assert_eq!(performed, vec![Effect::SendWake { mac: TV }]);
    assert_eq!(count(&performed, &Effect::SetExternalDisplay), 0);
    assert_eq!(count(&performed, &Effect::DisableNightLight), 0);
}

#[test]
fn tv_switch_switches_display_then_night_light_when_wake_succeeds() {
    let performed = drive(Callback::SwitchToTv, &config(), nothing_fails);
    assert_eq!(
        performed,
        vec![Effect::SendWake { mac: TV }, Effect::SetExternalDisplay, Effect::DisableNightLight]
    );
    assert_eq!(count(&performed, &Effect::SetExternalDisplay), 1);
    assert_eq!(count(&performed, &Effect::DisableNightLight), 1);
    let display = performed.iter().position(|e| *e == Effect::SetExternalDisplay).unwrap();
    let night = performed.iter().position(|e| *e == Effect::DisableNightLight).unwrap();
    assert!(display < night);
}

#[test]
fn tv_switch_is_guarded_by_the_wake_packet_alone() {
    let performed = drive(Callback::SwitchToTv, &config(), all_but_wake_fail);
    assert_eq!(
        performed,
        vec![Effect::SendWake { mac: TV }, Effect::SetExternalDisplay, Effect::DisableNightLight]
    );
}

#[test]
fn tv_switch_step_by_step() {
    let cfg = config();
    let tv = Callback::SwitchToTv;
    assert_eq!(tv.next_effect(&cfg, &[]), Some(Effect::SendWake { mac: TV }));
    assert_eq!(tv.next_effect(&cfg, &[false]), None);
    assert_eq!(tv.next_effect(&cfg, &[true]), Some(Effect::SetExternalDisplay));
    assert_eq!(tv.next_effect(&cfg, &[true, true]), Some(Effect::DisableNightLight));
    assert_eq!(tv.next_effect(&cfg, &[true, false]), Some(Effect::DisableNightLight));
    assert_eq!(tv.next_effect(&cfg, &[false, true]), None);
    assert_eq!(tv.next_effect(&cfg, &[true, true, true]), None);
    assert_eq!(tv.next_effect(&cfg, &[true, true, false]), None);
}

#[test]
fn tv_switch_wakes_the_configured_address() {
    let cfg = Config { screen_dir: String::new(), tv_mac_addr: [1, 2, 3, 4, 5, 6] };
    assert_eq!(
        Callback::SwitchToTv.next_effect(&cfg, &[]),
        Some(Effect::SendWake { mac: [1, 2, 3, 4, 5, 6] })
    );
}

#[test]
fn monitor_switch_selects_internal_display_exactly_once() {
    let other = Config { screen_dir: "D:\\elsewhere".to_string(), tv_mac_addr: [0; 6] };
    for cfg in [config(), other] {
        for fails in [nothing_fails as fn(&Effect) -> bool, everything_fails] {
            let performed = drive(Callback::SwitchToMonitor, &cfg, fails);
            assert_eq!(performed, vec![Effect::SetInternalDisplay]);
            assert_eq!(count(&performed, &Effect::SetInternalDisplay), 1);
        }
    }
}

#[test]
fn reset_clears_clipboard_before_restarting_the_shell() {
    for fails in [nothing_fails as fn(&Effect) -> bool, everything_fails] {
        let performed = drive(Callback::ResetExplorer, &config(), fails);
        assert_eq!(performed, vec![Effect::ClearClipboard, Effect::KillExplorer]);
        let clear = performed.iter().position(|e| *e == Effect::ClearClipboard).unwrap();
        let kill = performed.iter().position(|e| *e == Effect::KillExplorer).unwrap();
        assert!(clear < kill);
    }
}

#[test]
fn diagnostic_shows_the_configured_directory() {
    let performed = drive(Callback::ShowScreenDir, &config(), nothing_fails);
    assert_eq!(performed, vec![Effect::Alert { text: "C:\\shots".to_string() }]);
}

#[test]
fn capture_writes_into_the_configured_directory() {
    for fails in [nothing_fails as fn(&Effect) -> bool, everything_fails] {
        let performed = drive(Callback::CaptureScreen, &config(), fails);
        assert_eq!(performed, vec![Effect::CapturePrimary { dir: "C:\\shots".to_string() }]);
    }
}

#[test]
fn close_top_window_asks_once() {
    let performed = drive(Callback::CloseTopWindow, &config(), nothing_fails);
    assert_eq!(performed, vec![Effect::CloseTopWindow]);
}

#[test]
fn a_finished_run_asks_for_nothing_more() {
    let cfg = config();
    assert_eq!(Callback::ShowScreenDir.next_effect(&cfg, &[true]), None);
    assert_eq!(Callback::CaptureScreen.next_effect(&cfg, &[false]), None);
    assert_eq!(Callback::SwitchToMonitor.next_effect(&cfg, &[true, true]), None);
    assert_eq!(Callback::ResetExplorer.next_effect(&cfg, &[true, true]), None);
    assert_eq!(Callback::ResetExplorer.next_effect(&cfg, &[false, false, false, false]), None);
    assert_eq!(Callback::CloseTopWindow.next_effect(&cfg, &[true]), None);
    assert_eq!(Callback::SwitchToTv.next_effect(&cfg, &[true, true, true, true, true]), None);
}

#[test]
fn scripts_list_every_effect_in_order() {
    let cfg = config();
    assert_eq!(
        Callback::ShowScreenDir.script_of(&cfg),
        vec![Effect::Alert { text: "C:\\shots".to_string() }]
    );
    assert_eq!(
        Callback::CaptureScreen.script_of(&cfg),
        vec![Effect::CapturePrimary { dir: "C:\\shots".to_string() }]
    );
    assert_eq!(
        Callback::SwitchToTv.script_of(&cfg),
        vec![Effect::SendWake { mac: TV }, Effect::SetExternalDisplay, Effect::DisableNightLight]
    );
    assert_eq!(Callback::SwitchToMonitor.script_of(&cfg), vec![Effect::SetInternalDisplay]);
    assert_eq!(
        Callback::ResetExplorer.script_of(&cfg),
        vec![Effect::ClearClipboard, Effect::KillExplorer]
    );
    assert_eq!(Callback::CloseTopWindow.script_of(&cfg), vec![Effect::CloseTopWindow]);
}

#[test]
fn a_run_with_no_failure_performs_the_whole_script() {
    let cfg = config();
    for callback in [
        Callback::ShowScreenDir,
        Callback::CaptureScreen,
        Callback::SwitchToTv,
        Callback::SwitchToMonitor,
        Callback::ResetExplorer,
        Callback::CloseTopWindow,
    ] {
        assert_eq!(drive(callback, &cfg, nothing_fails), callback.script_of(&cfg));
    }
}

#[test]
fn only_the_wake_packet_is_a_guard() {
    assert!(Effect::SendWake { mac: TV }.is_guard());
    for effect in [
        Effect::Alert { text: "x".to_string() },
        Effect::CapturePrimary { dir: "x".to_string() },
        Effect::SetExternalDisplay,
        Effect::DisableNightLight,
        Effect::SetInternalDisplay,
        Effect::ClearClipboard,
        Effect::KillExplorer,
        Effect::CloseTopWindow,
    ] {
        assert!(!effect.is_guard());
    }
}

#[test]
fn only_the_display_switches_are_detached() {
    assert!(Callback::SwitchToTv.is_detached());
    assert!(Callback::SwitchToMonitor.is_detached());
    assert!(!Callback::ShowScreenDir.is_detached());
    assert!(!Callback::CaptureScreen.is_detached());
    assert!(!Callback::ResetExplorer.is_detached());
    assert!(!Callback::CloseTopWindow.is_detached());
}
