use sys_tray::state_cell::TrayStateCell;
use sys_tray::tray_state::IconAsset;
use sys_tray::tray_state::TrayState;
use sys_tray::tray_state::toggle_step;

#[test]
fn toggle_from_not_playing_activates() {
    let (mode, request) = toggle_step(TrayState::NotPlaying);
    assert_eq!(mode, TrayState::Playing);
    assert_eq!(request, Some(IconAsset::Active));
}

#[test]
fn toggle_from_playing_deactivates() {
    let (mode, request) = toggle_step(TrayState::Playing);
    assert_eq!(mode, TrayState::NotPlaying);
    assert_eq!(request, Some(IconAsset::Inactive));
}

#[test]
fn toggle_from_paused_is_noop() {
    let (mode, request) = toggle_step(TrayState::Paused);
    assert_eq!(mode, TrayState::Paused);
    assert_eq!(request, None);
}

#[test]
fn double_toggle_returns_and_swaps_twice() {
    let (mode1, request1) = toggle_step(TrayState::NotPlaying);
    let (mode2, request2) = toggle_step(mode1);
    assert_eq!(mode2, TrayState::NotPlaying);
    let swaps = [request1, request2];
    assert!(swaps.iter().all(|r| r.is_some()));
    assert_eq!(swaps[0], Some(IconAsset::Active));
    assert_eq!(swaps[1], Some(IconAsset::Inactive));
}

#[test]
fn toggles_never_enter_paused() {
    let mut mode = TrayState::NotPlaying;
    for _ in 0..7 {
        let prev = mode;
        let (next, _) = toggle_step(mode);
        assert_ne!(next, TrayState::Paused);
        assert_ne!(next, prev);
        mode = next;
    }
    assert_eq!(mode, TrayState::Playing);
}

#[test]
fn cell_toggle_is_one_step() {
    let cell = TrayStateCell::new(TrayState::NotPlaying);
    assert_eq!(cell.read(), TrayState::NotPlaying);
    let (prev, next, request) = cell.toggle_icon_state();
    assert_eq!(prev, TrayState::NotPlaying);
    assert_eq!(next, TrayState::Playing);
    assert_eq!(request, Some(IconAsset::Active));
    assert_eq!(cell.read(), TrayState::Playing);
}

#[test]
fn cell_n_toggles_end_by_parity() {
    let even_cell = TrayStateCell::new(TrayState::NotPlaying);
    for _ in 0..4 {
        even_cell.toggle_icon_state();
    }
    assert_eq!(even_cell.read(), TrayState::NotPlaying);

    let odd_cell = TrayStateCell::new(TrayState::NotPlaying);
    for _ in 0..5 {
        odd_cell.toggle_icon_state();
    }
    assert_eq!(odd_cell.read(), TrayState::Playing);
}

#[test]
fn cell_keeps_paused() {
    let cell = TrayStateCell::new(TrayState::Paused);
    let (prev, next, request) = cell.toggle_icon_state();
    assert_eq!(prev, TrayState::Paused);
    assert_eq!(next, TrayState::Paused);
    assert_eq!(request, None);
}
