//! The tray icon mode: a process-wide three-valued state toggled by a menu
//! action, selecting which icon asset the host tray displays.

use vstd::prelude::*;

verus! {

/// Mode of the tray icon. The toggle action moves between `NotPlaying` and
/// `Playing`; `Paused` is a declared value with no transition into or out of
/// it, so a toggle leaves it unchanged.
#[derive(Clone, Copy, PartialEq, Eq, Structural, Debug)]
pub enum TrayState {
    NotPlaying,
    Paused,
    Playing,
}

/// Icon asset the host tray is asked to display: `Active` when playback
/// starts, `Inactive` when it stops.
#[derive(Clone, Copy, PartialEq, Eq, Structural, Debug)]
pub enum IconAsset {
    Active,
    Inactive,
}

/// The mode after one toggle action: `NotPlaying` and `Playing` swap,
/// `Paused` stays.
pub open spec fn spec_toggled(m: TrayState) -> TrayState {
    match m {
        TrayState::NotPlaying => TrayState::Playing,
        TrayState::Playing => TrayState::NotPlaying,
        TrayState::Paused => TrayState::Paused,
    }
}

/// The icon-asset swap a toggle from mode `m` requests of the host tray:
/// exactly one request when the mode changes, none on the `Paused` no-op.
pub open spec fn spec_icon_request(m: TrayState) -> Option<IconAsset> {
    match m {
        TrayState::NotPlaying => Some(IconAsset::Active),
        TrayState::Playing => Some(IconAsset::Inactive),
        TrayState::Paused => None,
    }
}

/// One toggle step: the new mode together with the icon-asset swap to
/// request of the host tray (none when the mode did not change).
pub fn toggle_step(mode: TrayState) -> (r: (TrayState, Option<IconAsset>))
    ensures
        r.0 == spec_toggled(mode),
        r.1 == spec_icon_request(mode),
{
    match mode {
        TrayState::NotPlaying => (TrayState::Playing, Some(IconAsset::Active)),
        TrayState::Playing => (TrayState::NotPlaying, Some(IconAsset::Inactive)),
        TrayState::Paused => (TrayState::Paused, None),
    }
}

/// The mode after `n` toggle actions from `init`.
pub open spec fn spec_mode_after_toggles(init: TrayState, n: nat) -> TrayState
    decreases n,
{
    if n == 0 {
        init
    } else {
        spec_toggled(spec_mode_after_toggles(init, (n - 1) as nat))
    }
}

/// A toggle never moves any mode into `Paused`: only `Paused` itself maps
/// to `Paused`.
pub proof fn lemma_paused_unreachable(m: TrayState)
    ensures
        spec_toggled(m) == TrayState::Paused ==> m == TrayState::Paused,
{
}

/// Law: from a non-`Paused` mode, any number of toggles alternates strictly
/// between `NotPlaying` and `Playing`; the sequence never enters `Paused`
/// and consecutive modes always differ.
pub proof fn lemma_toggle_alternates(init: TrayState, n: nat)
    requires
        init != TrayState::Paused,
    ensures
        spec_mode_after_toggles(init, n) != TrayState::Paused,
        spec_mode_after_toggles(init, n + 1) != spec_mode_after_toggles(init, n),
    decreases n,
{
    if n > 0 {
        lemma_toggle_alternates(init, (n - 1) as nat);
    }
}

/// Toggling can be peeled from either end: `n` toggles from `init` are one
/// toggle and then `n - 1` toggles from the toggled mode.
pub proof fn lemma_toggles_shift(init: TrayState, n: nat)
    requires
        n > 0,
    ensures
        spec_mode_after_toggles(init, n) == spec_mode_after_toggles(
            spec_toggled(init),
            (n - 1) as nat,
        ),
    decreases n,
{
    reveal_with_fuel(spec_mode_after_toggles, 3);
    if n > 1 {
        lemma_toggles_shift(init, (n - 1) as nat);
    }
}

/// Law: toggles serialize by count alone. Whatever order `n` toggle steps
/// are applied in, the final mode is the one after `n` serialized toggles:
/// the initial mode for even `n`, the toggled mode for odd `n`.
pub proof fn lemma_toggles_serialize(init: TrayState, n: nat)
    ensures
        spec_mode_after_toggles(init, n) == if n % 2 == 0 {
            init
        } else {
            spec_toggled(init)
        },
    decreases n,
{
    if n > 0 {
        lemma_toggles_serialize(init, (n - 1) as nat);
    }
}

} // verus!
