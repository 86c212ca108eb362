use ore_app::ui_state::{
    next_cursor_visible, spinner_update_mode, AirdropButton, AirdropButtonEvent, ButtonInteraction, ButtonLook,
    UpdateMode, FAST_WAIT_NANOS, REGULAR_WAIT_NANOS,
};

#[test]
fn airdrop_one_request_per_cooldown() {
    let mut b = AirdropButton { cooling_down: false };
    let e = b.step(AirdropButtonEvent::Interaction(ButtonInteraction::Pressed));
    assert!(e.request_airdrop);
    assert_eq!(e.spinner_visible, Some(true));
    assert_eq!(e.look, Some(ButtonLook::Pressed));
    assert!(b.cooling_down);
    let e = b.step(AirdropButtonEvent::Interaction(ButtonInteraction::Pressed));
    assert!(!e.request_airdrop);
    assert_eq!(e.look, Some(ButtonLook::Pressed));
    let e = b.step(AirdropButtonEvent::Interaction(ButtonInteraction::Hovered));
    assert_eq!(e.look, None);
    let e = b.step(AirdropButtonEvent::CooldownElapsed);
    assert_eq!((e.look, e.spinner_visible), (Some(ButtonLook::Normal), Some(false)));
    assert!(!b.cooling_down);
    let e = b.step(AirdropButtonEvent::Interaction(ButtonInteraction::Pressed));
    assert!(e.request_airdrop);
}

#[test]
fn airdrop_hover_and_idle_colours() {
    let mut b = AirdropButton { cooling_down: false };
    assert_eq!(b.step(AirdropButtonEvent::Interaction(ButtonInteraction::Hovered)).look, Some(ButtonLook::Hovered));
    assert_eq!(b.step(AirdropButtonEvent::Interaction(ButtonInteraction::Idle)).look, Some(ButtonLook::Normal));
    assert_eq!(b.step(AirdropButtonEvent::CooldownElapsed).look, None);
}

#[test]
fn spinner_modes() {
    assert_eq!(FAST_WAIT_NANOS, 30_000_000);
    assert_eq!(REGULAR_WAIT_NANOS, 100_000_000);
    assert_eq!(spinner_update_mode(UpdateMode::Continuous, true), None);
    assert_eq!(
        spinner_update_mode(UpdateMode::ReactiveLowPower { wait_nanos: REGULAR_WAIT_NANOS }, true),
        Some(UpdateMode::ReactiveLowPower { wait_nanos: FAST_WAIT_NANOS })
    );
    assert_eq!(spinner_update_mode(UpdateMode::ReactiveLowPower { wait_nanos: FAST_WAIT_NANOS }, true), None);
    assert_eq!(
        spinner_update_mode(UpdateMode::Reactive { wait_nanos: FAST_WAIT_NANOS }, false),
        Some(UpdateMode::Reactive { wait_nanos: REGULAR_WAIT_NANOS })
    );
}

#[test]
fn cursor_blinks_only_in_focus() {
    assert!(next_cursor_visible(true, false));
    assert!(!next_cursor_visible(true, true));
    assert!(!next_cursor_visible(false, true));
    assert!(!next_cursor_visible(false, false));
}
