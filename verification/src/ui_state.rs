use vstd::prelude::*;

verus! {

/// How the pointer is over a button.
#[derive(Clone, Copy, PartialEq, Eq, Debug, Structural)]
pub enum ButtonInteraction {
    Pressed,
    Hovered,
    Idle,
}

/// The colour a button is drawn in.
#[derive(Clone, Copy, PartialEq, Eq, Debug, Structural)]
pub enum ButtonLook {
    Pressed,
    Hovered,
    Normal,
}

/// The airdrop button: `cooling_down` from a press until its cooldown timer
/// runs out.
#[derive(Clone, Copy, PartialEq, Eq, Debug, Structural)]
pub struct AirdropButton {
    pub cooling_down: bool,
}

/// What happens to the airdrop button.
#[derive(Clone, Copy, PartialEq, Eq, Debug, Structural)]
pub enum AirdropButtonEvent {
    Interaction(ButtonInteraction),
    /// The cooldown timer ran out.
    CooldownElapsed,
}

/// What the front end does after an airdrop button event: the colour to set
/// (if any), whether to request an airdrop and restart the cooldown timer,
/// and whether to show or hide the spinner (if either).
#[derive(Clone, Copy, PartialEq, Eq, Debug, Structural)]
pub struct AirdropButtonEffect {
    pub look: Option<ButtonLook>,
    pub request_airdrop: bool,
    pub spinner_visible: Option<bool>,
}

/// One airdrop button step: a press always shows as pressed, and when the
/// button is not cooling down it requests an airdrop, starts the cooldown and
/// shows the spinner; hovering and leaving only recolour a button that is not
/// cooling down; the end of the cooldown hides the spinner and restores the
/// normal colour.
pub open spec fn airdrop_button_step(b: AirdropButton, event: AirdropButtonEvent) -> (AirdropButton, AirdropButtonEffect) {
    let none = AirdropButtonEffect { look: None, request_airdrop: false, spinner_visible: None };
    match event {
        AirdropButtonEvent::Interaction(ButtonInteraction::Pressed) => if b.cooling_down {
            (b, AirdropButtonEffect { look: Some(ButtonLook::Pressed), ..none })
        } else {
            (
                AirdropButton { cooling_down: true },
                AirdropButtonEffect {
                    look: Some(ButtonLook::Pressed),
                    request_airdrop: true,
                    spinner_visible: Some(true),
                },
            )
        },
        AirdropButtonEvent::Interaction(ButtonInteraction::Hovered) => if b.cooling_down {
            (b, none)
        } else {
            (b, AirdropButtonEffect { look: Some(ButtonLook::Hovered), ..none })
        },
        AirdropButtonEvent::Interaction(ButtonInteraction::Idle) => if b.cooling_down {
            (b, none)
        } else {
            (b, AirdropButtonEffect { look: Some(ButtonLook::Normal), ..none })
        },
        AirdropButtonEvent::CooldownElapsed => if b.cooling_down {
            (
                AirdropButton { cooling_down: false },
                AirdropButtonEffect { look: Some(ButtonLook::Normal), request_airdrop: false, spinner_visible: Some(false) },
            )
        } else {
            (b, none)
        },
    }
}

impl AirdropButton {
    /// Applies one event to the airdrop button.
    pub fn step(&mut self, event: AirdropButtonEvent) -> (effect: AirdropButtonEffect)
        ensures
            (*final(self), effect) == airdrop_button_step(*old(self), event),
    {
        let none = AirdropButtonEffect { look: None, request_airdrop: false, spinner_visible: None };
        match event {
            AirdropButtonEvent::Interaction(ButtonInteraction::Pressed) => {
                if self.cooling_down {
                    AirdropButtonEffect { look: Some(ButtonLook::Pressed), ..none }
                } else {
                    self.cooling_down = true;
                    AirdropButtonEffect {
                        look: Some(ButtonLook::Pressed),
                        request_airdrop: true,
                        spinner_visible: Some(true),
                    }
                }
            },
            AirdropButtonEvent::Interaction(ButtonInteraction::Hovered) => {
                if self.cooling_down {
                    none
                } else {
                    AirdropButtonEffect { look: Some(ButtonLook::Hovered), ..none }
                }
            },
            AirdropButtonEvent::Interaction(ButtonInteraction::Idle) => {
                if self.cooling_down {
                    none
                } else {
                    AirdropButtonEffect { look: Some(ButtonLook::Normal), ..none }
                }
            },
            AirdropButtonEvent::CooldownElapsed => {
                if self.cooling_down {
                    self.cooling_down = false;
                    AirdropButtonEffect {
                        look: Some(ButtonLook::Normal),
                        request_airdrop: false,
                        spinner_visible: Some(false),
                    }
                } else {
                    none
                }
            },
        }
    }
}

/// Between a press that requests an airdrop and the end of its cooldown, no
/// other event requests another one.
pub proof fn law_one_airdrop_per_cooldown(b: AirdropButton, event: AirdropButtonEvent)
    requires
        b.cooling_down,
        event != AirdropButtonEvent::CooldownElapsed,
    ensures
        !airdrop_button_step(b, event).1.request_airdrop,
        airdrop_button_step(b, event).0.cooling_down,
{
}

/// A press on a button that is not cooling down requests an airdrop.
pub proof fn law_idle_press_requests(b: AirdropButton)
    requires
        !b.cooling_down,
    ensures
        airdrop_button_step(b, AirdropButtonEvent::Interaction(ButtonInteraction::Pressed)).1.request_airdrop,
{
}

/// How the window redraws: continuously, or on events with at most a wait
/// (in nanoseconds) between redraws.
#[derive(Clone, Copy, PartialEq, Eq, Debug, Structural)]
pub enum UpdateMode {
    Continuous,
    Reactive { wait_nanos: u128 },
    ReactiveLowPower { wait_nanos: u128 },
}

/// The redraw wait while a spinner turns: 30 ms.
pub const FAST_WAIT_NANOS: u128 = 30_000_000u128;

/// The redraw wait otherwise: 100 ms.
pub const REGULAR_WAIT_NANOS: u128 = 100_000_000u128;

/// The redraw mode to switch to so that spinners turn smoothly: the fast wait
/// while a spinner is visible, the regular wait otherwise, in the same kind
/// of mode; `None` when the mode already has that wait or is continuous.
pub open spec fn spinner_redraw_mode(current: UpdateMode, spinner_visible: bool) -> Option<UpdateMode> {
    let wait = if spinner_visible {
        FAST_WAIT_NANOS
    } else {
        REGULAR_WAIT_NANOS
    };
    match current {
        UpdateMode::Continuous => None,
        UpdateMode::Reactive { wait_nanos } => if wait_nanos != wait {
            Some(UpdateMode::Reactive { wait_nanos: wait })
        } else {
            None
        },
        UpdateMode::ReactiveLowPower { wait_nanos } => if wait_nanos != wait {
            Some(UpdateMode::ReactiveLowPower { wait_nanos: wait })
        } else {
            None
        },
    }
}

/// Chooses the redraw mode for the window, given whether any spinner is
/// visible.
pub fn spinner_update_mode(current: UpdateMode, spinner_visible: bool) -> (next: Option<UpdateMode>)
    ensures
        next == spinner_redraw_mode(current, spinner_visible),
{
    let wait = if spinner_visible {
        FAST_WAIT_NANOS
    } else {
        REGULAR_WAIT_NANOS
    };
    match current {
        UpdateMode::Continuous => None,
        UpdateMode::Reactive { wait_nanos } => if wait_nanos != wait {
            Some(UpdateMode::Reactive { wait_nanos: wait })
        } else {
            None
        },
        UpdateMode::ReactiveLowPower { wait_nanos } => if wait_nanos != wait {
            Some(UpdateMode::ReactiveLowPower { wait_nanos: wait })
        } else {
            None
        },
    }
}

/// Switching to the chosen mode settles it: asked again with the same
/// spinners, no further switch is needed.
pub proof fn law_redraw_mode_settles(current: UpdateMode, spinner_visible: bool)
    requires
        spinner_redraw_mode(current, spinner_visible) is Some,
    ensures
        spinner_redraw_mode(spinner_redraw_mode(current, spinner_visible)->0, spinner_visible) is None,
{
}


/// Whether a text cursor shows after a blink: the focused field's cursor
/// flips, every other cursor hides.
pub fn next_cursor_visible(in_focused_field: bool, visible: bool) -> (b: bool)
    ensures
        b == (in_focused_field && !visible),
{
    if in_focused_field {
        !visible
    } else {
        false
    }
}

} // verus!
