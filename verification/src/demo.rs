//! A small node for trying out a board: it waits until its button is released,
//! then counts ticks and starts over whenever the button is pressed.

use crate::hal::button::ButtonState;
use crate::hal::rgb_led::RgbLedColor;
use vstd::prelude::*;

verus! {

/// A reading of an accelerometer, one value per axis.
#[derive(Debug, Clone, Copy, PartialEq, Eq, Structural)]
pub struct Vec3 {
    pub x: i32,
    pub y: i32,
    pub z: i32,
}

/// The snapshot that the node shows to the outside.
#[derive(Debug, Clone, Copy, PartialEq, Eq, Structural)]
pub struct SystemState {
    /// The ticks counted since the button was last pressed.
    pub counter: u32,
    pub acc: Vec3,
}

/// The state of a node that waits for its button to be released.
#[derive(Debug, Clone, Copy, PartialEq, Eq, Structural)]
pub struct InitState {
    pub button_state: ButtonState,
}

/// The state of a node that counts.
#[derive(Debug, Clone, Copy, PartialEq, Eq, Structural)]
pub struct OperationalState {
    pub system_state: SystemState,
}

#[derive(Debug, Clone, Copy, PartialEq, Eq, Structural)]
pub enum AppState {
    Init(InitState),
    Operational(OperationalState),
}

/// What the surroundings of the node have to perform after a tick.
#[derive(Debug, Clone, Copy, PartialEq, Eq, Structural)]
pub struct Actions {
    /// The snapshot to show, if any.
    pub system_state: Option<SystemState>,
    /// The colour to show on the indicator.
    pub color: RgbLedColor,
}

impl Default for Vec3 {
    fn default() -> (v: Self)
        ensures
            v == (Vec3 { x: 0, y: 0, z: 0 }),
    {
        Vec3 { x: 0, y: 0, z: 0 }
    }
}

impl Default for SystemState {
    fn default() -> (state: Self)
        ensures
            state == SystemState::spec_initial(),
    {
        SystemState { counter: 0, acc: Vec3::default() }
    }
}

impl Default for InitState {
    fn default() -> (state: Self)
        ensures
            state.button_state == ButtonState::NotPressed,
    {
        InitState { button_state: ButtonState::default() }
    }
}

impl Default for OperationalState {
    fn default() -> (state: Self)
        ensures
            state.system_state == SystemState::spec_initial(),
    {
        OperationalState { system_state: SystemState::default() }
    }
}

impl Default for AppState {
    fn default() -> (state: Self)
        ensures
            state == AppState::Init(InitState { button_state: ButtonState::NotPressed }),
    {
        AppState::Init(InitState::default())
    }
}

impl SystemState {
    /// The snapshot before anything was counted.
    pub open spec fn spec_initial() -> SystemState {
        SystemState { counter: 0, acc: Vec3 { x: 0, y: 0, z: 0 } }
    }
}

impl InitState {
    /// Where a waiting node goes on a tick: it stays while the button is pressed
    /// and begins to count, from zero, once it is not.
    pub open spec fn spec_update(&self, pressed: bool) -> AppState {
        if pressed {
            AppState::Init(*self)
        } else {
            AppState::Operational(OperationalState { system_state: SystemState::spec_initial() })
        }
    }

    pub fn update(&mut self, pressed: bool) -> (next: AppState)
        ensures
            next == old(self).spec_update(pressed),
            *final(self) == *old(self),
    {
        if pressed {
            AppState::Init(*self)
        } else {
            AppState::Operational(OperationalState { system_state: SystemState::default() })
        }
    }
}

impl OperationalState {
    /// The counting node after a tick: the counter is back at zero when the button
    /// is pressed and one higher when it is not; the rest stays.
    pub open spec fn spec_update(&self, pressed: bool) -> OperationalState {
        OperationalState {
            system_state: SystemState {
                counter: if pressed {
                    0
                } else {
                    (self.system_state.counter + 1) as u32
                },
                acc: self.system_state.acc,
            },
        }
    }

    /// Counts one tick, or starts over when the button is pressed. The snapshot
    /// to show is the one that the state holds afterwards.
    pub fn update(&mut self, pressed: bool) -> (next: AppState)
        requires
            !pressed ==> old(self).system_state.counter < u32::MAX,
        ensures
            *final(self) == old(self).spec_update(pressed),
            next == AppState::Operational(*final(self)),
            pressed ==> final(self).system_state.counter == 0,
            !pressed ==> final(self).system_state.counter == old(self).system_state.counter + 1,
    {
        if pressed {
            self.system_state.counter = 0;
        } else {
            self.system_state.counter += 1;
        }
        AppState::Operational(*self)
    }
}

impl AppState {
    /// The state after a tick.
    pub open spec fn spec_update(&self, pressed: bool) -> AppState {
        match self {
            AppState::Init(state) => state.spec_update(pressed),
            AppState::Operational(state) => AppState::Operational(state.spec_update(pressed)),
        }
    }

    /// Whether a tick can be counted in this state: the counter is not at its end.
    pub open spec fn spec_can_update(&self, pressed: bool) -> bool {
        self matches AppState::Operational(state) ==> pressed || state.system_state.counter
            < u32::MAX
    }

    /// The snapshot that a node in this state shows on every tick.
    pub open spec fn spec_shown(&self) -> Option<SystemState> {
        match self {
            AppState::Init(_) => None,
            AppState::Operational(state) => Some(state.system_state),
        }
    }
}

/// The colour, as `0xRRGGBB`, that shows the state: red while waiting, green
/// while counting.
pub open spec fn spec_color_from_app_state(app_state: &AppState) -> u32 {
    match app_state {
        AppState::Init(_) => 0xFF0000,
        AppState::Operational(_) => 0x00FF00,
    }
}

#[verifier::when_used_as_spec(spec_color_from_app_state)]
pub fn color_from_app_state(app_state: &AppState) -> (color: u32)
    ensures
        color == spec_color_from_app_state(app_state),
{
    match app_state {
        AppState::Init(_) => 0xFF0000,
        AppState::Operational(_) => 0x00FF00,
    }
}

/// Keeps the colour that the indicator is to show.
#[derive(Debug, Clone, Copy, PartialEq, Eq, Structural)]
pub struct LedController {
    /// The colour last set; none before the first update.
    pub color: Option<RgbLedColor>,
}

impl LedController {
    /// Sets the colour to the one that shows `app_state`.
    pub fn update(&mut self, app_state: &AppState)
        ensures
            final(self).color == Some(
                RgbLedColor::spec_from_u32(spec_color_from_app_state(app_state)),
            ),
    {
        let color = color_from_app_state(app_state);
        self.color = Some(RgbLedColor::from(color));
    }
}

/// The node: its state and its indicator.
#[derive(Debug, Clone, Copy, PartialEq, Eq, Structural)]
pub struct App {
    pub state: AppState,
    pub led_controller: LedController,
}

impl App {
    /// A node that was just started: waiting, its indicator not set yet.
    pub fn new() -> (app: Self)
        ensures
            app.state == AppState::Init(InitState { button_state: ButtonState::NotPressed }),
            app.led_controller.color is None,
    {
        App { state: AppState::default(), led_controller: LedController { color: None } }
    }

    /// Runs one tick with the button as it was sampled, and returns what is to be
    /// performed: a counting node shows its snapshot on every tick, a waiting
    /// node shows none, and the indicator shows the state reached.
    pub fn update(&mut self, button_state: ButtonState) -> (actions: Actions)
        requires
            old(self).state.spec_can_update(button_state == ButtonState::Pressed),
        ensures
            final(self).state == old(self).state.spec_update(button_state == ButtonState::Pressed),
            actions.system_state == (if old(self).state is Operational {
                final(self).state.spec_shown()
            } else {
                None
            }),
            actions.color == RgbLedColor::spec_from_u32(
                spec_color_from_app_state(&final(self).state),
            ),
            final(self).led_controller.color == Some(actions.color),
    {
        let pressed = button_state.is_pressed();
        let mut system_state: Option<SystemState> = None;
        let new_state = match self.state {
            AppState::Init(mut state) => state.update(pressed),
            AppState::Operational(mut state) => {
                let next = state.update(pressed);
                system_state = Some(state.system_state);
                next
            },
        };
        if new_state != self.state {
            self.state = new_state;
        }
        self.led_controller.update(&self.state);
        let color = RgbLedColor::from(color_from_app_state(&self.state));
        Actions { system_state, color }
    }
}

/// While the button is not pressed the counter tells the ticks since the press:
/// each tick adds one, and a press brings it back to zero whatever it held.
pub proof fn lemma_counter_counts_ticks(state: OperationalState, pressed: bool)
    requires
        pressed || state.system_state.counter < u32::MAX,
    ensures
        state.spec_update(pressed).system_state.counter == (if pressed {
            0
        } else {
            state.system_state.counter + 1
        }),
        state.spec_update(pressed).system_state.acc == state.system_state.acc,
{
}

/// A node that counts never goes back to waiting.
pub proof fn lemma_counting_goes_on(state: AppState, pressed: bool)
    requires
        state is Operational,
    ensures
        state.spec_update(pressed) is Operational,
{
}

} // verus!
