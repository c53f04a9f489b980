use racegate::app::gates::{Gate, Gates};
use racegate::app::race::Race;
use racegate::app::{
    color_from_app_state, coordinated_offset, Actions, App, AppState, CoordinatedReading,
    CoordinatorReadyState, Effects, Fatal, GateReadyState, GateStartupState, InitState, Inputs,
    LedController, SystemState, Transition,
};
use racegate::hal::button::ButtonState;
use racegate::hal::gate::GateState;
use racegate::hal::rgb_led::RgbLedColor;
use racegate::svc::clock::{CoordinatedInstant, LocalInstant, LocalOffset};
use racegate::svc::race_node::{Beacon, CoordinatorBeacon, GateBeacon, NodeAddress};

fn at(millis: u32) -> CoordinatedInstant {
    CoordinatedInstant::from_millis(millis)
}

fn quiet(uptime_millis: u64, address: NodeAddress) -> Inputs {
    Inputs {
        uptime_millis,
        is_wifi_connected: true,
        gate_state: GateState::Inactive,
        button_state: ButtonState::NotPressed,
        address,
        coordinator_time: None,
        gates: Gates::default(),
    }
}

fn no_effects() -> Effects {
    Effects { beacon: None, coordinator_time: None, system_state: None }
}

fn coordinator(time: u32) -> CoordinatorReadyState {
    CoordinatorReadyState {
        time: at(time),
        system_state: SystemState::default(),
        any_gate_active: false,
    }
}

fn ready(last_activation_time: Option<CoordinatedInstant>) -> GateReadyState {
    GateReadyState {
        is_wifi_connected: true,
        gate_state: GateState::Inactive,
        clock_offset: LocalOffset::from_millis(0),
        last_activation_time,
    }
}

#[test]
fn init_with_link_down_remains_init() {
    let mut state = InitState::default();
    for address in [NodeAddress::coordinator(), NodeAddress::start(), NodeAddress::finish()] {
        let mut inputs = quiet(100, address);
        inputs.is_wifi_connected = false;
        assert_eq!(state.update(&inputs), AppState::Init(state));
    }
}

#[test]
fn init_with_start_address_becomes_gate_startup() {
    let mut state = InitState::default();
    let next = state.update(&quiet(100, NodeAddress::start()));
    assert_eq!(next, AppState::GateStartup(GateStartupState { time_started: 100 }));
    let next = state.update(&quiet(250, NodeAddress::finish()));
    assert_eq!(next, AppState::GateStartup(GateStartupState { time_started: 250 }));
}

#[test]
fn init_with_coordinator_address_becomes_coordinator_at_local_time() {
    let mut state = InitState::default();
    let next = state.update(&quiet(1234, NodeAddress::coordinator()));
    assert_eq!(
        next,
        AppState::CoordinatorReady(CoordinatorReadyState {
            time: at(1234),
            system_state: SystemState::default(),
            any_gate_active: false,
        })
    );
}

#[test]
fn init_waits_while_button_is_pressed_or_gate_is_active() {
    let mut state = InitState {
        gate_state: GateState::Active,
        button_state: ButtonState::Pressed,
        time: LocalInstant::from_millis(5),
    };
    for address in [NodeAddress::coordinator(), NodeAddress::start(), NodeAddress::finish()] {
        let mut inputs = quiet(100, address);
        inputs.button_state = ButtonState::Pressed;
        assert_eq!(state.update(&inputs), AppState::Init(state));
        let mut inputs = quiet(100, address);
        inputs.gate_state = GateState::Active;
        assert_eq!(state.update(&inputs), AppState::Init(state));
    }
}

#[test]
fn init_with_reserved_address_remains_init() {
    let mut state = InitState::default();
    for byte in [2u8, 31, 33, 255] {
        assert_eq!(state.update(&quiet(100, NodeAddress::from(byte))), AppState::Init(state));
    }
}

#[test]
fn init_coordinator_without_reliable_clock_remains_init() {
    let mut state = InitState::default();
    let inputs = quiet(u32::MAX as u64 + 1, NodeAddress::coordinator());
    assert_eq!(state.update(&inputs), AppState::Init(state));
    let inputs = quiet(u32::MAX as u64, NodeAddress::coordinator());
    assert_eq!(state.update(&inputs), AppState::CoordinatorReady(coordinator(u32::MAX)));
    let inputs = quiet(u32::MAX as u64 + 1, NodeAddress::start());
    assert_eq!(
        state.update(&inputs),
        AppState::GateStartup(GateStartupState { time_started: u32::MAX as u64 + 1 })
    );
}

#[test]
fn coordinator_with_link_down_returns_to_init() {
    let mut inputs = quiet(2000, NodeAddress::coordinator());
    inputs.is_wifi_connected = false;
    let next = coordinator(1000).update(&inputs);
    assert_eq!(
        next,
        Transition { state: AppState::Init(InitState::default()), effects: no_effects() }
    );
}

#[test]
fn coordinator_tick_publishes_beacon_time_and_snapshot() {
    let gates = Gates {
        start: Gate { active: false, last_activation_time: Some(at(1000)) },
        finish: Gate { active: true, last_activation_time: Some(at(4500)) },
    };
    let mut inputs = quiet(5000, NodeAddress::coordinator());
    inputs.gates = gates;
    let next = coordinator(4980).update(&inputs);
    let snapshot = SystemState { time: at(5000), gates, race: Race { elapsed: Some(3500) } };
    assert_eq!(
        next.state,
        AppState::CoordinatorReady(CoordinatorReadyState {
            time: at(5000),
            system_state: snapshot,
            any_gate_active: true,
        })
    );
    assert_eq!(
        next.effects,
        Effects {
            beacon: Some(Beacon::Coordinator(CoordinatorBeacon { time: at(5000) })),
            coordinator_time: Some(at(5000)),
            system_state: Some(snapshot),
        }
    );
    assert_eq!(
        next.effects.frame().unwrap().0,
        [1, 0, 0, 0, 0, 0x13, 0x88, 0, 0, 0, 0, 0, 0, 0, 0, 0]
    );
}

#[test]
fn coordinator_recomputes_race_when_gates_change() {
    let mut inputs = quiet(5000, NodeAddress::coordinator());
    inputs.gates.finish.last_activation_time = Some(at(4500));
    let first = coordinator(0).update(&inputs);
    let AppState::CoordinatorReady(state) = first.state else { panic!() };
    assert_eq!(state.system_state.race, Race { elapsed: None });
    inputs.uptime_millis = 5020;
    inputs.gates.start.last_activation_time = Some(at(1000));
    let second = state.update(&inputs);
    let AppState::CoordinatorReady(state) = second.state else { panic!() };
    assert_eq!(state.system_state.race, Race { elapsed: Some(3500) });
    assert!(!state.any_gate_active);
}

#[test]
fn coordinator_without_reliable_clock_keeps_its_state() {
    let state = CoordinatorReadyState {
        time: at(77),
        system_state: SystemState {
            time: at(77),
            gates: Gates::default(),
            race: Race::default(),
        },
        any_gate_active: false,
    };
    let inputs = quiet(u32::MAX as u64 + 1, NodeAddress::coordinator());
    let next = state.update(&inputs);
    assert_eq!(next.state, AppState::CoordinatorReady(state));
    assert_eq!(
        next.effects,
        Effects { beacon: None, coordinator_time: None, system_state: Some(state.system_state) }
    );
}

#[test]
fn gate_startup_without_beacon_for_more_than_ten_seconds_is_fatal() {
    let mut state = GateStartupState { time_started: 500 };
    let inputs = quiet(10_501, NodeAddress::start());
    assert_eq!(state.update(&inputs), Err(Fatal::StartupTimeout));
    let mut app = App::new();
    app.state = AppState::GateStartup(state);
    let before = app;
    assert_eq!(app.update(&inputs), Err(Fatal::StartupTimeout));
    assert_eq!(app, before);
}

#[test]
fn gate_startup_waits_up_to_ten_seconds() {
    let mut state = GateStartupState { time_started: 500 };
    for uptime in [0u64, 500, 501, 10_499, 10_500] {
        let inputs = quiet(uptime, NodeAddress::start());
        assert_eq!(state.update(&inputs), Ok(AppState::GateStartup(state)));
        assert!(!state.timed_out(uptime));
    }
    assert!(state.timed_out(10_501));
    assert!(state.timed_out(u64::MAX));
}

#[test]
fn gate_startup_timeout_comes_before_sync() {
    let mut state = GateStartupState { time_started: 0 };
    let mut inputs = quiet(10_001, NodeAddress::start());
    inputs.coordinator_time = Some(at(20_000));
    assert_eq!(state.update(&inputs), Err(Fatal::StartupTimeout));
}

#[test]
fn gate_startup_becomes_ready_with_offset_and_no_latch() {
    let mut state = GateStartupState::started_at(500);
    let mut inputs = quiet(1200, NodeAddress::start());
    inputs.coordinator_time = Some(at(5000));
    inputs.gate_state = GateState::Active;
    inputs.is_wifi_connected = false;
    assert_eq!(
        state.update(&inputs),
        Ok(AppState::GateReady(GateReadyState {
            is_wifi_connected: false,
            gate_state: GateState::Active,
            clock_offset: LocalOffset::from_millis(3800),
            last_activation_time: None,
        }))
    );
}

#[test]
fn gate_startup_keeps_waiting_while_coordinator_is_behind() {
    let mut state = GateStartupState { time_started: 500 };
    let mut inputs = quiet(1200, NodeAddress::start());
    inputs.coordinator_time = Some(at(1199));
    assert_eq!(state.update(&inputs), Ok(AppState::GateStartup(state)));
    inputs.coordinator_time = Some(at(1200));
    assert!(matches!(state.update(&inputs), Ok(AppState::GateReady(_))));
}

#[test]
fn gate_ready_latches_activation_and_keeps_it() {
    let mut inputs = quiet(1200, NodeAddress::start());
    inputs.coordinator_time = Some(at(5000));
    inputs.gate_state = GateState::Active;
    let activated = ready(None).update(&inputs);
    let AppState::GateReady(mut state) = activated.state else { panic!() };
    assert_eq!(state.last_activation_time, Some(at(5000)));
    assert_eq!(state.gate_state, GateState::Active);
    assert_eq!(state.clock_offset, LocalOffset::from_millis(3800));

    inputs.uptime_millis = 1220;
    inputs.coordinator_time = Some(at(5020));
    inputs.gate_state = GateState::Inactive;
    let released = state.update(&inputs);
    let AppState::GateReady(mut state) = released.state else { panic!() };
    assert_eq!(state.last_activation_time, Some(at(5000)));
    assert_eq!(state.gate_state, GateState::Inactive);

    inputs.uptime_millis = 1240;
    inputs.coordinator_time = Some(at(5040));
    inputs.gate_state = GateState::Active;
    let again = state.update(&inputs);
    let AppState::GateReady(mut state) = again.state else { panic!() };
    assert_eq!(state.last_activation_time, Some(at(5040)));
}

#[test]
fn gate_ready_publishes_a_beacon_on_every_tick() {
    let mut inputs = quiet(1200, NodeAddress::finish());
    inputs.coordinator_time = Some(at(5000));
    let mut state = ready(Some(at(4500)));
    let first = state.update(&inputs);
    let expected = GateBeacon {
        addr: NodeAddress::finish(),
        state: GateState::Inactive,
        last_activation_time: Some(at(4500)),
    };
    assert_eq!(
        first.effects,
        Effects {
            beacon: Some(Beacon::Gate(expected)),
            coordinator_time: None,
            system_state: None,
        }
    );
    assert_eq!(
        first.effects.frame().unwrap().0,
        [1, 32, 0, 0, 0, 0x11, 0x94, 0, 0, 0, 0, 0, 0, 0, 0, 0]
    );
    let AppState::GateReady(mut next) = first.state else { panic!() };
    let second = next.update(&inputs);
    assert_eq!(second.state, first.state);
    assert_eq!(second.effects, first.effects);
}

#[test]
fn gate_ready_without_coordinator_time_falls_back_to_startup() {
    let mut state = ready(Some(at(4500)));
    let inputs = quiet(7000, NodeAddress::start());
    assert_eq!(
        state.update(&inputs),
        Transition {
            state: AppState::GateStartup(GateStartupState { time_started: 7000 }),
            effects: no_effects(),
        }
    );
    let mut behind = quiet(7000, NodeAddress::start());
    behind.coordinator_time = Some(at(6999));
    assert!(matches!(state.update(&behind).state, AppState::GateStartup(_)));
    let mut unreliable = quiet(u32::MAX as u64 + 1, NodeAddress::start());
    unreliable.coordinator_time = Some(at(u32::MAX));
    assert!(matches!(state.update(&unreliable).state, AppState::GateStartup(_)));
}

#[test]
fn coordinated_reading_of_a_tick() {
    let mut inputs = quiet(1200, NodeAddress::start());
    assert_eq!(inputs.coordinated_reading(), None);
    inputs.coordinator_time = Some(at(5000));
    assert_eq!(
        inputs.coordinated_reading(),
        Some(CoordinatedReading { offset: LocalOffset::from_millis(3800), time: at(5000) })
    );
    assert_eq!(inputs.local_time(), Some(LocalInstant::from_millis(1200)));
    assert!(inputs.may_take_role());
    assert_eq!(
        coordinated_offset(Some(LocalInstant::from_millis(1200)), Some(at(5000))),
        Some(LocalOffset::from_millis(3800))
    );
    assert_eq!(coordinated_offset(Some(LocalInstant::from_millis(1200)), Some(at(1000))), None);
    assert_eq!(coordinated_offset(None, Some(at(1000))), None);
    assert_eq!(coordinated_offset(Some(LocalInstant::from_millis(1200)), None), None);
}

#[test]
fn colors_of_states() {
    assert_eq!(color_from_app_state(&AppState::Init(InitState::default())), 0xFF0000);
    assert_eq!(color_from_app_state(&AppState::CoordinatorReady(coordinator(0))), 0xFFFFFF);
    let mut busy = coordinator(0);
    busy.any_gate_active = true;
    assert_eq!(color_from_app_state(&AppState::CoordinatorReady(busy)), 0x00FFFF);
    let waiting = AppState::GateStartup(GateStartupState { time_started: 0 });
    assert_eq!(color_from_app_state(&waiting), 0xFFFF00);
    let mut gate = ready(None);
    assert_eq!(color_from_app_state(&AppState::GateReady(gate)), 0x008000);
    gate.is_wifi_connected = false;
    assert_eq!(color_from_app_state(&AppState::GateReady(gate)), 0x800000);
    gate.gate_state = GateState::Active;
    assert_eq!(color_from_app_state(&AppState::GateReady(gate)), 0x008080);
    gate.is_wifi_connected = true;
    assert_eq!(color_from_app_state(&AppState::GateReady(gate)), 0x008080);
}

#[test]
fn color_channels() {
    assert_eq!(RgbLedColor::from(0x00FFFF), RgbLedColor { r: 0, g: 0xFF, b: 0xFF });
    assert_eq!(RgbLedColor::from(0x800000), RgbLedColor { r: 0x80, g: 0, b: 0 });
    assert_eq!(RgbLedColor::from(0x12345678), RgbLedColor { r: 0x34, g: 0x56, b: 0x78 });
    assert_eq!(RgbLedColor { r: 0x34, g: 0x56, b: 0x78 }.to_u32(), 0x345678);
    assert_eq!(RgbLedColor::from(0xFFFFFF).to_u32(), 0xFFFFFF);
    assert_eq!(RgbLedColor { r: 0x34, g: 0x56, b: 0x78 }.to_grb(), 0x563478);
}

#[test]
fn led_controller_shows_the_state() {
    let mut led = LedController::new();
    assert_eq!(led.color(), None);
    led.update(&AppState::Init(InitState::default()));
    assert_eq!(led.color(), Some(RgbLedColor { r: 0xFF, g: 0, b: 0 }));
    led.update(&AppState::GateStartup(GateStartupState { time_started: 0 }));
    assert_eq!(led.color(), Some(RgbLedColor { r: 0xFF, g: 0xFF, b: 0 }));
}

#[test]
fn app_runs_as_coordinator() {
    let mut app = App::new();
    assert_eq!(*app.state(), AppState::Init(InitState::default()));
    assert_eq!(AppState::default(), AppState::Init(InitState::default()));

    let mut inputs = quiet(100, NodeAddress::coordinator());
    inputs.is_wifi_connected = false;
    let actions = app.update(&inputs).unwrap();
    assert_eq!(
        actions,
        Actions {
            effects: no_effects(),
            color: RgbLedColor { r: 0xFF, g: 0, b: 0 },
            state_changed: false,
        }
    );

    inputs.is_wifi_connected = true;
    inputs.uptime_millis = 120;
    let actions = app.update(&inputs).unwrap();
    assert!(actions.state_changed);
    assert_eq!(actions.effects, no_effects());
    assert_eq!(actions.color, RgbLedColor { r: 0xFF, g: 0xFF, b: 0xFF });
    assert_eq!(*app.state(), AppState::CoordinatorReady(coordinator(120)));

    inputs.uptime_millis = 140;
    inputs.gates.start = Gate { active: true, last_activation_time: Some(at(130)) };
    let actions = app.update(&inputs).unwrap();
    assert!(actions.state_changed);
    assert_eq!(actions.color, RgbLedColor { r: 0, g: 0xFF, b: 0xFF });
    assert_eq!(app.led_controller.color(), Some(actions.color));
    assert_eq!(actions.effects.coordinator_time, Some(at(140)));
    assert_eq!(
        actions.effects.system_state,
        Some(SystemState { time: at(140), gates: inputs.gates, race: Race { elapsed: None } })
    );

    inputs.is_wifi_connected = false;
    let actions = app.update(&inputs).unwrap();
    assert!(actions.state_changed);
    assert_eq!(actions.effects, no_effects());
    assert_eq!(*app.state(), AppState::Init(InitState::default()));
}

#[test]
fn app_publishes_even_when_the_state_does_not_change() {
    let mut app = App::new();
    app.state = AppState::GateReady(GateReadyState {
        is_wifi_connected: true,
        gate_state: GateState::Inactive,
        clock_offset: LocalOffset::from_millis(3800),
        last_activation_time: None,
    });
    let mut inputs = quiet(1200, NodeAddress::start());
    inputs.coordinator_time = Some(at(5000));
    let actions = app.update(&inputs).unwrap();
    assert!(!actions.state_changed);
    assert_eq!(
        actions.effects.beacon,
        Some(Beacon::Gate(GateBeacon {
            addr: NodeAddress::start(),
            state: GateState::Inactive,
            last_activation_time: None,
        }))
    );
    assert_eq!(actions.color, RgbLedColor { r: 0, g: 0x80, b: 0 });
}

#[test]
fn app_runs_as_gate_and_reaches_the_coordinator() {
    let mut app = App::new();
    let mut inputs = quiet(100, NodeAddress::finish());
    assert!(app.update(&inputs).unwrap().state_changed);
    assert_eq!(*app.state(), AppState::GateStartup(GateStartupState { time_started: 100 }));

    inputs.uptime_millis = 300;
    inputs.coordinator_time = Some(at(9000));
    let actions = app.update(&inputs).unwrap();
    assert_eq!(actions.effects, no_effects());
    assert!(matches!(app.state(), AppState::GateReady(_)));

    inputs.uptime_millis = 320;
    inputs.coordinator_time = Some(at(9020));
    inputs.gate_state = GateState::Active;
    let actions = app.update(&inputs).unwrap();
    let frame = actions.effects.frame().unwrap();

    let mut gates = Gates::default();
    assert_eq!(gates.receive(frame.as_bytes()), Ok(()));
    assert_eq!(gates.finish, Gate { active: true, last_activation_time: Some(at(9020)) });
    assert_eq!(gates.start, Gate::default());
}

#[test]
fn gate_without_activation_sends_time_zero() {
    let mut inputs = quiet(1200, NodeAddress::start());
    inputs.coordinator_time = Some(at(5000));
    let sent = ready(None).update(&inputs);
    assert_eq!(
        sent.effects.beacon,
        Some(Beacon::Gate(GateBeacon {
            addr: NodeAddress::start(),
            state: GateState::Inactive,
            last_activation_time: None,
        }))
    );
    assert_eq!(
        sent.effects.frame().unwrap().0,
        [1, 1, 0, 0, 0, 0, 0, 0, 0, 0, 0, 0, 0, 0, 0, 0]
    );
    let mut gates = Gates {
        start: Gate { active: true, last_activation_time: Some(at(7)) },
        finish: Gate::default(),
    };
    assert_eq!(gates.receive(sent.effects.frame().unwrap().as_bytes()), Ok(()));
    assert_eq!(gates.start, Gate { active: false, last_activation_time: None });
}

#[test]
fn default_coordinator_state() {
    assert_eq!(CoordinatorReadyState::default(), coordinator(0));
}

#[test]
fn dispatch_follows_the_state() {
    let inputs = quiet(100, NodeAddress::start());
    let mut init = AppState::default();
    assert_eq!(
        init.update(&inputs),
        Ok(Transition {
            state: AppState::GateStartup(GateStartupState { time_started: 100 }),
            effects: no_effects(),
        })
    );
    let mut waiting = AppState::GateStartup(GateStartupState { time_started: 0 });
    assert_eq!(
        waiting.update(&quiet(10_000, NodeAddress::start())),
        Ok(Transition { state: waiting, effects: no_effects() })
    );
    assert_eq!(waiting.update(&quiet(10_001, NodeAddress::start())), Err(Fatal::StartupTimeout));
    assert_eq!(Effects::none(), no_effects());
    assert_eq!(no_effects().frame(), None);
}

#[test]
fn button_state() {
    assert!(ButtonState::Pressed.is_pressed());
    assert!(!ButtonState::NotPressed.is_pressed());
    assert_eq!(ButtonState::default(), ButtonState::NotPressed);
}
