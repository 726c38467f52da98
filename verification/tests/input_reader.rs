use bevy::ecs::event::Events;
use bevy::ecs::system::RunSystemOnce;
use bevy::ecs::world::World;
use bevy::input::gamepad::gamepad_connection_system;
use bevy::input::gamepad::Gamepad;
use bevy::input::gamepad::GamepadAxis;
use bevy::input::gamepad::GamepadAxisType;
use bevy::input::gamepad::GamepadButton;
use bevy::input::gamepad::GamepadButtonType;
use bevy::input::gamepad::GamepadConnection;
use bevy::input::gamepad::GamepadConnectionEvent;
use bevy::input::gamepad::GamepadInfo;
use bevy::input::gamepad::Gamepads;
use bevy::input::keyboard::KeyCode;
use bevy::input::mouse::MouseButton;
use bevy::input::Axis;
use bevy::input::ButtonInput;
use bevy::math::FloatOrd;
use enhanced_input::action_value::ActionValue;
use enhanced_input::input::GamepadDevice;
use enhanced_input::input::Input;
use enhanced_input::input::ModKey;
use enhanced_input::input::ModKeys;
use enhanced_input::input_reader::accumulate;
use enhanced_input::input_reader::InputReader;
use enhanced_input::input_reader::InputSources;

fn init_world() -> World {
    let mut world = World::new();
    world.init_resource::<ButtonInput<KeyCode>>();
    world.init_resource::<ButtonInput<MouseButton>>();
    world.init_resource::<ButtonInput<GamepadButton>>();
    world.init_resource::<Axis<GamepadAxis>>();
    world.init_resource::<Gamepads>();

    // Not used by the reader, but necessary to connect gamepads.
    world.init_resource::<Axis<GamepadButton>>();
    world.init_resource::<Events<GamepadConnectionEvent>>();

    world
}

/// Populates the gamepads of the world.
fn connect_dummy_gamepad(world: &mut World) -> Gamepad {
    let gamepads = world.resource::<Gamepads>();
    let next_id = gamepads.iter().count();
    let gamepad = Gamepad::new(next_id);

    world.send_event(GamepadConnectionEvent {
        gamepad,
        connection: GamepadConnection::Connected(GamepadInfo {
            name: "Dummy".to_string(),
        }),
    });

    world.run_system_once(gamepad_connection_system);

    gamepad
}

fn sources(world: &World) -> InputSources<'_> {
    InputSources {
        keys: world.resource::<ButtonInput<KeyCode>>(),
        mouse_buttons: world.resource::<ButtonInput<MouseButton>>(),
        gamepad_buttons: world.resource::<ButtonInput<GamepadButton>>(),
        gamepad_axis: world.resource::<Axis<GamepadAxis>>(),
        gamepads: world.resource::<Gamepads>(),
    }
}

fn axis2d(x: f32, y: f32) -> ActionValue {
    ActionValue::Axis2D(FloatOrd(x), FloatOrd(y))
}

fn axis1d(x: f32) -> ActionValue {
    ActionValue::Axis1D(FloatOrd(x))
}

fn one_delta() -> Vec<(FloatOrd, FloatOrd)> {
    vec![(FloatOrd(1.0), FloatOrd(1.0))]
}

#[test]
fn keyboard() {
    let mut world = init_world();

    let key = KeyCode::Space;
    world.resource_mut::<ButtonInput<KeyCode>>().press(key);

    let mut reader = InputReader::new();
    let sources = sources(&world);
    assert_eq!(reader.value(&sources, key.into()), ActionValue::Bool(true));
    assert_eq!(
        reader.value(&sources, KeyCode::Escape.into()),
        ActionValue::Bool(false)
    );
    assert_eq!(
        reader.value(
            &sources,
            Input::Keyboard {
                key,
                mod_keys: ModKeys::single(ModKey::Alt)
            }
        ),
        ActionValue::Bool(false)
    );

    reader.consume(key.into());
    assert_eq!(reader.value(&sources, key.into()), ActionValue::Bool(false));
}

#[test]
fn mouse_button() {
    let mut world = init_world();

    let button = MouseButton::Left;
    world
        .resource_mut::<ButtonInput<MouseButton>>()
        .press(button);

    let mut reader = InputReader::new();
    let sources = sources(&world);
    assert_eq!(
        reader.value(&sources, button.into()),
        ActionValue::Bool(true)
    );
    assert_eq!(
        reader.value(&sources, MouseButton::Right.into()),
        ActionValue::Bool(false)
    );
    assert_eq!(
        reader.value(
            &sources,
            Input::MouseButton {
                button,
                mod_keys: ModKeys::single(ModKey::Control)
            }
        ),
        ActionValue::Bool(false)
    );

    reader.consume(button.into());
    assert_eq!(
        reader.value(&sources, button.into()),
        ActionValue::Bool(false)
    );
}

#[test]
fn mouse_motion() {
    let world = init_world();

    let input = Input::mouse_motion();
    let mut reader = InputReader::new();
    let sources = sources(&world);
    reader.update_state(false, false, &one_delta(), &Vec::new());
    assert_eq!(reader.value(&sources, input), axis2d(1.0, 1.0));
    assert_eq!(
        reader.value(&sources, input.with_mod_keys(ModKeys::single(ModKey::Shift))),
        axis2d(0.0, 0.0)
    );

    reader.consume(input);
    assert_eq!(reader.value(&sources, input), axis2d(0.0, 0.0));
}

#[test]
fn mouse_wheel() {
    let world = init_world();

    let input = Input::mouse_wheel();
    let mut reader = InputReader::new();
    let sources = sources(&world);
    reader.update_state(false, false, &Vec::new(), &one_delta());
    assert_eq!(reader.value(&sources, input), axis2d(1.0, 1.0));
    assert_eq!(
        reader.value(&sources, input.with_mod_keys(ModKeys::single(ModKey::Super))),
        axis2d(0.0, 0.0)
    );

    reader.consume(input);
    assert_eq!(reader.value(&sources, input), axis2d(0.0, 0.0));
}

#[test]
fn gamepad_button() {
    let mut world = init_world();

    let gamepad = connect_dummy_gamepad(&mut world);
    let other_gamepad = connect_dummy_gamepad(&mut world);

    let button = GamepadButtonType::South;
    world
        .resource_mut::<ButtonInput<GamepadButton>>()
        .press(GamepadButton {
            gamepad,
            button_type: button,
        });
    let other_button = GamepadButtonType::East;
    world
        .resource_mut::<ButtonInput<GamepadButton>>()
        .press(GamepadButton {
            gamepad: other_gamepad,
            button_type: other_button,
        });

    let mut reader = InputReader::new();
    let sources = sources(&world);
    reader.set_gamepad(gamepad.into());
    assert_eq!(
        reader.value(&sources, button.into()),
        ActionValue::Bool(true)
    );
    assert_eq!(
        reader.value(&sources, other_button.into()),
        ActionValue::Bool(false),
        "should read only from `{gamepad:?}`"
    );
    assert_eq!(
        reader.value(&sources, GamepadButtonType::North.into()),
        ActionValue::Bool(false)
    );

    reader.consume(button.into());
    assert_eq!(
        reader.value(&sources, button.into()),
        ActionValue::Bool(false)
    );
}

#[test]
fn any_gamepad_button() {
    let mut world = init_world();

    let gamepad = connect_dummy_gamepad(&mut world);
    let other_gamepad = connect_dummy_gamepad(&mut world);

    let button = GamepadButtonType::South;
    let mut buttons = world.resource_mut::<ButtonInput<GamepadButton>>();
    buttons.press(GamepadButton {
        gamepad,
        button_type: button,
    });
    let other_button = GamepadButtonType::East;
    buttons.press(GamepadButton {
        gamepad: other_gamepad,
        button_type: other_button,
    });

    let mut reader = InputReader::new();
    let sources = sources(&world);
    assert_eq!(
        reader.value(&sources, button.into()),
        ActionValue::Bool(true)
    );
    assert_eq!(
        reader.value(&sources, other_button.into()),
        ActionValue::Bool(true)
    );
    assert_eq!(
        reader.value(&sources, GamepadButtonType::North.into()),
        ActionValue::Bool(false)
    );

    reader.consume(button.into());
    assert_eq!(
        reader.value(&sources, button.into()),
        ActionValue::Bool(false)
    );

    reader.consume(other_button.into());
    assert_eq!(
        reader.value(&sources, other_button.into()),
        ActionValue::Bool(false)
    );
}

#[test]
fn gamepad_axis() {
    let mut world = init_world();

    let gamepad = connect_dummy_gamepad(&mut world);
    let other_gamepad = connect_dummy_gamepad(&mut world);

    let value = 1.0;
    let axis = GamepadAxisType::LeftStickX;
    let mut axes = world.resource_mut::<Axis<GamepadAxis>>();
    axes.set(
        GamepadAxis {
            gamepad,
            axis_type: axis,
        },
        value,
    );
    let other_axis = GamepadAxisType::LeftStickY;
    axes.set(
        GamepadAxis {
            gamepad: other_gamepad,
            axis_type: other_axis,
        },
        value,
    );

    let mut reader = InputReader::new();
    let sources = sources(&world);
    reader.set_gamepad(gamepad.into());
    assert_eq!(reader.value(&sources, axis.into()), axis1d(1.0));
    assert_eq!(
        reader.value(&sources, other_axis.into()),
        axis1d(0.0),
        "should read only from `{gamepad:?}`"
    );
    assert_eq!(
        reader.value(&sources, GamepadAxisType::RightStickX.into()),
        axis1d(0.0)
    );

    reader.consume(axis.into());
    assert_eq!(reader.value(&sources, axis.into()), axis1d(0.0));
}

#[test]
fn any_gamepad_axis() {
    let mut world = init_world();

    let gamepad = connect_dummy_gamepad(&mut world);
    let other_gamepad = connect_dummy_gamepad(&mut world);

    let value = 1.0;
    let axis = GamepadAxisType::LeftStickX;
    let mut axes = world.resource_mut::<Axis<GamepadAxis>>();
    axes.set(
        GamepadAxis {
            gamepad,
            axis_type: axis,
        },
        value,
    );
    let other_axis = GamepadAxisType::LeftStickY;
    axes.set(
        GamepadAxis {
            gamepad: other_gamepad,
            axis_type: other_axis,
        },
        value,
    );

    let mut reader = InputReader::new();
    let sources = sources(&world);
    assert_eq!(reader.value(&sources, axis.into()), axis1d(1.0));
    assert_eq!(reader.value(&sources, other_axis.into()), axis1d(1.0));
    assert_eq!(
        reader.value(&sources, GamepadAxisType::RightStickX.into()),
        axis1d(0.0)
    );

    reader.consume(axis.into());
    assert_eq!(reader.value(&sources, axis.into()), axis1d(0.0));

    reader.consume(other_axis.into());
    assert_eq!(reader.value(&sources, other_axis.into()), axis1d(0.0));
}

#[test]
fn keyboard_with_modifier() {
    let mut world = init_world();

    let key = KeyCode::Space;
    let modifier = KeyCode::ControlLeft;
    let mut keys = world.resource_mut::<ButtonInput<KeyCode>>();
    keys.press(modifier);
    keys.press(key);

    let input = Input::Keyboard {
        key,
        mod_keys: modifier.into(),
    };
    let mut reader = InputReader::new();
    {
        let sources = sources(&world);
        assert_eq!(reader.value(&sources, input), ActionValue::Bool(true));
        assert_eq!(reader.value(&sources, key.into()), ActionValue::Bool(true));
        assert_eq!(
            reader.value(&sources, input.with_mod_keys(ModKeys::single(ModKey::Alt))),
            ActionValue::Bool(false)
        );
        assert_eq!(
            reader.value(
                &sources,
                input.with_mod_keys(
                    ModKeys::single(ModKey::Control).union(ModKeys::single(ModKey::Alt))
                )
            ),
            ActionValue::Bool(false)
        );

        reader.consume(input);
        assert_eq!(reader.value(&sources, input), ActionValue::Bool(false));
    }

    // Try another key, but with the same modifier that was consumed.
    let other_key = KeyCode::Enter;
    world
        .resource_mut::<ButtonInput<KeyCode>>()
        .press(other_key);
    let other_input = Input::Keyboard {
        key: other_key,
        mod_keys: modifier.into(),
    };
    let sources = sources(&world);
    assert_eq!(
        reader.value(&sources, other_input),
        ActionValue::Bool(false)
    );
    assert_eq!(
        reader.value(&sources, other_key.into()),
        ActionValue::Bool(true)
    );
}

#[test]
fn mouse_button_with_modifier() {
    let mut world = init_world();

    let button = MouseButton::Left;
    let modifier = KeyCode::AltLeft;
    world.resource_mut::<ButtonInput<KeyCode>>().press(modifier);
    world
        .resource_mut::<ButtonInput<MouseButton>>()
        .press(button);

    let input = Input::MouseButton {
        button,
        mod_keys: modifier.into(),
    };
    let mut reader = InputReader::new();
    let sources = sources(&world);
    assert_eq!(reader.value(&sources, input), ActionValue::Bool(true));
    assert_eq!(
        reader.value(&sources, button.into()),
        ActionValue::Bool(true)
    );
    assert_eq!(
        reader.value(&sources, input.with_mod_keys(ModKeys::single(ModKey::Control))),
        ActionValue::Bool(false)
    );
    assert_eq!(
        reader.value(
            &sources,
            input.with_mod_keys(
                ModKeys::single(ModKey::Control).union(ModKeys::single(ModKey::Alt))
            )
        ),
        ActionValue::Bool(false)
    );

    reader.consume(input);
    assert_eq!(reader.value(&sources, input), ActionValue::Bool(false));
}

#[test]
fn mouse_motion_with_modifier() {
    let mut world = init_world();

    let modifier = KeyCode::ShiftLeft;
    world.resource_mut::<ButtonInput<KeyCode>>().press(modifier);

    let input = Input::MouseMotion {
        mod_keys: modifier.into(),
    };
    let mut reader = InputReader::new();
    let sources = sources(&world);
    reader.update_state(false, false, &one_delta(), &Vec::new());
    assert_eq!(reader.value(&sources, input), axis2d(1.0, 1.0));
    assert_eq!(
        reader.value(&sources, input.without_mod_keys()),
        axis2d(1.0, 1.0)
    );
    assert_eq!(
        reader.value(&sources, input.with_mod_keys(ModKeys::single(ModKey::Super))),
        axis2d(0.0, 0.0)
    );
    assert_eq!(
        reader.value(
            &sources,
            input.with_mod_keys(
                ModKeys::single(ModKey::Shift).union(ModKeys::single(ModKey::Super))
            )
        ),
        axis2d(0.0, 0.0)
    );

    reader.consume(input);
    assert_eq!(reader.value(&sources, input), axis2d(0.0, 0.0));
}

#[test]
fn mouse_wheel_with_modifier() {
    let mut world = init_world();

    let modifier = KeyCode::SuperLeft;
    world.resource_mut::<ButtonInput<KeyCode>>().press(modifier);

    let input = Input::MouseWheel {
        mod_keys: modifier.into(),
    };
    let mut reader = InputReader::new();
    let sources = sources(&world);
    reader.update_state(false, false, &Vec::new(), &one_delta());
    assert_eq!(reader.value(&sources, input), axis2d(1.0, 1.0));
    assert_eq!(
        reader.value(&sources, input.without_mod_keys()),
        axis2d(1.0, 1.0)
    );
    assert_eq!(
        reader.value(&sources, input.with_mod_keys(ModKeys::single(ModKey::Shift))),
        axis2d(0.0, 0.0)
    );
    assert_eq!(
        reader.value(
            &sources,
            input.with_mod_keys(
                ModKeys::single(ModKey::Shift).union(ModKeys::single(ModKey::Super))
            )
        ),
        axis2d(0.0, 0.0)
    );

    reader.consume(input);
    assert_eq!(reader.value(&sources, input), axis2d(0.0, 0.0));
}

#[test]
fn ui_input() {
    let mut world = init_world();

    let key = KeyCode::Space;
    let button = MouseButton::Left;
    world.resource_mut::<ButtonInput<KeyCode>>().press(key);
    world
        .resource_mut::<ButtonInput<MouseButton>>()
        .press(button);

    let mut reader = InputReader::new();
    let sources = sources(&world);
    reader.update_state(true, true, &one_delta(), &one_delta());

    assert_eq!(reader.value(&sources, key.into()), ActionValue::Bool(false));
    assert_eq!(
        reader.value(&sources, button.into()),
        ActionValue::Bool(false)
    );
    assert_eq!(
        reader.value(&sources, Input::mouse_motion()),
        axis2d(0.0, 0.0)
    );
    assert_eq!(
        reader.value(&sources, Input::mouse_wheel()),
        axis2d(0.0, 0.0)
    );
}

#[test]
fn consuming_twice_equals_consuming_once() {
    let mut world = init_world();
    let key = KeyCode::KeyA;
    let other_key = KeyCode::KeyB;
    let mut keys = world.resource_mut::<ButtonInput<KeyCode>>();
    keys.press(key);
    keys.press(other_key);

    let mut reader = InputReader::new();
    let sources = sources(&world);
    reader.update_state(false, false, &one_delta(), &one_delta());
    reader.consume(key.into());
    reader.consume(key.into());
    reader.consume(Input::mouse_motion());
    reader.consume(Input::mouse_motion());
    assert_eq!(reader.value(&sources, key.into()), ActionValue::Bool(false));
    assert_eq!(
        reader.value(&sources, other_key.into()),
        ActionValue::Bool(true)
    );
    assert_eq!(
        reader.value(&sources, Input::mouse_motion()),
        axis2d(0.0, 0.0)
    );
    assert_eq!(
        reader.value(&sources, Input::mouse_wheel()),
        axis2d(1.0, 1.0)
    );
}

#[test]
fn refresh_makes_consumed_input_available_again() {
    let mut world = init_world();
    let key = KeyCode::KeyA;
    let modifier = KeyCode::ShiftRight;
    let mut keys = world.resource_mut::<ButtonInput<KeyCode>>();
    keys.press(key);
    keys.press(modifier);
    let input = Input::Keyboard {
        key,
        mod_keys: modifier.into(),
    };

    let mut reader = InputReader::new();
    let sources = sources(&world);
    reader.consume(input);
    assert_eq!(reader.value(&sources, input), ActionValue::Bool(false));
    reader.update_state(false, false, &Vec::new(), &Vec::new());
    assert_eq!(reader.value(&sources, input), ActionValue::Bool(true));
    assert_eq!(
        reader.value(&sources, Input::mouse_motion()),
        axis2d(0.0, 0.0)
    );
}

#[test]
fn refresh_keeps_the_selected_gamepad() {
    let mut reader = InputReader::new();
    assert_eq!(reader.gamepad(), GamepadDevice::Any);
    reader.set_gamepad(GamepadDevice::Id(Gamepad::new(3)));
    reader.update_state(false, false, &Vec::new(), &Vec::new());
    assert_eq!(reader.gamepad(), GamepadDevice::Id(Gamepad::new(3)));
}

#[test]
fn deltas_of_a_tick_are_summed() {
    let deltas = vec![
        (FloatOrd(1.0), FloatOrd(-2.0)),
        (FloatOrd(0.5), FloatOrd(0.25)),
        (FloatOrd(2.0), FloatOrd(4.0)),
    ];
    assert_eq!(accumulate(&deltas), (FloatOrd(3.5), FloatOrd(2.25)));
    assert_eq!(accumulate(&Vec::new()), (FloatOrd(0.0), FloatOrd(0.0)));

    let world = init_world();
    let mut reader = InputReader::new();
    let sources = sources(&world);
    reader.update_state(false, false, &deltas, &one_delta());
    assert_eq!(reader.value(&sources, Input::mouse_motion()), axis2d(3.5, 2.25));
    assert_eq!(reader.value(&sources, Input::mouse_wheel()), axis2d(1.0, 1.0));
}

#[test]
fn keyboard_claim_gates_keys_but_not_mouse_or_gamepad() {
    let mut world = init_world();
    let gamepad = connect_dummy_gamepad(&mut world);
    let modifier = KeyCode::ControlRight;
    let key = KeyCode::KeyQ;
    let button = MouseButton::Middle;
    world.resource_mut::<ButtonInput<KeyCode>>().press(modifier);
    world.resource_mut::<ButtonInput<KeyCode>>().press(key);
    world
        .resource_mut::<ButtonInput<MouseButton>>()
        .press(button);
    world
        .resource_mut::<ButtonInput<GamepadButton>>()
        .press(GamepadButton {
            gamepad,
            button_type: GamepadButtonType::West,
        });
    world.resource_mut::<Axis<GamepadAxis>>().set(
        GamepadAxis {
            gamepad,
            axis_type: GamepadAxisType::RightStickY,
        },
        -0.75,
    );

    let mut reader = InputReader::new();
    let sources = sources(&world);
    reader.update_state(true, false, &one_delta(), &one_delta());

    let with_modifier = Input::MouseButton {
        button,
        mod_keys: modifier.into(),
    };
    assert_eq!(reader.value(&sources, key.into()), ActionValue::Bool(false));
    assert_eq!(
        reader.value(
            &sources,
            Input::Keyboard {
                key,
                mod_keys: modifier.into()
            }
        ),
        ActionValue::Bool(false)
    );
    assert_eq!(
        reader.value(&sources, with_modifier),
        ActionValue::Bool(true)
    );
    assert_eq!(
        reader.value(&sources, Input::mouse_motion().with_mod_keys(modifier.into())),
        axis2d(1.0, 1.0)
    );
    assert_eq!(
        reader.value(&sources, Input::mouse_wheel().with_mod_keys(modifier.into())),
        axis2d(1.0, 1.0)
    );
    assert_eq!(
        reader.value(
            &sources,
            Input::mouse_wheel().with_mod_keys(ModKeys::single(ModKey::Alt))
        ),
        axis2d(0.0, 0.0)
    );
    assert_eq!(
        reader.value(&sources, button.into()),
        ActionValue::Bool(true)
    );
    assert_eq!(
        reader.value(&sources, Input::mouse_motion()),
        axis2d(1.0, 1.0)
    );
    assert_eq!(
        reader.value(&sources, Input::mouse_wheel()),
        axis2d(1.0, 1.0)
    );
    assert_eq!(
        reader.value(&sources, GamepadButtonType::West.into()),
        ActionValue::Bool(true)
    );
    assert_eq!(
        reader.value(&sources, GamepadAxisType::RightStickY.into()),
        axis1d(-0.75)
    );
}

#[test]
fn mouse_claim_leaves_keys_and_gamepads() {
    let mut world = init_world();
    let gamepad = connect_dummy_gamepad(&mut world);
    world
        .resource_mut::<ButtonInput<KeyCode>>()
        .press(KeyCode::KeyW);
    world
        .resource_mut::<ButtonInput<GamepadButton>>()
        .press(GamepadButton {
            gamepad,
            button_type: GamepadButtonType::Start,
        });

    let mut reader = InputReader::new();
    let sources = sources(&world);
    reader.update_state(false, true, &one_delta(), &one_delta());
    assert_eq!(
        reader.value(&sources, KeyCode::KeyW.into()),
        ActionValue::Bool(true)
    );
    assert_eq!(
        reader.value(&sources, GamepadButtonType::Start.into()),
        ActionValue::Bool(true)
    );
    assert_eq!(
        reader.value(&sources, Input::mouse_wheel()),
        axis2d(0.0, 0.0)
    );
}

#[test]
fn any_gamepad_axis_skips_devices_at_rest() {
    let mut world = init_world();
    let gamepad = connect_dummy_gamepad(&mut world);
    let other_gamepad = connect_dummy_gamepad(&mut world);
    let axis = GamepadAxisType::LeftZ;
    let mut axes = world.resource_mut::<Axis<GamepadAxis>>();
    axes.set(
        GamepadAxis {
            gamepad,
            axis_type: axis,
        },
        0.0,
    );
    axes.set(
        GamepadAxis {
            gamepad: other_gamepad,
            axis_type: axis,
        },
        -0.5,
    );

    let mut reader = InputReader::new();
    let sources = sources(&world);
    assert_eq!(reader.value(&sources, axis.into()), axis1d(-0.5));
    reader.set_gamepad(gamepad.into());
    assert_eq!(reader.value(&sources, axis.into()), axis1d(0.0));
    reader.set_gamepad(other_gamepad.into());
    assert_eq!(reader.value(&sources, axis.into()), axis1d(-0.5));
}

#[test]
fn unknown_gamepad_reads_at_rest() {
    let mut world = init_world();
    let gamepad = connect_dummy_gamepad(&mut world);
    world
        .resource_mut::<ButtonInput<GamepadButton>>()
        .press(GamepadButton {
            gamepad,
            button_type: GamepadButtonType::South,
        });
    world.resource_mut::<Axis<GamepadAxis>>().set(
        GamepadAxis {
            gamepad,
            axis_type: GamepadAxisType::LeftStickX,
        },
        1.0,
    );

    let mut reader = InputReader::new();
    let sources = sources(&world);
    reader.set_gamepad(GamepadDevice::Id(Gamepad::new(17)));
    assert_eq!(
        reader.value(&sources, GamepadButtonType::South.into()),
        ActionValue::Bool(false)
    );
    assert_eq!(
        reader.value(&sources, GamepadAxisType::LeftStickX.into()),
        axis1d(0.0)
    );
}

#[test]
fn consumption_is_scoped_to_the_selected_gamepad() {
    let mut world = init_world();
    let gamepad = connect_dummy_gamepad(&mut world);
    let button = GamepadButtonType::South;
    world
        .resource_mut::<ButtonInput<GamepadButton>>()
        .press(GamepadButton {
            gamepad,
            button_type: button,
        });

    let mut reader = InputReader::new();
    let sources = sources(&world);
    reader.consume(button.into());
    assert_eq!(
        reader.value(&sources, button.into()),
        ActionValue::Bool(false)
    );
    reader.set_gamepad(gamepad.into());
    assert_eq!(
        reader.value(&sources, button.into()),
        ActionValue::Bool(true)
    );
    reader.consume(button.into());
    assert_eq!(
        reader.value(&sources, button.into()),
        ActionValue::Bool(false)
    );
}

#[test]
fn values_reads_each_input_and_consume_all_consumes_each() {
    let mut world = init_world();
    let mut keys = world.resource_mut::<ButtonInput<KeyCode>>();
    keys.press(KeyCode::KeyA);
    keys.press(KeyCode::KeyC);

    let inputs: Vec<Input> = vec![
        KeyCode::KeyA.into(),
        KeyCode::KeyB.into(),
        KeyCode::KeyC.into(),
    ];
    let mut reader = InputReader::new();
    let sources = sources(&world);
    assert_eq!(
        reader.values(&sources, &inputs),
        vec![
            ActionValue::Bool(true),
            ActionValue::Bool(false),
            ActionValue::Bool(true)
        ]
    );
    reader.consume_all(&inputs);
    assert_eq!(
        reader.values(&sources, &inputs),
        vec![
            ActionValue::Bool(false),
            ActionValue::Bool(false),
            ActionValue::Bool(false)
        ]
    );
}

#[test]
fn modifier_keys_map_to_their_modifier() {
    assert_eq!(ModKeys::from(KeyCode::ControlLeft), ModKeys::single(ModKey::Control));
    assert_eq!(ModKeys::from(KeyCode::ShiftRight), ModKeys::single(ModKey::Shift));
    assert_eq!(ModKeys::from(KeyCode::AltRight), ModKeys::single(ModKey::Alt));
    assert_eq!(ModKeys::from(KeyCode::SuperLeft), ModKeys::single(ModKey::Super));
    assert_eq!(ModKeys::from(KeyCode::KeyA), ModKeys::empty());
    assert!(ModKeys::empty().is_empty());
    assert!(!ModKeys::single(ModKey::Alt).is_empty());
    let both = ModKeys::single(ModKey::Alt).union(ModKeys::single(ModKey::Shift));
    assert!(both.contains(ModKey::Alt));
    assert!(both.contains(ModKey::Shift));
    assert!(!both.contains(ModKey::Control));
    assert!(both.intersects(ModKeys::single(ModKey::Shift)));
    assert!(!both.intersects(ModKeys::single(ModKey::Super)));
    assert_eq!(ModKey::Super.keys(), (KeyCode::SuperLeft, KeyCode::SuperRight));
}
