//! Reading of raw input for one tick, with consumption tracking.

use bevy::input::gamepad::Gamepad;
use bevy::input::gamepad::GamepadAxis;
use bevy::input::gamepad::GamepadAxisType;
use bevy::input::gamepad::GamepadButton;
use bevy::input::gamepad::GamepadButtonType;
use bevy::input::gamepad::Gamepads;
use bevy::input::keyboard::KeyCode;
use bevy::input::mouse::MouseButton;
use bevy::input::Axis;
use bevy::input::ButtonInput;
use bevy::math::FloatOrd;
use bevy::utils::HashSet;
use std::hash::Hash;
use vstd::prelude::*;
use crate::action_value::ActionValue;
use crate::input::GamepadDevice;
use crate::input::Input;
use crate::input::ModKey;
use crate::input::ModKeys;
use crate::number::is_nonzero;
use crate::number::nonzero;
use crate::number::plus;
use crate::number::sum_of;
use crate::number::whole;
use crate::number::zero;

verus! {

#[verifier::external_type_specification]
pub struct ExGamepadButton(GamepadButton);

#[verifier::external_type_specification]
pub struct ExGamepadAxis(GamepadAxis);

#[verifier::external_type_specification]
#[verifier::external_body]
pub struct ExGamepads(Gamepads);

#[verifier::external_type_specification]
#[verifier::external_body]
#[verifier::reject_recursive_types(T)]
pub struct ExButtonInput<T: Copy + Eq + Hash + Send + Sync + 'static>(ButtonInput<T>);

#[verifier::external_type_specification]
#[verifier::external_body]
#[verifier::reject_recursive_types(T)]
pub struct ExAxis<T>(Axis<T>);

/// A hash set of `bevy::utils`, which the verifier cannot look into.
#[verifier::external_body]
#[verifier::reject_recursive_types(T)]
pub struct HashedSet<T> {
    inner: HashSet<T>,
}

/// A gamepad button as consumption records it: the selected device, nothing
/// for any gamepad, and the button.
pub type ConsumedButton = (Option<Gamepad>, GamepadButtonType);

/// A gamepad axis as consumption records it.
pub type ConsumedAxis = (Option<Gamepad>, GamepadAxisType);

/// The keys that are held down.
pub uninterp spec fn pressed_keys(keys: ButtonInput<KeyCode>) -> Set<KeyCode>;

/// The mouse buttons that are held down.
pub uninterp spec fn pressed_mouse_buttons(buttons: ButtonInput<MouseButton>) -> Set<MouseButton>;

/// The gamepad buttons that are held down, each with its device.
pub uninterp spec fn pressed_gamepad_buttons(buttons: ButtonInput<GamepadButton>) -> Set<
    GamepadButton,
>;

/// The position of each gamepad axis that has one.
pub uninterp spec fn axis_positions(axes: Axis<GamepadAxis>) -> Map<GamepadAxis, FloatOrd>;

/// The gamepads that are connected.
pub uninterp spec fn connected_gamepads(gamepads: Gamepads) -> Set<Gamepad>;

/// The keys in a set of keys.
pub uninterp spec fn key_members(set: HashedSet<KeyCode>) -> Set<KeyCode>;

/// The buttons in a set of mouse buttons.
pub uninterp spec fn mouse_button_members(set: HashedSet<MouseButton>) -> Set<MouseButton>;

/// The buttons in a set of gamepad buttons.
pub uninterp spec fn gamepad_button_members(set: HashedSet<ConsumedButton>) -> Set<ConsumedButton>;

/// The axes in a set of gamepad axes.
pub uninterp spec fn gamepad_axis_members(set: HashedSet<ConsumedAxis>) -> Set<ConsumedAxis>;

/// Calls `ButtonInput::pressed`. Trusted: it tells whether the key is among
/// the pressed ones.
#[verifier::external_body]
fn key_pressed(keys: &ButtonInput<KeyCode>, key: KeyCode) -> (r: bool)
    ensures
        r == pressed_keys(*keys).contains(key),
{
    keys.pressed(key)
}

/// Calls `ButtonInput::pressed`. Trusted: it tells whether the mouse button is
/// among the pressed ones.
#[verifier::external_body]
fn mouse_button_pressed(buttons: &ButtonInput<MouseButton>, button: MouseButton) -> (r: bool)
    ensures
        r == pressed_mouse_buttons(*buttons).contains(button),
{
    buttons.pressed(button)
}

/// Calls `ButtonInput::pressed`. Trusted: it tells whether the button of that
/// gamepad is among the pressed ones.
#[verifier::external_body]
fn gamepad_button_pressed(buttons: &ButtonInput<GamepadButton>, button: GamepadButton) -> (r: bool)
    ensures
        r == pressed_gamepad_buttons(*buttons).contains(button),
{
    buttons.pressed(button)
}

/// Calls `Axis::get_unclamped`. Trusted: it returns the stored position of
/// the axis as it is, or nothing where none is stored.
#[verifier::external_body]
fn axis_position(axes: &Axis<GamepadAxis>, axis: GamepadAxis) -> (r: Option<FloatOrd>)
    ensures
        r == (if axis_positions(*axes).dom().contains(axis) {
            Some(axis_positions(*axes)[axis])
        } else {
            None
        }),
{
    axes.get_unclamped(axis).map(FloatOrd)
}

/// Calls `Gamepads::iter` and collects what it yields. Trusted: it yields each
/// connected gamepad; in which order is left open.
#[verifier::external_body]
fn list_gamepads(gamepads: &Gamepads) -> (r: Vec<Gamepad>)
    ensures
        r@.to_set() == connected_gamepads(*gamepads),
{
    gamepads.iter().collect()
}

/// Calls `HashSet::default`. Trusted: the new set is empty.
#[verifier::external_body]
fn new_key_set() -> (r: HashedSet<KeyCode>)
    ensures
        key_members(r) == Set::<KeyCode>::empty(),
{
    HashedSet { inner: HashSet::default() }
}

/// Calls `HashSet::insert`. Trusted: the key is added and nothing else changes.
#[verifier::external_body]
fn insert_key(set: &mut HashedSet<KeyCode>, key: KeyCode)
    ensures
        key_members(*final(set)) == key_members(*old(set)).insert(key),
{
    set.inner.insert(key);
}

/// Calls `HashSet::contains`. Trusted: it tells whether the key is in the set.
#[verifier::external_body]
fn has_key(set: &HashedSet<KeyCode>, key: KeyCode) -> (r: bool)
    ensures
        r == key_members(*set).contains(key),
{
    set.inner.contains(&key)
}

/// Calls `HashSet::default`. Trusted: the new set is empty.
#[verifier::external_body]
fn new_mouse_button_set() -> (r: HashedSet<MouseButton>)
    ensures
        mouse_button_members(r) == Set::<MouseButton>::empty(),
{
    HashedSet { inner: HashSet::default() }
}

/// Calls `HashSet::insert`. Trusted: the button is added and nothing else
/// changes.
#[verifier::external_body]
fn insert_mouse_button(set: &mut HashedSet<MouseButton>, button: MouseButton)
    ensures
        mouse_button_members(*final(set)) == mouse_button_members(*old(set)).insert(button),
{
    set.inner.insert(button);
}

/// Calls `HashSet::contains`. Trusted: it tells whether the button is in the
/// set.
#[verifier::external_body]
fn has_mouse_button(set: &HashedSet<MouseButton>, button: MouseButton) -> (r: bool)
    ensures
        r == mouse_button_members(*set).contains(button),
{
    set.inner.contains(&button)
}

/// Calls `HashSet::default`. Trusted: the new set is empty.
#[verifier::external_body]
fn new_gamepad_button_set() -> (r: HashedSet<ConsumedButton>)
    ensures
        gamepad_button_members(r) == Set::<ConsumedButton>::empty(),
{
    HashedSet { inner: HashSet::default() }
}

/// Calls `HashSet::insert`. Trusted: the button is added and nothing else
/// changes.
#[verifier::external_body]
fn insert_gamepad_button(set: &mut HashedSet<ConsumedButton>, button: ConsumedButton)
    ensures
        gamepad_button_members(*final(set)) == gamepad_button_members(*old(set)).insert(button),
{
    set.inner.insert(button);
}

/// Calls `HashSet::contains`. Trusted: it tells whether the button is in the
/// set.
#[verifier::external_body]
fn has_gamepad_button(set: &HashedSet<ConsumedButton>, button: ConsumedButton) -> (r: bool)
    ensures
        r == gamepad_button_members(*set).contains(button),
{
    set.inner.contains(&button)
}

/// Calls `HashSet::default`. Trusted: the new set is empty.
#[verifier::external_body]
fn new_gamepad_axis_set() -> (r: HashedSet<ConsumedAxis>)
    ensures
        gamepad_axis_members(r) == Set::<ConsumedAxis>::empty(),
{
    HashedSet { inner: HashSet::default() }
}

/// Calls `HashSet::insert`. Trusted: the axis is added and nothing else
/// changes.
#[verifier::external_body]
fn insert_gamepad_axis(set: &mut HashedSet<ConsumedAxis>, axis: ConsumedAxis)
    ensures
        gamepad_axis_members(*final(set)) == gamepad_axis_members(*old(set)).insert(axis),
{
    set.inner.insert(axis);
}

/// Calls `HashSet::contains`. Trusted: it tells whether the axis is in the set.
#[verifier::external_body]
fn has_gamepad_axis(set: &HashedSet<ConsumedAxis>, axis: ConsumedAxis) -> (r: bool)
    ensures
        r == gamepad_axis_members(*set).contains(axis),
{
    set.inner.contains(&axis)
}

/// The device state that the reader reads from, as the host holds it for the
/// current tick.
pub struct InputSources<'a> {
    pub keys: &'a ButtonInput<KeyCode>,
    pub mouse_buttons: &'a ButtonInput<MouseButton>,
    pub gamepad_buttons: &'a ButtonInput<GamepadButton>,
    pub gamepad_axis: &'a Axis<GamepadAxis>,
    pub gamepads: &'a Gamepads,
}

/// What the device state holds.
pub struct SourcesView {
    pub keys: Set<KeyCode>,
    pub mouse_buttons: Set<MouseButton>,
    pub gamepad_buttons: Set<GamepadButton>,
    pub axes: Map<GamepadAxis, FloatOrd>,
    pub gamepads: Set<Gamepad>,
}

impl SourcesView {
    /// Whether the left or the right key of the modifier is down.
    pub open spec fn modifier_down(self, key: ModKey) -> bool {
        self.keys.contains(key.spec_keys().0) || self.keys.contains(key.spec_keys().1)
    }

    /// Whether the button is down on the given gamepad.
    pub open spec fn button_down_on(self, gamepad: Gamepad, button: GamepadButtonType) -> bool {
        self.gamepad_buttons.contains(GamepadButton { gamepad, button_type: button })
    }

    /// Whether the button is down on the selected device: on that gamepad, or
    /// on some connected one where any is selected.
    pub open spec fn button_down(self, device: GamepadDevice, button: GamepadButtonType) -> bool {
        match device {
            GamepadDevice::Any => exists|gamepad: Gamepad|
                self.gamepads.contains(gamepad) && #[trigger] self.button_down_on(gamepad, button),
            GamepadDevice::Id(gamepad) => self.button_down_on(gamepad, button),
        }
    }

    /// The position of the axis on the given gamepad, if it has one.
    pub open spec fn axis_on(self, gamepad: Gamepad, axis: GamepadAxisType) -> Option<FloatOrd> {
        let source = GamepadAxis { gamepad, axis_type: axis };
        if self.axes.dom().contains(source) {
            Some(self.axes[source])
        } else {
            None
        }
    }

    /// Whether the axis is away from zero on the given gamepad.
    pub open spec fn axis_active_on(self, gamepad: Gamepad, axis: GamepadAxisType) -> bool {
        self.axis_on(gamepad, axis) is Some && is_nonzero(self.axis_on(gamepad, axis).unwrap())
    }

    /// Whether `value` is a reading of the axis over all connected gamepads:
    /// the position on one of them where the axis is away from zero, or zero
    /// where it is so on none.
    pub open spec fn any_axis_reading(self, axis: GamepadAxisType, value: FloatOrd) -> bool {
        ||| exists|gamepad: Gamepad|
            self.gamepads.contains(gamepad) && #[trigger] self.axis_active_on(gamepad, axis)
                && self.axis_on(gamepad, axis) == Some(value)
        ||| value == zero() && forall|gamepad: Gamepad|
            self.gamepads.contains(gamepad) ==> !#[trigger] self.axis_active_on(gamepad, axis)
    }

    /// The position of the axis on the first of the gamepads, in the given
    /// order, where it is away from zero; zero where there is none.
    pub open spec fn first_active_axis(
        self,
        gamepads: Seq<Gamepad>,
        axis: GamepadAxisType,
    ) -> FloatOrd
        decreases gamepads.len(),
    {
        if gamepads.len() == 0 {
            zero()
        } else if self.axis_active_on(gamepads[0], axis) {
            self.axis_on(gamepads[0], axis).unwrap()
        } else {
            self.first_active_axis(gamepads.skip(1), axis)
        }
    }
}

impl<'a> View for InputSources<'a> {
    type V = SourcesView;

    open spec fn view(&self) -> SourcesView {
        SourcesView {
            keys: pressed_keys(*self.keys),
            mouse_buttons: pressed_mouse_buttons(*self.mouse_buttons),
            gamepad_buttons: pressed_gamepad_buttons(*self.gamepad_buttons),
            axes: axis_positions(*self.gamepad_axis),
            gamepads: connected_gamepads(*self.gamepads),
        }
    }
}

/// What has been consumed in the current tick, and whether a user interface
/// claims the keyboard or the mouse.
pub struct ConsumedInput {
    ui_wants_keyboard: bool,
    ui_wants_mouse: bool,
    keys: HashedSet<KeyCode>,
    mod_keys: ModKeys,
    mouse_buttons: HashedSet<MouseButton>,
    gamepad_buttons: HashedSet<ConsumedButton>,
    gamepad_axes: HashedSet<ConsumedAxis>,
}

/// What a [`ConsumedInput`] holds.
pub struct ConsumedView {
    pub ui_wants_keyboard: bool,
    pub ui_wants_mouse: bool,
    pub keys: Set<KeyCode>,
    pub mod_keys: ModKeys,
    pub mouse_buttons: Set<MouseButton>,
    pub gamepad_buttons: Set<ConsumedButton>,
    pub gamepad_axes: Set<ConsumedAxis>,
}

impl ConsumedView {
    /// Nothing consumed and no claim of a user interface.
    pub open spec fn empty() -> ConsumedView {
        ConsumedView {
            ui_wants_keyboard: false,
            ui_wants_mouse: false,
            keys: Set::empty(),
            mod_keys: ModKeys::spec_empty(),
            mouse_buttons: Set::empty(),
            gamepad_buttons: Set::empty(),
            gamepad_axes: Set::empty(),
        }
    }
}

impl View for ConsumedInput {
    type V = ConsumedView;

    closed spec fn view(&self) -> ConsumedView {
        ConsumedView {
            ui_wants_keyboard: self.ui_wants_keyboard,
            ui_wants_mouse: self.ui_wants_mouse,
            keys: key_members(self.keys),
            mod_keys: self.mod_keys,
            mouse_buttons: mouse_button_members(self.mouse_buttons),
            gamepad_buttons: gamepad_button_members(self.gamepad_buttons),
            gamepad_axes: gamepad_axis_members(self.gamepad_axes),
        }
    }
}

impl ConsumedInput {
    /// Creates a record with nothing consumed.
    pub fn new() -> (r: ConsumedInput)
        ensures
            r@ == ConsumedView::empty(),
    {
        ConsumedInput {
            ui_wants_keyboard: false,
            ui_wants_mouse: false,
            keys: new_key_set(),
            mod_keys: ModKeys::empty(),
            mouse_buttons: new_mouse_button_set(),
            gamepad_buttons: new_gamepad_button_set(),
            gamepad_axes: new_gamepad_axis_set(),
        }
    }

    /// Forgets everything consumed and both claims of the user interface.
    pub fn reset(&mut self)
        ensures
            final(self)@ == ConsumedView::empty(),
    {
        self.ui_wants_keyboard = false;
        self.ui_wants_mouse = false;
        self.keys = new_key_set();
        self.mod_keys = ModKeys::empty();
        self.mouse_buttons = new_mouse_button_set();
        self.gamepad_buttons = new_gamepad_button_set();
        self.gamepad_axes = new_gamepad_axis_set();
    }
}

/// The sum of the deltas on each axis, added one after another to zero.
pub open spec fn total_delta(deltas: Seq<(FloatOrd, FloatOrd)>) -> (FloatOrd, FloatOrd)
    decreases deltas.len(),
{
    if deltas.len() == 0 {
        (zero(), zero())
    } else {
        let before = total_delta(deltas.drop_last());
        (sum_of(before.0, deltas.last().0), sum_of(before.1, deltas.last().1))
    }
}

/// Adds up the deltas of one tick.
pub fn accumulate(deltas: &Vec<(FloatOrd, FloatOrd)>) -> (r: (FloatOrd, FloatOrd))
    ensures
        r == total_delta(deltas@),
{
    let mut x = whole(0);
    let mut y = whole(0);
    let mut i: usize = 0;
    while i < deltas.len()
        invariant
            i <= deltas.len(),
            (x, y) == total_delta(deltas@.take(i as int)),
        decreases deltas.len() - i,
    {
        let delta = deltas[i];
        proof {
            assert(deltas@.take(i + 1).drop_last() =~= deltas@.take(i as int));
        }
        x = plus(x, delta.0);
        y = plus(y, delta.1);
        i = i + 1;
    }
    proof {
        assert(deltas@.take(i as int) =~= deltas@);
    }
    (x, y)
}

/// Reads input from multiple sources and tracks what was consumed.
pub struct InputReader {
    consumed: ConsumedInput,
    gamepad_device: GamepadDevice,
    mouse_wheel: (FloatOrd, FloatOrd),
    mouse_motion: (FloatOrd, FloatOrd),
}

/// What an [`InputReader`] holds.
pub struct ReaderView {
    pub consumed: ConsumedView,
    pub gamepad_device: GamepadDevice,
    pub mouse_wheel: (FloatOrd, FloatOrd),
    pub mouse_motion: (FloatOrd, FloatOrd),
}

impl ReaderView {
    /// The state at the start of a tick on which nothing has moved.
    pub open spec fn initial() -> ReaderView {
        ReaderView {
            consumed: ConsumedView::empty(),
            gamepad_device: GamepadDevice::Any,
            mouse_wheel: (zero(), zero()),
            mouse_motion: (zero(), zero()),
        }
    }

    /// The state after the start of a tick: nothing is consumed, the claims of
    /// the user interface and the accumulated deltas are those of the tick.
    /// Only the selected gamepad is kept.
    pub open spec fn refreshed(
        self,
        ui_wants_keyboard: bool,
        ui_wants_mouse: bool,
        motion: Seq<(FloatOrd, FloatOrd)>,
        wheel: Seq<(FloatOrd, FloatOrd)>,
    ) -> ReaderView {
        ReaderView {
            consumed: ConsumedView { ui_wants_keyboard, ui_wants_mouse, ..ConsumedView::empty() },
            gamepad_device: self.gamepad_device,
            mouse_wheel: total_delta(wheel),
            mouse_motion: total_delta(motion),
        }
    }

    /// Whether the required modifiers count as held: none of them was
    /// consumed and each is down. The claims of a user interface do not enter:
    /// a claim on the keyboard gates keys, not the modifiers of mouse inputs.
    pub open spec fn mod_keys_pressed(self, sources: SourcesView, mod_keys: ModKeys) -> bool {
        &&& !self.consumed.mod_keys.spec_intersects(mod_keys)
        &&& forall|key: ModKey| mod_keys.has(key) ==> #[trigger] sources.modifier_down(key)
    }

    /// Whether the input of the selected gamepad was consumed.
    pub open spec fn gamepad_consumed(self, input: Input) -> bool {
        match input {
            Input::GamepadButton { button } => self.consumed.gamepad_buttons.contains(
                (self.gamepad_device.spec_key(), button),
            ),
            Input::GamepadAxis { axis } => self.consumed.gamepad_axes.contains(
                (self.gamepad_device.spec_key(), axis),
            ),
            _ => false,
        }
    }

    /// Whether the value of the input depends on the order in which the
    /// connected gamepads are visited: an axis that was not consumed, read
    /// from any gamepad.
    pub open spec fn reads_any_axis(self, input: Input) -> bool {
        input is GamepadAxis && self.gamepad_device is Any && !self.gamepad_consumed(input)
    }

    /// The current value of the input. For an axis read from any gamepad the
    /// connected gamepads are visited in the given order.
    pub open spec fn value_in_order(
        self,
        sources: SourcesView,
        order: Seq<Gamepad>,
        input: Input,
    ) -> ActionValue {
        match input {
            Input::Keyboard { key, mod_keys } => ActionValue::Bool(
                !self.consumed.ui_wants_keyboard && sources.keys.contains(key)
                    && !self.consumed.keys.contains(key) && self.mod_keys_pressed(
                    sources,
                    mod_keys,
                ),
            ),
            Input::MouseButton { button, mod_keys } => ActionValue::Bool(
                !self.consumed.ui_wants_mouse && sources.mouse_buttons.contains(button)
                    && !self.consumed.mouse_buttons.contains(button) && self.mod_keys_pressed(
                    sources,
                    mod_keys,
                ),
            ),
            Input::MouseMotion { mod_keys } => if self.consumed.ui_wants_mouse
                || !self.mod_keys_pressed(sources, mod_keys) {
                ActionValue::Axis2D(zero(), zero())
            } else {
                ActionValue::Axis2D(self.mouse_motion.0, self.mouse_motion.1)
            },
            Input::MouseWheel { mod_keys } => if self.consumed.ui_wants_mouse
                || !self.mod_keys_pressed(sources, mod_keys) {
                ActionValue::Axis2D(zero(), zero())
            } else {
                ActionValue::Axis2D(self.mouse_wheel.0, self.mouse_wheel.1)
            },
            Input::GamepadButton { button } => ActionValue::Bool(
                !self.gamepad_consumed(input) && sources.button_down(self.gamepad_device, button),
            ),
            Input::GamepadAxis { axis } => if self.gamepad_consumed(input) {
                ActionValue::Axis1D(zero())
            } else {
                match self.gamepad_device {
                    GamepadDevice::Any => ActionValue::Axis1D(
                        sources.first_active_axis(order, axis),
                    ),
                    GamepadDevice::Id(gamepad) => ActionValue::Axis1D(
                        match sources.axis_on(gamepad, axis) {
                            Some(position) => position,
                            None => zero(),
                        },
                    ),
                }
            },
        }
    }

    /// The current value of an input that does not depend on the order of the
    /// connected gamepads.
    pub open spec fn value(self, sources: SourcesView, input: Input) -> ActionValue {
        self.value_in_order(sources, Seq::empty(), input)
    }

    /// Whether `value` is a current value of the input: the one value that
    /// the input has, or for an axis read from any gamepad a reading over the
    /// connected gamepads.
    pub open spec fn is_value(self, sources: SourcesView, input: Input, value: ActionValue) -> bool {
        if self.reads_any_axis(input) {
            value is Axis1D && sources.any_axis_reading(input->axis, value->Axis1D_0)
        } else {
            value == self.value(sources, input)
        }
    }

    /// The state after each of the inputs was consumed, first to last.
    pub open spec fn consume_all(self, inputs: Seq<Input>) -> ReaderView
        decreases inputs.len(),
    {
        if inputs.len() == 0 {
            self
        } else {
            self.consume_all(inputs.drop_last()).consume(inputs.last())
        }
    }

    /// The state after the input was consumed.
    pub open spec fn consume(self, input: Input) -> ReaderView {
        let consumed = self.consumed;
        match input {
            Input::Keyboard { key, mod_keys } => ReaderView {
                consumed: ConsumedView {
                    keys: consumed.keys.insert(key),
                    mod_keys: consumed.mod_keys.spec_union(mod_keys),
                    ..consumed
                },
                ..self
            },
            Input::MouseButton { button, mod_keys } => ReaderView {
                consumed: ConsumedView {
                    mouse_buttons: consumed.mouse_buttons.insert(button),
                    mod_keys: consumed.mod_keys.spec_union(mod_keys),
                    ..consumed
                },
                ..self
            },
            Input::MouseMotion { mod_keys } => ReaderView {
                consumed: ConsumedView {
                    mod_keys: consumed.mod_keys.spec_union(mod_keys),
                    ..consumed
                },
                mouse_motion: (zero(), zero()),
                ..self
            },
            Input::MouseWheel { mod_keys } => ReaderView {
                consumed: ConsumedView {
                    mod_keys: consumed.mod_keys.spec_union(mod_keys),
                    ..consumed
                },
                mouse_wheel: (zero(), zero()),
                ..self
            },
            Input::GamepadButton { button } => ReaderView {
                consumed: ConsumedView {
                    gamepad_buttons: consumed.gamepad_buttons.insert(
                        (self.gamepad_device.spec_key(), button),
                    ),
                    ..consumed
                },
                ..self
            },
            Input::GamepadAxis { axis } => ReaderView {
                consumed: ConsumedView {
                    gamepad_axes: consumed.gamepad_axes.insert(
                        (self.gamepad_device.spec_key(), axis),
                    ),
                    ..consumed
                },
                ..self
            },
        }
    }
}

impl View for InputReader {
    type V = ReaderView;

    closed spec fn view(&self) -> ReaderView {
        ReaderView {
            consumed: self.consumed@,
            gamepad_device: self.gamepad_device,
            mouse_wheel: self.mouse_wheel,
            mouse_motion: self.mouse_motion,
        }
    }
}

impl<'a> InputSources<'a> {
    /// Returns whether the button is down on some gamepad of the list.
    pub fn button_down_on_any(&self, gamepads: &Vec<Gamepad>, button: GamepadButtonType) -> (r:
        bool)
        ensures
            r == exists|i: int|
                0 <= i < gamepads.len() && #[trigger] self@.button_down_on(gamepads[i], button),
    {
        let mut i: usize = 0;
        while i < gamepads.len()
            invariant
                i <= gamepads.len(),
                forall|j: int| 0 <= j < i ==> !#[trigger] self@.button_down_on(gamepads[j], button),
            decreases gamepads.len() - i,
        {
            let source = GamepadButton { gamepad: gamepads[i], button_type: button };
            if gamepad_button_pressed(self.gamepad_buttons, source) {
                assert(self@.button_down_on(gamepads[i as int], button));
                return true;
            }
            i = i + 1;
        }
        false
    }

    /// Returns the position of the axis on the first gamepad of the list where
    /// it is away from zero, and zero where it is so on none.
    pub fn first_active_axis(&self, gamepads: &Vec<Gamepad>, axis: GamepadAxisType) -> (r:
        FloatOrd)
        ensures
            r == self@.first_active_axis(gamepads@, axis),
    {
        let mut i: usize = 0;
        proof {
            assert(gamepads@.skip(0) =~= gamepads@);
        }
        while i < gamepads.len()
            invariant
                i <= gamepads.len(),
                self@.first_active_axis(gamepads@, axis) == self@.first_active_axis(
                    gamepads@.skip(i as int),
                    axis,
                ),
            decreases gamepads.len() - i,
        {
            let source = GamepadAxis { gamepad: gamepads[i], axis_type: axis };
            proof {
                assert(gamepads@.skip(i as int)[0] == gamepads@[i as int]);
                assert(gamepads@.skip(i as int).skip(1) =~= gamepads@.skip(i + 1));
            }
            match axis_position(self.gamepad_axis, source) {
                Some(position) => {
                    if nonzero(position) {
                        return position;
                    }
                },
                None => {},
            }
            i = i + 1;
        }
        proof {
            assert(gamepads@.skip(i as int).len() == 0);
        }
        whole(0)
    }
}

/// The first active position in a list of the connected gamepads is a reading
/// of the axis over all of them, whatever the order of the list.
pub proof fn first_active_axis_is_a_reading(
    sources: SourcesView,
    order: Seq<Gamepad>,
    axis: GamepadAxisType,
)
    requires
        order.to_set() == sources.gamepads,
    ensures
        sources.any_axis_reading(axis, sources.first_active_axis(order, axis)),
{
    first_active_axis_in_list(sources, order, axis);
    let value = sources.first_active_axis(order, axis);
    if exists|i: int| 0 <= i < order.len() && #[trigger] sources.axis_active_on(order[i], axis) {
        let i = choose|i: int|
            0 <= i < order.len() && #[trigger] sources.axis_active_on(order[i], axis)
                && sources.axis_on(order[i], axis) == Some(value);
        assert(order.to_set().contains(order[i]));
    } else {
        assert forall|gamepad: Gamepad| sources.gamepads.contains(gamepad) implies !#[trigger] sources.axis_active_on(
            gamepad,
            axis,
        ) by {
            assert(order.to_set().contains(gamepad));
            let i = choose|i: int| 0 <= i < order.len() && order[i] == gamepad;
            assert(!sources.axis_active_on(order[i], axis));
        }
    }
}

/// The first active position is that of a gamepad of the list where the axis
/// is away from zero, if there is one, and zero if there is none.
proof fn first_active_axis_in_list(sources: SourcesView, order: Seq<Gamepad>, axis: GamepadAxisType)
    ensures
        (exists|i: int| 0 <= i < order.len() && #[trigger] sources.axis_active_on(order[i], axis))
            ==> (exists|i: int|
            0 <= i < order.len() && #[trigger] sources.axis_active_on(order[i], axis)
                && sources.axis_on(order[i], axis) == Some(
                sources.first_active_axis(order, axis),
            )),
        (forall|i: int| 0 <= i < order.len() ==> !#[trigger] sources.axis_active_on(order[i], axis))
            ==> sources.first_active_axis(order, axis) == zero(),
    decreases order.len(),
{
    if order.len() == 0 {
    } else if sources.axis_active_on(order[0], axis) {
        assert(sources.axis_on(order[0], axis) == Some(sources.first_active_axis(order, axis)));
    } else {
        let rest = order.skip(1);
        first_active_axis_in_list(sources, rest, axis);
        assert(forall|i: int| 0 <= i < rest.len() ==> rest[i] == order[i + 1]);
        if exists|i: int| 0 <= i < order.len() && #[trigger] sources.axis_active_on(order[i], axis) {
            let i = choose|i: int|
                0 <= i < order.len() && #[trigger] sources.axis_active_on(order[i], axis);
            assert(sources.axis_active_on(rest[i - 1], axis));
            let j = choose|j: int|
                0 <= j < rest.len() && #[trigger] sources.axis_active_on(rest[j], axis)
                    && sources.axis_on(rest[j], axis) == Some(
                    sources.first_active_axis(rest, axis),
                );
            assert(sources.axis_active_on(order[j + 1], axis));
        } else {
            assert forall|i: int| 0 <= i < rest.len() implies !#[trigger] sources.axis_active_on(
                rest[i],
                axis,
            ) by {
                assert(!sources.axis_active_on(order[i + 1], axis));
            }
        }
    }
}

impl InputReader {
    /// Creates a reader with nothing consumed that reads from any gamepad.
    pub fn new() -> (r: InputReader)
        ensures
            r@ == ReaderView::initial(),
    {
        InputReader {
            consumed: ConsumedInput::new(),
            gamepad_device: GamepadDevice::Any,
            mouse_wheel: (whole(0), whole(0)),
            mouse_motion: (whole(0), whole(0)),
        }
    }

    /// Starts a tick: forgets everything consumed, takes over the two claims
    /// of the user interface and adds up the mouse motion and wheel deltas
    /// that arrived since the last tick.
    pub fn update_state(
        &mut self,
        ui_wants_keyboard: bool,
        ui_wants_mouse: bool,
        motion: &Vec<(FloatOrd, FloatOrd)>,
        wheel: &Vec<(FloatOrd, FloatOrd)>,
    )
        ensures
            final(self)@ == old(self)@.refreshed(
                ui_wants_keyboard,
                ui_wants_mouse,
                motion@,
                wheel@,
            ),
    {
        self.consumed.reset();
        self.consumed.ui_wants_keyboard = ui_wants_keyboard;
        self.consumed.ui_wants_mouse = ui_wants_mouse;
        self.mouse_motion = accumulate(motion);
        self.mouse_wheel = accumulate(wheel);
    }

    /// Selects the gamepad from which [`Self::value`] reads.
    pub fn set_gamepad(&mut self, gamepad: GamepadDevice)
        ensures
            final(self)@ == (ReaderView { gamepad_device: gamepad, ..old(self)@ }),
    {
        self.gamepad_device = gamepad;
    }

    /// Returns the gamepad from which [`Self::value`] reads.
    pub fn gamepad(&self) -> (r: GamepadDevice)
        ensures
            r == self@.gamepad_device,
    {
        self.gamepad_device
    }

    /// Returns the current value of the input.
    ///
    /// An axis that is read from any gamepad gives the position on one of the
    /// connected gamepads where it is away from zero; which one is not
    /// determined when there are several.
    pub fn value(&self, sources: &InputSources, input: Input) -> (r: ActionValue)
        ensures
            self@.is_value(sources@, input, r),
            !self@.reads_any_axis(input) ==> r == self@.value(sources@, input),
            self@.reads_any_axis(input) ==> r is Axis1D && sources@.any_axis_reading(
                input->axis,
                r->Axis1D_0,
            ),
    {
        match input {
            Input::Keyboard { key, mod_keys } => {
                let pressed = !self.consumed.ui_wants_keyboard && key_pressed(sources.keys, key)
                    && !has_key(&self.consumed.keys, key) && self.mod_keys_pressed(
                    sources,
                    mod_keys,
                );
                ActionValue::Bool(pressed)
            },
            Input::MouseButton { button, mod_keys } => {
                let pressed = !self.consumed.ui_wants_mouse && mouse_button_pressed(
                    sources.mouse_buttons,
                    button,
                ) && !has_mouse_button(&self.consumed.mouse_buttons, button)
                    && self.mod_keys_pressed(sources, mod_keys);
                ActionValue::Bool(pressed)
            },
            Input::MouseMotion { mod_keys } => {
                if self.consumed.ui_wants_mouse || !self.mod_keys_pressed(sources, mod_keys) {
                    return ActionValue::Axis2D(whole(0), whole(0));
                }
                ActionValue::Axis2D(self.mouse_motion.0, self.mouse_motion.1)
            },
            Input::MouseWheel { mod_keys } => {
                if self.consumed.ui_wants_mouse || !self.mod_keys_pressed(sources, mod_keys) {
                    return ActionValue::Axis2D(whole(0), whole(0));
                }
                ActionValue::Axis2D(self.mouse_wheel.0, self.mouse_wheel.1)
            },
            Input::GamepadButton { button } => {
                if has_gamepad_button(
                    &self.consumed.gamepad_buttons,
                    (self.gamepad_device.key(), button),
                ) {
                    return ActionValue::Bool(false);
                }
                let pressed = match self.gamepad_device {
                    GamepadDevice::Any => {
                        let gamepads = list_gamepads(sources.gamepads);
                        let pressed = sources.button_down_on_any(&gamepads, button);
                        proof {
                            if pressed {
                                let i = choose|i: int|
                                    0 <= i < gamepads.len() && #[trigger] sources@.button_down_on(
                                        gamepads[i],
                                        button,
                                    );
                                assert(gamepads@.to_set().contains(gamepads[i]));
                            } else {
                                assert forall|gamepad: Gamepad|
                                    sources@.gamepads.contains(
                                        gamepad,
                                    ) implies !#[trigger] sources@.button_down_on(
                                    gamepad,
                                    button,
                                ) by {
                                    assert(gamepads@.to_set().contains(gamepad));
                                    let i = choose|i: int|
                                        0 <= i < gamepads.len() && gamepads[i] == gamepad;
                                    assert(!sources@.button_down_on(gamepads[i], button));
                                }
                            }
                        }
                        pressed
                    },
                    GamepadDevice::Id(gamepad) => gamepad_button_pressed(
                        sources.gamepad_buttons,
                        GamepadButton { gamepad, button_type: button },
                    ),
                };
                ActionValue::Bool(pressed)
            },
            Input::GamepadAxis { axis } => {
                if has_gamepad_axis(&self.consumed.gamepad_axes, (self.gamepad_device.key(), axis)) {
                    return ActionValue::Axis1D(whole(0));
                }
                let position = match self.gamepad_device {
                    GamepadDevice::Any => {
                        let gamepads = list_gamepads(sources.gamepads);
                        proof {
                            first_active_axis_is_a_reading(sources@, gamepads@, axis);
                        }
                        sources.first_active_axis(&gamepads, axis)
                    },
                    GamepadDevice::Id(gamepad) => {
                        match axis_position(
                            sources.gamepad_axis,
                            GamepadAxis { gamepad, axis_type: axis },
                        ) {
                            Some(position) => position,
                            None => whole(0),
                        }
                    },
                };
                ActionValue::Axis1D(position)
            },
        }
    }

    /// Returns whether the required modifiers count as held.
    pub fn mod_keys_pressed(&self, sources: &InputSources, mod_keys: ModKeys) -> (r: bool)
        ensures
            r == self@.mod_keys_pressed(sources@, mod_keys),
    {
        if self.consumed.mod_keys.intersects(mod_keys) {
            return false;
        }
        let control = Self::modifier_held(sources, mod_keys, ModKey::Control);
        let shift = Self::modifier_held(sources, mod_keys, ModKey::Shift);
        let alt = Self::modifier_held(sources, mod_keys, ModKey::Alt);
        let super_key = Self::modifier_held(sources, mod_keys, ModKey::Super);
        let r = control && shift && alt && super_key;
        proof {
            if r {
                assert forall|key: ModKey| mod_keys.has(key) implies #[trigger] sources@.modifier_down(
                    key,
                ) by {
                    match key {
                        ModKey::Control => {},
                        ModKey::Shift => {},
                        ModKey::Alt => {},
                        ModKey::Super => {},
                    }
                }
            } else {
                let key = if !control {
                    ModKey::Control
                } else if !shift {
                    ModKey::Shift
                } else if !alt {
                    ModKey::Alt
                } else {
                    ModKey::Super
                };
                assert(mod_keys.has(key) && !sources@.modifier_down(key));
            }
        }
        r
    }

    /// Returns whether the modifier is not required or one of its keys is down.
    fn modifier_held(sources: &InputSources, mod_keys: ModKeys, key: ModKey) -> (r: bool)
        ensures
            r == (mod_keys.has(key) ==> sources@.modifier_down(key)),
    {
        if !mod_keys.contains(key) {
            return true;
        }
        let (left, right) = key.keys();
        key_pressed(sources.keys, left) || key_pressed(sources.keys, right)
    }

    /// Consumes each of the inputs, first to last.
    pub fn consume_all(&mut self, inputs: &Vec<Input>)
        ensures
            final(self)@ == old(self)@.consume_all(inputs@),
    {
        let mut i: usize = 0;
        proof {
            assert(inputs@.take(0) =~= Seq::empty());
        }
        while i < inputs.len()
            invariant
                i <= inputs.len(),
                self@ == old(self)@.consume_all(inputs@.take(i as int)),
            decreases inputs.len() - i,
        {
            proof {
                assert(inputs@.take(i + 1).drop_last() =~= inputs@.take(i as int));
            }
            self.consume(inputs[i]);
            i = i + 1;
        }
        proof {
            assert(inputs@.take(i as int) =~= inputs@);
        }
    }

    /// Returns the current value of each of the inputs.
    pub fn values(&self, sources: &InputSources, inputs: &Vec<Input>) -> (r: Vec<ActionValue>)
        ensures
            r.len() == inputs.len(),
            forall|i: int|
                0 <= i < inputs.len() ==> self@.is_value(sources@, inputs[i], #[trigger] r[i]),
    {
        let mut readings: Vec<ActionValue> = Vec::new();
        let mut i: usize = 0;
        while i < inputs.len()
            invariant
                i <= inputs.len(),
                readings.len() == i,
                forall|j: int|
                    0 <= j < i ==> self@.is_value(sources@, inputs[j], #[trigger] readings[j]),
            decreases inputs.len() - i,
        {
            let reading = self.value(sources, inputs[i]);
            readings.push(reading);
            i = i + 1;
        }
        readings
    }

    /// Consumes the input, making it unavailable for [`Self::value`] until the
    /// next [`Self::update_state`].
    pub fn consume(&mut self, input: Input)
        ensures
            final(self)@ == old(self)@.consume(input),
    {
        match input {
            Input::Keyboard { key, mod_keys } => {
                insert_key(&mut self.consumed.keys, key);
                self.consumed.mod_keys.insert(mod_keys);
            },
            Input::MouseButton { button, mod_keys } => {
                insert_mouse_button(&mut self.consumed.mouse_buttons, button);
                self.consumed.mod_keys.insert(mod_keys);
            },
            Input::MouseMotion { mod_keys } => {
                self.mouse_motion = (whole(0), whole(0));
                self.consumed.mod_keys.insert(mod_keys);
            },
            Input::MouseWheel { mod_keys } => {
                self.mouse_wheel = (whole(0), whole(0));
                self.consumed.mod_keys.insert(mod_keys);
            },
            Input::GamepadButton { button } => {
                let device = self.gamepad_device.key();
                insert_gamepad_button(&mut self.consumed.gamepad_buttons, (device, button));
            },
            Input::GamepadAxis { axis } => {
                let device = self.gamepad_device.key();
                insert_gamepad_axis(&mut self.consumed.gamepad_axes, (device, axis));
            },
        }
    }
}

impl ReaderView {
    /// The same state under other claims of the user interface.
    pub open spec fn with_claims(self, ui_wants_keyboard: bool, ui_wants_mouse: bool) -> ReaderView {
        ReaderView {
            consumed: ConsumedView { ui_wants_keyboard, ui_wants_mouse, ..self.consumed },
            ..self
        }
    }

    /// The value that an input has while its source is at rest.
    pub open spec fn rest_value(input: Input) -> ActionValue {
        match input {
            Input::Keyboard { .. } => ActionValue::Bool(false),
            Input::MouseButton { .. } => ActionValue::Bool(false),
            Input::MouseMotion { .. } => ActionValue::Axis2D(zero(), zero()),
            Input::MouseWheel { .. } => ActionValue::Axis2D(zero(), zero()),
            Input::GamepadButton { .. } => ActionValue::Bool(false),
            Input::GamepadAxis { .. } => ActionValue::Axis1D(zero()),
        }
    }
}

/// Consuming an input a second time in the same tick changes nothing.
pub proof fn consume_twice_is_consume_once(reader: ReaderView, input: Input)
    ensures
        reader.consume(input).consume(input) == reader.consume(input),
{
    let once = reader.consume(input);
    let twice = once.consume(input);
    assert(twice.consumed.keys =~= once.consumed.keys);
    assert(twice.consumed.mouse_buttons =~= once.consumed.mouse_buttons);
    assert(twice.consumed.gamepad_buttons =~= once.consumed.gamepad_buttons);
    assert(twice.consumed.gamepad_axes =~= once.consumed.gamepad_axes);
}

/// A consumed input reads as at rest, whatever its source does and in whatever
/// order the gamepads are visited.
pub proof fn consumed_input_is_at_rest(
    reader: ReaderView,
    sources: SourcesView,
    order: Seq<Gamepad>,
    input: Input,
)
    ensures
        reader.consume(input).value_in_order(sources, order, input) == ReaderView::rest_value(
            input,
        ),
{
}

/// After the start of the next tick nothing is left of what was consumed: the
/// state is the one that the tick would have started in without it.
pub proof fn refresh_forgets_consumption(
    reader: ReaderView,
    input: Input,
    ui_wants_keyboard: bool,
    ui_wants_mouse: bool,
    motion: Seq<(FloatOrd, FloatOrd)>,
    wheel: Seq<(FloatOrd, FloatOrd)>,
)
    ensures
        reader.consume(input).refreshed(ui_wants_keyboard, ui_wants_mouse, motion, wheel)
            == reader.refreshed(ui_wants_keyboard, ui_wants_mouse, motion, wheel),
{
}

/// With one gamepad selected, a button reads as that gamepad holds it, and the
/// buttons of every other gamepad are without effect.
pub proof fn selected_gamepad_button_reads_that_device(
    reader: ReaderView,
    sources: SourcesView,
    others: SourcesView,
    gamepad: Gamepad,
    button: GamepadButtonType,
)
    requires
        reader.gamepad_device == GamepadDevice::Id(gamepad),
        !reader.gamepad_consumed(Input::GamepadButton { button }),
        others.button_down_on(gamepad, button) == sources.button_down_on(gamepad, button),
    ensures
        reader.value(sources, Input::GamepadButton { button }) == ActionValue::Bool(
            sources.button_down_on(gamepad, button),
        ),
        reader.value(others, Input::GamepadButton { button }) == reader.value(
            sources,
            Input::GamepadButton { button },
        ),
{
}

/// With one gamepad selected, an axis reads the position on that gamepad, zero
/// where it has none, and the axes of every other gamepad are without effect.
pub proof fn selected_gamepad_axis_reads_that_device(
    reader: ReaderView,
    sources: SourcesView,
    others: SourcesView,
    gamepad: Gamepad,
    axis: GamepadAxisType,
)
    requires
        reader.gamepad_device == GamepadDevice::Id(gamepad),
        !reader.gamepad_consumed(Input::GamepadAxis { axis }),
        others.axis_on(gamepad, axis) == sources.axis_on(gamepad, axis),
    ensures
        reader.value(sources, Input::GamepadAxis { axis }) == ActionValue::Axis1D(
            match sources.axis_on(gamepad, axis) {
                Some(position) => position,
                None => zero(),
            },
        ),
        reader.value(others, Input::GamepadAxis { axis }) == reader.value(
            sources,
            Input::GamepadAxis { axis },
        ),
{
}

/// With any gamepad selected, a button reads as down as soon as one connected
/// gamepad holds it, and as up when none does.
pub proof fn any_gamepad_button_reads_all_devices(
    reader: ReaderView,
    sources: SourcesView,
    button: GamepadButtonType,
)
    requires
        reader.gamepad_device == GamepadDevice::Any,
        !reader.gamepad_consumed(Input::GamepadButton { button }),
    ensures
        forall|gamepad: Gamepad|
            sources.gamepads.contains(gamepad) && #[trigger] sources.button_down_on(gamepad, button)
                ==> reader.value(sources, Input::GamepadButton { button }) == ActionValue::Bool(
                true,
            ),
        (forall|gamepad: Gamepad|
            sources.gamepads.contains(gamepad) ==> !#[trigger] sources.button_down_on(
                gamepad,
                button,
            )) ==> reader.value(sources, Input::GamepadButton { button }) == ActionValue::Bool(
            false,
        ),
{
}

/// With any gamepad selected, every reading of an axis is away from zero as
/// soon as the axis is so on one connected gamepad.
pub proof fn any_gamepad_axis_reads_all_devices(
    sources: SourcesView,
    gamepad: Gamepad,
    axis: GamepadAxisType,
    value: FloatOrd,
)
    requires
        sources.any_axis_reading(axis, value),
        sources.gamepads.contains(gamepad),
        sources.axis_active_on(gamepad, axis),
    ensures
        is_nonzero(value),
{
}

/// While a user interface claims the keyboard, every key reads as up,
/// whatever is held and whichever modifiers it requires.
pub proof fn keyboard_claim_gates_keys(reader: ReaderView, sources: SourcesView, input: Input)
    requires
        reader.consumed.ui_wants_keyboard,
        input is Keyboard,
    ensures
        reader.value(sources, input) == ActionValue::Bool(false),
{
}

/// The claim on the keyboard is without effect on every input but keys: mouse
/// buttons, mouse motion and wheel, with or without required modifiers, and
/// gamepad inputs read the same whether the keyboard is claimed or not.
pub proof fn keyboard_claim_leaves_other_inputs(
    reader: ReaderView,
    sources: SourcesView,
    order: Seq<Gamepad>,
    input: Input,
    ui_wants_keyboard: bool,
)
    requires
        !(input is Keyboard),
    ensures
        reader.with_claims(ui_wants_keyboard, reader.consumed.ui_wants_mouse).value_in_order(
            sources,
            order,
            input,
        ) == reader.value_in_order(sources, order, input),
{
    let other = reader.with_claims(ui_wants_keyboard, reader.consumed.ui_wants_mouse);
    let mod_keys = input.spec_mod_keys();
    assert(other.mod_keys_pressed(sources, mod_keys) == reader.mod_keys_pressed(sources, mod_keys));
}

/// Mouse motion and wheel read the accumulated delta of the tick whenever no
/// user interface claims the mouse and each required modifier is down and
/// not consumed, whether the keyboard is claimed or not.
pub proof fn mouse_deltas_read_under_keyboard_claim(
    reader: ReaderView,
    sources: SourcesView,
    mod_keys: ModKeys,
)
    requires
        !reader.consumed.ui_wants_mouse,
        !reader.consumed.mod_keys.spec_intersects(mod_keys),
        forall|key: ModKey| mod_keys.has(key) ==> #[trigger] sources.modifier_down(key),
    ensures
        reader.value(sources, Input::MouseMotion { mod_keys }) == ActionValue::Axis2D(
            reader.mouse_motion.0,
            reader.mouse_motion.1,
        ),
        reader.value(sources, Input::MouseWheel { mod_keys }) == ActionValue::Axis2D(
            reader.mouse_wheel.0,
            reader.mouse_wheel.1,
        ),
{
}

/// While a user interface claims the mouse, mouse buttons read as up and
/// mouse motion and wheel as at rest.
pub proof fn mouse_claim_gates_mouse_inputs(
    reader: ReaderView,
    sources: SourcesView,
    order: Seq<Gamepad>,
    input: Input,
)
    requires
        reader.consumed.ui_wants_mouse,
        input is MouseButton || input is MouseMotion || input is MouseWheel,
    ensures
        reader.value_in_order(sources, order, input) == ReaderView::rest_value(input),
{
}

/// The claim on the mouse is without effect on keys and gamepad inputs.
pub proof fn mouse_claim_leaves_other_inputs(
    reader: ReaderView,
    sources: SourcesView,
    order: Seq<Gamepad>,
    input: Input,
    ui_wants_mouse: bool,
)
    requires
        input is Keyboard || input.spec_is_gamepad(),
    ensures
        reader.with_claims(reader.consumed.ui_wants_keyboard, ui_wants_mouse).value_in_order(
            sources,
            order,
            input,
        ) == reader.value_in_order(sources, order, input),
{
    let other = reader.with_claims(reader.consumed.ui_wants_keyboard, ui_wants_mouse);
    let mod_keys = input.spec_mod_keys();
    assert(other.mod_keys_pressed(sources, mod_keys) == reader.mod_keys_pressed(sources, mod_keys));
}

} // verus!
