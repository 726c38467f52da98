//! Descriptors of raw input sources.

use bevy::input::gamepad::Gamepad;
use bevy::input::gamepad::GamepadAxisType;
use bevy::input::gamepad::GamepadButtonType;
use bevy::input::keyboard::KeyCode;
use bevy::input::keyboard::NativeKeyCode;
use bevy::input::mouse::MouseButton;
use vstd::prelude::*;
use vstd::std_specs::convert::FromSpecImpl;

verus! {

#[verifier::external_type_specification]
pub struct ExNativeKeyCode(NativeKeyCode);

#[verifier::external_type_specification]
pub struct ExKeyCode(KeyCode);

#[verifier::external_type_specification]
pub struct ExMouseButton(MouseButton);

#[verifier::external_type_specification]
pub struct ExGamepad(Gamepad);

#[verifier::external_type_specification]
pub struct ExGamepadButtonType(GamepadButtonType);

#[verifier::external_type_specification]
pub struct ExGamepadAxisType(GamepadAxisType);

/// One of the four keyboard modifiers, left and right keys taken as one.
#[derive(Clone, Copy, Debug, PartialEq, Eq, Structural)]
pub enum ModKey {
    Control,
    Shift,
    Alt,
    Super,
}

impl ModKey {
    /// The left and the right key of the modifier.
    pub open spec fn spec_keys(self) -> (KeyCode, KeyCode) {
        match self {
            ModKey::Control => (KeyCode::ControlLeft, KeyCode::ControlRight),
            ModKey::Shift => (KeyCode::ShiftLeft, KeyCode::ShiftRight),
            ModKey::Alt => (KeyCode::AltLeft, KeyCode::AltRight),
            ModKey::Super => (KeyCode::SuperLeft, KeyCode::SuperRight),
        }
    }

    /// Returns the left and the right key of the modifier.
    pub fn keys(self) -> (r: (KeyCode, KeyCode))
        ensures
            r == self.spec_keys(),
    {
        match self {
            ModKey::Control => (KeyCode::ControlLeft, KeyCode::ControlRight),
            ModKey::Shift => (KeyCode::ShiftLeft, KeyCode::ShiftRight),
            ModKey::Alt => (KeyCode::AltLeft, KeyCode::AltRight),
            ModKey::Super => (KeyCode::SuperLeft, KeyCode::SuperRight),
        }
    }
}

/// A set of keyboard modifiers.
#[derive(Clone, Copy, Debug, PartialEq, Eq, Hash, Structural)]
pub struct ModKeys {
    pub control: bool,
    pub shift: bool,
    pub alt: bool,
    pub super_key: bool,
}

impl ModKeys {
    /// Whether the set holds the modifier.
    pub open spec fn has(self, key: ModKey) -> bool {
        match key {
            ModKey::Control => self.control,
            ModKey::Shift => self.shift,
            ModKey::Alt => self.alt,
            ModKey::Super => self.super_key,
        }
    }

    /// The set of one modifier.
    pub open spec fn spec_single(key: ModKey) -> ModKeys {
        ModKeys {
            control: key == ModKey::Control,
            shift: key == ModKey::Shift,
            alt: key == ModKey::Alt,
            super_key: key == ModKey::Super,
        }
    }

    /// The set without any modifier.
    pub open spec fn spec_empty() -> ModKeys {
        ModKeys { control: false, shift: false, alt: false, super_key: false }
    }

    /// Whether the set holds no modifier.
    pub open spec fn spec_is_empty(self) -> bool {
        forall|key: ModKey| !self.has(key)
    }

    /// Whether the two sets share a modifier.
    pub open spec fn spec_intersects(self, other: ModKeys) -> bool {
        exists|key: ModKey| self.has(key) && other.has(key)
    }

    /// The modifiers of either set.
    pub open spec fn spec_union(self, other: ModKeys) -> ModKeys {
        ModKeys {
            control: self.control || other.control,
            shift: self.shift || other.shift,
            alt: self.alt || other.alt,
            super_key: self.super_key || other.super_key,
        }
    }

    /// The modifier that a key stands for, if any.
    pub open spec fn spec_from_key(key: KeyCode) -> ModKeys {
        match key {
            KeyCode::ControlLeft | KeyCode::ControlRight => ModKeys::spec_single(ModKey::Control),
            KeyCode::ShiftLeft | KeyCode::ShiftRight => ModKeys::spec_single(ModKey::Shift),
            KeyCode::AltLeft | KeyCode::AltRight => ModKeys::spec_single(ModKey::Alt),
            KeyCode::SuperLeft | KeyCode::SuperRight => ModKeys::spec_single(ModKey::Super),
            _ => ModKeys::spec_empty(),
        }
    }

    /// Creates the set of one modifier.
    pub fn single(key: ModKey) -> (r: ModKeys)
        ensures
            r == Self::spec_single(key),
            forall|other: ModKey| r.has(other) == (other == key),
    {
        let r = match key {
            ModKey::Control => ModKeys { control: true, shift: false, alt: false, super_key: false },
            ModKey::Shift => ModKeys { control: false, shift: true, alt: false, super_key: false },
            ModKey::Alt => ModKeys { control: false, shift: false, alt: true, super_key: false },
            ModKey::Super => ModKeys { control: false, shift: false, alt: false, super_key: true },
        };
        assert forall|other: ModKey| r.has(other) == (other == key) by {}
        r
    }

    /// Creates the set without any modifier.
    pub fn empty() -> (r: ModKeys)
        ensures
            r == Self::spec_empty(),
            r.spec_is_empty(),
    {
        let r = ModKeys { control: false, shift: false, alt: false, super_key: false };
        assert forall|key: ModKey| !r.has(key) by {}
        r
    }

    /// Returns whether the set holds no modifier.
    pub fn is_empty(self) -> (r: bool)
        ensures
            r == self.spec_is_empty(),
            r == (self == Self::spec_empty()),
    {
        let r = !self.control && !self.shift && !self.alt && !self.super_key;
        proof {
            if !r {
                let key = if self.control {
                    ModKey::Control
                } else if self.shift {
                    ModKey::Shift
                } else if self.alt {
                    ModKey::Alt
                } else {
                    ModKey::Super
                };
                assert(self.has(key));
            } else {
                assert forall|key: ModKey| !self.has(key) by {}
            }
        }
        r
    }

    /// Returns whether the set holds the modifier.
    pub fn contains(self, key: ModKey) -> (r: bool)
        ensures
            r == self.has(key),
    {
        match key {
            ModKey::Control => self.control,
            ModKey::Shift => self.shift,
            ModKey::Alt => self.alt,
            ModKey::Super => self.super_key,
        }
    }

    /// Returns whether the two sets share a modifier.
    pub fn intersects(self, other: ModKeys) -> (r: bool)
        ensures
            r == self.spec_intersects(other),
    {
        let r = (self.control && other.control) || (self.shift && other.shift) || (self.alt
            && other.alt) || (self.super_key && other.super_key);
        proof {
            if r {
                let key = if self.control && other.control {
                    ModKey::Control
                } else if self.shift && other.shift {
                    ModKey::Shift
                } else if self.alt && other.alt {
                    ModKey::Alt
                } else {
                    ModKey::Super
                };
                assert(self.has(key) && other.has(key));
            } else {
                assert forall|key: ModKey| !(self.has(key) && other.has(key)) by {}
            }
        }
        r
    }

    /// Returns the modifiers of either set.
    pub fn union(self, other: ModKeys) -> (r: ModKeys)
        ensures
            r == self.spec_union(other),
            forall|key: ModKey| r.has(key) == (self.has(key) || other.has(key)),
    {
        let r = ModKeys {
            control: self.control || other.control,
            shift: self.shift || other.shift,
            alt: self.alt || other.alt,
            super_key: self.super_key || other.super_key,
        };
        assert forall|key: ModKey| r.has(key) == (self.has(key) || other.has(key)) by {}
        r
    }

    /// Adds the modifiers of the other set.
    pub fn insert(&mut self, other: ModKeys)
        ensures
            *final(self) == old(self).spec_union(other),
    {
        *self = self.union(other);
    }
}

impl From<KeyCode> for ModKeys {
    /// Returns the modifier that the key stands for, the empty set for any
    /// other key.
    fn from(key: KeyCode) -> (r: ModKeys) {
        match key {
            KeyCode::ControlLeft | KeyCode::ControlRight => ModKeys::single(ModKey::Control),
            KeyCode::ShiftLeft | KeyCode::ShiftRight => ModKeys::single(ModKey::Shift),
            KeyCode::AltLeft | KeyCode::AltRight => ModKeys::single(ModKey::Alt),
            KeyCode::SuperLeft | KeyCode::SuperRight => ModKeys::single(ModKey::Super),
            _ => ModKeys::empty(),
        }
    }
}

impl FromSpecImpl<KeyCode> for ModKeys {
    open spec fn obeys_from_spec() -> bool {
        true
    }

    open spec fn from_spec(key: KeyCode) -> ModKeys {
        ModKeys::spec_from_key(key)
    }
}

/// The gamepad that gamepad inputs are read from.
#[derive(Clone, Copy, Debug, PartialEq, Eq, Hash)]
pub enum GamepadDevice {
    /// Every connected gamepad.
    Any,
    /// The gamepad with the given identity.
    Id(Gamepad),
}

impl GamepadDevice {
    /// The device as a key of lookups: nothing for any gamepad, else the
    /// identity. The two never coincide.
    pub open spec fn spec_key(self) -> Option<Gamepad> {
        match self {
            GamepadDevice::Any => None,
            GamepadDevice::Id(gamepad) => Some(gamepad),
        }
    }

    /// Returns the device as a key of lookups.
    pub fn key(self) -> (r: Option<Gamepad>)
        ensures
            r == self.spec_key(),
    {
        match self {
            GamepadDevice::Any => None,
            GamepadDevice::Id(gamepad) => Some(gamepad),
        }
    }
}

impl Default for GamepadDevice {
    fn default() -> (r: GamepadDevice)
        ensures
            r == GamepadDevice::Any,
    {
        GamepadDevice::Any
    }
}

impl From<Gamepad> for GamepadDevice {
    fn from(gamepad: Gamepad) -> (r: GamepadDevice) {
        GamepadDevice::Id(gamepad)
    }
}

impl FromSpecImpl<Gamepad> for GamepadDevice {
    open spec fn obeys_from_spec() -> bool {
        true
    }

    open spec fn from_spec(gamepad: Gamepad) -> GamepadDevice {
        GamepadDevice::Id(gamepad)
    }
}

/// One raw input source together with the modifiers it requires.
#[derive(Clone, Copy, Debug, PartialEq, Eq, Hash)]
#[allow(inconsistent_fields)]
pub enum Input {
    /// A key, held together with the modifiers.
    Keyboard { key: KeyCode, mod_keys: ModKeys },
    /// A mouse button, held together with the modifiers.
    MouseButton { button: MouseButton, mod_keys: ModKeys },
    /// Movement of the mouse on both axes.
    MouseMotion { mod_keys: ModKeys },
    /// Movement of the mouse wheel on both axes.
    MouseWheel { mod_keys: ModKeys },
    /// A gamepad button of the selected device.
    GamepadButton { button: GamepadButtonType },
    /// A gamepad axis of the selected device.
    GamepadAxis { axis: GamepadAxisType },
}

impl Input {
    /// The modifiers that the input requires; gamepad inputs require none.
    pub open spec fn spec_mod_keys(self) -> ModKeys {
        match self {
            Input::Keyboard { mod_keys, .. } => mod_keys,
            Input::MouseButton { mod_keys, .. } => mod_keys,
            Input::MouseMotion { mod_keys } => mod_keys,
            Input::MouseWheel { mod_keys } => mod_keys,
            Input::GamepadButton { .. } => ModKeys::spec_empty(),
            Input::GamepadAxis { .. } => ModKeys::spec_empty(),
        }
    }

    /// The same source with other modifiers; a gamepad input stays as it is.
    pub open spec fn spec_with_mod_keys(self, mod_keys: ModKeys) -> Input {
        match self {
            Input::Keyboard { key, .. } => Input::Keyboard { key, mod_keys },
            Input::MouseButton { button, .. } => Input::MouseButton { button, mod_keys },
            Input::MouseMotion { .. } => Input::MouseMotion { mod_keys },
            Input::MouseWheel { .. } => Input::MouseWheel { mod_keys },
            Input::GamepadButton { .. } => self,
            Input::GamepadAxis { .. } => self,
        }
    }

    /// Whether the input is read from a gamepad.
    pub open spec fn spec_is_gamepad(self) -> bool {
        self is GamepadButton || self is GamepadAxis
    }

    /// Returns mouse motion without modifiers.
    pub fn mouse_motion() -> (r: Input)
        ensures
            r == (Input::MouseMotion { mod_keys: ModKeys::spec_empty() }),
    {
        Input::MouseMotion { mod_keys: ModKeys::empty() }
    }

    /// Returns the mouse wheel without modifiers.
    pub fn mouse_wheel() -> (r: Input)
        ensures
            r == (Input::MouseWheel { mod_keys: ModKeys::spec_empty() }),
    {
        Input::MouseWheel { mod_keys: ModKeys::empty() }
    }

    /// Returns the modifiers that the input requires.
    pub fn mod_keys(self) -> (r: ModKeys)
        ensures
            r == self.spec_mod_keys(),
    {
        match self {
            Input::Keyboard { mod_keys, .. } => mod_keys,
            Input::MouseButton { mod_keys, .. } => mod_keys,
            Input::MouseMotion { mod_keys } => mod_keys,
            Input::MouseWheel { mod_keys } => mod_keys,
            Input::GamepadButton { .. } => ModKeys::empty(),
            Input::GamepadAxis { .. } => ModKeys::empty(),
        }
    }

    /// Returns the same source with the given modifiers.
    pub fn with_mod_keys(self, mod_keys: ModKeys) -> (r: Input)
        ensures
            r == self.spec_with_mod_keys(mod_keys),
    {
        match self {
            Input::Keyboard { key, .. } => Input::Keyboard { key, mod_keys },
            Input::MouseButton { button, .. } => Input::MouseButton { button, mod_keys },
            Input::MouseMotion { .. } => Input::MouseMotion { mod_keys },
            Input::MouseWheel { .. } => Input::MouseWheel { mod_keys },
            Input::GamepadButton { .. } => self,
            Input::GamepadAxis { .. } => self,
        }
    }

    /// Returns the same source without modifiers.
    pub fn without_mod_keys(self) -> (r: Input)
        ensures
            r == self.spec_with_mod_keys(ModKeys::spec_empty()),
    {
        self.with_mod_keys(ModKeys::empty())
    }
}

impl From<KeyCode> for Input {
    fn from(key: KeyCode) -> (r: Input) {
        Input::Keyboard { key, mod_keys: ModKeys::empty() }
    }
}

impl FromSpecImpl<KeyCode> for Input {
    open spec fn obeys_from_spec() -> bool {
        true
    }

    open spec fn from_spec(key: KeyCode) -> Input {
        Input::Keyboard { key, mod_keys: ModKeys::spec_empty() }
    }
}

impl From<MouseButton> for Input {
    fn from(button: MouseButton) -> (r: Input) {
        Input::MouseButton { button, mod_keys: ModKeys::empty() }
    }
}

impl FromSpecImpl<MouseButton> for Input {
    open spec fn obeys_from_spec() -> bool {
        true
    }

    open spec fn from_spec(button: MouseButton) -> Input {
        Input::MouseButton { button, mod_keys: ModKeys::spec_empty() }
    }
}

impl From<GamepadButtonType> for Input {
    fn from(button: GamepadButtonType) -> (r: Input) {
        Input::GamepadButton { button }
    }
}

impl FromSpecImpl<GamepadButtonType> for Input {
    open spec fn obeys_from_spec() -> bool {
        true
    }

    open spec fn from_spec(button: GamepadButtonType) -> Input {
        Input::GamepadButton { button }
    }
}

impl From<GamepadAxisType> for Input {
    fn from(axis: GamepadAxisType) -> (r: Input) {
        Input::GamepadAxis { axis }
    }
}

impl FromSpecImpl<GamepadAxisType> for Input {
    open spec fn obeys_from_spec() -> bool {
        true
    }

    open spec fn from_spec(axis: GamepadAxisType) -> Input {
        Input::GamepadAxis { axis }
    }
}

} // verus!
