//! Resolution of raw device input into typed actions.
//!
//! Once per tick the [`input_reader::InputReader`] answers what each raw
//! input source currently reads, respecting modifier keys, inputs consumed
//! by earlier bindings and focus taken by a user interface. Readings flow
//! through modifiers into conditions, which decide the state of each action.
//!
//! Axis values are single-precision numbers carried in [`bevy::math::FloatOrd`];
//! time is counted in whole nanoseconds.

pub mod action_value;
pub mod number;
pub mod input;
pub mod input_reader;
pub mod input_modifier;
pub mod input_action;
pub mod input_condition;
pub mod trigger_tracker;
pub mod context;
