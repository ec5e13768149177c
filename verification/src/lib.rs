//! Core logic of a game-controller-to-keyboard mapper: edge detection on
//! button snapshots, hysteresis-based classification of analog stick readings
//! into angular zones, a battery-level indicator table, and dispatch of
//! configured key actions into an explicit event sequence.

pub mod battery_light;
pub mod configuration;
pub mod input_recognizer;
pub mod joyshop;
pub mod key_sender;
pub mod ui;
pub mod window;
