//! Control of 24 indicator lights on GPIO lines: each light can be turned
//! on or off or made to blink, by its number or by its colour and position.
//!
//! The library decides and a driver acts. An operation of the
//! [`LedController`] answers with the commands that carry it out; the driver
//! performs them on the lines and on its blink tasks and reports how each
//! one went.

pub mod board;
pub mod command;
pub mod error;
pub mod laws;
pub mod leds;
pub mod operation;
pub mod server;
pub mod text;

pub use command::Command;
pub use error::TrainError;
pub use leds::{
    led_to_gpio_pin, Blinker, LedController, LedState, LedSubset, AMBER_LEDS, GREEN_LEDS, LED_COUNT,
    RED_LEDS,
};
pub use operation::Operation;
pub use server::{BlinkRequest, LedResponse, StatusResponse};
