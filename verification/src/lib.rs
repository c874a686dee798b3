//! Register addressing and mapping lifecycle for the GPIO controller of a
//! BCM2711-class peripheral block.

pub mod error;
pub mod hex;
pub mod pin_function;
pub mod region;
pub mod register;

pub use error::Error;
pub use pin_function::PinFunction;
pub use register::Register;
