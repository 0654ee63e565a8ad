//! Core of a tilt-compensated digital compass.
//!
//! The library fuses one accelerometer sample and one magnetometer sample
//! into a heading in degrees, classifies the heading into one of four
//! cardinal directions, selects the LED arrow pattern for a direction, and
//! drives the sensor acquisition protocol as a verified state machine.
//! Floating-point trigonometry and the hardware bus live outside the
//! library; everything here works on exact integer representations.

pub mod direction;
pub mod display;
pub mod estimator;
pub mod heading;
pub mod machine;
pub mod vector;
