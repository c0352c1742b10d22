//! Register-level logic of the NXP PCF8563 real-time clock.
//!
//! The clock is driven over I2C by reading and writing single registers. This crate
//! holds what a driver decides: which registers an operation touches, the values it
//! writes, how it validates its input and how it interprets the bytes it reads.
//! Every operation that changes the clock is described as a list of [`access::Step`]s
//! that a bus driver performs in order; every operation that inspects the clock is a
//! query on one register. Their effect on the register file is specified in
//! [`access`], and the modules [`alarm`], [`control`] and [`timer`] prove what reading
//! back after each operation gives.
use vstd::prelude::*;

pub mod registers;
pub mod types;
pub mod bcd;
pub mod access;
pub mod alarm;
pub mod timer;
pub mod control;
