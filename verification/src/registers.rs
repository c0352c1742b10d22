//! Register addresses and bit masks of the PCF8563.
use vstd::prelude::*;

verus! {

/// I2C address of the PCF8563.
pub const DEVICE_ADDRESS: u8 = 0x51;

/// Register addresses.
pub struct Register;

impl Register {
    /// Control and status register 1.
    pub const CTRL_STATUS_1: u8 = 0x00;
    /// Control and status register 2.
    pub const CTRL_STATUS_2: u8 = 0x01;
    /// Seconds and the voltage-low flag.
    pub const VL_SECONDS: u8 = 0x02;
    /// Minutes.
    pub const MINUTES: u8 = 0x03;
    /// Hours.
    pub const HOURS: u8 = 0x04;
    /// Day of the month.
    pub const DAYS: u8 = 0x05;
    /// Day of the week.
    pub const WEEKDAYS: u8 = 0x06;
    /// Century flag and month.
    pub const CENTURY_MONTHS: u8 = 0x07;
    /// Year.
    pub const YEARS: u8 = 0x08;
    /// Minute alarm.
    pub const MINUTE_ALARM: u8 = 0x09;
    /// Hour alarm.
    pub const HOUR_ALARM: u8 = 0x0A;
    /// Day alarm.
    pub const DAY_ALARM: u8 = 0x0B;
    /// Weekday alarm.
    pub const WEEKDAY_ALARM: u8 = 0x0C;
    /// Clock output control.
    pub const CLKOUT_CTRL: u8 = 0x0D;
    /// Timer control.
    pub const TIMER_CTRL: u8 = 0x0E;
    /// Timer countdown value.
    pub const TIMER: u8 = 0x0F;
}

/// Bit masks of the control and status bits.
pub struct BitFlags;

impl BitFlags {
    /// External clock test mode (control 1).
    pub const TEST1: u8 = 0b1000_0000;
    /// Clock stopped (control 1).
    pub const STOP: u8 = 0b0010_0000;
    /// Power-on-reset override (control 1).
    pub const TESTC: u8 = 0b0000_1000;
    /// Timer interrupt pulsating (control 2).
    pub const TI_TP: u8 = 0b0001_0000;
    /// Alarm flag (control 2).
    pub const AF: u8 = 0b0000_1000;
    /// Timer flag (control 2).
    pub const TF: u8 = 0b0000_0100;
    /// Alarm interrupt enabled (control 2).
    pub const AIE: u8 = 0b0000_0010;
    /// Timer interrupt enabled (control 2).
    pub const TIE: u8 = 0b0000_0001;
    /// Voltage low (seconds register).
    pub const VL: u8 = 0b1000_0000;
    /// Century (months register).
    pub const C: u8 = 0b1000_0000;
    /// Alarm disabled (each alarm register).
    pub const AE: u8 = 0b1000_0000;
    /// Clock output enabled (clock output register).
    pub const FE: u8 = 0b1000_0000;
    /// Timer enabled (timer control register).
    pub const TE: u8 = 0b1000_0000;
}

} // verus!
