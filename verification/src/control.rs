//! Control of the clock that is not specific to the date and time, the timer, the
//! alarm or the clock output.
use vstd::prelude::*;
use crate::access::{
    clear_register_bit_flag, control_bit_flag, control_bit_flag_inverted, control_inverted_steps,
    control_steps, flag_steps, lemma_control_read_back, lemma_flag_steps, lemma_register_after_concat,
    lemma_register_after_single, lemma_run_register, register_after, run, FlagQuery, Step,
};
use crate::alarm::{
    alarm_settings_of, is_alarm_register, lemma_component_byte_read,
    lemma_disable_all_register, disable_all_alarms, disable_all_alarms_steps,
    AlarmSettings,
};
use crate::registers::{BitFlags, Register};
use crate::timer::{
    control_timer, set_timer_frequency, set_timer_frequency_steps, timer_enabled_query, TimerFreq,
};
use crate::types::{Control, Error};

verus! {

/// Enable or disable external clock test mode.
pub fn control_ext_clk_test_mode(flag: Control) -> (r: Vec<Step>)
    ensures
        r@ == control_steps(Register::CTRL_STATUS_1, BitFlags::TEST1, flag),
{
    control_bit_flag(Register::CTRL_STATUS_1, BitFlags::TEST1, flag)
}

/// Is the external clock test mode enabled?
pub fn is_ext_clk_mode_enabled() -> (q: FlagQuery)
    ensures
        q == (FlagQuery { register: Register::CTRL_STATUS_1, mask: BitFlags::TEST1, inverted: false }),
{
    FlagQuery { register: Register::CTRL_STATUS_1, mask: BitFlags::TEST1, inverted: false }
}

/// Start/stop the internal clock: on starts it by clearing the STOP bit, off stops it
/// by setting the bit.
pub fn control_clock(flag: Control) -> (r: Vec<Step>)
    ensures
        r@ == control_inverted_steps(Register::CTRL_STATUS_1, BitFlags::STOP, flag),
{
    control_bit_flag_inverted(Register::CTRL_STATUS_1, BitFlags::STOP, flag)
}

/// The query of whether the clock runs: its STOP bit is clear.
pub open spec fn clock_running_query() -> FlagQuery {
    FlagQuery { register: Register::CTRL_STATUS_1, mask: BitFlags::STOP, inverted: true }
}

/// Check if the internal clock is running.
pub fn is_clock_running() -> (q: FlagQuery)
    ensures
        q == clock_running_query(),
{
    FlagQuery { register: Register::CTRL_STATUS_1, mask: BitFlags::STOP, inverted: true }
}

/// Enable or disable power-on-reset override facility.
pub fn control_power_on_reset_override(flag: Control) -> (r: Vec<Step>)
    ensures
        r@ == control_steps(Register::CTRL_STATUS_1, BitFlags::TESTC, flag),
{
    control_bit_flag(Register::CTRL_STATUS_1, BitFlags::TESTC, flag)
}

/// Check if power-on-reset override facility is enabled.
pub fn is_power_on_reset_override_enabled() -> (q: FlagQuery)
    ensures
        q == (FlagQuery { register: Register::CTRL_STATUS_1, mask: BitFlags::TESTC, inverted: false }),
{
    FlagQuery { register: Register::CTRL_STATUS_1, mask: BitFlags::TESTC, inverted: false }
}

/// The query of the voltage-low flag.
pub open spec fn voltage_low_query() -> FlagQuery {
    FlagQuery { register: Register::VL_SECONDS, mask: BitFlags::VL, inverted: false }
}

/// Check the status of the Voltage Low detector flag
pub fn get_voltage_low_flag() -> (q: FlagQuery)
    ensures
        q == voltage_low_query(),
{
    FlagQuery { register: Register::VL_SECONDS, mask: BitFlags::VL, inverted: false }
}

/// The steps that clear the voltage-low flag.
pub open spec fn clear_voltage_low_flag_steps() -> Seq<Step> {
    seq![Step::ClearFlag { register: Register::VL_SECONDS, mask: BitFlags::VL }]
}

/// Clear the voltage low detector flag.
pub fn clear_voltage_low_flag() -> (r: Vec<Step>)
    ensures
        r@ == clear_voltage_low_flag_steps(),
{
    vec![clear_register_bit_flag(Register::VL_SECONDS, BitFlags::VL)]
}

/// The steps of [`rtc_init`]: clear both control registers, clear the voltage-low flag,
/// disable the alarm components, disable the timer and set the timer frequency to 1/60 Hz.
pub open spec fn rtc_init_steps() -> Seq<Step> {
    seq![
        Step::Write { register: Register::CTRL_STATUS_1, value: 0 },
        Step::Write { register: Register::CTRL_STATUS_2, value: 0 },
    ] + clear_voltage_low_flag_steps() + disable_all_alarms_steps() + control_steps(
        Register::TIMER_CTRL,
        BitFlags::TE,
        Control::Off,
    ) + set_timer_frequency_steps(TimerFreq::Timer_1_60Hz)
}

/// Initialize the RTC by setting all the control flags to zero, disabling alarms and timer, and setting the timer to the lowest frequency for power saving.
pub fn rtc_init() -> (r: Vec<Step>)
    ensures
        r@ == rtc_init_steps(),
{
    let mut steps = vec![
        Step::Write { register: Register::CTRL_STATUS_1, value: 0 },
        Step::Write { register: Register::CTRL_STATUS_2, value: 0 },
    ];
    let mut more = clear_voltage_low_flag();
    steps.append(&mut more);
    let mut more = disable_all_alarms();
    steps.append(&mut more);
    let mut more = control_timer(Control::Off);
    steps.append(&mut more);
    let mut more = set_timer_frequency(TimerFreq::Timer_1_60Hz);
    steps.append(&mut more);
    steps
}

/// Each control of this module reads back as it was set, and the voltage-low flag is
/// clear after clearing it.
pub proof fn lemma_controls_read_back(regs: Map<u8, u8>, status: Control)
    ensures
        (FlagQuery { register: Register::CTRL_STATUS_1, mask: BitFlags::TEST1, inverted: false }).read(
            run(regs, control_steps(Register::CTRL_STATUS_1, BitFlags::TEST1, status)),
        ) == (status == Control::On),
        clock_running_query().read(
            run(regs, control_inverted_steps(Register::CTRL_STATUS_1, BitFlags::STOP, status)),
        ) == (status == Control::On),
        (FlagQuery { register: Register::CTRL_STATUS_1, mask: BitFlags::TESTC, inverted: false }).read(
            run(regs, control_steps(Register::CTRL_STATUS_1, BitFlags::TESTC, status)),
        ) == (status == Control::On),
        !voltage_low_query().read(run(regs, clear_voltage_low_flag_steps())),
{
    lemma_control_read_back(regs, Register::CTRL_STATUS_1, BitFlags::TEST1, status, 0);
    lemma_control_read_back(regs, Register::CTRL_STATUS_1, BitFlags::STOP, status, 0);
    lemma_control_read_back(regs, Register::CTRL_STATUS_1, BitFlags::TESTC, status, 0);
    lemma_flag_steps(regs, Register::VL_SECONDS, BitFlags::VL, false, 0);
    assert(clear_voltage_low_flag_steps() == flag_steps(Register::VL_SECONDS, BitFlags::VL, false));
}

/// The byte register `r` holds after [`rtc_init`] when it held `data` before.
pub open spec fn rtc_init_register(data: u8, r: u8) -> u8 {
    if r == Register::CTRL_STATUS_1 || r == Register::CTRL_STATUS_2 {
        0
    } else if r == Register::VL_SECONDS {
        data & !BitFlags::VL
    } else if is_alarm_register(r) {
        data | BitFlags::AE
    } else if r == Register::TIMER_CTRL {
        0b11
    } else {
        data
    }
}

proof fn lemma_rtc_init_register(data: u8, r: u8)
    ensures
        register_after(data, rtc_init_steps(), r) == rtc_init_register(data, r),
{
    let w1 = Step::Write { register: Register::CTRL_STATUS_1, value: 0 };
    let w2 = Step::Write { register: Register::CTRL_STATUS_2, value: 0 };
    let w = seq![w1, w2];
    let v = clear_voltage_low_flag_steps();
    let d = disable_all_alarms_steps();
    let c = control_steps(Register::TIMER_CTRL, BitFlags::TE, Control::Off);
    let t = set_timer_frequency_steps(TimerFreq::Timer_1_60Hz);
    assert(w =~= seq![w1] + seq![w2]);
    lemma_register_after_concat(data, w + v + d + c, t, r);
    lemma_register_after_concat(data, w + v + d, c, r);
    lemma_register_after_concat(data, w + v, d, r);
    lemma_register_after_concat(data, w, v, r);
    lemma_register_after_concat(data, seq![w1], seq![w2], r);
    lemma_register_after_single(data, w1, r);
    let x0 = register_after(data, seq![w1], r);
    lemma_register_after_single(x0, w2, r);
    let x1 = register_after(data, w, r);
    lemma_register_after_single(x1, v[0], r);
    assert(v =~= seq![v[0]]);
    crate::access::lemma_flag_bits(x1, BitFlags::VL);
    let x2 = register_after(x1, v, r);
    lemma_disable_all_register(x2, r);
    let x3 = register_after(x2, d, r);
    lemma_register_after_single(x3, c[0], r);
    assert(c =~= seq![c[0]]);
    crate::access::lemma_flag_bits(x3, BitFlags::TE);
    let x4 = register_after(x3, c, r);
    lemma_register_after_single(x4, t[0], r);
    assert(t =~= seq![t[0]]);
    assert(((x3 & !0x80u8) & 0x80) | 3 == 3) by (bit_vector);
}

/// After [`rtc_init`] both control registers are zero, the voltage-low flag is clear
/// (the seconds keep their value), no alarm component is enabled, the timer is disabled
/// with its frequency at 1/60 Hz, and every other register keeps its byte.
pub proof fn lemma_rtc_init(regs: Map<u8, u8>, r: u8)
    ensures
        ({
            let after = run(regs, rtc_init_steps());
            &&& after[r] == rtc_init_register(regs[r], r)
            &&& after[Register::CTRL_STATUS_1] == 0
            &&& after[Register::CTRL_STATUS_2] == 0
            &&& !voltage_low_query().read(after)
            &&& alarm_settings_of(after) == Ok::<AlarmSettings, Error>(AlarmSettings::new_spec())
            &&& after[Register::TIMER_CTRL] & 0b11 == TimerFreq::Timer_1_60Hz.bits_spec()
            &&& !timer_enabled_query().read(after)
        }),
{
    let after = run(regs, rtc_init_steps());
    lemma_run_register(regs, rtc_init_steps(), r);
    lemma_rtc_init_register(regs[r], r);
    lemma_run_register(regs, rtc_init_steps(), Register::CTRL_STATUS_1);
    lemma_rtc_init_register(regs[Register::CTRL_STATUS_1], Register::CTRL_STATUS_1);
    lemma_run_register(regs, rtc_init_steps(), Register::CTRL_STATUS_2);
    lemma_rtc_init_register(regs[Register::CTRL_STATUS_2], Register::CTRL_STATUS_2);
    lemma_run_register(regs, rtc_init_steps(), Register::VL_SECONDS);
    lemma_rtc_init_register(regs[Register::VL_SECONDS], Register::VL_SECONDS);
    crate::access::lemma_flag_bits(regs[Register::VL_SECONDS], BitFlags::VL);
    lemma_run_register(regs, rtc_init_steps(), Register::TIMER_CTRL);
    lemma_rtc_init_register(regs[Register::TIMER_CTRL], Register::TIMER_CTRL);
    assert(3u8 & 0b11 == 3 && 3u8 & 0x80 == 0) by (bit_vector);
    lemma_run_register(regs, rtc_init_steps(), Register::MINUTE_ALARM);
    lemma_rtc_init_register(regs[Register::MINUTE_ALARM], Register::MINUTE_ALARM);
    lemma_run_register(regs, rtc_init_steps(), Register::HOUR_ALARM);
    lemma_rtc_init_register(regs[Register::HOUR_ALARM], Register::HOUR_ALARM);
    lemma_run_register(regs, rtc_init_steps(), Register::DAY_ALARM);
    lemma_rtc_init_register(regs[Register::DAY_ALARM], Register::DAY_ALARM);
    lemma_run_register(regs, rtc_init_steps(), Register::WEEKDAY_ALARM);
    lemma_rtc_init_register(regs[Register::WEEKDAY_ALARM], Register::WEEKDAY_ALARM);
    lemma_component_byte_read(after, Register::MINUTE_ALARM, regs[Register::MINUTE_ALARM], None);
    lemma_component_byte_read(after, Register::HOUR_ALARM, regs[Register::HOUR_ALARM], None);
    lemma_component_byte_read(after, Register::DAY_ALARM, regs[Register::DAY_ALARM], None);
    lemma_component_byte_read(after, Register::WEEKDAY_ALARM, regs[Register::WEEKDAY_ALARM], None);
}

} // verus!
