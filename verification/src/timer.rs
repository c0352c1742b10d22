//! Timer-related operations.
use vstd::prelude::*;
use crate::access::{
    flag_steps, lemma_flag_bits, lemma_register_after_single, lemma_run_register, lemma_run_twice,
    register_after,
    clear_register_bit_flag, control_bit_flag, control_steps, lemma_control_read_back,
    lemma_effect, lemma_flag_steps, lemma_run_single, run, set_register_bit_flag,
    FlagQuery, Step, ValueQuery,
};
use crate::registers::{BitFlags, Register};
use crate::types::Control;

verus! {

/// Four possible timer frequency settings.
#[allow(non_camel_case_types)]
#[derive(Copy, Clone, Debug, Eq, PartialEq, Structural)]
pub enum TimerFreq {
    /// Set timer frequency to 4096 Hz.
    Timer_4096Hz,
    /// Set timer frequency to 64 Hz.
    Timer_64Hz,
    /// Set timer frequency to 1 Hz.
    Timer_1Hz,
    /// Set timer frequency to 1/60 Hz. This should be used when timer is off to limit energy consumption.
    Timer_1_60Hz,
}

impl TimerFreq {
    /// The two frequency bits of the timer control register for the setting.
    pub open spec fn bits_spec(self) -> u8 {
        match self {
            TimerFreq::Timer_4096Hz => 0b0000_0000,
            TimerFreq::Timer_64Hz => 0b0000_0001,
            TimerFreq::Timer_1Hz => 0b0000_0010,
            TimerFreq::Timer_1_60Hz => 0b0000_0011,
        }
    }

    /// Converts the TimerFreq to an unsigned 8-bit value
    pub fn bits(self) -> (r: u8)
        ensures
            r == self.bits_spec(),
    {
        match self {
            TimerFreq::Timer_4096Hz => 0b0000_0000,
            TimerFreq::Timer_64Hz => 0b0000_0001,
            TimerFreq::Timer_1Hz => 0b0000_0010,
            TimerFreq::Timer_1_60Hz => 0b0000_0011,
        }
    }

    /// Each frequency has its own bits, and they fit in the two frequency bits.
    pub proof fn lemma_bits(self, other: TimerFreq)
        ensures
            self.bits_spec() <= 3,
            self.bits_spec() == other.bits_spec() ==> self == other,
    {
    }
}

/// Two possible timer interrupt output modes
#[allow(non_camel_case_types)]
#[derive(Copy, Clone, Debug, Eq, PartialEq, Structural)]
pub enum InterruptOutput {
    /// Active when TF active (default setting).
    Continuous,
    /// Pulsating according to the datasheet.
    Pulsating,
}

/// The steps that write the timer countdown value.
pub open spec fn set_timer_steps(time: u8) -> Seq<Step> {
    seq![Step::Write { register: Register::TIMER, value: time }]
}

/// Set the timer [0-255]
pub fn set_timer(time: u8) -> (r: Vec<Step>)
    ensures
        r@ == set_timer_steps(time),
{
    vec![Step::Write { register: Register::TIMER, value: time }]
}

/// The steps that write `bits` into `register`, keeping the bits of `keep_mask`.
pub open spec fn set_frequency_steps(register: u8, bits: u8, keep_mask: u8) -> Seq<Step> {
    seq![Step::Update { register, keep: keep_mask, set: bits }]
}

/// Write a frequency setting, keeping the bits of `keep_mask`. Helper function.
pub fn set_frequency(register: u8, bits: u8, keep_mask: u8) -> (r: Vec<Step>)
    ensures
        r@ == set_frequency_steps(register, bits, keep_mask),
{
    vec![Step::Update { register, keep: keep_mask, set: bits }]
}

/// The steps of [`set_timer_frequency`].
pub open spec fn set_timer_frequency_steps(frequency: TimerFreq) -> Seq<Step> {
    set_frequency_steps(Register::TIMER_CTRL, frequency.bits_spec(), 0b1000_0000)
}

/// Set timer frequency (does not alter the timer enabled/disabled bit).
pub fn set_timer_frequency(frequency: TimerFreq) -> (r: Vec<Step>)
    ensures
        r@ == set_timer_frequency_steps(frequency),
{
    set_frequency(Register::TIMER_CTRL, frequency.bits(), 0b1000_0000)
}

/// Enable or disable the timer.
pub fn control_timer(flag: Control) -> (r: Vec<Step>)
    ensures
        r@ == control_steps(Register::TIMER_CTRL, BitFlags::TE, flag),
{
    control_bit_flag(Register::TIMER_CTRL, BitFlags::TE, flag)
}

/// The query of whether the timer is enabled.
pub open spec fn timer_enabled_query() -> FlagQuery {
    FlagQuery { register: Register::TIMER_CTRL, mask: BitFlags::TE, inverted: false }
}

/// Check if timer is enabled.
pub fn is_timer_enabled() -> (q: FlagQuery)
    ensures
        q == timer_enabled_query(),
{
    FlagQuery { register: Register::TIMER_CTRL, mask: BitFlags::TE, inverted: false }
}

/// Enable or disable timer interrupt.
pub fn control_timer_interrupt(flag: Control) -> (r: Vec<Step>)
    ensures
        r@ == control_steps(Register::CTRL_STATUS_2, BitFlags::TIE, flag),
{
    control_bit_flag(Register::CTRL_STATUS_2, BitFlags::TIE, flag)
}

/// Check if timer interrupt is enabled.
pub fn is_timer_interrupt_enabled() -> (q: FlagQuery)
    ensures
        q == (FlagQuery { register: Register::CTRL_STATUS_2, mask: BitFlags::TIE, inverted: false }),
{
    FlagQuery { register: Register::CTRL_STATUS_2, mask: BitFlags::TIE, inverted: false }
}

/// Get the timer flag status (if true, timer was triggered).
pub fn get_timer_flag() -> (q: FlagQuery)
    ensures
        q == (FlagQuery { register: Register::CTRL_STATUS_2, mask: BitFlags::TF, inverted: false }),
{
    FlagQuery { register: Register::CTRL_STATUS_2, mask: BitFlags::TF, inverted: false }
}

/// The steps that clear the timer flag.
pub open spec fn clear_timer_flag_steps() -> Seq<Step> {
    seq![Step::ClearFlag { register: Register::CTRL_STATUS_2, mask: BitFlags::TF }]
}

/// Clear the timer flag.
pub fn clear_timer_flag() -> (r: Vec<Step>)
    ensures
        r@ == clear_timer_flag_steps(),
{
    vec![clear_register_bit_flag(Register::CTRL_STATUS_2, BitFlags::TF)]
}

/// The steps of [`timer_interrupt_output`]: the TI_TP bit is set for a pulsating output
/// and cleared for a continuous one.
pub open spec fn timer_interrupt_output_steps(output: InterruptOutput) -> Seq<Step> {
    match output {
        InterruptOutput::Continuous => seq![
            Step::ClearFlag { register: Register::CTRL_STATUS_2, mask: BitFlags::TI_TP },
        ],
        InterruptOutput::Pulsating => seq![
            Step::SetFlag { register: Register::CTRL_STATUS_2, mask: BitFlags::TI_TP },
        ],
    }
}

/// Select the interrupt output mode when TF flag is set (continuous or pulsating).
pub fn timer_interrupt_output(output: InterruptOutput) -> (r: Vec<Step>)
    ensures
        r@ == timer_interrupt_output_steps(output),
{
    match output {
        InterruptOutput::Continuous => {
            vec![clear_register_bit_flag(Register::CTRL_STATUS_2, BitFlags::TI_TP)]
        },
        InterruptOutput::Pulsating => {
            vec![set_register_bit_flag(Register::CTRL_STATUS_2, BitFlags::TI_TP)]
        },
    }
}

/// The query of the timer countdown value.
pub open spec fn timer_query() -> ValueQuery {
    ValueQuery { register: Register::TIMER, mask: 0xff, bcd: false }
}

/// Read the current timer value.
pub fn get_timer() -> (q: ValueQuery)
    ensures
        q == timer_query(),
{
    ValueQuery { register: Register::TIMER, mask: 0xff, bcd: false }
}

/// Reading the timer after setting it gives the value set; no other register changes.
pub proof fn lemma_set_timer_read_back(regs: Map<u8, u8>, time: u8, r: u8)
    ensures
        timer_query().read(run(regs, set_timer_steps(time))) == time,
        r != Register::TIMER ==> run(regs, set_timer_steps(time))[r] == regs[r],
{
    lemma_run_single(regs, set_timer_steps(time)[0]);
    assert(set_timer_steps(time) =~= seq![set_timer_steps(time)[0]]);
    lemma_effect(regs, set_timer_steps(time)[0], r);
    lemma_effect(regs, set_timer_steps(time)[0], Register::TIMER);
    assert(time & 0xff == time) by (bit_vector);
}

/// Setting the timer frequency writes its bits into the two low bits of the timer
/// control register, keeps the timer-enable bit, clears the bits in between, and changes
/// no other register.
pub proof fn lemma_set_timer_frequency(regs: Map<u8, u8>, frequency: TimerFreq, r: u8)
    ensures
        run(regs, set_timer_frequency_steps(frequency))[Register::TIMER_CTRL] == (
        regs[Register::TIMER_CTRL] & BitFlags::TE) | frequency.bits_spec(),
        run(regs, set_timer_frequency_steps(frequency))[Register::TIMER_CTRL] & 0b11
            == frequency.bits_spec(),
        timer_enabled_query().read(run(regs, set_timer_frequency_steps(frequency)))
            == timer_enabled_query().read(regs),
        r != Register::TIMER_CTRL ==> run(regs, set_timer_frequency_steps(frequency))[r] == regs[r],
{
    let steps = set_timer_frequency_steps(frequency);
    lemma_run_single(regs, steps[0]);
    assert(steps =~= seq![steps[0]]);
    lemma_effect(regs, steps[0], r);
    lemma_effect(regs, steps[0], Register::TIMER_CTRL);
    let d = regs[Register::TIMER_CTRL];
    let b = frequency.bits_spec();
    assert(((d & 0x80) | b) & 0b11 == b && ((d & 0x80) | b) & 0x80 == d & 0x80) by (bit_vector)
        requires
            b <= 3,
    ;
}

/// Each timer control reads back as it was set: the timer and its interrupt are enabled
/// exactly when turned on, the timer flag is clear after clearing it, and the interrupt
/// output bit is set exactly for a pulsating output.
pub proof fn lemma_timer_controls_read_back(regs: Map<u8, u8>, status: Control, output: InterruptOutput)
    ensures
        timer_enabled_query().read(run(regs, control_steps(Register::TIMER_CTRL, BitFlags::TE, status)))
            == (status == Control::On),
        (FlagQuery { register: Register::CTRL_STATUS_2, mask: BitFlags::TIE, inverted: false }).read(
            run(regs, control_steps(Register::CTRL_STATUS_2, BitFlags::TIE, status)),
        ) == (status == Control::On),
        !(FlagQuery { register: Register::CTRL_STATUS_2, mask: BitFlags::TF, inverted: false }).read(
            run(regs, clear_timer_flag_steps()),
        ),
        (run(regs, timer_interrupt_output_steps(output))[Register::CTRL_STATUS_2] & BitFlags::TI_TP
            != 0) == (output == InterruptOutput::Pulsating),
{
    lemma_control_read_back(regs, Register::TIMER_CTRL, BitFlags::TE, status, 0);
    lemma_control_read_back(regs, Register::CTRL_STATUS_2, BitFlags::TIE, status, 0);
    lemma_flag_steps(regs, Register::CTRL_STATUS_2, BitFlags::TF, false, 0);
    assert(clear_timer_flag_steps() == flag_steps(
        Register::CTRL_STATUS_2,
        BitFlags::TF,
        false,
    ));
    lemma_flag_steps(
        regs,
        Register::CTRL_STATUS_2,
        BitFlags::TI_TP,
        output == InterruptOutput::Pulsating,
        0,
    );
    assert(timer_interrupt_output_steps(output) == flag_steps(
        Register::CTRL_STATUS_2,
        BitFlags::TI_TP,
        output == InterruptOutput::Pulsating,
    ));
}

/// Selecting the same interrupt output mode a second time leaves the registers as the
/// first time left them.
pub proof fn lemma_timer_interrupt_output_idempotent(regs: Map<u8, u8>, output: InterruptOutput)
    ensures
        run(run(regs, timer_interrupt_output_steps(output)), timer_interrupt_output_steps(output))
            == run(regs, timer_interrupt_output_steps(output)),
{
    let steps = timer_interrupt_output_steps(output);
    let once = run(regs, steps);
    assert(steps =~= seq![steps[0]]);
    assert forall|x: u8| #[trigger] run(once, steps)[x] == once[x] by {
        lemma_run_register(regs, steps, x);
        lemma_run_register(once, steps, x);
        lemma_register_after_single(regs[x], steps[0], x);
        lemma_register_after_single(once[x], steps[0], x);
        let d = regs[x];
        lemma_flag_bits(d, BitFlags::TI_TP);
        lemma_flag_bits(d | BitFlags::TI_TP, BitFlags::TI_TP);
        lemma_flag_bits(d & !BitFlags::TI_TP, BitFlags::TI_TP);
        assert((d | 0x10u8) | 0x10u8 == d | 0x10u8) by (bit_vector);
    }
    lemma_run_twice(regs, steps);
}

} // verus!
