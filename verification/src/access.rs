//! Register accesses and their effect on the register file.
//!
//! The register file of the clock is modelled as a map from register address to the
//! byte it holds. An operation that changes the clock is a list of [`Step`]s, which a
//! bus driver performs in order, stopping at the first bus error; an operation that
//! inspects the clock reads one register and interprets the byte with a
//! [`FlagQuery`] or a [`ValueQuery`].
use vstd::prelude::*;
use crate::bcd::{bcd_value, decode_bcd};
use crate::types::Control;

verus! {

/// One access to a register of the clock.
#[derive(Clone, Copy, Debug, PartialEq, Eq, Structural)]
pub enum Step {
    /// Write `value` to `register` without reading it.
    Write { register: u8, value: u8 },
    /// Read `register`, then write back `(data & keep) | set`.
    Update { register: u8, keep: u8, set: u8 },
    /// Read `register`; if the bits of `mask` are clear in it, write it back with them set.
    SetFlag { register: u8, mask: u8 },
    /// Read `register`; if a bit of `mask` is set in it, write it back with them cleared.
    ClearFlag { register: u8, mask: u8 },
}

impl Step {
    /// The register the step accesses.
    pub open spec fn target(self) -> u8 {
        match self {
            Step::Write { register, .. } => register,
            Step::Update { register, .. } => register,
            Step::SetFlag { register, .. } => register,
            Step::ClearFlag { register, .. } => register,
        }
    }

    /// The value the step writes after reading `data` from its register, if it writes.
    /// A `Write` reads nothing and ignores `data`.
    pub open spec fn write_after(self, data: u8) -> Option<u8> {
        match self {
            Step::Write { value, .. } => Some(value),
            Step::Update { keep, set, .. } => Some((data & keep) | set),
            Step::SetFlag { mask, .. } => if data & mask == 0 {
                Some(data | mask)
            } else {
                None
            },
            Step::ClearFlag { mask, .. } => if data & mask != 0 {
                Some(data & !mask)
            } else {
                None
            },
        }
    }

    /// The register file after the step.
    /// The register it accesses holds the byte it wrote, or keeps its byte when it wrote
    /// nothing.
    pub open spec fn effect(self, regs: Map<u8, u8>) -> Map<u8, u8> {
        regs.insert(self.target(), self.stored(regs[self.target()]))
    }

    /// The register the step accesses.
    pub fn register(&self) -> (r: u8)
        ensures
            r == self.target(),
    {
        match self {
            Step::Write { register, .. } => *register,
            Step::Update { register, .. } => *register,
            Step::SetFlag { register, .. } => *register,
            Step::ClearFlag { register, .. } => *register,
        }
    }

    /// Whether the step reads its register before it may write it.
    pub fn reads(&self) -> (r: bool)
        ensures
            r == !(self is Write),
    {
        !matches!(self, Step::Write { .. })
    }

    /// The value to write after reading `data` from the register (ignored by a `Write`),
    /// or `None` when the step leaves the register as it is.
    pub fn next_write(&self, data: u8) -> (r: Option<u8>)
        ensures
            r == self.write_after(data),
    {
        match self {
            Step::Write { value, .. } => Some(*value),
            Step::Update { keep, set, .. } => Some((data & *keep) | *set),
            Step::SetFlag { mask, .. } => if data & *mask == 0 {
                Some(data | *mask)
            } else {
                None
            },
            Step::ClearFlag { mask, .. } => if data & *mask != 0 {
                Some(data & !*mask)
            } else {
                None
            },
        }
    }
}

/// The register file after the steps, performed in order.
pub open spec fn run(regs: Map<u8, u8>, steps: Seq<Step>) -> Map<u8, u8>
    decreases steps.len(),
{
    if steps.len() == 0 {
        regs
    } else {
        run(steps[0].effect(regs), steps.drop_first())
    }
}

/// Performing two lists of steps one after the other is performing their concatenation.
pub proof fn lemma_run_concat(regs: Map<u8, u8>, a: Seq<Step>, b: Seq<Step>)
    ensures
        run(regs, a + b) == run(run(regs, a), b),
    decreases a.len(),
{
    if a.len() == 0 {
        assert(a + b =~= b);
    } else {
        assert((a + b).drop_first() =~= a.drop_first() + b);
        lemma_run_concat(a[0].effect(regs), a.drop_first(), b);
    }
}

/// Performing a single step is its effect.
pub proof fn lemma_run_single(regs: Map<u8, u8>, step: Step)
    ensures
        run(regs, seq![step]) == step.effect(regs),
{
    let steps = seq![step];
    assert(steps.drop_first() =~= Seq::<Step>::empty());
    assert(run(step.effect(regs), Seq::<Step>::empty()) == step.effect(regs));
}

/// Steps change no register that none of them accesses.
pub proof fn lemma_run_frame(regs: Map<u8, u8>, steps: Seq<Step>, r: u8)
    requires
        forall|i: int| 0 <= i < steps.len() ==> #[trigger] steps[i].target() != r,
    ensures
        run(regs, steps)[r] == regs[r],
    decreases steps.len(),
{
    if steps.len() > 0 {
        assert(steps[0].target() != r);
        lemma_run_frame(steps[0].effect(regs), steps.drop_first(), r);
    }
}

/// Reading one bit of a register.
#[derive(Clone, Copy, Debug, PartialEq, Eq, Structural)]
pub struct FlagQuery {
    /// The register to read.
    pub register: u8,
    /// The bit to look at.
    pub mask: u8,
    /// Whether the answer is true when the bit is clear rather than set.
    pub inverted: bool,
}

impl FlagQuery {
    /// The answer for the byte `data` read from the register.
    pub open spec fn answer_spec(self, data: u8) -> bool {
        (data & self.mask != 0) != self.inverted
    }

    /// The answer on a register file.
    pub open spec fn read(self, regs: Map<u8, u8>) -> bool {
        self.answer_spec(regs[self.register])
    }

    /// The answer for the byte `data` read from the register.
    pub fn answer(&self, data: u8) -> (r: bool)
        ensures
            r == self.answer_spec(data),
    {
        let flag = (data & self.mask) != 0;
        flag != self.inverted
    }
}

/// Reading a value from some bits of a register.
#[derive(Clone, Copy, Debug, PartialEq, Eq, Structural)]
pub struct ValueQuery {
    /// The register to read.
    pub register: u8,
    /// The bits that hold the value.
    pub mask: u8,
    /// Whether the value is stored in BCD.
    pub bcd: bool,
}

impl ValueQuery {
    /// The value for the byte `data` read from the register.
    pub open spec fn answer_spec(self, data: u8) -> u8 {
        if self.bcd {
            bcd_value(data & self.mask)
        } else {
            data & self.mask
        }
    }

    /// The value on a register file.
    pub open spec fn read(self, regs: Map<u8, u8>) -> u8 {
        self.answer_spec(regs[self.register])
    }

    /// The value for the byte `data` read from the register.
    pub fn answer(&self, data: u8) -> (r: u8)
        ensures
            r == self.answer_spec(data),
    {
        if self.bcd {
            decode_bcd(data & self.mask)
        } else {
            data & self.mask
        }
    }
}

/// A mask with exactly one bit set.
pub open spec fn single_bit(mask: u8) -> bool {
    mask == 1 || mask == 2 || mask == 4 || mask == 8 || mask == 16 || mask == 32 || mask == 64
        || mask == 128
}

impl Step {
    /// The byte the register holds after the step, when it held `data` before.
    pub open spec fn stored(self, data: u8) -> u8 {
        match self.write_after(data) {
            Some(v) => v,
            None => data,
        }
    }
}

/// The register a step accesses holds [`Step::stored`] afterwards; the others keep
/// their bytes.
pub proof fn lemma_effect(regs: Map<u8, u8>, step: Step, r: u8)
    ensures
        step.effect(regs)[r] == if r == step.target() {
            step.stored(regs[r])
        } else {
            regs[r]
        },
{
}

/// Setting a single-bit flag leaves the byte with the bit set, whether or not the step
/// had to write; clearing it leaves the byte with the bit cleared. No other bit changes.
pub proof fn lemma_flag_bits(data: u8, mask: u8)
    requires
        single_bit(mask),
    ensures
        (Step::SetFlag { register: 0, mask }).stored(data) == data | mask,
        (Step::ClearFlag { register: 0, mask }).stored(data) == data & !mask,
        (data | mask) & mask != 0,
        (data & !mask) & mask == 0,
        (data | mask) & !mask == data & !mask,
        (data & !mask) & !mask == data & !mask,
{
    assert(data & mask != 0 ==> data | mask == data) by (bit_vector)
        requires
            mask == 1 || mask == 2 || mask == 4 || mask == 8 || mask == 16 || mask == 32
                || mask == 64 || mask == 128,
    ;
    assert(data & mask == 0 ==> data & !mask == data) by (bit_vector);
    assert((data | mask) & mask != 0) by (bit_vector)
        requires
            mask != 0,
    ;
    assert((data & !mask) & mask == 0) by (bit_vector);
    assert((data | mask) & !mask == data & !mask) by (bit_vector);
    assert((data & !mask) & !mask == data & !mask) by (bit_vector);
}

/// The step that sets the bits of `mask` in `register`.
pub fn set_register_bit_flag(register: u8, mask: u8) -> (r: Step)
    ensures
        r == (Step::SetFlag { register, mask }),
{
    Step::SetFlag { register, mask }
}

/// The step that clears the bits of `mask` in `register`.
pub fn clear_register_bit_flag(register: u8, mask: u8) -> (r: Step)
    ensures
        r == (Step::ClearFlag { register, mask }),
{
    Step::ClearFlag { register, mask }
}

/// The steps that set a flag (`on`) or clear it.
pub open spec fn flag_steps(register: u8, mask: u8, on: bool) -> Seq<Step> {
    if on {
        seq![Step::SetFlag { register, mask }]
    } else {
        seq![Step::ClearFlag { register, mask }]
    }
}

/// The steps for a flag that is set when the feature is on.
pub open spec fn control_steps(register: u8, mask: u8, status: Control) -> Seq<Step> {
    flag_steps(register, mask, status == Control::On)
}

/// The steps for a flag that is set when the feature is off.
pub open spec fn control_inverted_steps(register: u8, mask: u8, status: Control) -> Seq<Step> {
    flag_steps(register, mask, status == Control::Off)
}

/// Turn a feature on by setting its flag, or off by clearing it.
pub fn control_bit_flag(register: u8, mask: u8, status: Control) -> (r: Vec<Step>)
    ensures
        r@ == control_steps(register, mask, status),
{
    match status {
        Control::On => vec![set_register_bit_flag(register, mask)],
        Control::Off => vec![clear_register_bit_flag(register, mask)],
    }
}

/// Turn a feature on by clearing its flag, or off by setting it.
pub fn control_bit_flag_inverted(register: u8, mask: u8, status: Control) -> (r: Vec<Step>)
    ensures
        r@ == control_inverted_steps(register, mask, status),
{
    match status {
        Control::On => vec![clear_register_bit_flag(register, mask)],
        Control::Off => vec![set_register_bit_flag(register, mask)],
    }
}

/// After the flag steps the flag reads as requested, the other bits of the register
/// keep their values and the other registers keep their bytes.
pub proof fn lemma_flag_steps(regs: Map<u8, u8>, register: u8, mask: u8, on: bool, r: u8)
    requires
        single_bit(mask),
    ensures
        ({
            let after = run(regs, flag_steps(register, mask, on));
            &&& (after[register] & mask != 0) == on
            &&& after[register] & !mask == regs[register] & !mask
            &&& r != register ==> after[r] == regs[r]
        }),
{
    let steps = flag_steps(register, mask, on);
    lemma_run_single(regs, steps[0]);
    assert(steps =~= seq![steps[0]]);
    lemma_effect(regs, steps[0], register);
    lemma_effect(regs, steps[0], r);
    lemma_flag_bits(regs[register], mask);
}

/// The byte register `r` holds after the steps, when it held `data` before.
pub open spec fn register_after(data: u8, steps: Seq<Step>, r: u8) -> u8
    decreases steps.len(),
{
    if steps.len() == 0 {
        data
    } else {
        let next = if steps[0].target() == r {
            steps[0].stored(data)
        } else {
            data
        };
        register_after(next, steps.drop_first(), r)
    }
}

/// Each register ends up with the byte that the steps accessing it leave there.
pub proof fn lemma_run_register(regs: Map<u8, u8>, steps: Seq<Step>, r: u8)
    ensures
        run(regs, steps)[r] == register_after(regs[r], steps, r),
    decreases steps.len(),
{
    if steps.len() > 0 {
        lemma_effect(regs, steps[0], r);
        lemma_run_register(steps[0].effect(regs), steps.drop_first(), r);
    }
}

/// What a register holds after two lists of steps, one after the other.
pub proof fn lemma_register_after_concat(data: u8, a: Seq<Step>, b: Seq<Step>, r: u8)
    ensures
        register_after(data, a + b, r) == register_after(register_after(data, a, r), b, r),
    decreases a.len(),
{
    if a.len() == 0 {
        assert(a + b =~= b);
    } else {
        assert((a + b).drop_first() =~= a.drop_first() + b);
        let next = if a[0].target() == r {
            a[0].stored(data)
        } else {
            data
        };
        lemma_register_after_concat(next, a.drop_first(), b, r);
    }
}

/// What a register holds after a single step.
pub proof fn lemma_register_after_single(data: u8, step: Step, r: u8)
    ensures
        register_after(data, seq![step], r) == if step.target() == r {
            step.stored(data)
        } else {
            data
        },
{
    let steps = seq![step];
    assert(steps.drop_first() =~= Seq::<Step>::empty());
    let next = if step.target() == r {
        step.stored(data)
    } else {
        data
    };
    assert(register_after(next, Seq::<Step>::empty(), r) == next);
    assert(steps[0] == step);
}

/// A feature controlled by a flag that is set when it is on reads back as requested,
/// and so does one whose flag is set when it is off; no other bit or register changes.
pub proof fn lemma_control_read_back(regs: Map<u8, u8>, register: u8, mask: u8, status: Control, r: u8)
    requires
        single_bit(mask),
    ensures
        (FlagQuery { register, mask, inverted: false }).read(
            run(regs, control_steps(register, mask, status)),
        ) == (status == Control::On),
        (FlagQuery { register, mask, inverted: true }).read(
            run(regs, control_inverted_steps(register, mask, status)),
        ) == (status == Control::On),
        run(regs, control_steps(register, mask, status))[register] & !mask == regs[register] & !mask,
        run(regs, control_inverted_steps(register, mask, status))[register] & !mask == regs[register]
            & !mask,
        r != register ==> run(regs, control_steps(register, mask, status))[r] == regs[r],
        r != register ==> run(regs, control_inverted_steps(register, mask, status))[r] == regs[r],
{
    lemma_flag_steps(regs, register, mask, status == Control::On, r);
    lemma_flag_steps(regs, register, mask, status == Control::Off, r);
}

/// A driver that stops after the first `k` steps (at a bus error) leaves the register
/// file as those steps leave it, `run(regs, steps.take(k))`, with nothing undone; going on
/// with the remaining steps from there gives the register file of the whole list.
pub proof fn lemma_run_prefix(regs: Map<u8, u8>, steps: Seq<Step>, k: int)
    requires
        0 <= k <= steps.len(),
    ensures
        run(regs, steps) == run(run(regs, steps.take(k)), steps.skip(k)),
{
    assert(steps =~= steps.take(k) + steps.skip(k));
    lemma_run_concat(regs, steps.take(k), steps.skip(k));
}

/// The registers the steps access.
pub open spec fn targets(steps: Seq<Step>) -> Set<u8>
    decreases steps.len(),
{
    if steps.len() == 0 {
        Set::empty()
    } else {
        targets(steps.drop_first()).insert(steps[0].target())
    }
}

/// The registers of the register file after the steps are those before and those the
/// steps access.
pub proof fn lemma_run_dom(regs: Map<u8, u8>, steps: Seq<Step>)
    ensures
        run(regs, steps).dom() == regs.dom() + targets(steps),
    decreases steps.len(),
{
    if steps.len() == 0 {
        assert(regs.dom() + Set::<u8>::empty() =~= regs.dom());
    } else {
        lemma_run_dom(steps[0].effect(regs), steps.drop_first());
        assert(regs.dom() + targets(steps) =~= steps[0].effect(regs).dom() + targets(
            steps.drop_first(),
        ));
    }
}

/// Performing steps a second time changes nothing when it leaves every register with
/// the byte the first time left there.
pub proof fn lemma_run_twice(regs: Map<u8, u8>, steps: Seq<Step>)
    requires
        forall|x: u8| #[trigger] run(run(regs, steps), steps)[x] == run(regs, steps)[x],
    ensures
        run(run(regs, steps), steps) == run(regs, steps),
{
    lemma_run_dom(regs, steps);
    lemma_run_dom(run(regs, steps), steps);
    assert(run(regs, steps).dom() + targets(steps) =~= run(regs, steps).dom());
    assert(run(run(regs, steps), steps) =~= run(regs, steps));
}

} // verus!
