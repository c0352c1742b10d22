//! Alarm-related operations.
//!
//! Setting an alarm component (minutes, hours, day, weekday) keeps its alarm-enable
//! bit as it is; [`set_alarm`] sets all components in one go and enables the alarm
//! exactly for the components it is given.
use vstd::prelude::*;
use crate::access::{
    lemma_run_twice,
    lemma_run_prefix,
    flag_steps, lemma_flag_steps,
    lemma_control_read_back,
    lemma_flag_bits, lemma_register_after_concat, lemma_register_after_single, lemma_run_register,
    register_after, run, control_bit_flag, control_bit_flag_inverted, control_inverted_steps, control_steps,
    clear_register_bit_flag, FlagQuery, Step, ValueQuery,
};
use crate::bcd::{
    bcd_byte, bcd_value, encode_bcd, lemma_bcd_byte_digits, lemma_bcd_value_digits,
    lemma_decode_encode,
};
use crate::registers::{BitFlags, Register};
use crate::types::{weekday_from, Control, Error, Weekday};

verus! {

/// Alarm settings: minutes, hours, day, weekday. All of them are optional.
#[derive(Clone, Copy, Debug, PartialEq, Eq, Structural)]
pub struct AlarmSettings {
    /// Alarm set to minutes
    pub minutes: Option<u8>,
    /// Alarm set to hours
    pub hours: Option<u8>,
    /// Alarm set to day (e.g. the 17th)
    pub day: Option<u8>,
    /// Alarm set to specific weekday
    pub weekday: Option<Weekday>,
}

impl AlarmSettings {
    /// create new alarm settings
    pub fn new() -> (r: Self)
        ensures
            r == Self::new_spec(),
    {
        AlarmSettings { minutes: None, hours: None, day: None, weekday: None }
    }

    /// Use minutes value
    pub fn with_minutes(self, minutes: u8) -> (r: Self)
        ensures
            r == (AlarmSettings { minutes: Some(minutes), ..self }),
    {
        let mut s = self;
        s.minutes = Some(minutes);
        s
    }

    /// Use hours value
    pub fn with_hours(self, hours: u8) -> (r: Self)
        ensures
            r == (AlarmSettings { hours: Some(hours), ..self }),
    {
        let mut s = self;
        s.hours = Some(hours);
        s
    }

    /// Use day value
    pub fn with_day(self, day: u8) -> (r: Self)
        ensures
            r == (AlarmSettings { day: Some(day), ..self }),
    {
        let mut s = self;
        s.day = Some(day);
        s
    }

    /// Use weekday value
    pub fn with_weekday(self, weekday: Weekday) -> (r: Self)
        ensures
            r == (AlarmSettings { weekday: Some(weekday), ..self }),
    {
        let mut s = self;
        s.weekday = Some(weekday);
        s
    }

    /// Settings with no component given.
    pub open spec fn new_spec() -> Self {
        AlarmSettings { minutes: None, hours: None, day: None, weekday: None }
    }

    /// Each given component is in range: minutes 0 to 59, hours 0 to 23, day 1 to 31.
    pub open spec fn valid(self) -> bool {
        &&& self.minutes matches Some(m) ==> m <= 59
        &&& self.hours matches Some(h) ==> h <= 23
        &&& self.day matches Some(d) ==> 1 <= d <= 31
    }
}

/// Write the BCD `value` into an alarm register, keeping its alarm-enable bit.
pub open spec fn alarm_value_steps(register: u8, value: u8) -> Seq<Step> {
    seq![Step::Update { register, keep: BitFlags::AE, set: bcd_byte(value) }]
}

/// Set alarm value. Helper function.
pub fn set_alarm_value(register: u8, value: u8) -> (r: Vec<Step>)
    ensures
        r@ == alarm_value_steps(register, value),
{
    vec![Step::Update { register, keep: BitFlags::AE, set: encode_bcd(value) }]
}

/// Set the alarm minutes [0-59], keeping the AE bit unchanged.
pub fn set_alarm_minutes(minutes: u8) -> (r: Result<Vec<Step>, Error>)
    ensures
        match r {
            Ok(steps) => minutes <= 59 && steps@ == alarm_value_steps(
                Register::MINUTE_ALARM,
                minutes,
            ),
            Err(e) => minutes > 59 && e == Error::InvalidInputData,
        },
        minutes <= 59 ==> (r matches Ok(steps) && steps@ == seq![
            Step::Update {
                register: Register::MINUTE_ALARM,
                keep: 0x80,
                set: ((minutes / 10) * 16 + minutes % 10) as u8,
            },
        ]),
{
    if minutes > 59 {
        return Err(Error::InvalidInputData);
    }
    Ok(set_alarm_value(Register::MINUTE_ALARM, minutes))
}

/// Set the alarm hours [0-23], keeping the AE bit unchanged.
pub fn set_alarm_hours(hours: u8) -> (r: Result<Vec<Step>, Error>)
    ensures
        match r {
            Ok(steps) => hours <= 23 && steps@ == alarm_value_steps(Register::HOUR_ALARM, hours),
            Err(e) => hours > 23 && e == Error::InvalidInputData,
        },
        hours <= 23 ==> (r matches Ok(steps) && steps@ == seq![
            Step::Update {
                register: Register::HOUR_ALARM,
                keep: 0x80,
                set: ((hours / 10) * 16 + hours % 10) as u8,
            },
        ]),
{
    if hours > 23 {
        return Err(Error::InvalidInputData);
    }
    Ok(set_alarm_value(Register::HOUR_ALARM, hours))
}

/// Set the alarm day [1-31], keeping the AE bit unchanged.
pub fn set_alarm_day(day: u8) -> (r: Result<Vec<Step>, Error>)
    ensures
        match r {
            Ok(steps) => 1 <= day <= 31 && steps@ == alarm_value_steps(Register::DAY_ALARM, day),
            Err(e) => (day < 1 || day > 31) && e == Error::InvalidInputData,
        },
        1 <= day <= 31 ==> (r matches Ok(steps) && steps@ == seq![
            Step::Update {
                register: Register::DAY_ALARM,
                keep: 0x80,
                set: ((day / 10) * 16 + day % 10) as u8,
            },
        ]),
{
    if day < 1 || day > 31 {
        return Err(Error::InvalidInputData);
    }
    Ok(set_alarm_value(Register::DAY_ALARM, day))
}

/// Set the alarm weekday [0-6], keeping the AE bit unchanged.
pub fn set_alarm_weekday(weekday: Weekday) -> (r: Vec<Step>)
    ensures
        r@ == alarm_value_steps(Register::WEEKDAY_ALARM, weekday.number()),
        r@ == seq![
            Step::Update {
                register: Register::WEEKDAY_ALARM,
                keep: 0x80,
                set: match weekday {
                    Weekday::Sunday => 0u8,
                    Weekday::Monday => 1u8,
                    Weekday::Tuesday => 2u8,
                    Weekday::Wednesday => 3u8,
                    Weekday::Thursday => 4u8,
                    Weekday::Friday => 5u8,
                    Weekday::Saturday => 6u8,
                },
            },
        ],
{
    set_alarm_value(Register::WEEKDAY_ALARM, weekday.value())
}

/// Control alarm minutes (On: alarm enabled, Off: alarm disabled).
pub fn control_alarm_minutes(status: Control) -> (r: Vec<Step>)
    ensures
        r@ == control_inverted_steps(Register::MINUTE_ALARM, BitFlags::AE, status),
{
    control_bit_flag_inverted(Register::MINUTE_ALARM, BitFlags::AE, status)
}

/// Control alarm hours (On: alarm enabled, Off: alarm disabled).
pub fn control_alarm_hours(status: Control) -> (r: Vec<Step>)
    ensures
        r@ == control_inverted_steps(Register::HOUR_ALARM, BitFlags::AE, status),
{
    control_bit_flag_inverted(Register::HOUR_ALARM, BitFlags::AE, status)
}

/// Control alarm day (On: alarm enabled, Off: alarm disabled).
pub fn control_alarm_day(status: Control) -> (r: Vec<Step>)
    ensures
        r@ == control_inverted_steps(Register::DAY_ALARM, BitFlags::AE, status),
{
    control_bit_flag_inverted(Register::DAY_ALARM, BitFlags::AE, status)
}

/// Control alarm weekday (On: alarm enabled, Off: alarm disabled).
pub fn control_alarm_weekday(status: Control) -> (r: Vec<Step>)
    ensures
        r@ == control_inverted_steps(Register::WEEKDAY_ALARM, BitFlags::AE, status),
{
    control_bit_flag_inverted(Register::WEEKDAY_ALARM, BitFlags::AE, status)
}

/// The query of whether the alarm of an alarm register is enabled: its AE bit is clear.
pub open spec fn alarm_enabled_query(register: u8) -> FlagQuery {
    FlagQuery { register, mask: BitFlags::AE, inverted: true }
}

/// Is alarm enabled? Helper function.
pub fn is_alarm_enabled(register: u8, bitmask: u8) -> (q: FlagQuery)
    ensures
        q == (FlagQuery { register, mask: bitmask, inverted: true }),
{
    FlagQuery { register, mask: bitmask, inverted: true }
}

/// Is alarm minutes enabled?
pub fn is_alarm_minutes_enabled() -> (q: FlagQuery)
    ensures
        q == alarm_enabled_query(Register::MINUTE_ALARM),
{
    is_alarm_enabled(Register::MINUTE_ALARM, BitFlags::AE)
}

/// Is alarm hours enabled?
pub fn is_alarm_hours_enabled() -> (q: FlagQuery)
    ensures
        q == alarm_enabled_query(Register::HOUR_ALARM),
{
    is_alarm_enabled(Register::HOUR_ALARM, BitFlags::AE)
}

/// Is alarm day enabled?
pub fn is_alarm_day_enabled() -> (q: FlagQuery)
    ensures
        q == alarm_enabled_query(Register::DAY_ALARM),
{
    is_alarm_enabled(Register::DAY_ALARM, BitFlags::AE)
}

/// Is alarm weekday enabled?
pub fn is_alarm_weekday_enabled() -> (q: FlagQuery)
    ensures
        q == alarm_enabled_query(Register::WEEKDAY_ALARM),
{
    is_alarm_enabled(Register::WEEKDAY_ALARM, BitFlags::AE)
}

/// Enable or disable alarm interrupt.
pub fn control_alarm_interrupt(status: Control) -> (r: Vec<Step>)
    ensures
        r@ == control_steps(Register::CTRL_STATUS_2, BitFlags::AIE, status),
{
    control_bit_flag(Register::CTRL_STATUS_2, BitFlags::AIE, status)
}

/// Read the alarm setting. Helper function.
pub fn get_alarm_setting(register: u8, decode_mask: u8) -> (q: ValueQuery)
    ensures
        q == (ValueQuery { register, mask: decode_mask, bcd: true }),
{
    ValueQuery { register, mask: decode_mask, bcd: true }
}

/// The mask of the BCD value held in an alarm register.
pub open spec fn alarm_value_mask(register: u8) -> u8 {
    if register == Register::MINUTE_ALARM {
        0b0111_1111
    } else if register == Register::WEEKDAY_ALARM {
        0b0000_0111
    } else {
        0b0011_1111
    }
}

/// The query of the value held in an alarm register.
pub open spec fn alarm_value_query(register: u8) -> ValueQuery {
    ValueQuery { register, mask: alarm_value_mask(register), bcd: true }
}

/// Read the alarm minutes setting.
pub fn get_alarm_minutes() -> (q: ValueQuery)
    ensures
        q == alarm_value_query(Register::MINUTE_ALARM),
{
    get_alarm_setting(Register::MINUTE_ALARM, 0b0111_1111)
}

/// Read the alarm hours setting.
pub fn get_alarm_hours() -> (q: ValueQuery)
    ensures
        q == alarm_value_query(Register::HOUR_ALARM),
{
    get_alarm_setting(Register::HOUR_ALARM, 0b0011_1111)
}

/// Read the alarm day setting.
pub fn get_alarm_day() -> (q: ValueQuery)
    ensures
        q == alarm_value_query(Register::DAY_ALARM),
{
    get_alarm_setting(Register::DAY_ALARM, 0b0011_1111)
}

/// Read the alarm weekday setting.
pub fn get_alarm_weekday() -> (q: ValueQuery)
    ensures
        q == alarm_value_query(Register::WEEKDAY_ALARM),
{
    get_alarm_setting(Register::WEEKDAY_ALARM, 0b0000_0111)
}

/// Get the alarm flag (if true, alarm event happened).
pub fn get_alarm_flag() -> (q: FlagQuery)
    ensures
        q == (FlagQuery { register: Register::CTRL_STATUS_2, mask: BitFlags::AF, inverted: false }),
{
    FlagQuery { register: Register::CTRL_STATUS_2, mask: BitFlags::AF, inverted: false }
}

/// The steps that clear the alarm flag.
pub open spec fn clear_alarm_flag_steps() -> Seq<Step> {
    seq![Step::ClearFlag { register: Register::CTRL_STATUS_2, mask: BitFlags::AF }]
}

/// Clear the alarm flag.
pub fn clear_alarm_flag() -> (r: Vec<Step>)
    ensures
        r@ == clear_alarm_flag_steps(),
{
    vec![clear_register_bit_flag(Register::CTRL_STATUS_2, BitFlags::AF)]
}

/// Check if alarm interrupt is enabled.
pub fn is_alarm_interrupt_enabled() -> (q: FlagQuery)
    ensures
        q == (FlagQuery { register: Register::CTRL_STATUS_2, mask: BitFlags::AIE, inverted: false }),
{
    FlagQuery { register: Register::CTRL_STATUS_2, mask: BitFlags::AIE, inverted: false }
}

/// The steps that turn off the four alarm components, in the order minutes, hours,
/// day, weekday.
pub open spec fn disable_all_alarms_steps() -> Seq<Step> {
    control_inverted_steps(Register::MINUTE_ALARM, BitFlags::AE, Control::Off)
        + control_inverted_steps(Register::HOUR_ALARM, BitFlags::AE, Control::Off)
        + control_inverted_steps(Register::DAY_ALARM, BitFlags::AE, Control::Off)
        + control_inverted_steps(Register::WEEKDAY_ALARM, BitFlags::AE, Control::Off)
}

/// Shut off the alarms at once.
pub fn disable_all_alarms() -> (r: Vec<Step>)
    ensures
        r@ == disable_all_alarms_steps(),
{
    let mut steps = control_alarm_minutes(Control::Off);
    let mut more = control_alarm_hours(Control::Off);
    steps.append(&mut more);
    let mut more = control_alarm_day(Control::Off);
    steps.append(&mut more);
    let mut more = control_alarm_weekday(Control::Off);
    steps.append(&mut more);
    steps
}

/// The steps that write the value of an alarm component and enable its alarm.
pub open spec fn enable_component_steps(register: u8, value: u8) -> Seq<Step> {
    alarm_value_steps(register, value) + control_inverted_steps(register, BitFlags::AE, Control::On)
}

/// The steps for an optional alarm component: none when it is absent.
pub open spec fn component_steps(register: u8, value: Option<u8>) -> Seq<Step> {
    match value {
        Some(v) => enable_component_steps(register, v),
        None => Seq::empty(),
    }
}

/// The number of an optional weekday.
pub open spec fn weekday_number(weekday: Option<Weekday>) -> Option<u8> {
    match weekday {
        Some(w) => Some(w.number()),
        None => None,
    }
}

/// The steps of [`set_alarm`]: clear the alarm flag, disable all alarm components, then
/// write and enable each given component in the order minutes, hours, day, weekday.
pub open spec fn set_alarm_steps(settings: AlarmSettings) -> Seq<Step> {
    clear_alarm_flag_steps() + disable_all_alarms_steps() + component_steps(
        Register::MINUTE_ALARM,
        settings.minutes,
    ) + component_steps(Register::HOUR_ALARM, settings.hours) + component_steps(
        Register::DAY_ALARM,
        settings.day,
    ) + component_steps(Register::WEEKDAY_ALARM, weekday_number(settings.weekday))
}

/// Set the alarm in one go: minutes, hours, day, weekday
/// All these values are optional, alarm only gets enabled for the provided data
/// All previous settings are cleared
#[verifier::spinoff_prover]
#[verifier::rlimit(60)]
pub fn set_alarm(settings: &AlarmSettings) -> (r: Result<Vec<Step>, Error>)
    ensures
        match r {
            Ok(steps) => settings.valid() && steps@ == set_alarm_steps(*settings),
            Err(e) => !settings.valid() && e == Error::InvalidInputData,
        },
        r is Ok <==> ((settings.minutes matches Some(m) ==> m <= 59) && (settings.hours matches Some(
            h,
        ) ==> h <= 23) && (settings.day matches Some(d) ==> 1 <= d <= 31)),
{
    // check if input values make sense
    if let Some(minutes) = settings.minutes {
        if minutes > 59 {
            return Err(Error::InvalidInputData);
        }
    }
    if let Some(hours) = settings.hours {
        if hours > 23 {
            return Err(Error::InvalidInputData);
        }
    }
    if let Some(day) = settings.day {
        if day < 1 || day > 31 {
            return Err(Error::InvalidInputData);
        }
    }
    // clear the alarm flag
    let mut steps = clear_alarm_flag();
    // disable all the alarms
    let mut more = disable_all_alarms();
    steps.append(&mut more);
    // set each components separately
    if let Some(minutes) = settings.minutes {
        let mut more = set_alarm_minutes(minutes)?;
        steps.append(&mut more);
        let mut more = control_alarm_minutes(Control::On);
        steps.append(&mut more);
    }
    assert(steps@ == clear_alarm_flag_steps() + disable_all_alarms_steps() + component_steps(
        Register::MINUTE_ALARM,
        settings.minutes,
    ));
    if let Some(hours) = settings.hours {
        let mut more = set_alarm_hours(hours)?;
        steps.append(&mut more);
        let mut more = control_alarm_hours(Control::On);
        steps.append(&mut more);
    }
    assert(steps@ == clear_alarm_flag_steps() + disable_all_alarms_steps() + component_steps(
        Register::MINUTE_ALARM,
        settings.minutes,
    ) + component_steps(Register::HOUR_ALARM, settings.hours));
    if let Some(day) = settings.day {
        let mut more = set_alarm_day(day)?;
        steps.append(&mut more);
        let mut more = control_alarm_day(Control::On);
        steps.append(&mut more);
    }
    assert(steps@ == clear_alarm_flag_steps() + disable_all_alarms_steps() + component_steps(
        Register::MINUTE_ALARM,
        settings.minutes,
    ) + component_steps(Register::HOUR_ALARM, settings.hours) + component_steps(
        Register::DAY_ALARM,
        settings.day,
    ));
    if let Some(weekday) = settings.weekday {
        let mut more = set_alarm_weekday(weekday);
        steps.append(&mut more);
        let mut more = control_alarm_weekday(Control::On);
        steps.append(&mut more);
    }
    Ok(steps)
}

/// The alarm register of component `index`: 0 minutes, 1 hours, 2 day, 3 weekday.
pub open spec fn alarm_register(index: u8) -> u8 {
    if index == 0 {
        Register::MINUTE_ALARM
    } else if index == 1 {
        Register::HOUR_ALARM
    } else if index == 2 {
        Register::DAY_ALARM
    } else {
        Register::WEEKDAY_ALARM
    }
}

/// An optional alarm component as the registers hold it: its value when its alarm is
/// enabled, `None` when it is disabled.
pub open spec fn alarm_component(regs: Map<u8, u8>, register: u8) -> Option<u8> {
    if alarm_enabled_query(register).read(regs) {
        Some(alarm_value_query(register).read(regs))
    } else {
        None
    }
}

/// The settings for the given component values, refused when the weekday number is
/// out of range.
pub open spec fn settings_from(
    minutes: Option<u8>,
    hours: Option<u8>,
    day: Option<u8>,
    weekday: Option<u8>,
) -> Result<AlarmSettings, Error> {
    match weekday {
        Some(v) => match weekday_from(v) {
            Some(w) => Ok(AlarmSettings { minutes, hours, day, weekday: Some(w) }),
            None => Err(Error::InvalidInputData),
        },
        None => Ok(AlarmSettings { minutes, hours, day, weekday: None }),
    }
}

/// The alarm settings the registers hold: each enabled component with its value.
pub open spec fn alarm_settings_of(regs: Map<u8, u8>) -> Result<AlarmSettings, Error> {
    settings_from(
        alarm_component(regs, Register::MINUTE_ALARM),
        alarm_component(regs, Register::HOUR_ALARM),
        alarm_component(regs, Register::DAY_ALARM),
        alarm_component(regs, Register::WEEKDAY_ALARM),
    )
}

/// Reads the alarm settings register by register: for each component in the order
/// minutes, hours, day, weekday it reads the component's register to learn whether its
/// alarm is enabled and, if it is, reads the register again for the value.
#[derive(Clone, Copy, Debug, PartialEq, Eq, Structural)]
pub struct AlarmSettingsReader {
    /// The component whose register is read next (4 when all are read).
    pub component: u8,
    /// Whether the next read is for the value of an enabled component.
    pub reading_value: bool,
    /// The minutes read so far.
    pub minutes: Option<u8>,
    /// The hours read so far.
    pub hours: Option<u8>,
    /// The day read so far.
    pub day: Option<u8>,
    /// The weekday number read so far.
    pub weekday: Option<u8>,
}

impl AlarmSettingsReader {
    /// The reader's state is one it can reach.
    pub open spec fn wf(self) -> bool {
        &&& self.component <= 4
        &&& self.reading_value ==> self.component < 4
    }

    /// The register to read next, `None` once all are read.
    pub open spec fn requested(self) -> Option<u8> {
        if self.component < 4 {
            Some(alarm_register(self.component))
        } else {
            None
        }
    }

    /// The reader with component `index` set to `value`.
    pub open spec fn with_component(self, index: u8, value: Option<u8>) -> Self {
        if index == 0 {
            AlarmSettingsReader { minutes: value, ..self }
        } else if index == 1 {
            AlarmSettingsReader { hours: value, ..self }
        } else if index == 2 {
            AlarmSettingsReader { day: value, ..self }
        } else {
            AlarmSettingsReader { weekday: value, ..self }
        }
    }

    /// The reader after `data` was read from the requested register.
    pub open spec fn fed(self, data: u8) -> Self {
        let register = alarm_register(self.component);
        if self.reading_value {
            AlarmSettingsReader {
                component: (self.component + 1) as u8,
                reading_value: false,
                ..self.with_component(
                    self.component,
                    Some(alarm_value_query(register).answer_spec(data)),
                )
            }
        } else if alarm_enabled_query(register).answer_spec(data) {
            AlarmSettingsReader { reading_value: true, ..self }
        } else {
            AlarmSettingsReader {
                component: (self.component + 1) as u8,
                ..self.with_component(self.component, None)
            }
        }
    }

    /// The settings read.
    pub open spec fn result(self) -> Result<AlarmSettings, Error> {
        settings_from(self.minutes, self.hours, self.day, self.weekday)
    }

    /// A reader that has read nothing yet.
    pub open spec fn start() -> Self {
        AlarmSettingsReader {
            component: 0,
            reading_value: false,
            minutes: None,
            hours: None,
            day: None,
            weekday: None,
        }
    }

    /// A reader that has read nothing yet.
    pub fn new() -> (r: Self)
        ensures
            r == Self::start(),
            r.wf(),
    {
        AlarmSettingsReader {
            component: 0,
            reading_value: false,
            minutes: None,
            hours: None,
            day: None,
            weekday: None,
        }
    }

    /// The register to read next, `None` once all are read.
    pub fn next_register(&self) -> (r: Option<u8>)
        requires
            self.wf(),
        ensures
            r == self.requested(),
    {
        if self.component == 0 {
            Some(Register::MINUTE_ALARM)
        } else if self.component == 1 {
            Some(Register::HOUR_ALARM)
        } else if self.component == 2 {
            Some(Register::DAY_ALARM)
        } else if self.component == 3 {
            Some(Register::WEEKDAY_ALARM)
        } else {
            None
        }
    }

    /// Take in the byte read from the requested register.
    pub fn feed(&mut self, data: u8)
        requires
            old(self).wf(),
            old(self).requested() is Some,
        ensures
            final(self).wf(),
            *final(self) == old(self).fed(data),
    {
        let register = match self.next_register() {
            Some(r) => r,
            None => Register::WEEKDAY_ALARM,
        };
        if self.reading_value {
            let value = get_alarm_setting(register, if register == Register::MINUTE_ALARM {
                0b0111_1111
            } else if register == Register::WEEKDAY_ALARM {
                0b0000_0111
            } else {
                0b0011_1111
            }).answer(data);
            if self.component == 0 {
                self.minutes = Some(value);
            } else if self.component == 1 {
                self.hours = Some(value);
            } else if self.component == 2 {
                self.day = Some(value);
            } else {
                self.weekday = Some(value);
            }
            self.component = self.component + 1;
            self.reading_value = false;
        } else if is_alarm_enabled(register, BitFlags::AE).answer(data) {
            self.reading_value = true;
        } else {
            if self.component == 0 {
                self.minutes = None;
            } else if self.component == 1 {
                self.hours = None;
            } else if self.component == 2 {
                self.day = None;
            } else {
                self.weekday = None;
            }
            self.component = self.component + 1;
        }
    }

    /// The settings read, once all registers are read; a weekday number above 6 is
    /// refused.
    pub fn finish(&self) -> (r: Result<AlarmSettings, Error>)
        requires
            self.wf(),
            self.requested() is None,
        ensures
            r == self.result(),
    {
        let weekday = match self.weekday {
            Some(v) => Some(Weekday::try_from(v)?),
            None => None,
        };
        Ok(AlarmSettings { minutes: self.minutes, hours: self.hours, day: self.day, weekday })
    }
}

/// Get the alarm settings: minutes, hours, day, weekday
pub fn get_alarm_settings() -> (r: AlarmSettingsReader)
    ensures
        r == AlarmSettingsReader::start(),
        r.wf(),
{
    AlarmSettingsReader::new()
}

/// The reader after at most `fuel` reads, each answered with the byte the register file
/// holds in the requested register.
pub open spec fn drive(
    reader: AlarmSettingsReader,
    regs: Map<u8, u8>,
    fuel: nat,
) -> AlarmSettingsReader
    decreases fuel,
{
    if fuel == 0 {
        reader
    } else {
        match reader.requested() {
            Some(register) => drive(reader.fed(regs[register]), regs, (fuel - 1) as nat),
            None => reader,
        }
    }
}

/// Reading the alarm settings from a register file takes at most eight reads and gives
/// the settings the registers hold.
pub proof fn lemma_get_alarm_settings(regs: Map<u8, u8>)
    ensures
        ({
            let end = drive(AlarmSettingsReader::start(), regs, 8);
            &&& end.wf()
            &&& end.requested() is None
            &&& end.result() == alarm_settings_of(regs)
        }),
{
    reveal_with_fuel(drive, 9);
}

/// The byte an alarm register holds after [`set_alarm`]: the BCD value of a given
/// component with its alarm enabled, or the old byte with the alarm disabled.
pub open spec fn component_byte(data: u8, value: Option<u8>) -> u8 {
    match value {
        Some(v) => bcd_byte(v),
        None => data | BitFlags::AE,
    }
}

/// Whether `r` is one of the four alarm registers.
pub open spec fn is_alarm_register(r: u8) -> bool {
    r == Register::MINUTE_ALARM || r == Register::HOUR_ALARM || r == Register::DAY_ALARM || r
        == Register::WEEKDAY_ALARM
}

proof fn lemma_clear_alarm_flag_register(data: u8, r: u8)
    ensures
        register_after(data, clear_alarm_flag_steps(), r) == if r == Register::CTRL_STATUS_2 {
            data & !BitFlags::AF
        } else {
            data
        },
{
    lemma_register_after_single(data, clear_alarm_flag_steps()[0], r);
    assert(clear_alarm_flag_steps() =~= seq![clear_alarm_flag_steps()[0]]);
    lemma_flag_bits(data, BitFlags::AF);
}

proof fn lemma_disable_register(data: u8, register: u8, r: u8)
    ensures
        register_after(data, control_inverted_steps(register, BitFlags::AE, Control::Off), r)
            == if r == register {
            data | BitFlags::AE
        } else {
            data
        },
{
    let steps = control_inverted_steps(register, BitFlags::AE, Control::Off);
    lemma_register_after_single(data, steps[0], r);
    assert(steps =~= seq![steps[0]]);
    lemma_flag_bits(data, BitFlags::AE);
}

/// What a register holds after [`disable_all_alarms`].
pub proof fn lemma_disable_all_register(data: u8, r: u8)
    ensures
        register_after(data, disable_all_alarms_steps(), r) == if is_alarm_register(r) {
            data | BitFlags::AE
        } else {
            data
        },
{
    let a = control_inverted_steps(Register::MINUTE_ALARM, BitFlags::AE, Control::Off);
    let b = control_inverted_steps(Register::HOUR_ALARM, BitFlags::AE, Control::Off);
    let c = control_inverted_steps(Register::DAY_ALARM, BitFlags::AE, Control::Off);
    let d = control_inverted_steps(Register::WEEKDAY_ALARM, BitFlags::AE, Control::Off);
    lemma_register_after_concat(data, a + b + c, d, r);
    lemma_register_after_concat(data, a + b, c, r);
    lemma_register_after_concat(data, a, b, r);
    let x0 = register_after(data, a, r);
    lemma_disable_register(data, Register::MINUTE_ALARM, r);
    lemma_disable_register(x0, Register::HOUR_ALARM, r);
    let x1 = register_after(x0, b, r);
    lemma_disable_register(x1, Register::DAY_ALARM, r);
    let x2 = register_after(x1, c, r);
    lemma_disable_register(x2, Register::WEEKDAY_ALARM, r);
}

proof fn lemma_component_register(data: u8, register: u8, value: Option<u8>, r: u8)
    requires
        value matches Some(v) ==> bcd_byte(v) < 0x80,
    ensures
        register_after(data, component_steps(register, value), r) == if r == register
            && value is Some {
            bcd_byte(value->0)
        } else {
            data
        },
{
    match value {
        Some(v) => {
            let a = alarm_value_steps(register, v);
            let b = control_inverted_steps(register, BitFlags::AE, Control::On);
            lemma_register_after_concat(data, a, b, r);
            lemma_register_after_single(data, a[0], r);
            assert(a =~= seq![a[0]]);
            let x = register_after(data, a, r);
            lemma_register_after_single(x, b[0], r);
            assert(b =~= seq![b[0]]);
            lemma_flag_bits(x, BitFlags::AE);
            let e = bcd_byte(v);
            assert(((data & 0x80) | e) & !0x80u8 == e) by (bit_vector)
                requires
                    e < 0x80,
            ;
        },
        None => {
            assert(register_after(data, Seq::<Step>::empty(), r) == data);
        },
    }
}

/// The byte each register holds after the steps of [`set_alarm`]: the alarm flag is
/// cleared, each alarm register holds its component's BCD value with the alarm enabled
/// or its old byte with the alarm disabled, and every other register keeps its byte.
pub proof fn lemma_set_alarm_registers(regs: Map<u8, u8>, settings: AlarmSettings, r: u8)
    requires
        settings.valid(),
    ensures
        run(regs, set_alarm_steps(settings))[r] == if r == Register::CTRL_STATUS_2 {
            regs[r] & !BitFlags::AF
        } else if r == Register::MINUTE_ALARM {
            component_byte(regs[r], settings.minutes)
        } else if r == Register::HOUR_ALARM {
            component_byte(regs[r], settings.hours)
        } else if r == Register::DAY_ALARM {
            component_byte(regs[r], settings.day)
        } else if r == Register::WEEKDAY_ALARM {
            component_byte(regs[r], weekday_number(settings.weekday))
        } else {
            regs[r]
        },
{
    let p0 = clear_alarm_flag_steps();
    let p1 = disable_all_alarms_steps();
    let pm = component_steps(Register::MINUTE_ALARM, settings.minutes);
    let ph = component_steps(Register::HOUR_ALARM, settings.hours);
    let pd = component_steps(Register::DAY_ALARM, settings.day);
    let pw = component_steps(Register::WEEKDAY_ALARM, weekday_number(settings.weekday));
    lemma_run_register(regs, set_alarm_steps(settings), r);
    let d = regs[r];
    lemma_register_after_concat(d, p0 + p1 + pm + ph + pd, pw, r);
    lemma_register_after_concat(d, p0 + p1 + pm + ph, pd, r);
    lemma_register_after_concat(d, p0 + p1 + pm, ph, r);
    lemma_register_after_concat(d, p0 + p1, pm, r);
    lemma_register_after_concat(d, p0, p1, r);
    if let Some(m) = settings.minutes {
        lemma_decode_encode(m);
    }
    if let Some(h) = settings.hours {
        lemma_decode_encode(h);
    }
    if let Some(x) = settings.day {
        lemma_decode_encode(x);
    }
    if let Some(w) = settings.weekday {
        lemma_decode_encode(w.number());
    }
    lemma_clear_alarm_flag_register(d, r);
    let x0 = register_after(d, p0, r);
    lemma_disable_all_register(x0, r);
    let x1 = register_after(x0, p1, r);
    lemma_component_register(x1, Register::MINUTE_ALARM, settings.minutes, r);
    let x2 = register_after(x1, pm, r);
    lemma_component_register(x2, Register::HOUR_ALARM, settings.hours, r);
    let x3 = register_after(x2, ph, r);
    lemma_component_register(x3, Register::DAY_ALARM, settings.day, r);
    let x4 = register_after(x3, pd, r);
    lemma_component_register(x4, Register::WEEKDAY_ALARM, weekday_number(settings.weekday), r);
}

/// An alarm register that holds [`component_byte`] reads back as the component.
pub proof fn lemma_component_byte_read(regs: Map<u8, u8>, register: u8, old: u8, value: Option<u8>)
    requires
        regs[register] == component_byte(old, value),
        value matches Some(v) ==> bcd_byte(v) <= alarm_value_mask(register) && bcd_value(bcd_byte(v))
            == v,
        alarm_value_mask(register) == 0x7f || alarm_value_mask(register) == 0x3f
            || alarm_value_mask(register) == 0x07,
    ensures
        alarm_component(regs, register) == value,
{
    let m = alarm_value_mask(register);
    match value {
        Some(v) => {
            let b = bcd_byte(v);
            assert(b & 0x80 == 0 && b & m == b) by (bit_vector)
                requires
                    b <= m,
                    m == 0x7f || m == 0x3f || m == 0x07,
            ;
        },
        None => {
            assert((old | 0x80) & 0x80 != 0) by (bit_vector);
        },
    }
}

/// What [`get_alarm_settings`] reads back after [`set_alarm`]: the settings that were
/// set, with the alarm flag cleared.
#[verifier::spinoff_prover]
pub proof fn lemma_set_alarm_round_trip(regs: Map<u8, u8>, settings: AlarmSettings)
    requires
        settings.valid(),
    ensures
        alarm_settings_of(run(regs, set_alarm_steps(settings))) == Ok::<AlarmSettings, Error>(
            settings,
        ),
        !(FlagQuery {
            register: Register::CTRL_STATUS_2,
            mask: BitFlags::AF,
            inverted: false,
        }).read(run(regs, set_alarm_steps(settings))),
{
    let after = run(regs, set_alarm_steps(settings));
    lemma_set_alarm_registers(regs, settings, Register::CTRL_STATUS_2);
    lemma_set_alarm_registers(regs, settings, Register::MINUTE_ALARM);
    lemma_set_alarm_registers(regs, settings, Register::HOUR_ALARM);
    lemma_set_alarm_registers(regs, settings, Register::DAY_ALARM);
    lemma_set_alarm_registers(regs, settings, Register::WEEKDAY_ALARM);
    lemma_flag_bits(regs[Register::CTRL_STATUS_2], BitFlags::AF);
    if let Some(m) = settings.minutes {
        lemma_decode_encode(m);
    }
    if let Some(h) = settings.hours {
        lemma_decode_encode(h);
    }
    if let Some(x) = settings.day {
        lemma_decode_encode(x);
    }
    if let Some(w) = settings.weekday {
        lemma_decode_encode(w.number());
        w.lemma_number_round_trip();
    }
    lemma_component_byte_read(
        after,
        Register::MINUTE_ALARM,
        regs[Register::MINUTE_ALARM],
        settings.minutes,
    );
    lemma_component_byte_read(after, Register::HOUR_ALARM, regs[Register::HOUR_ALARM], settings.hours);
    lemma_component_byte_read(after, Register::DAY_ALARM, regs[Register::DAY_ALARM], settings.day);
    lemma_component_byte_read(
        after,
        Register::WEEKDAY_ALARM,
        regs[Register::WEEKDAY_ALARM],
        weekday_number(settings.weekday),
    );
}

/// Reading the alarm settings after [`set_alarm`] gives the settings that were set.
pub proof fn lemma_get_alarm_settings_after_set_alarm(regs: Map<u8, u8>, settings: AlarmSettings)
    requires
        settings.valid(),
    ensures
        drive(AlarmSettingsReader::start(), run(regs, set_alarm_steps(settings)), 8).result()
            == Ok::<AlarmSettings, Error>(settings),
{
    lemma_set_alarm_round_trip(regs, settings);
    lemma_get_alarm_settings(run(regs, set_alarm_steps(settings)));
}

/// A value that the alarm component of `register` can be set to: minutes 0 to 59,
/// hours 0 to 23, day 1 to 31, weekday 0 to 6.
pub open spec fn alarm_value_in_range(register: u8, value: u8) -> bool {
    ||| register == Register::MINUTE_ALARM && value <= 59
    ||| register == Register::HOUR_ALARM && value <= 23
    ||| register == Register::DAY_ALARM && 1 <= value <= 31
    ||| register == Register::WEEKDAY_ALARM && value <= 6
}

/// Setting an alarm component to a value in range makes its register read back that
/// value, keeps whether its alarm is enabled, and changes no other register.
pub proof fn lemma_set_alarm_value_read_back(regs: Map<u8, u8>, register: u8, value: u8, r: u8)
    requires
        alarm_value_in_range(register, value),
    ensures
        alarm_value_query(register).read(run(regs, alarm_value_steps(register, value))) == value,
        alarm_enabled_query(register).read(run(regs, alarm_value_steps(register, value)))
            == alarm_enabled_query(register).read(regs),
        r != register ==> run(regs, alarm_value_steps(register, value))[r] == regs[r],
{
    let steps = alarm_value_steps(register, value);
    lemma_run_register(regs, steps, register);
    lemma_run_register(regs, steps, r);
    lemma_register_after_single(regs[register], steps[0], register);
    lemma_register_after_single(regs[r], steps[0], r);
    assert(steps =~= seq![steps[0]]);
    lemma_decode_encode(value);
    let d = regs[register];
    let b = bcd_byte(value);
    let m = alarm_value_mask(register);
    assert(((d & 0x80) | b) & 0x80 == d & 0x80 && ((d & 0x80) | b) & m == b) by (bit_vector)
        requires
            b <= m,
            m == 0x7f || m == 0x3f || m == 0x07,
    ;
}

/// Turning an alarm component on or off makes its register read back as enabled exactly
/// when it was turned on, and keeps the component's value.
pub proof fn lemma_control_alarm_read_back(regs: Map<u8, u8>, register: u8, status: Control)
    requires
        is_alarm_register(register),
    ensures
        alarm_enabled_query(register).read(
            run(regs, control_inverted_steps(register, BitFlags::AE, status)),
        ) == (status == Control::On),
        alarm_value_query(register).read(
            run(regs, control_inverted_steps(register, BitFlags::AE, status)),
        ) == alarm_value_query(register).read(regs),
{
    lemma_control_read_back(regs, register, BitFlags::AE, status, register);
    let d = regs[register];
    let e = run(regs, control_inverted_steps(register, BitFlags::AE, status))[register];
    let m = alarm_value_mask(register);
    assert(e & m == d & m) by (bit_vector)
        requires
            e & !0x80u8 == d & !0x80u8,
            m == 0x7f || m == 0x3f || m == 0x07,
    ;
}

/// After [`disable_all_alarms`] no alarm component is enabled.
pub proof fn lemma_disable_all_alarms(regs: Map<u8, u8>, r: u8)
    ensures
        alarm_settings_of(run(regs, disable_all_alarms_steps())) == Ok::<AlarmSettings, Error>(
            AlarmSettings::new_spec(),
        ),
        !is_alarm_register(r) ==> run(regs, disable_all_alarms_steps())[r] == regs[r],
{
    let after = run(regs, disable_all_alarms_steps());
    lemma_run_register(regs, disable_all_alarms_steps(), r);
    lemma_disable_all_register(regs[r], r);
    lemma_run_register(regs, disable_all_alarms_steps(), Register::MINUTE_ALARM);
    lemma_disable_all_register(regs[Register::MINUTE_ALARM], Register::MINUTE_ALARM);
    lemma_run_register(regs, disable_all_alarms_steps(), Register::HOUR_ALARM);
    lemma_disable_all_register(regs[Register::HOUR_ALARM], Register::HOUR_ALARM);
    lemma_run_register(regs, disable_all_alarms_steps(), Register::DAY_ALARM);
    lemma_disable_all_register(regs[Register::DAY_ALARM], Register::DAY_ALARM);
    lemma_run_register(regs, disable_all_alarms_steps(), Register::WEEKDAY_ALARM);
    lemma_disable_all_register(regs[Register::WEEKDAY_ALARM], Register::WEEKDAY_ALARM);
    lemma_component_byte_read(after, Register::MINUTE_ALARM, regs[Register::MINUTE_ALARM], None);
    lemma_component_byte_read(after, Register::HOUR_ALARM, regs[Register::HOUR_ALARM], None);
    lemma_component_byte_read(after, Register::DAY_ALARM, regs[Register::DAY_ALARM], None);
    lemma_component_byte_read(after, Register::WEEKDAY_ALARM, regs[Register::WEEKDAY_ALARM], None);
}

/// The alarm interrupt reads back as enabled exactly when it was turned on, and the
/// alarm flag is clear after clearing it.
pub proof fn lemma_alarm_flags_read_back(regs: Map<u8, u8>, status: Control)
    ensures
        (FlagQuery { register: Register::CTRL_STATUS_2, mask: BitFlags::AIE, inverted: false }).read(
            run(regs, control_steps(Register::CTRL_STATUS_2, BitFlags::AIE, status)),
        ) == (status == Control::On),
        !(FlagQuery { register: Register::CTRL_STATUS_2, mask: BitFlags::AF, inverted: false }).read(
            run(regs, clear_alarm_flag_steps()),
        ),
{
    lemma_control_read_back(regs, Register::CTRL_STATUS_2, BitFlags::AIE, status, 0);
    lemma_flag_steps(regs, Register::CTRL_STATUS_2, BitFlags::AF, false, 0);
    assert(clear_alarm_flag_steps() == flag_steps(Register::CTRL_STATUS_2, BitFlags::AF, false));
}

/// [`disable_all_alarms`] stopped after its first `k` steps (at a bus error) has
/// disabled the first `k` alarm components, in the order minutes, hours, day, weekday,
/// and left the others and every other register as they were; the remaining steps
/// complete it.
pub proof fn lemma_disable_all_alarms_partial(regs: Map<u8, u8>, k: int, r: u8)
    requires
        0 <= k <= 4,
    ensures
        ({
            let after = run(regs, disable_all_alarms_steps().take(k));
            &&& forall|i: u8|
                i < 4 ==> #[trigger] after[alarm_register(i)] == if i < k {
                    regs[alarm_register(i)] | BitFlags::AE
                } else {
                    regs[alarm_register(i)]
                }
            &&& forall|i: u8| i < k ==> !#[trigger] alarm_enabled_query(alarm_register(i)).read(after)
            &&& !is_alarm_register(r) ==> after[r] == regs[r]
            &&& run(after, disable_all_alarms_steps().skip(k)) == run(regs, disable_all_alarms_steps())
        }),
{
    let steps = disable_all_alarms_steps();
    let s0 = Step::SetFlag { register: Register::MINUTE_ALARM, mask: BitFlags::AE };
    let s1 = Step::SetFlag { register: Register::HOUR_ALARM, mask: BitFlags::AE };
    let s2 = Step::SetFlag { register: Register::DAY_ALARM, mask: BitFlags::AE };
    let s3 = Step::SetFlag { register: Register::WEEKDAY_ALARM, mask: BitFlags::AE };
    assert(steps =~= seq![s0, s1, s2, s3]);
    let after = run(regs, steps.take(k));
    lemma_run_prefix(regs, steps, k);
    assert forall|x: u8| true implies #[trigger] after[x] == register_after(
        regs[x],
        steps.take(k),
        x,
    ) by {
        lemma_run_register(regs, steps.take(k), x);
    }
    assert forall|x: u8| true implies #[trigger] register_after(regs[x], steps.take(k), x) == if (
    x == Register::MINUTE_ALARM && 0 < k) || (x == Register::HOUR_ALARM && 1 < k) || (x
        == Register::DAY_ALARM && 2 < k) || (x == Register::WEEKDAY_ALARM && 3 < k) {
        regs[x] | BitFlags::AE
    } else {
        regs[x]
    } by {
        let d = regs[x];
        lemma_flag_bits(d, BitFlags::AE);
        lemma_register_after_single(d, s0, x);
        let y0 = register_after(d, seq![s0], x);
        lemma_flag_bits(y0, BitFlags::AE);
        lemma_register_after_single(y0, s1, x);
        let y1 = register_after(y0, seq![s1], x);
        lemma_flag_bits(y1, BitFlags::AE);
        lemma_register_after_single(y1, s2, x);
        let y2 = register_after(y1, seq![s2], x);
        lemma_flag_bits(y2, BitFlags::AE);
        lemma_register_after_single(y2, s3, x);
        assert(d | 0x80u8 | 0x80u8 == d | 0x80u8) by (bit_vector);
        lemma_register_after_concat(d, seq![s0], seq![s1], x);
        lemma_register_after_concat(d, seq![s0, s1], seq![s2], x);
        lemma_register_after_concat(d, seq![s0, s1, s2], seq![s3], x);
        assert(seq![s0] + seq![s1] =~= seq![s0, s1]);
        assert(seq![s0, s1] + seq![s2] =~= seq![s0, s1, s2]);
        assert(seq![s0, s1, s2] + seq![s3] =~= seq![s0, s1, s2, s3]);
        assert(register_after(d, Seq::<Step>::empty(), x) == d);
        if k == 0 {
            assert(steps.take(k) =~= Seq::<Step>::empty());
        } else if k == 1 {
            assert(steps.take(k) =~= seq![s0]);
        } else if k == 2 {
            assert(steps.take(k) =~= seq![s0, s1]);
        } else if k == 3 {
            assert(steps.take(k) =~= seq![s0, s1, s2]);
        } else {
            assert(steps.take(k) =~= seq![s0, s1, s2, s3]);
        }
    }
    assert forall|i: u8| i < k implies !#[trigger] alarm_enabled_query(alarm_register(i)).read(
        after,
    ) by {
        let d = regs[alarm_register(i)];
        assert((d | 0x80u8) & 0x80u8 != 0) by (bit_vector);
    }
}

/// Setting the same alarm settings a second time leaves the registers as the first time
/// left them.
pub proof fn lemma_set_alarm_idempotent(regs: Map<u8, u8>, settings: AlarmSettings)
    requires
        settings.valid(),
    ensures
        run(run(regs, set_alarm_steps(settings)), set_alarm_steps(settings)) == run(
            regs,
            set_alarm_steps(settings),
        ),
{
    let steps = set_alarm_steps(settings);
    let once = run(regs, steps);
    assert forall|x: u8| #[trigger] run(once, steps)[x] == once[x] by {
        lemma_set_alarm_registers(regs, settings, x);
        lemma_set_alarm_registers(once, settings, x);
        let d = regs[x];
        assert((d & !0x08u8) & !0x08u8 == d & !0x08u8 && (d | 0x80u8) | 0x80u8 == d | 0x80u8)
            by (bit_vector);
    }
    lemma_run_twice(regs, steps);
}

/// Disabling all alarms a second time leaves the registers as the first time left them.
pub proof fn lemma_disable_all_alarms_idempotent(regs: Map<u8, u8>)
    ensures
        run(run(regs, disable_all_alarms_steps()), disable_all_alarms_steps()) == run(
            regs,
            disable_all_alarms_steps(),
        ),
{
    let steps = disable_all_alarms_steps();
    let once = run(regs, steps);
    assert forall|x: u8| #[trigger] run(once, steps)[x] == once[x] by {
        lemma_run_register(regs, steps, x);
        lemma_disable_all_register(regs[x], x);
        lemma_run_register(once, steps, x);
        lemma_disable_all_register(once[x], x);
        let d = regs[x];
        assert((d | 0x80u8) | 0x80u8 == d | 0x80u8) by (bit_vector);
    }
    lemma_run_twice(regs, steps);
}

/// Alarm settings are accepted exactly when the given minutes are at most 59, the given
/// hours at most 23 and the given day between 1 and 31; any component may be absent.
pub proof fn lemma_valid_ranges(settings: AlarmSettings)
    ensures
        settings.valid() <==> ((settings.minutes matches Some(m) ==> m <= 59) && (
        settings.hours matches Some(h) ==> h <= 23) && (settings.day matches Some(d) ==> 1 <= d
            <= 31)),
{
}

/// What [`set_alarm`] writes, digit by digit: each given component's register holds its
/// tens in the high nibble and its units in the low nibble with the alarm enabled (a
/// weekday holds its number, Sunday 0 to Saturday 6); an absent component's register
/// keeps its value with the alarm disabled.
pub proof fn lemma_set_alarm_writes(regs: Map<u8, u8>, settings: AlarmSettings)
    requires
        settings.minutes matches Some(m) ==> m <= 59,
        settings.hours matches Some(h) ==> h <= 23,
        settings.day matches Some(d) ==> 1 <= d <= 31,
    ensures
        ({
            let after = run(regs, set_alarm_steps(settings));
            &&& after[Register::MINUTE_ALARM] == match settings.minutes {
                Some(m) => (m / 10) * 16 + m % 10,
                None => (regs[Register::MINUTE_ALARM] | 0x80) as int,
            }
            &&& after[Register::HOUR_ALARM] == match settings.hours {
                Some(h) => (h / 10) * 16 + h % 10,
                None => (regs[Register::HOUR_ALARM] | 0x80) as int,
            }
            &&& after[Register::DAY_ALARM] == match settings.day {
                Some(d) => (d / 10) * 16 + d % 10,
                None => (regs[Register::DAY_ALARM] | 0x80) as int,
            }
            &&& after[Register::WEEKDAY_ALARM] == match settings.weekday {
                Some(Weekday::Sunday) => 0,
                Some(Weekday::Monday) => 1,
                Some(Weekday::Tuesday) => 2,
                Some(Weekday::Wednesday) => 3,
                Some(Weekday::Thursday) => 4,
                Some(Weekday::Friday) => 5,
                Some(Weekday::Saturday) => 6,
                None => (regs[Register::WEEKDAY_ALARM] | 0x80) as int,
            }
        }),
{
    lemma_valid_ranges(settings);
    lemma_set_alarm_registers(regs, settings, Register::MINUTE_ALARM);
    lemma_set_alarm_registers(regs, settings, Register::HOUR_ALARM);
    lemma_set_alarm_registers(regs, settings, Register::DAY_ALARM);
    lemma_set_alarm_registers(regs, settings, Register::WEEKDAY_ALARM);
    if let Some(m) = settings.minutes {
        lemma_bcd_byte_digits(m);
    }
    if let Some(h) = settings.hours {
        lemma_bcd_byte_digits(h);
    }
    if let Some(d) = settings.day {
        lemma_bcd_byte_digits(d);
    }
    if let Some(w) = settings.weekday {
        lemma_bcd_byte_digits(w.number());
    }
}

/// What reading the alarm settings gives, digit by digit: an alarm register with bit 7
/// clear gives its component with the tens from bits 4 to 6 (bits 4 and 5 for hours and
/// day) and the units from the low nibble; the weekday register gives the weekday
/// numbered by its low three bits (Sunday 0 to Saturday 6), and 7 there is refused; a
/// register with bit 7 set gives no component.
pub proof fn lemma_read_alarm_settings_digits(regs: Map<u8, u8>)
    ensures
        ({
            let m = regs[Register::MINUTE_ALARM];
            let h = regs[Register::HOUR_ALARM];
            let d = regs[Register::DAY_ALARM];
            let w = regs[Register::WEEKDAY_ALARM];
            let result = drive(AlarmSettingsReader::start(), regs, 8).result();
            &&& (w & 0x80 == 0 && w & 7 == 7) ==> result == Err::<AlarmSettings, Error>(
                Error::InvalidInputData,
            )
            &&& !(w & 0x80 == 0 && w & 7 == 7) ==> result == Ok::<AlarmSettings, Error>(
                AlarmSettings {
                    minutes: if m & 0x80 == 0 {
                        Some((10 * ((m >> 4) & 7) + (m & 0xf)) as u8)
                    } else {
                        None
                    },
                    hours: if h & 0x80 == 0 {
                        Some((10 * ((h >> 4) & 3) + (h & 0xf)) as u8)
                    } else {
                        None
                    },
                    day: if d & 0x80 == 0 {
                        Some((10 * ((d >> 4) & 3) + (d & 0xf)) as u8)
                    } else {
                        None
                    },
                    weekday: if w & 0x80 != 0 {
                        None
                    } else if w & 7 == 0 {
                        Some(Weekday::Sunday)
                    } else if w & 7 == 1 {
                        Some(Weekday::Monday)
                    } else if w & 7 == 2 {
                        Some(Weekday::Tuesday)
                    } else if w & 7 == 3 {
                        Some(Weekday::Wednesday)
                    } else if w & 7 == 4 {
                        Some(Weekday::Thursday)
                    } else if w & 7 == 5 {
                        Some(Weekday::Friday)
                    } else {
                        Some(Weekday::Saturday)
                    },
                },
            )
        }),
{
    lemma_get_alarm_settings(regs);
    let m = regs[Register::MINUTE_ALARM];
    let h = regs[Register::HOUR_ALARM];
    let d = regs[Register::DAY_ALARM];
    let w = regs[Register::WEEKDAY_ALARM];
    lemma_bcd_value_digits(m & 0x7f);
    lemma_bcd_value_digits(h & 0x3f);
    lemma_bcd_value_digits(d & 0x3f);
    lemma_bcd_value_digits(w & 0x07);
    assert(((m & 0x7f) >> 4) & 7 == (m >> 4) & 7 && (m & 0x7f) & 0xf == m & 0xf) by (bit_vector);
    assert(((h & 0x3f) >> 4) & 7 == (h >> 4) & 3 && (h & 0x3f) & 0xf == h & 0xf) by (bit_vector);
    assert(((d & 0x3f) >> 4) & 7 == (d >> 4) & 3 && (d & 0x3f) & 0xf == d & 0xf) by (bit_vector);
    assert(((w & 0x07) >> 4) & 7 == 0 && (w & 0x07) & 0xf == w & 7) by (bit_vector);
    assert(alarm_component(regs, Register::MINUTE_ALARM) == if m & 0x80 == 0 {
        Some((10 * ((m >> 4) & 7) + (m & 0xf)) as u8)
    } else {
        None
    });
    assert(alarm_component(regs, Register::HOUR_ALARM) == if h & 0x80 == 0 {
        Some((10 * ((h >> 4) & 3) + (h & 0xf)) as u8)
    } else {
        None
    });
    assert(alarm_component(regs, Register::DAY_ALARM) == if d & 0x80 == 0 {
        Some((10 * ((d >> 4) & 3) + (d & 0xf)) as u8)
    } else {
        None
    });
    assert(alarm_component(regs, Register::WEEKDAY_ALARM) == if w & 0x80 == 0 {
        Some(w & 7)
    } else {
        None
    });
    assert(w & 7 <= 7) by (bit_vector);
}

} // verus!
