use pcf8563::access::{FlagQuery, Step, ValueQuery};
use pcf8563::alarm::{self, AlarmSettings, AlarmSettingsReader};
use pcf8563::bcd::{decode_bcd, encode_bcd};
use pcf8563::control;
use pcf8563::registers::{BitFlags, Register, DEVICE_ADDRESS};
use pcf8563::timer::{self, InterruptOutput, TimerFreq};
use pcf8563::types::{Control, Error, Weekday};

/// A register file standing in for the clock, recording the bus traffic.
struct Device {
    regs: [u8; 16],
    reads: Vec<u8>,
    writes: Vec<(u8, u8)>,
}

impl Device {
    fn new(regs: [u8; 16]) -> Self {
        Device { regs, reads: Vec::new(), writes: Vec::new() }
    }

    fn read(&mut self, register: u8) -> u8 {
        self.reads.push(register);
        self.regs[register as usize]
    }

    fn write(&mut self, register: u8, value: u8) {
        self.writes.push((register, value));
        self.regs[register as usize] = value;
    }

    fn perform(&mut self, steps: &[Step]) {
        for step in steps {
            let data = if step.reads() { self.read(step.register()) } else { 0 };
            if let Some(value) = step.next_write(data) {
                self.write(step.register(), value);
            }
        }
    }

    fn flag(&mut self, query: FlagQuery) -> bool {
        let data = self.read(query.register);
        query.answer(data)
    }

    fn value(&mut self, query: ValueQuery) -> u8 {
        let data = self.read(query.register);
        query.answer(data)
    }

    fn alarm_settings(&mut self) -> Result<AlarmSettings, Error> {
        let mut reader = alarm::get_alarm_settings();
        while let Some(register) = reader.next_register() {
            let data = self.read(register);
            reader.feed(data);
        }
        reader.finish()
    }
}

fn busy_device() -> Device {
    Device::new([
        0xff, 0xff, 0xd9, 0x59, 0x23, 0x31, 0x06, 0x12, 0x99, 0x45, 0x12, 0x05, 0x03, 0x83, 0x81, 0x7f,
    ])
}

#[test]
fn decode_bcd_values() {
    assert_eq!(decode_bcd(0x00), 0);
    assert_eq!(decode_bcd(0x59), 59);
    assert_eq!(decode_bcd(0x23), 23);
    assert_eq!(decode_bcd(0x79), 79);
    // bit 7 is ignored
    assert_eq!(decode_bcd(0x80 | 0x45), 45);
    assert_eq!(decode_bcd(0xff), 85);
}

#[test]
fn encode_bcd_values() {
    assert_eq!(encode_bcd(0), 0x00);
    assert_eq!(encode_bcd(7), 0x07);
    assert_eq!(encode_bcd(59), 0x59);
    assert_eq!(encode_bcd(99), 0x99);
    // the tens keep the low eight bits of the shift
    assert_eq!(encode_bcd(160), 0x00);
    assert_eq!(encode_bcd(255), 149);
}

#[test]
fn bcd_round_trip() {
    for value in 0..=79u8 {
        assert_eq!(decode_bcd(encode_bcd(value)), value);
    }
}

#[test]
fn weekday_numbers() {
    let days = [
        Weekday::Sunday,
        Weekday::Monday,
        Weekday::Tuesday,
        Weekday::Wednesday,
        Weekday::Thursday,
        Weekday::Friday,
        Weekday::Saturday,
    ];
    for (i, day) in days.iter().enumerate() {
        assert_eq!(day.value(), i as u8);
        assert_eq!(Weekday::try_from(i as u8), Ok(*day));
    }
    assert_eq!(Weekday::try_from(7), Err(Error::InvalidInputData));
    assert_eq!(Weekday::try_from(255), Err(Error::InvalidInputData));
}

#[test]
fn timer_freq_bits() {
    assert_eq!(TimerFreq::Timer_4096Hz.bits(), 0b00);
    assert_eq!(TimerFreq::Timer_64Hz.bits(), 0b01);
    assert_eq!(TimerFreq::Timer_1Hz.bits(), 0b10);
    assert_eq!(TimerFreq::Timer_1_60Hz.bits(), 0b11);
}

#[test]
fn alarm_settings_builders() {
    let s = AlarmSettings::new();
    assert_eq!(s, AlarmSettings { minutes: None, hours: None, day: None, weekday: None });
    let s = s.with_minutes(30).with_hours(7).with_day(15).with_weekday(Weekday::Friday);
    assert_eq!(
        s,
        AlarmSettings {
            minutes: Some(30),
            hours: Some(7),
            day: Some(15),
            weekday: Some(Weekday::Friday)
        }
    );
    let s = s.with_minutes(45);
    assert_eq!(s.minutes, Some(45));
    assert_eq!(s.hours, Some(7));
}

#[test]
fn set_alarm_components_refuse_out_of_range() {
    assert_eq!(alarm::set_alarm_minutes(60), Err(Error::InvalidInputData));
    assert_eq!(alarm::set_alarm_hours(24), Err(Error::InvalidInputData));
    assert_eq!(alarm::set_alarm_day(0), Err(Error::InvalidInputData));
    assert_eq!(alarm::set_alarm_day(32), Err(Error::InvalidInputData));
    assert!(alarm::set_alarm_minutes(59).is_ok());
    assert!(alarm::set_alarm_hours(23).is_ok());
    assert!(alarm::set_alarm_day(1).is_ok());
    assert!(alarm::set_alarm_day(31).is_ok());
}

#[test]
fn set_alarm_minutes_keeps_enable_bit() {
    let steps = alarm::set_alarm_minutes(42).unwrap();
    assert_eq!(
        steps,
        vec![Step::Update { register: Register::MINUTE_ALARM, keep: BitFlags::AE, set: 0x42 }]
    );
    // alarm disabled before: stays disabled
    let mut dev = Device::new([0x80; 16]);
    dev.perform(&steps);
    assert_eq!(dev.regs[Register::MINUTE_ALARM as usize], 0xc2);
    assert_eq!(dev.value(alarm::get_alarm_minutes()), 42);
    assert!(!dev.flag(alarm::is_alarm_minutes_enabled()));
    // alarm enabled before: stays enabled
    let mut dev = Device::new([0x00; 16]);
    dev.perform(&steps);
    assert_eq!(dev.value(alarm::get_alarm_minutes()), 42);
    assert!(dev.flag(alarm::is_alarm_minutes_enabled()));
}

#[test]
fn set_alarm_each_component_reads_back() {
    let mut dev = busy_device();
    dev.perform(&alarm::set_alarm_hours(17).unwrap());
    dev.perform(&alarm::set_alarm_day(28).unwrap());
    dev.perform(&alarm::set_alarm_weekday(Weekday::Saturday));
    assert_eq!(dev.value(alarm::get_alarm_hours()), 17);
    assert_eq!(dev.value(alarm::get_alarm_day()), 28);
    assert_eq!(dev.value(alarm::get_alarm_weekday()), 6);
}

#[test]
fn control_alarm_components_read_back() {
    let mut dev = busy_device();
    dev.perform(&alarm::control_alarm_minutes(Control::On));
    dev.perform(&alarm::control_alarm_hours(Control::Off));
    dev.perform(&alarm::control_alarm_day(Control::On));
    dev.perform(&alarm::control_alarm_weekday(Control::Off));
    assert!(dev.flag(alarm::is_alarm_minutes_enabled()));
    assert!(!dev.flag(alarm::is_alarm_hours_enabled()));
    assert!(dev.flag(alarm::is_alarm_day_enabled()));
    assert!(!dev.flag(alarm::is_alarm_weekday_enabled()));
    // the values stay
    assert_eq!(dev.value(alarm::get_alarm_minutes()), 45);
    assert_eq!(dev.value(alarm::get_alarm_hours()), 12);
}

#[test]
fn control_flag_writes_only_when_needed() {
    // the minute alarm is already enabled: the step reads and does not write
    let mut dev = Device::new([0x00; 16]);
    dev.perform(&alarm::control_alarm_minutes(Control::On));
    assert_eq!(dev.reads, vec![Register::MINUTE_ALARM]);
    assert!(dev.writes.is_empty());
    dev.perform(&alarm::control_alarm_minutes(Control::Off));
    assert_eq!(dev.writes, vec![(Register::MINUTE_ALARM, 0x80)]);
}

#[test]
fn alarm_interrupt_and_flag() {
    let mut dev = busy_device();
    assert!(dev.flag(alarm::get_alarm_flag()));
    dev.perform(&alarm::clear_alarm_flag());
    assert!(!dev.flag(alarm::get_alarm_flag()));
    assert_eq!(dev.regs[Register::CTRL_STATUS_2 as usize], 0xf7);
    dev.perform(&alarm::control_alarm_interrupt(Control::Off));
    assert!(!dev.flag(alarm::is_alarm_interrupt_enabled()));
    dev.perform(&alarm::control_alarm_interrupt(Control::On));
    assert!(dev.flag(alarm::is_alarm_interrupt_enabled()));
}

#[test]
fn disable_all_alarms_disables_each_component() {
    let mut dev = Device::new([0x00; 16]);
    dev.perform(&alarm::disable_all_alarms());
    assert_eq!(dev.alarm_settings(), Ok(AlarmSettings::new()));
    assert_eq!(
        dev.writes,
        vec![
            (Register::MINUTE_ALARM, 0x80),
            (Register::HOUR_ALARM, 0x80),
            (Register::DAY_ALARM, 0x80),
            (Register::WEEKDAY_ALARM, 0x80)
        ]
    );
}

#[test]
fn set_alarm_then_get_alarm_settings() {
    let settings = AlarmSettings::new().with_minutes(30).with_day(17).with_weekday(Weekday::Monday);
    let mut dev = busy_device();
    dev.perform(&alarm::set_alarm(&settings).unwrap());
    assert_eq!(dev.alarm_settings(), Ok(settings));
    assert!(!dev.flag(alarm::get_alarm_flag()));
    // the hour alarm is disabled, its value unchanged
    assert_eq!(dev.regs[Register::HOUR_ALARM as usize], 0x92);
    let all = AlarmSettings::new().with_minutes(0).with_hours(23).with_day(31).with_weekday(Weekday::Sunday);
    dev.perform(&alarm::set_alarm(&all).unwrap());
    assert_eq!(dev.alarm_settings(), Ok(all));
    dev.perform(&alarm::set_alarm(&AlarmSettings::new()).unwrap());
    assert_eq!(dev.alarm_settings(), Ok(AlarmSettings::new()));
}

#[test]
fn set_alarm_refuses_invalid_settings() {
    let bad = [
        AlarmSettings::new().with_minutes(60),
        AlarmSettings::new().with_hours(24),
        AlarmSettings::new().with_day(0),
        AlarmSettings::new().with_day(32),
        AlarmSettings::new().with_minutes(10).with_hours(99),
    ];
    for settings in bad.iter() {
        assert_eq!(alarm::set_alarm(settings), Err(Error::InvalidInputData));
    }
}

#[test]
fn set_alarm_steps_in_order() {
    let settings = AlarmSettings::new().with_hours(8);
    let steps = alarm::set_alarm(&settings).unwrap();
    assert_eq!(
        steps,
        vec![
            Step::ClearFlag { register: Register::CTRL_STATUS_2, mask: BitFlags::AF },
            Step::SetFlag { register: Register::MINUTE_ALARM, mask: BitFlags::AE },
            Step::SetFlag { register: Register::HOUR_ALARM, mask: BitFlags::AE },
            Step::SetFlag { register: Register::DAY_ALARM, mask: BitFlags::AE },
            Step::SetFlag { register: Register::WEEKDAY_ALARM, mask: BitFlags::AE },
            Step::Update { register: Register::HOUR_ALARM, keep: BitFlags::AE, set: 0x08 },
            Step::ClearFlag { register: Register::HOUR_ALARM, mask: BitFlags::AE },
        ]
    );
}

#[test]
fn get_alarm_settings_reads_each_register() {
    // minutes 45 and weekday 3 enabled, hours and day disabled
    let mut regs = [0u8; 16];
    regs[Register::MINUTE_ALARM as usize] = 0x45;
    regs[Register::HOUR_ALARM as usize] = 0x92;
    regs[Register::DAY_ALARM as usize] = 0x85;
    regs[Register::WEEKDAY_ALARM as usize] = 0x03;
    let mut dev = Device::new(regs);
    assert_eq!(
        dev.alarm_settings(),
        Ok(AlarmSettings::new().with_minutes(45).with_weekday(Weekday::Wednesday))
    );
    assert_eq!(
        dev.reads,
        vec![
            Register::MINUTE_ALARM,
            Register::MINUTE_ALARM,
            Register::HOUR_ALARM,
            Register::DAY_ALARM,
            Register::WEEKDAY_ALARM,
            Register::WEEKDAY_ALARM
        ]
    );
}

#[test]
fn get_alarm_settings_refuses_bad_weekday() {
    let mut regs = [0x80u8; 16];
    regs[Register::WEEKDAY_ALARM as usize] = 0x07;
    let mut dev = Device::new(regs);
    assert_eq!(dev.alarm_settings(), Err(Error::InvalidInputData));
}

#[test]
fn alarm_settings_reader_steps() {
    let mut reader = AlarmSettingsReader::new();
    assert_eq!(reader.next_register(), Some(Register::MINUTE_ALARM));
    reader.feed(0x00);
    assert_eq!(reader.next_register(), Some(Register::MINUTE_ALARM));
    reader.feed(0x15);
    assert_eq!(reader.minutes, Some(15));
    assert_eq!(reader.next_register(), Some(Register::HOUR_ALARM));
    reader.feed(0x80);
    assert_eq!(reader.hours, None);
    assert_eq!(reader.next_register(), Some(Register::DAY_ALARM));
    reader.feed(0x80);
    assert_eq!(reader.next_register(), Some(Register::WEEKDAY_ALARM));
    reader.feed(0x80);
    assert_eq!(reader.next_register(), None);
    assert_eq!(reader.finish(), Ok(AlarmSettings::new().with_minutes(15)));
}

#[test]
fn control_register_flags_read_back() {
    let mut dev = Device::new([0u8; 16]);
    dev.perform(&control::control_ext_clk_test_mode(Control::On));
    assert!(dev.flag(control::is_ext_clk_mode_enabled()));
    assert_eq!(dev.regs[Register::CTRL_STATUS_1 as usize], BitFlags::TEST1);
    dev.perform(&control::control_ext_clk_test_mode(Control::Off));
    assert!(!dev.flag(control::is_ext_clk_mode_enabled()));
    dev.perform(&control::control_power_on_reset_override(Control::On));
    assert!(dev.flag(control::is_power_on_reset_override_enabled()));
    assert_eq!(dev.regs[Register::CTRL_STATUS_1 as usize], BitFlags::TESTC);
    dev.perform(&control::control_power_on_reset_override(Control::Off));
    assert!(!dev.flag(control::is_power_on_reset_override_enabled()));
}

#[test]
fn clock_start_and_stop() {
    let mut dev = Device::new([0u8; 16]);
    assert!(dev.flag(control::is_clock_running()));
    dev.perform(&control::control_clock(Control::Off));
    assert!(!dev.flag(control::is_clock_running()));
    assert_eq!(dev.regs[Register::CTRL_STATUS_1 as usize], BitFlags::STOP);
    dev.perform(&control::control_clock(Control::On));
    assert!(dev.flag(control::is_clock_running()));
    assert_eq!(dev.regs[Register::CTRL_STATUS_1 as usize], 0);
}

#[test]
fn voltage_low_flag() {
    let mut dev = busy_device();
    assert!(dev.flag(control::get_voltage_low_flag()));
    dev.perform(&control::clear_voltage_low_flag());
    assert!(!dev.flag(control::get_voltage_low_flag()));
    assert_eq!(dev.regs[Register::VL_SECONDS as usize], 0x59);
}

#[test]
fn rtc_init_resets_control() {
    let mut dev = busy_device();
    dev.perform(&control::rtc_init());
    assert_eq!(dev.regs[Register::CTRL_STATUS_1 as usize], 0);
    assert_eq!(dev.regs[Register::CTRL_STATUS_2 as usize], 0);
    assert!(!dev.flag(control::get_voltage_low_flag()));
    assert_eq!(dev.alarm_settings(), Ok(AlarmSettings::new()));
    // the timer is disabled, its frequency 1/60 Hz
    assert_eq!(dev.regs[Register::TIMER_CTRL as usize], 0x03);
    assert!(!dev.flag(timer::is_timer_enabled()));
    // date, time and timer value stay
    assert_eq!(dev.regs[Register::MINUTES as usize], 0x59);
    assert_eq!(dev.regs[Register::TIMER as usize], 0x7f);
    assert_eq!(dev.regs[Register::CLKOUT_CTRL as usize], 0x83);
}

#[test]
fn timer_value_and_frequency() {
    let mut dev = busy_device();
    dev.perform(&timer::set_timer(200));
    assert_eq!(dev.writes, vec![(Register::TIMER, 200)]);
    assert!(dev.reads.is_empty());
    assert_eq!(dev.value(timer::get_timer()), 200);
    dev.perform(&timer::set_timer_frequency(TimerFreq::Timer_64Hz));
    assert_eq!(dev.regs[Register::TIMER_CTRL as usize], 0x81);
    assert!(dev.flag(timer::is_timer_enabled()));
    dev.perform(&timer::control_timer(Control::Off));
    assert!(!dev.flag(timer::is_timer_enabled()));
    dev.perform(&timer::set_timer_frequency(TimerFreq::Timer_1Hz));
    assert_eq!(dev.regs[Register::TIMER_CTRL as usize], 0x02);
    dev.perform(&timer::control_timer(Control::On));
    assert_eq!(dev.regs[Register::TIMER_CTRL as usize], 0x82);
}

#[test]
fn timer_interrupt_controls() {
    let mut dev = Device::new([0u8; 16]);
    dev.perform(&timer::control_timer_interrupt(Control::On));
    assert!(dev.flag(timer::is_timer_interrupt_enabled()));
    dev.perform(&timer::control_timer_interrupt(Control::Off));
    assert!(!dev.flag(timer::is_timer_interrupt_enabled()));
    dev.perform(&timer::timer_interrupt_output(InterruptOutput::Pulsating));
    assert_eq!(dev.regs[Register::CTRL_STATUS_2 as usize], BitFlags::TI_TP);
    dev.perform(&timer::timer_interrupt_output(InterruptOutput::Continuous));
    assert_eq!(dev.regs[Register::CTRL_STATUS_2 as usize], 0);
    dev.regs[Register::CTRL_STATUS_2 as usize] = BitFlags::TF;
    assert!(dev.flag(timer::get_timer_flag()));
    dev.perform(&timer::clear_timer_flag());
    assert!(!dev.flag(timer::get_timer_flag()));
}

#[test]
fn device_address() {
    assert_eq!(DEVICE_ADDRESS, 0x51);
}

#[test]
fn disable_all_alarms_stopped_part_way() {
    // a bus error after the first two steps: minutes and hours are disabled, the rest stay
    let mut dev = Device::new([0x00; 16]);
    let steps = alarm::disable_all_alarms();
    dev.perform(&steps[..2]);
    assert!(!dev.flag(alarm::is_alarm_minutes_enabled()));
    assert!(!dev.flag(alarm::is_alarm_hours_enabled()));
    assert!(dev.flag(alarm::is_alarm_day_enabled()));
    assert!(dev.flag(alarm::is_alarm_weekday_enabled()));
    // performing the remaining steps completes it
    dev.perform(&steps[2..]);
    assert_eq!(dev.alarm_settings(), Ok(AlarmSettings::new()));
}

#[test]
fn rtc_init_disables_running_timer() {
    let mut dev = Device::new([0u8; 16]);
    dev.perform(&timer::control_timer(Control::On));
    assert!(dev.flag(timer::is_timer_enabled()));
    dev.perform(&control::rtc_init());
    assert!(!dev.flag(timer::is_timer_enabled()));
    assert_eq!(dev.regs[Register::TIMER_CTRL as usize], TimerFreq::Timer_1_60Hz.bits());
}

#[test]
fn repeated_operations_change_nothing_more() {
    let settings = AlarmSettings::new().with_minutes(5).with_weekday(Weekday::Tuesday);
    let mut dev = busy_device();
    dev.perform(&alarm::set_alarm(&settings).unwrap());
    let once = dev.regs;
    dev.perform(&alarm::set_alarm(&settings).unwrap());
    assert_eq!(dev.regs, once);

    let mut dev = busy_device();
    dev.perform(&alarm::disable_all_alarms());
    let once = dev.regs;
    dev.writes.clear();
    dev.perform(&alarm::disable_all_alarms());
    assert_eq!(dev.regs, once);
    assert!(dev.writes.is_empty());

    for output in [InterruptOutput::Pulsating, InterruptOutput::Continuous] {
        let mut dev = busy_device();
        dev.perform(&timer::timer_interrupt_output(output));
        let once = dev.regs;
        dev.perform(&timer::timer_interrupt_output(output));
        assert_eq!(dev.regs, once);
    }
}
