use lc3_traits::control::snapshot::Snapshot;
use lc3_traits::peripherals::adc::{Adc, AdcPin, AdcPinArr, AdcReadError, AdcReadErrors, AdcState};
use lc3_traits::peripherals::clock::Clock;
use lc3_traits::peripherals::input::{Input, InputError};
use lc3_traits::peripherals::output::Output;
use lc3_traits::peripherals::pwm::{Pwm, PwmPeriod, PwmPin, PwmState};
use lc3_traits::peripherals::stubs::{
    AdcStub, ClockStub, GpioStub, InputStub, OutputStub, PeripheralsStub, PwmStub, TimersStub,
};
use lc3_traits::peripherals::timers::{Period, TimerArr, TimerId, TimerMode, TimerState, Timers};
use lc3_traits::peripherals::{PeripheralSet, Peripherals};

#[test]
fn pin_indices() {
    assert_eq!(AdcPin::A0.index(), 0);
    assert_eq!(AdcPin::A5.index(), 5);
    assert_eq!(AdcPin::from_index(3), AdcPin::A3);
    assert_eq!(PwmPin::P1.index(), 1);
    assert_eq!(TimerId::from_index(1), TimerId::T1);
}

#[test]
fn pin_arrays() {
    let mut a = AdcPinArr([0u8; 6]);
    a.set(AdcPin::A2, 9);
    assert_eq!(*a.get(AdcPin::A2), 9);
    assert_eq!(a.0, [0, 0, 9, 0, 0, 0]);
    let mut t = TimerArr([TimerMode::SingleShot; 2]);
    t.set(TimerId::T1, TimerMode::Repeated);
    assert_eq!(t.0, [TimerMode::SingleShot, TimerMode::Repeated]);
    assert_eq!(t[TimerId::T1], TimerMode::Repeated);
    t[TimerId::T0] = TimerMode::Repeated;
    assert_eq!(*t, [TimerMode::Repeated, TimerMode::Repeated]);
    let mut p = lc3_traits::peripherals::pwm::PwmPinArr([0u8; 2]);
    p[PwmPin::P1] = 7;
    assert_eq!(p[PwmPin::P1], 7);
    assert_eq!(a[AdcPin::A2], 9);
    assert_eq!(a.len(), 6);
}

#[test]
fn read_errors_are_collected_per_pin() {
    let reads = AdcPinArr([
        Ok(1),
        Err(AdcReadError((AdcPin::A1, AdcState::Disabled))),
        Ok(3),
        Ok(4),
        Err(AdcReadError((AdcPin::A4, AdcState::Enabled))),
        Ok(6),
    ]);
    let errs = AdcReadErrors::try_from(reads).unwrap();
    assert_eq!(
        errs.0 .0,
        [
            None,
            Some((AdcPin::A1, AdcState::Disabled)),
            None,
            None,
            Some((AdcPin::A4, AdcState::Enabled)),
            None
        ]
    );
}

#[test]
fn periods_are_never_zero() {
    assert!(Period::new(0).is_none());
    assert_eq!(Period::new(500).unwrap().get(), 500);
    assert!(PwmPeriod::new(0).is_none());
    assert_eq!(PwmPeriod::new(3).unwrap().get(), 3);
}

#[test]
fn stubs_report_disabled_peripherals() {
    let mut adc = AdcStub;
    assert_eq!(adc.set_state(AdcPin::A0, AdcState::Enabled), Err(()));
    assert_eq!(adc.get_states().0, [AdcState::Disabled; 6]);
    assert_eq!(adc.read(AdcPin::A3), Err(AdcReadError((AdcPin::A3, AdcState::Disabled))));
    let all = adc.read_all();
    assert_eq!(all.0[5], Err(AdcReadError((AdcPin::A5, AdcState::Disabled))));

    let mut pwm = PwmStub;
    assert_eq!(pwm.set_state(PwmPin::P0, PwmState::Enabled(PwmPeriod::new(2).unwrap())), Ok(()));
    assert_eq!(pwm.get_states().0, [PwmState::Disabled; 2]);
    assert_eq!(pwm.get_duty_cycles().0, [0, 0]);

    let mut timers = TimersStub;
    timers.set_mode(TimerId::T0, TimerMode::Repeated);
    assert_eq!(timers.get_modes().0, [TimerMode::SingleShot; 2]);
    assert_eq!(timers.get_states().0, [TimerState::Disabled; 2]);
    assert!(!timers.interrupts_enabled(TimerId::T1));

    let clock = ClockStub;
    assert_eq!(clock.get_milliseconds(), 0);

    let input = InputStub;
    assert_eq!(input.read_data(), Err(InputError));
    assert!(!input.current_data_unread());

    let mut output = OutputStub;
    assert_eq!(output.write(b'a'), Ok(()));
    assert!(!output.interrupts_enabled());
}

#[test]
fn a_peripheral_set_hands_calls_to_its_members() {
    let mut set: PeripheralsStub<'static> = PeripheralSet::new(
        GpioStub,
        AdcStub,
        PwmStub,
        TimersStub,
        ClockStub,
        InputStub,
        OutputStub,
    );
    set.init();
    assert_eq!(Adc::get_state(&set, AdcPin::A1), AdcState::Disabled);
    assert_eq!(Pwm::get_duty_cycle(&set, PwmPin::P1), 0);
    assert_eq!(Timers::get_mode(&set, TimerId::T0), TimerMode::SingleShot);
    assert_eq!(set.get_milliseconds(), 0);
    assert_eq!(*set.get_adc(), AdcStub);
    assert_eq!(*set.get_gpio(), GpioStub);

    let snap = set.record().unwrap();
    assert!(set.restore(snap).is_ok());

    let d: PeripheralsStub<'static> = Default::default();
    assert_eq!(*d.get_clock(), ClockStub);
}
