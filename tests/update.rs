use pounder::analog::input_adc_index;
use pounder::error::Error;
use pounder::expander::{GpioCommand, PinLevel};
use pounder::pins::{Channel, GpioPin};
use pounder::telemetry::TelemetryBuffer;
use pounder::update::{
    apply_clock, clock_changed, plan_channels, update_order, update_slot, ClockConfig, Profile, UpdateAction,
};

fn profile(ftw: u32) -> Profile {
    Profile { frequency_tuning_word: ftw, phase_offset: 0, amplitude_control: 0x1000 }
}

#[test]
fn default_clock() {
    let c = ClockConfig::default();
    assert_eq!(c.multiplier, 5);
    assert_eq!(c.reference_clock, 100_000_000);
    assert!(!c.external_clock);
}

#[test]
fn valid_changed_clock_is_applied() {
    let mut current = ClockConfig::default();
    let requested = ClockConfig { multiplier: 4, reference_clock: 100_000_000, external_clock: true };
    assert!(clock_changed(&current, &requested));
    let cmds = apply_clock(&mut current, requested, true).unwrap();
    assert_eq!(current, requested);
    assert_eq!(
        cmds,
        vec![
            GpioCommand::SetLevel(GpioPin::OscEnN, PinLevel::High),
            GpioCommand::SetLevel(GpioPin::ExtClkSel, PinLevel::High)
        ]
    );
    assert!(!clock_changed(&current, &requested));
}

#[test]
fn invalid_clock_is_kept_out() {
    let mut current = ClockConfig::default();
    let requested = ClockConfig { multiplier: 30, reference_clock: 100_000_000, external_clock: false };
    assert!(apply_clock(&mut current, requested, false).is_none());
    assert_eq!(current, ClockConfig::default());
}

#[test]
fn update_visits_inputs_then_outputs() {
    assert_eq!(update_order(), [Channel::In0, Channel::In1, Channel::Out0, Channel::Out1]);
    for (k, ch) in update_order().iter().enumerate() {
        assert_eq!(update_slot(*ch), k);
    }
}

#[test]
fn one_invalid_channel_leaves_the_others_applied() {
    let plan = plan_channels([Some(profile(1)), None, Some(profile(3)), Some(profile(4))]);
    let errors: Vec<_> = plan.iter().filter(|a| matches!(a, UpdateAction::LogProfileError(_))).collect();
    assert_eq!(errors, vec![&UpdateAction::LogProfileError(Channel::In1)]);
    assert_eq!(
        plan,
        vec![
            UpdateAction::WriteProfile { channel: Channel::In0, mask: 0b0010, profile: profile(1) },
            UpdateAction::SetAttenuation(Channel::In0),
            UpdateAction::LogProfileError(Channel::In1),
            UpdateAction::WriteProfile { channel: Channel::Out0, mask: 0b0001, profile: profile(3) },
            UpdateAction::SetAttenuation(Channel::Out0),
            UpdateAction::WriteProfile { channel: Channel::Out1, mask: 0b0100, profile: profile(4) },
            UpdateAction::SetAttenuation(Channel::Out1),
        ]
    );
}

#[test]
fn all_channels_invalid() {
    let plan = plan_channels([None, None, None, None]);
    assert_eq!(plan.len(), 4);
    assert!(plan.iter().all(|a| matches!(a, UpdateAction::LogProfileError(_))));
}

#[test]
fn power_is_measured_on_inputs_only() {
    assert_eq!(input_adc_index(Channel::In0), Ok(0));
    assert_eq!(input_adc_index(Channel::In1), Ok(1));
    assert_eq!(input_adc_index(Channel::Out0), Err(Error::InvalidChannel));
    assert_eq!(input_adc_index(Channel::Out1), Err(Error::InvalidChannel));
}

#[test]
fn telemetry_buffer_starts_empty() {
    let b = TelemetryBuffer::default();
    assert_eq!(b.adcs, [0, 0]);
    assert_eq!(b.dacs, [0, 0]);
    assert_eq!(b.digital_inputs, [false, false]);
}
