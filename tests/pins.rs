use pounder::pins::{Channel, GpioPin};

#[test]
fn every_pin_maps_to_a_distinct_mcp23017_pin() {
    let mut seen = [false; 16];
    for (i, pin) in GpioPin::all().iter().enumerate() {
        let m: mcp230xx::Mcp23017 = (*pin).into();
        let n = m as usize;
        assert_eq!(n, i);
        assert!(!seen[n]);
        seen[n] = true;
    }
    assert!(seen.iter().all(|s| *s));
}

#[test]
fn every_pin_maps_to_a_distinct_tca9539_pin() {
    let mut seen = [false; 16];
    for (i, pin) in GpioPin::all().iter().enumerate() {
        let t: tca9539::Pin = (*pin).into();
        let n = t as usize;
        assert_eq!(n, i);
        assert!(!seen[n]);
        seen[n] = true;
    }
    assert!(seen.iter().all(|s| *s));
}

#[test]
fn both_expanders_agree_pin_for_pin() {
    for pin in GpioPin::all() {
        let m: mcp230xx::Mcp23017 = pin.into();
        let t: tca9539::Pin = pin.into();
        assert_eq!(m as usize, t as usize);
    }
    let m: mcp230xx::Mcp23017 = GpioPin::ExtClkSel.into();
    assert_eq!(m, mcp230xx::Mcp23017::B7);
    let t: tca9539::Pin = GpioPin::AttLe0.into();
    assert_eq!(t, tca9539::Pin::P10);
}

#[test]
fn latch_pins_match_channels() {
    let channels = [Channel::In0, Channel::Out0, Channel::In1, Channel::Out1];
    let latches = [GpioPin::AttLe0, GpioPin::AttLe1, GpioPin::AttLe2, GpioPin::AttLe3];
    for (k, ch) in channels.iter().enumerate() {
        assert_eq!(ch.shift_register_index(), k);
        let pin: GpioPin = (*ch).into();
        assert_eq!(pin, latches[k]);
        for (j, other) in channels.iter().enumerate() {
            let other_pin: GpioPin = (*other).into();
            assert_eq!(pin == other_pin, j == k);
        }
    }
}

#[test]
fn dds_masks_of_channels() {
    assert_eq!(Channel::In0.dds_channel_mask(), 0b0010);
    assert_eq!(Channel::In1.dds_channel_mask(), 0b1000);
    assert_eq!(Channel::Out0.dds_channel_mask(), 0b0001);
    assert_eq!(Channel::Out1.dds_channel_mask(), 0b0100);
}
