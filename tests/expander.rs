use pounder::expander::{
    latch_attenuator, power_on_sequence, reset_attenuators, reset_dds, set_ext_clk,
    ExpanderVariant, GpioCommand, PinDirection, PinLevel,
};
use pounder::pins::{Channel, GpioPin};

#[test]
fn mcp_is_tried_first_and_tca_is_the_fallback() {
    assert_eq!(ExpanderVariant::new(true), ExpanderVariant::Mcp23017);
    assert_eq!(ExpanderVariant::new(false), ExpanderVariant::Tca9539);
}

#[test]
fn levels_and_directions_agree_on_both_chips() {
    assert_eq!(PinLevel::Low.to_mcp(), mcp230xx::Level::Low);
    assert_eq!(PinLevel::High.to_mcp(), mcp230xx::Level::High);
    assert_eq!(PinLevel::Low.to_tca(), tca9539::Level::Low);
    assert_eq!(PinLevel::High.to_tca(), tca9539::Level::High);
    assert_eq!(PinDirection::Input.to_mcp(), mcp230xx::Direction::Input);
    assert_eq!(PinDirection::Output.to_mcp(), mcp230xx::Direction::Output);
    assert_eq!(PinDirection::Input.to_tca(), tca9539::Direction::Input);
    assert_eq!(PinDirection::Output.to_tca(), tca9539::Direction::Output);
}

#[test]
fn power_on_sets_level_before_direction() {
    let cmds = power_on_sequence();
    assert_eq!(cmds.len(), 36);
    for (i, pin) in GpioPin::all().iter().enumerate() {
        assert_eq!(cmds[2 * i], GpioCommand::SetLevel(*pin, PinLevel::Low));
        assert_eq!(cmds[2 * i + 1], GpioCommand::SetDirection(*pin, PinDirection::Output));
    }
    assert_eq!(&cmds[32..34], reset_attenuators().as_slice());
    assert_eq!(&cmds[34..36], reset_dds().as_slice());
}

#[test]
fn resets_and_clock_selection() {
    assert_eq!(
        reset_attenuators(),
        vec![
            GpioCommand::SetLevel(GpioPin::AttRstN, PinLevel::Low),
            GpioCommand::SetLevel(GpioPin::AttRstN, PinLevel::High)
        ]
    );
    assert_eq!(
        reset_dds(),
        vec![
            GpioCommand::SetLevel(GpioPin::DdsReset, PinLevel::High),
            GpioCommand::SetLevel(GpioPin::DdsReset, PinLevel::Low)
        ]
    );
    assert_eq!(
        set_ext_clk(true),
        vec![
            GpioCommand::SetLevel(GpioPin::OscEnN, PinLevel::High),
            GpioCommand::SetLevel(GpioPin::ExtClkSel, PinLevel::High)
        ]
    );
    assert_eq!(
        set_ext_clk(false),
        vec![
            GpioCommand::SetLevel(GpioPin::OscEnN, PinLevel::Low),
            GpioCommand::SetLevel(GpioPin::ExtClkSel, PinLevel::Low)
        ]
    );
    assert_eq!(
        latch_attenuator(Channel::In1),
        vec![
            GpioCommand::SetLevel(GpioPin::AttLe2, PinLevel::Low),
            GpioCommand::SetLevel(GpioPin::AttLe2, PinLevel::High)
        ]
    );
}
