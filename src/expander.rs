use vstd::prelude::*;
use crate::pins::{Channel, GpioPin};

verus! {

#[verifier::external_type_specification]
pub struct ExMcpLevel(mcp230xx::Level);

#[verifier::external_type_specification]
pub struct ExMcpDirection(mcp230xx::Direction);

#[verifier::external_type_specification]
pub struct ExTcaLevel(tca9539::Level);

#[verifier::external_type_specification]
pub struct ExTcaDirection(tca9539::Direction);

/// The electrical level of a GPIO line.
#[derive(Debug, Copy, Clone, PartialEq, Eq, Structural)]
pub enum PinLevel {
    Low,
    High,
}

/// Whether a GPIO line is driven or read.
#[derive(Debug, Copy, Clone, PartialEq, Eq, Structural)]
pub enum PinDirection {
    Input,
    Output,
}

/// One operation on the GPIO expander.
#[derive(Debug, Copy, Clone, PartialEq, Eq, Structural)]
pub enum GpioCommand {
    SetLevel(GpioPin, PinLevel),
    SetDirection(GpioPin, PinDirection),
}

/// The two expander chips that a board may carry. Which one is fitted is found once, at
/// start-up, and never changes.
#[derive(Debug, Copy, Clone, PartialEq, Eq, Structural)]
pub enum ExpanderVariant {
    /// The MCP23017, fitted on newer boards and tried first.
    Mcp23017,
    /// The TCA9539, fitted on older boards.
    Tca9539,
}

/// The value of the output-latch bit that a level writes on the MCP23017.
pub open spec fn mcp_level_bit(l: mcp230xx::Level) -> bool {
    l == mcp230xx::Level::High
}

/// The value of the output-port bit that a level writes on the TCA9539.
pub open spec fn tca_level_bit(l: tca9539::Level) -> bool {
    l == tca9539::Level::High
}

/// The value of the direction bit on the MCP23017 (set means input).
pub open spec fn mcp_direction_bit(d: mcp230xx::Direction) -> bool {
    d == mcp230xx::Direction::Input
}

/// The value of the configuration bit on the TCA9539 (set means input).
pub open spec fn tca_direction_bit(d: tca9539::Direction) -> bool {
    d == tca9539::Direction::Input
}

impl PinLevel {
    pub open spec fn is_high(self) -> bool {
        self == PinLevel::High
    }

    pub open spec fn mcp(self) -> mcp230xx::Level {
        match self {
            PinLevel::Low => mcp230xx::Level::Low,
            PinLevel::High => mcp230xx::Level::High,
        }
    }

    pub open spec fn tca(self) -> tca9539::Level {
        match self {
            PinLevel::Low => tca9539::Level::Low,
            PinLevel::High => tca9539::Level::High,
        }
    }

    /// This level in the MCP23017 driver's terms.
    pub fn to_mcp(self) -> (r: mcp230xx::Level)
        ensures
            r == self.mcp(),
            mcp_level_bit(r) == self.is_high(),
    {
        match self {
            PinLevel::Low => mcp230xx::Level::Low,
            PinLevel::High => mcp230xx::Level::High,
        }
    }

    /// This level in the TCA9539 driver's terms.
    pub fn to_tca(self) -> (r: tca9539::Level)
        ensures
            r == self.tca(),
            tca_level_bit(r) == self.is_high(),
    {
        match self {
            PinLevel::Low => tca9539::Level::Low,
            PinLevel::High => tca9539::Level::High,
        }
    }
}

impl PinDirection {
    pub open spec fn is_input(self) -> bool {
        self == PinDirection::Input
    }

    pub open spec fn mcp(self) -> mcp230xx::Direction {
        match self {
            PinDirection::Input => mcp230xx::Direction::Input,
            PinDirection::Output => mcp230xx::Direction::Output,
        }
    }

    pub open spec fn tca(self) -> tca9539::Direction {
        match self {
            PinDirection::Input => tca9539::Direction::Input,
            PinDirection::Output => tca9539::Direction::Output,
        }
    }

    /// This direction in the MCP23017 driver's terms.
    pub fn to_mcp(self) -> (r: mcp230xx::Direction)
        ensures
            r == self.mcp(),
            mcp_direction_bit(r) == self.is_input(),
    {
        match self {
            PinDirection::Input => mcp230xx::Direction::Input,
            PinDirection::Output => mcp230xx::Direction::Output,
        }
    }

    /// This direction in the TCA9539 driver's terms.
    pub fn to_tca(self) -> (r: tca9539::Direction)
        ensures
            r == self.tca(),
            tca_direction_bit(r) == self.is_input(),
    {
        match self {
            PinDirection::Input => tca9539::Direction::Input,
            PinDirection::Output => tca9539::Direction::Output,
        }
    }
}

impl ExpanderVariant {
    /// The variant to drive, given whether one register read from the MCP23017 at its
    /// default address succeeded: the MCP23017 if it answered, the TCA9539 otherwise. A
    /// failed probe is no failure. The choice is made once; commands never probe again.
    pub fn new(mcp_probe_ok: bool) -> (r: ExpanderVariant)
        ensures
            r == (if mcp_probe_ok {
                ExpanderVariant::Mcp23017
            } else {
                ExpanderVariant::Tca9539
            }),
    {
        if mcp_probe_ok {
            ExpanderVariant::Mcp23017
        } else {
            ExpanderVariant::Tca9539
        }
    }
}

/// The power-on commands for one line: its level first, then its direction, so that
/// switching it to an output gives no glitch.
pub open spec fn power_on_commands(p: GpioPin) -> Seq<GpioCommand> {
    seq![GpioCommand::SetLevel(p, PinLevel::Low), GpioCommand::SetDirection(p, PinDirection::Output)]
}

/// The board's power-on GPIO state: every line, in list order, driven low as an output;
/// then the attenuators are pulsed out of reset (active low) and the DDS is reset (active
/// high).
pub open spec fn power_on_sequence_spec() -> Seq<GpioCommand> {
    Seq::new(32, |i: int| power_on_commands(GpioPin::from_index((i / 2) as nat))[i % 2]) + seq![
        GpioCommand::SetLevel(GpioPin::AttRstN, PinLevel::Low),
        GpioCommand::SetLevel(GpioPin::AttRstN, PinLevel::High),
        GpioCommand::SetLevel(GpioPin::DdsReset, PinLevel::High),
        GpioCommand::SetLevel(GpioPin::DdsReset, PinLevel::Low),
    ]
}

/// The commands that bring the board's GPIO lines to their power-on state.
pub fn power_on_sequence() -> (r: Vec<GpioCommand>)
    ensures
        r@ == power_on_sequence_spec(),
{
    let pins = GpioPin::all();
    let mut r: Vec<GpioCommand> = Vec::new();
    let mut i: usize = 0;
    while i < 16
        invariant
            i <= 16,
            forall|j: int| 0 <= j < 16 ==> (#[trigger] pins@[j]).index() == j,
            r@ =~= Seq::new(
                2 * i as nat,
                |k: int| power_on_commands(GpioPin::from_index((k / 2) as nat))[k % 2],
            ),
        decreases 16 - i,
    {
        let p = pins[i];
        assert(GpioPin::from_index(p.index()) == p);
        r.push(GpioCommand::SetLevel(p, PinLevel::Low));
        r.push(GpioCommand::SetDirection(p, PinDirection::Output));
        i = i + 1;
        assert(r@ =~= Seq::new(
            2 * i as nat,
            |k: int| power_on_commands(GpioPin::from_index((k / 2) as nat))[k % 2],
        ));
    }
    r.append(&mut reset_attenuators());
    r.append(&mut reset_dds());
    assert(r@ =~= power_on_sequence_spec());
    r
}

/// Pulse the attenuators' reset line: it is active low.
pub fn reset_attenuators() -> (r: Vec<GpioCommand>)
    ensures
        r@ == seq![
            GpioCommand::SetLevel(GpioPin::AttRstN, PinLevel::Low),
            GpioCommand::SetLevel(GpioPin::AttRstN, PinLevel::High),
        ],
{
    vec![
        GpioCommand::SetLevel(GpioPin::AttRstN, PinLevel::Low),
        GpioCommand::SetLevel(GpioPin::AttRstN, PinLevel::High),
    ]
}

/// Pulse the DDS reset line high; the I2C transactions last long enough for a valid reset.
pub fn reset_dds() -> (r: Vec<GpioCommand>)
    ensures
        r@ == seq![
            GpioCommand::SetLevel(GpioPin::DdsReset, PinLevel::High),
            GpioCommand::SetLevel(GpioPin::DdsReset, PinLevel::Low),
        ],
{
    vec![
        GpioCommand::SetLevel(GpioPin::DdsReset, PinLevel::High),
        GpioCommand::SetLevel(GpioPin::DdsReset, PinLevel::Low),
    ]
}

/// Select the external reference clock (or the on-board oscillator): the oscillator
/// enable is active low, so both lines take the same level.
pub fn set_ext_clk(enabled: bool) -> (r: Vec<GpioCommand>)
    ensures
        r@ == seq![
            GpioCommand::SetLevel(GpioPin::OscEnN, if enabled { PinLevel::High } else { PinLevel::Low }),
            GpioCommand::SetLevel(GpioPin::ExtClkSel, if enabled { PinLevel::High } else { PinLevel::Low }),
        ],
{
    let level = if enabled {
        PinLevel::High
    } else {
        PinLevel::Low
    };
    vec![GpioCommand::SetLevel(GpioPin::OscEnN, level), GpioCommand::SetLevel(GpioPin::ExtClkSel, level)]
}

/// Latch a channel's attenuator on the rising edge of its latch line: drive it low first,
/// since its level beforehand is not known.
pub fn latch_attenuator(channel: Channel) -> (r: Vec<GpioCommand>)
    ensures
        r@ == seq![
            GpioCommand::SetLevel(channel.latch_pin(), PinLevel::Low),
            GpioCommand::SetLevel(channel.latch_pin(), PinLevel::High),
        ],
{
    let pin = GpioPin::from(channel);
    vec![GpioCommand::SetLevel(pin, PinLevel::Low), GpioCommand::SetLevel(pin, PinLevel::High)]
}

/// What a command does on the bus of a variant: the bit number it addresses, whether it
/// writes the direction register (else the output register), and the bit value it writes.
pub open spec fn bus_effect(v: ExpanderVariant, c: GpioCommand) -> (nat, bool, bool) {
    match (v, c) {
        (ExpanderVariant::Mcp23017, GpioCommand::SetLevel(p, l)) => (
            crate::pins::mcp23017_index(p.mcp23017_pin()),
            false,
            mcp_level_bit(l.mcp()),
        ),
        (ExpanderVariant::Mcp23017, GpioCommand::SetDirection(p, d)) => (
            crate::pins::mcp23017_index(p.mcp23017_pin()),
            true,
            mcp_direction_bit(d.mcp()),
        ),
        (ExpanderVariant::Tca9539, GpioCommand::SetLevel(p, l)) => (
            crate::pins::tca9539_index(p.tca9539_pin()),
            false,
            tca_level_bit(l.tca()),
        ),
        (ExpanderVariant::Tca9539, GpioCommand::SetDirection(p, d)) => (
            crate::pins::tca9539_index(p.tca9539_pin()),
            true,
            tca_direction_bit(d.tca()),
        ),
    }
}

/// Whichever chip was selected, every command addresses the same bit number of the same
/// register with the same value: the two variants behave alike.
pub proof fn lemma_variants_agree(c: GpioCommand)
    ensures
        bus_effect(ExpanderVariant::Mcp23017, c) == bus_effect(ExpanderVariant::Tca9539, c),
{
}

} // verus!
