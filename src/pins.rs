use vstd::prelude::*;

verus! {

#[verifier::external_type_specification]
pub struct ExMcp23017(mcp230xx::Mcp23017);

#[verifier::external_type_specification]
pub struct ExTca9539Pin(tca9539::Pin);

/// The named GPIO lines of the Pounder board, all routed through the I2C GPIO expander.
#[derive(Debug, Copy, Clone, PartialEq, Eq, Structural)]
pub enum GpioPin {
    Led4Green,
    Led5Red,
    Led6Green,
    Led7Red,
    Led8Green,
    Led9Red,
    DetPwrdown0,
    DetPwrdown1,
    AttLe0,
    AttLe1,
    AttLe2,
    AttLe3,
    DdsReset,
    AttRstN,
    OscEnN,
    ExtClkSel,
}

/// The bit number of an MCP23017 pin: bank A is 0 to 7, bank B is 8 to 15.
pub open spec fn mcp23017_index(p: mcp230xx::Mcp23017) -> nat {
    match p {
        mcp230xx::Mcp23017::A0 => 0,
        mcp230xx::Mcp23017::A1 => 1,
        mcp230xx::Mcp23017::A2 => 2,
        mcp230xx::Mcp23017::A3 => 3,
        mcp230xx::Mcp23017::A4 => 4,
        mcp230xx::Mcp23017::A5 => 5,
        mcp230xx::Mcp23017::A6 => 6,
        mcp230xx::Mcp23017::A7 => 7,
        mcp230xx::Mcp23017::B0 => 8,
        mcp230xx::Mcp23017::B1 => 9,
        mcp230xx::Mcp23017::B2 => 10,
        mcp230xx::Mcp23017::B3 => 11,
        mcp230xx::Mcp23017::B4 => 12,
        mcp230xx::Mcp23017::B5 => 13,
        mcp230xx::Mcp23017::B6 => 14,
        mcp230xx::Mcp23017::B7 => 15,
    }
}

/// The bit number of a TCA9539 pin: port 0 is 0 to 7, port 1 is 8 to 15.
pub open spec fn tca9539_index(p: tca9539::Pin) -> nat {
    match p {
        tca9539::Pin::P00 => 0,
        tca9539::Pin::P01 => 1,
        tca9539::Pin::P02 => 2,
        tca9539::Pin::P03 => 3,
        tca9539::Pin::P04 => 4,
        tca9539::Pin::P05 => 5,
        tca9539::Pin::P06 => 6,
        tca9539::Pin::P07 => 7,
        tca9539::Pin::P10 => 8,
        tca9539::Pin::P11 => 9,
        tca9539::Pin::P12 => 10,
        tca9539::Pin::P13 => 11,
        tca9539::Pin::P14 => 12,
        tca9539::Pin::P15 => 13,
        tca9539::Pin::P16 => 14,
        tca9539::Pin::P17 => 15,
    }
}

impl GpioPin {
    /// The position of the pin in the board's pin list.
    pub open spec fn index(self) -> nat {
        match self {
            GpioPin::Led4Green => 0,
            GpioPin::Led5Red => 1,
            GpioPin::Led6Green => 2,
            GpioPin::Led7Red => 3,
            GpioPin::Led8Green => 4,
            GpioPin::Led9Red => 5,
            GpioPin::DetPwrdown0 => 6,
            GpioPin::DetPwrdown1 => 7,
            GpioPin::AttLe0 => 8,
            GpioPin::AttLe1 => 9,
            GpioPin::AttLe2 => 10,
            GpioPin::AttLe3 => 11,
            GpioPin::DdsReset => 12,
            GpioPin::AttRstN => 13,
            GpioPin::OscEnN => 14,
            GpioPin::ExtClkSel => 15,
        }
    }

    /// The pin with the given position in the board's pin list.
    pub open spec fn from_index(i: nat) -> GpioPin {
        if i == 0 { GpioPin::Led4Green }
        else if i == 1 { GpioPin::Led5Red }
        else if i == 2 { GpioPin::Led6Green }
        else if i == 3 { GpioPin::Led7Red }
        else if i == 4 { GpioPin::Led8Green }
        else if i == 5 { GpioPin::Led9Red }
        else if i == 6 { GpioPin::DetPwrdown0 }
        else if i == 7 { GpioPin::DetPwrdown1 }
        else if i == 8 { GpioPin::AttLe0 }
        else if i == 9 { GpioPin::AttLe1 }
        else if i == 10 { GpioPin::AttLe2 }
        else if i == 11 { GpioPin::AttLe3 }
        else if i == 12 { GpioPin::DdsReset }
        else if i == 13 { GpioPin::AttRstN }
        else if i == 14 { GpioPin::OscEnN }
        else { GpioPin::ExtClkSel }
    }

    /// The MCP23017 pin that carries this line.
    pub open spec fn mcp23017_pin(self) -> mcp230xx::Mcp23017 {
        match self {
            GpioPin::Led4Green => mcp230xx::Mcp23017::A0,
            GpioPin::Led5Red => mcp230xx::Mcp23017::A1,
            GpioPin::Led6Green => mcp230xx::Mcp23017::A2,
            GpioPin::Led7Red => mcp230xx::Mcp23017::A3,
            GpioPin::Led8Green => mcp230xx::Mcp23017::A4,
            GpioPin::Led9Red => mcp230xx::Mcp23017::A5,
            GpioPin::DetPwrdown0 => mcp230xx::Mcp23017::A6,
            GpioPin::DetPwrdown1 => mcp230xx::Mcp23017::A7,
            GpioPin::AttLe0 => mcp230xx::Mcp23017::B0,
            GpioPin::AttLe1 => mcp230xx::Mcp23017::B1,
            GpioPin::AttLe2 => mcp230xx::Mcp23017::B2,
            GpioPin::AttLe3 => mcp230xx::Mcp23017::B3,
            GpioPin::DdsReset => mcp230xx::Mcp23017::B4,
            GpioPin::AttRstN => mcp230xx::Mcp23017::B5,
            GpioPin::OscEnN => mcp230xx::Mcp23017::B6,
            GpioPin::ExtClkSel => mcp230xx::Mcp23017::B7,
        }
    }

    /// The TCA9539 pin that carries this line.
    pub open spec fn tca9539_pin(self) -> tca9539::Pin {
        match self {
            GpioPin::Led4Green => tca9539::Pin::P00,
            GpioPin::Led5Red => tca9539::Pin::P01,
            GpioPin::Led6Green => tca9539::Pin::P02,
            GpioPin::Led7Red => tca9539::Pin::P03,
            GpioPin::Led8Green => tca9539::Pin::P04,
            GpioPin::Led9Red => tca9539::Pin::P05,
            GpioPin::DetPwrdown0 => tca9539::Pin::P06,
            GpioPin::DetPwrdown1 => tca9539::Pin::P07,
            GpioPin::AttLe0 => tca9539::Pin::P10,
            GpioPin::AttLe1 => tca9539::Pin::P11,
            GpioPin::AttLe2 => tca9539::Pin::P12,
            GpioPin::AttLe3 => tca9539::Pin::P13,
            GpioPin::DdsReset => tca9539::Pin::P14,
            GpioPin::AttRstN => tca9539::Pin::P15,
            GpioPin::OscEnN => tca9539::Pin::P16,
            GpioPin::ExtClkSel => tca9539::Pin::P17,
        }
    }

    /// Every pin of the board, in the order of the pin list.
    pub fn all() -> (r: [GpioPin; 16])
        ensures
            forall|i: int| 0 <= i < 16 ==> (#[trigger] r@[i]).index() == i,
    {
        [
            GpioPin::Led4Green,
            GpioPin::Led5Red,
            GpioPin::Led6Green,
            GpioPin::Led7Red,
            GpioPin::Led8Green,
            GpioPin::Led9Red,
            GpioPin::DetPwrdown0,
            GpioPin::DetPwrdown1,
            GpioPin::AttLe0,
            GpioPin::AttLe1,
            GpioPin::AttLe2,
            GpioPin::AttLe3,
            GpioPin::DdsReset,
            GpioPin::AttRstN,
            GpioPin::OscEnN,
            GpioPin::ExtClkSel,
        ]
    }
}

impl From<GpioPin> for mcp230xx::Mcp23017 {
    fn from(x: GpioPin) -> Self {
        match x {
            GpioPin::Led4Green => mcp230xx::Mcp23017::A0,
            GpioPin::Led5Red => mcp230xx::Mcp23017::A1,
            GpioPin::Led6Green => mcp230xx::Mcp23017::A2,
            GpioPin::Led7Red => mcp230xx::Mcp23017::A3,
            GpioPin::Led8Green => mcp230xx::Mcp23017::A4,
            GpioPin::Led9Red => mcp230xx::Mcp23017::A5,
            GpioPin::DetPwrdown0 => mcp230xx::Mcp23017::A6,
            GpioPin::DetPwrdown1 => mcp230xx::Mcp23017::A7,
            GpioPin::AttLe0 => mcp230xx::Mcp23017::B0,
            GpioPin::AttLe1 => mcp230xx::Mcp23017::B1,
            GpioPin::AttLe2 => mcp230xx::Mcp23017::B2,
            GpioPin::AttLe3 => mcp230xx::Mcp23017::B3,
            GpioPin::DdsReset => mcp230xx::Mcp23017::B4,
            GpioPin::AttRstN => mcp230xx::Mcp23017::B5,
            GpioPin::OscEnN => mcp230xx::Mcp23017::B6,
            GpioPin::ExtClkSel => mcp230xx::Mcp23017::B7,
        }
    }
}

impl vstd::std_specs::convert::FromSpecImpl<GpioPin> for mcp230xx::Mcp23017 {
    open spec fn obeys_from_spec() -> bool {
        true
    }

    open spec fn from_spec(x: GpioPin) -> Self {
        x.mcp23017_pin()
    }
}

impl From<GpioPin> for tca9539::Pin {
    fn from(x: GpioPin) -> Self {
        match x {
            GpioPin::Led4Green => tca9539::Pin::P00,
            GpioPin::Led5Red => tca9539::Pin::P01,
            GpioPin::Led6Green => tca9539::Pin::P02,
            GpioPin::Led7Red => tca9539::Pin::P03,
            GpioPin::Led8Green => tca9539::Pin::P04,
            GpioPin::Led9Red => tca9539::Pin::P05,
            GpioPin::DetPwrdown0 => tca9539::Pin::P06,
            GpioPin::DetPwrdown1 => tca9539::Pin::P07,
            GpioPin::AttLe0 => tca9539::Pin::P10,
            GpioPin::AttLe1 => tca9539::Pin::P11,
            GpioPin::AttLe2 => tca9539::Pin::P12,
            GpioPin::AttLe3 => tca9539::Pin::P13,
            GpioPin::DdsReset => tca9539::Pin::P14,
            GpioPin::AttRstN => tca9539::Pin::P15,
            GpioPin::OscEnN => tca9539::Pin::P16,
            GpioPin::ExtClkSel => tca9539::Pin::P17,
        }
    }
}

impl vstd::std_specs::convert::FromSpecImpl<GpioPin> for tca9539::Pin {
    open spec fn obeys_from_spec() -> bool {
        true
    }

    open spec fn from_spec(x: GpioPin) -> Self {
        x.tca9539_pin()
    }
}

/// Each pin lands on the MCP23017 and on the TCA9539 at the bit number of its place in
/// the pin list; so both maps are bijections onto the sixteen expander pins, and the
/// two chips agree pin for pin.
pub proof fn lemma_expander_maps_bijective()
    ensures
        forall|p: GpioPin| #[trigger] mcp23017_index(p.mcp23017_pin()) == p.index(),
        forall|p: GpioPin| #[trigger] tca9539_index(p.tca9539_pin()) == p.index(),
        forall|p: GpioPin, q: GpioPin|
            p.mcp23017_pin() == q.mcp23017_pin() ==> p == q,
        forall|p: GpioPin, q: GpioPin|
            p.tca9539_pin() == q.tca9539_pin() ==> p == q,
        forall|m: mcp230xx::Mcp23017|
            (#[trigger] GpioPin::from_index(mcp23017_index(m))).mcp23017_pin() == m,
        forall|t: tca9539::Pin|
            (#[trigger] GpioPin::from_index(tca9539_index(t))).tca9539_pin() == t,
{
    assert forall|p: GpioPin, q: GpioPin|
        p.mcp23017_pin() == q.mcp23017_pin() implies p == q by {
        assert(mcp23017_index(p.mcp23017_pin()) == p.index());
        assert(mcp23017_index(q.mcp23017_pin()) == q.index());
        assert(GpioPin::from_index(p.index()) == p);
        assert(GpioPin::from_index(q.index()) == q);
    }
    assert forall|p: GpioPin, q: GpioPin|
        p.tca9539_pin() == q.tca9539_pin() implies p == q by {
        assert(tca9539_index(p.tca9539_pin()) == p.index());
        assert(tca9539_index(q.tca9539_pin()) == q.index());
        assert(GpioPin::from_index(p.index()) == p);
        assert(GpioPin::from_index(q.index()) == q);
    }
}

/// The four RF paths of the board. The place of a channel in this list is its byte in the
/// attenuator shift register and the number of its attenuator latch line.
#[derive(Debug, Copy, Clone, PartialEq, Eq, Structural)]
pub enum Channel {
    In0,
    Out0,
    In1,
    Out1,
}

impl Channel {
    /// The byte of this channel in the attenuator shift register.
    pub open spec fn index(self) -> nat {
        match self {
            Channel::In0 => 0,
            Channel::Out0 => 1,
            Channel::In1 => 2,
            Channel::Out1 => 3,
        }
    }

    /// The latch-enable line of this channel's attenuator.
    pub open spec fn latch_pin(self) -> GpioPin {
        match self {
            Channel::In0 => GpioPin::AttLe0,
            Channel::Out0 => GpioPin::AttLe1,
            Channel::In1 => GpioPin::AttLe2,
            Channel::Out1 => GpioPin::AttLe3,
        }
    }

    /// The DDS output that drives this channel: inputs use outputs one and three,
    /// outputs use zero and two.
    pub open spec fn dds_output(self) -> nat {
        match self {
            Channel::In0 => 1,
            Channel::Out0 => 0,
            Channel::In1 => 3,
            Channel::Out1 => 2,
        }
    }

    /// Whether this channel is an RF input (the ones with a power detector).
    pub open spec fn is_input(self) -> bool {
        self == Channel::In0 || self == Channel::In1
    }

    /// The byte of this channel in the attenuator shift register.
    pub fn shift_register_index(self) -> (r: usize)
        ensures
            r == self.index(),
    {
        match self {
            Channel::In0 => 0,
            Channel::Out0 => 1,
            Channel::In1 => 2,
            Channel::Out1 => 3,
        }
    }

    /// The one-hot mask of the DDS output that drives this channel.
    pub fn dds_channel_mask(self) -> (r: u8)
        ensures
            r as nat == vstd::arithmetic::power2::pow2(self.dds_output()),
    {
        proof {
            vstd::arithmetic::power2::lemma2_to64();
        }
        match self {
            Channel::In0 => 2,
            Channel::Out0 => 1,
            Channel::In1 => 8,
            Channel::Out1 => 4,
        }
    }
}

impl From<Channel> for GpioPin {
    fn from(x: Channel) -> Self {
        match x {
            Channel::In0 => GpioPin::AttLe0,
            Channel::Out0 => GpioPin::AttLe1,
            Channel::In1 => GpioPin::AttLe2,
            Channel::Out1 => GpioPin::AttLe3,
        }
    }
}

impl vstd::std_specs::convert::FromSpecImpl<Channel> for GpioPin {
    open spec fn obeys_from_spec() -> bool {
        true
    }

    open spec fn from_spec(x: Channel) -> Self {
        x.latch_pin()
    }
}

/// The latch line of channel `k` is `AttLe<k>`, the `k`-th of the four latch lines, so
/// the channel, its latch line and its shift-register byte agree, and no two channels
/// share a latch line.
pub proof fn lemma_latch_pins_consistent()
    ensures
        forall|c: Channel| #[trigger] c.latch_pin().index() == 8 + c.index(),
        forall|c: Channel| #![auto] c.index() < 4,
        forall|c: Channel, d: Channel| c.latch_pin() == d.latch_pin() ==> c == d,
        forall|c: Channel, d: Channel| c.index() == d.index() ==> c == d,
{
}

} // verus!
