use vstd::prelude::*;
use crate::error::Error;
use crate::expander::PinLevel;
use crate::pins::{Channel, GpioPin};

verus! {

/// The largest attenuation code: 31.5 dB in steps of 0.5 dB.
pub const MAX_ATTENUATION_CODE: u8 = 63;

/// The shift-register byte that programs an attenuation code: the code sits in the upper
/// six bits, and the attenuator reads its input active low.
pub open spec fn register_byte(code: u8) -> u8 {
    !((code << 2u8) as u8)
}

/// The attenuation code that a shift-register byte holds.
pub open spec fn code_of_register(b: u8) -> u8 {
    ((!b) as u8) >> 2u8
}

/// The four register bytes after a write of `code` to `channel`, where `read` is what the
/// chain held before: only the channel's own byte changes.
pub open spec fn written_registers(read: Seq<u8>, channel: Channel, code: u8) -> Seq<u8> {
    read.update(channel.index() as int, register_byte(code))
}

/// A code is encoded without loss, and every register byte decodes to a valid code.
pub proof fn lemma_register_round_trip(code: u8, b: u8)
    requires
        code <= MAX_ATTENUATION_CODE,
    ensures
        code_of_register(register_byte(code)) == code,
        code_of_register(b) <= MAX_ATTENUATION_CODE,
{
    assert(((!((!((code << 2u8) as u8)) as u8)) as u8) >> 2u8 == code) by (bit_vector)
        requires
            code <= 63u8,
    ;
    assert((((!b) as u8) >> 2u8) <= 63u8) by (bit_vector);
}

/// The byte that writes `code`.
pub fn attenuation_register(code: u8) -> (r: u8)
    ensures
        r == register_byte(code),
{
    !(code << 2u8)
}

/// The code that the register byte `b` holds.
pub fn attenuation_code_of(b: u8) -> (r: u8)
    ensures
        r == code_of_register(b),
{
    (!b) >> 2u8
}

/// What the attenuator protocol asks the board to do next.
#[derive(Debug, Copy, Clone, PartialEq, Eq)]
pub enum AttenuatorStep {
    /// Shift these four bytes through the attenuator chain and report the bytes shifted out.
    Transfer([u8; 4]),
    /// Drive a GPIO line to a level.
    SetLevel(GpioPin, PinLevel),
    /// The operation is over, with the channel's attenuation code or an error.
    Finished(Result<u8, Error>),
}

/// What the board reports after a step.
#[derive(Debug, Copy, Clone, PartialEq, Eq)]
pub enum AttenuatorEvent {
    /// The transfer finished with the bytes shifted out, or the SPI bus failed.
    Transferred(Option<[u8; 4]>),
    /// The GPIO line was driven, or the I2C bus failed.
    LevelSet(bool),
}

/// Where an attenuator operation stands.
#[derive(Debug, Copy, Clone, PartialEq, Eq, Structural)]
pub enum AttenuatorPhase {
    /// A write waits for the read of all four registers.
    ReadBeforeWrite,
    /// A write waits for the write-back of all four registers.
    WriteBack,
    /// A write waits for its latch line to go low.
    LatchLow,
    /// A write waits for its latch line to go high.
    LatchHigh,
    /// A read waits for its first transfer.
    ReadFirst,
    /// A read waits for its second transfer, which restores the staging registers.
    ReadSecond,
    /// The operation has finished.
    Done,
}

/// An attenuator write or read in progress on one channel.
///
/// A write reads all four registers first and writes them back with only the channel's byte
/// changed, so that the staging and output registers of the other channels stay in step;
/// then it latches the channel, low before high. A read shifts the registers out and then
/// back in with the same buffer, and decodes what the second transfer returns.
#[derive(Debug, Copy, Clone, PartialEq, Eq, Structural)]
pub struct AttenuatorSequence {
    channel: Channel,
    code: u8,
    phase: AttenuatorPhase,
}

/// Whether `step` shifts four zero bytes through the chain.
pub open spec fn is_zero_transfer(step: AttenuatorStep) -> bool {
    match step {
        AttenuatorStep::Transfer(b) => b@ == seq![0u8, 0u8, 0u8, 0u8],
        _ => false,
    }
}

/// Whether `phase` and `step` are the next phase and step of `s` after the board reports
/// `ev`.
pub open spec fn is_next(
    s: AttenuatorSequence,
    ev: AttenuatorEvent,
    phase: AttenuatorPhase,
    step: AttenuatorStep,
) -> bool {
    match ev {
        AttenuatorEvent::Transferred(None) => phase == AttenuatorPhase::Done && step
            == AttenuatorStep::Finished(Err(Error::Spi)),
        AttenuatorEvent::LevelSet(false) => phase == AttenuatorPhase::Done && step
            == AttenuatorStep::Finished(Err(Error::I2c)),
        AttenuatorEvent::Transferred(Some(buf)) => match s.phase() {
            AttenuatorPhase::ReadBeforeWrite => phase == AttenuatorPhase::WriteBack && match step {
                AttenuatorStep::Transfer(w) => w@ == written_registers(buf@, s.channel(), s.code()),
                _ => false,
            },
            AttenuatorPhase::WriteBack => phase == AttenuatorPhase::LatchLow && step
                == AttenuatorStep::SetLevel(s.channel().latch_pin(), PinLevel::Low),
            AttenuatorPhase::ReadFirst => phase == AttenuatorPhase::ReadSecond && step
                == AttenuatorStep::Transfer(buf),
            AttenuatorPhase::ReadSecond => phase == AttenuatorPhase::Done && step
                == AttenuatorStep::Finished(Ok(code_of_register(buf@[s.channel().index() as int]))),
            _ => phase == AttenuatorPhase::Done && step == AttenuatorStep::Finished(
                Err(Error::InvalidState),
            ),
        },
        AttenuatorEvent::LevelSet(true) => match s.phase() {
            AttenuatorPhase::LatchLow => phase == AttenuatorPhase::LatchHigh && step
                == AttenuatorStep::SetLevel(s.channel().latch_pin(), PinLevel::High),
            AttenuatorPhase::LatchHigh => phase == AttenuatorPhase::Done && step
                == AttenuatorStep::Finished(Ok(s.code())),
            _ => phase == AttenuatorPhase::Done && step == AttenuatorStep::Finished(
                Err(Error::InvalidState),
            ),
        },
    }
}

impl AttenuatorSequence {
    /// The channel the operation works on.
    pub closed spec fn channel(&self) -> Channel {
        self.channel
    }

    /// The attenuation code that a write programs.
    pub closed spec fn code(&self) -> u8 {
        self.code
    }

    /// Where the operation stands.
    pub closed spec fn phase(&self) -> AttenuatorPhase {
        self.phase
    }

    /// A write that has not finished carries a code in range.
    pub closed spec fn wf(&self) -> bool {
        match self.phase {
            AttenuatorPhase::ReadBeforeWrite | AttenuatorPhase::WriteBack
            | AttenuatorPhase::LatchLow | AttenuatorPhase::LatchHigh => self.code
                <= MAX_ATTENUATION_CODE,
            _ => true,
        }
    }

    /// Start setting `channel` to attenuation `code` (in 0.5 dB steps). A code above
    /// 31.5 dB fails at once, before any bus transaction.
    pub fn set_attenuation(channel: Channel, code: u8) -> (r: (AttenuatorSequence, AttenuatorStep))
        ensures
            r.0.wf(),
            r.0.channel() == channel,
            r.0.code() == code,
            code > MAX_ATTENUATION_CODE ==> r.0.phase() == AttenuatorPhase::Done && r.1
                == AttenuatorStep::Finished(Err(Error::Bounds)),
            code <= MAX_ATTENUATION_CODE ==> r.0.phase() == AttenuatorPhase::ReadBeforeWrite
                && is_zero_transfer(r.1),
    {
        if code > MAX_ATTENUATION_CODE {
            (
                AttenuatorSequence { channel, code, phase: AttenuatorPhase::Done },
                AttenuatorStep::Finished(Err(Error::Bounds)),
            )
        } else {
            let zeros = [0u8; 4];
            assert(zeros@ =~= seq![0u8, 0u8, 0u8, 0u8]);
            (
                AttenuatorSequence { channel, code, phase: AttenuatorPhase::ReadBeforeWrite },
                AttenuatorStep::Transfer(zeros),
            )
        }
    }

    /// Start reading the attenuation code of `channel`.
    pub fn get_attenuation(channel: Channel) -> (r: (AttenuatorSequence, AttenuatorStep))
        ensures
            r.0.wf(),
            r.0.channel() == channel,
            r.0.phase() == AttenuatorPhase::ReadFirst,
            is_zero_transfer(r.1),
    {
        let zeros = [0u8; 4];
        assert(zeros@ =~= seq![0u8, 0u8, 0u8, 0u8]);
        (
            AttenuatorSequence { channel, code: 0, phase: AttenuatorPhase::ReadFirst },
            AttenuatorStep::Transfer(zeros),
        )
    }

    /// Advance the operation with what the board reports about the last step, and return
    /// the step to do next. Any bus failure ends the operation with that failure.
    pub fn next(&mut self, ev: AttenuatorEvent) -> (r: AttenuatorStep)
        requires
            old(self).wf(),
        ensures
            final(self).wf(),
            r matches AttenuatorStep::Finished(Ok(c)) ==> c <= MAX_ATTENUATION_CODE,
            final(self).channel() == old(self).channel(),
            final(self).code() == old(self).code(),
            is_next(*old(self), ev, final(self).phase(), r),
    {
        match ev {
            AttenuatorEvent::Transferred(None) => {
                self.phase = AttenuatorPhase::Done;
                AttenuatorStep::Finished(Err(Error::Spi))
            },
            AttenuatorEvent::LevelSet(false) => {
                self.phase = AttenuatorPhase::Done;
                AttenuatorStep::Finished(Err(Error::I2c))
            },
            AttenuatorEvent::Transferred(Some(buf)) => match self.phase {
                AttenuatorPhase::ReadBeforeWrite => {
                    let mut w = buf;
                    w[self.channel.shift_register_index()] = attenuation_register(self.code);
                    assert(w@ =~= written_registers(buf@, self.channel, self.code));
                    self.phase = AttenuatorPhase::WriteBack;
                    AttenuatorStep::Transfer(w)
                },
                AttenuatorPhase::WriteBack => {
                    self.phase = AttenuatorPhase::LatchLow;
                    AttenuatorStep::SetLevel(GpioPin::from(self.channel), PinLevel::Low)
                },
                AttenuatorPhase::ReadFirst => {
                    self.phase = AttenuatorPhase::ReadSecond;
                    AttenuatorStep::Transfer(buf)
                },
                AttenuatorPhase::ReadSecond => {
                    proof {
                        lemma_register_round_trip(0, buf@[self.channel.index() as int]);
                    }
                    self.phase = AttenuatorPhase::Done;
                    AttenuatorStep::Finished(
                        Ok(attenuation_code_of(buf[self.channel.shift_register_index()])),
                    )
                },
                _ => {
                    self.phase = AttenuatorPhase::Done;
                    AttenuatorStep::Finished(Err(Error::InvalidState))
                },
            },
            AttenuatorEvent::LevelSet(true) => match self.phase {
                AttenuatorPhase::LatchLow => {
                    self.phase = AttenuatorPhase::LatchHigh;
                    AttenuatorStep::SetLevel(GpioPin::from(self.channel), PinLevel::High)
                },
                AttenuatorPhase::LatchHigh => {
                    self.phase = AttenuatorPhase::Done;
                    AttenuatorStep::Finished(Ok(self.code))
                },
                _ => {
                    self.phase = AttenuatorPhase::Done;
                    AttenuatorStep::Finished(Err(Error::InvalidState))
                },
            },
        }
    }
}

/// Reading a channel back after a write returns the code that was written: when the read's
/// second transfer returns the bytes that the write shifted in, the read finishes with that
/// code. The write leaves every other channel's byte as it was read.
pub proof fn lemma_attenuation_round_trip(channel: Channel, code: u8, before: [u8; 4])
    requires
        code <= MAX_ATTENUATION_CODE,
    ensures
        code_of_register(written_registers(before@, channel, code)[channel.index() as int])
            == code,
        forall|d: Channel|
            d != channel ==> (#[trigger] written_registers(before@, channel, code)[d.index() as int])
                == before@[d.index() as int],
        forall|rd: AttenuatorSequence, w: [u8; 4]|
            rd.channel() == channel && rd.phase() == AttenuatorPhase::ReadSecond && w@
                == written_registers(before@, channel, code) ==> #[trigger] is_next(
                rd,
                AttenuatorEvent::Transferred(Some(w)),
                AttenuatorPhase::Done,
                AttenuatorStep::Finished(Ok(code)),
            ),
{
    lemma_register_round_trip(code, 0);
    assert forall|d: Channel|
        d != channel implies (#[trigger] written_registers(before@, channel, code)[d.index() as int])
            == before@[d.index() as int] by {
        crate::pins::lemma_latch_pins_consistent();
    }
}

} // verus!
