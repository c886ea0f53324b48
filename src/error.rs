use vstd::prelude::*;

verus! {

/// The errors that the Pounder hardware layer reports.
#[derive(Debug, Copy, Clone, PartialEq, Eq, Structural)]
pub enum Error {
    /// The attenuator SPI bus failed.
    Spi,
    /// The I2C bus to the GPIO expander or the temperature sensor failed.
    I2c,
    /// The QSPI bus to the DDS failed.
    Qspi,
    /// A payload or an attenuation lies outside the representable range.
    Bounds,
    /// An address is not valid for the device.
    InvalidAddress,
    /// The operation is not supported on the requested channel.
    InvalidChannel,
    /// An ADC read failed.
    Adc,
    /// The protocol operation is not allowed in the interface's current mode.
    InvalidState,
}

} // verus!
