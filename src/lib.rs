//! Driver logic for the Pounder RF front end: channel and pin addressing, the
//! GPIO expander variants, the DDS serial protocol encoder, the attenuator
//! shift-register protocol and the decisions of a configuration update.
pub mod analog;
pub mod attenuator;
pub mod error;
pub mod expander;
pub mod pins;
pub mod qspi;
pub mod telemetry;
pub mod update;
