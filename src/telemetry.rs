use vstd::prelude::*;

verus! {

/// The latest raw converter codes, kept by the sampling loop and turned into SI units only
/// when telemetry is reported.
#[derive(Debug, Copy, Clone, PartialEq, Eq)]
pub struct TelemetryBuffer {
    /// The latest input codes of ADC0 and ADC1.
    pub adcs: [u16; 2],
    /// The latest output codes of DAC0 and DAC1.
    pub dacs: [u16; 2],
    /// The latest digital input states.
    pub digital_inputs: [bool; 2],
}

impl Default for TelemetryBuffer {
    fn default() -> (r: Self)
        ensures
            r.adcs@ == seq![0u16, 0u16],
            r.dacs@ == seq![0u16, 0u16],
            r.digital_inputs@ == seq![false, false],
    {
        let r = TelemetryBuffer { adcs: [0, 0], dacs: [0, 0], digital_inputs: [false, false] };
        assert(r.adcs@ =~= seq![0u16, 0u16]);
        assert(r.dacs@ =~= seq![0u16, 0u16]);
        assert(r.digital_inputs@ =~= seq![false, false]);
        r
    }
}

} // verus!
