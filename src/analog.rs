use vstd::prelude::*;
use crate::error::Error;
use crate::pins::Channel;

verus! {

/// Which converter of a pair samples `channel`. Only the two RF inputs have a power
/// detector and an auxiliary input: `In0` uses the first converter and `In1` the second;
/// the outputs have none.
pub fn input_adc_index(channel: Channel) -> (r: Result<usize, Error>)
    ensures
        channel == Channel::In0 ==> r == Ok::<usize, Error>(0),
        channel == Channel::In1 ==> r == Ok::<usize, Error>(1),
        !channel.is_input() ==> r == Err::<usize, Error>(Error::InvalidChannel),
{
    match channel {
        Channel::In0 => Ok(0),
        Channel::In1 => Ok(1),
        _ => Err(Error::InvalidChannel),
    }
}

} // verus!
