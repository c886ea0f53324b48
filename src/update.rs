use vstd::prelude::*;
use crate::expander::{set_ext_clk, GpioCommand, PinLevel};
use crate::pins::{Channel, GpioPin};

verus! {

/// A DDS profile in machine units.
#[derive(Debug, Copy, Clone, PartialEq, Eq, Structural)]
pub struct Profile {
    /// The frequency tuning word (CFTW0): the output frequency as a fraction of the system
    /// clock, in units of 2^-32.
    pub frequency_tuning_word: u32,
    /// The phase offset word (CPOW0).
    pub phase_offset: u16,
    /// The amplitude control register (ACR).
    pub amplitude_control: u32,
}

/// The DDS clock configuration.
#[derive(Debug, Copy, Clone, PartialEq, Eq, Structural)]
pub struct ClockConfig {
    /// The PLL multiplier from the reference clock to the system clock.
    pub multiplier: u8,
    /// The reference clock frequency in Hz.
    pub reference_clock: u32,
    /// Whether the external reference input is used instead of the on-board oscillator.
    pub external_clock: bool,
}

impl Default for ClockConfig {
    /// A 100 MHz on-board reference multiplied by five.
    fn default() -> (r: Self)
        ensures
            r.multiplier == 5,
            r.reference_clock == 100_000_000,
            !r.external_clock,
    {
        ClockConfig { multiplier: 5, reference_clock: 100_000_000, external_clock: false }
    }
}

/// Whether the requested clock differs from the applied one, so that it has to be
/// validated and programmed (a slow, disruptive operation).
pub fn clock_changed(current: &ClockConfig, requested: &ClockConfig) -> (r: bool)
    ensures
        r == (*current != *requested),
{
    *current != *requested
}

/// Take a requested clock configuration that was found valid for the DDS: it becomes the
/// applied one, and the returned commands select its reference source. An invalid one
/// leaves the applied configuration as it is and returns nothing; the caller reports it.
pub fn apply_clock(current: &mut ClockConfig, requested: ClockConfig, valid: bool) -> (r: Option<
    Vec<GpioCommand>,
>)
    ensures
        valid ==> *final(current) == requested && r.is_some() && r->0@ == seq![
            GpioCommand::SetLevel(
                GpioPin::OscEnN,
                if requested.external_clock {
                    PinLevel::High
                } else {
                    PinLevel::Low
                },
            ),
            GpioCommand::SetLevel(
                GpioPin::ExtClkSel,
                if requested.external_clock {
                    PinLevel::High
                } else {
                    PinLevel::Low
                },
            ),
        ],
        !valid ==> *final(current) == *old(current) && r.is_none(),
{
    if valid {
        *current = requested;
        Some(set_ext_clk(requested.external_clock))
    } else {
        None
    }
}

/// One action of a configuration update.
#[derive(Debug, Copy, Clone, PartialEq, Eq, Structural)]
pub enum UpdateAction {
    /// Write a profile to the DDS outputs in `mask`, which drive `channel`.
    WriteProfile { channel: Channel, mask: u8, profile: Profile },
    /// Program the channel's attenuation (and report it if that fails).
    SetAttenuation(Channel),
    /// Report that no valid profile could be computed for the channel.
    LogProfileError(Channel),
}

/// The channel whose settings come `i`-th in an update: the two inputs, then the two
/// outputs, in the order of the configuration's `in_channel` and `out_channel` lists.
pub open spec fn update_channel(i: int) -> Channel {
    if i == 0 {
        Channel::In0
    } else if i == 1 {
        Channel::In1
    } else if i == 2 {
        Channel::Out0
    } else {
        Channel::Out1
    }
}

/// The place of `channel` in the update order, which is also the place of its settings in
/// the configuration's inputs-then-outputs list.
pub fn update_slot(channel: Channel) -> (r: usize)
    ensures
        r < 4,
        update_channel(r as int) == channel,
{
    match channel {
        Channel::In0 => 0,
        Channel::In1 => 1,
        Channel::Out0 => 2,
        Channel::Out1 => 3,
    }
}

/// The order in which an update visits the channels.
pub fn update_order() -> (r: [Channel; 4])
    ensures
        forall|i: int| 0 <= i < 4 ==> #[trigger] r@[i] == update_channel(i),
{
    [Channel::In0, Channel::In1, Channel::Out0, Channel::Out1]
}

/// The actions for one channel: with a profile, write it and then set the attenuation;
/// without one, report the error and touch nothing.
pub open spec fn channel_actions(ch: Channel, profile: Option<Profile>) -> Seq<UpdateAction> {
    match profile {
        Some(p) => seq![
            UpdateAction::WriteProfile {
                channel: ch,
                mask: vstd::arithmetic::power2::pow2(ch.dds_output()) as u8,
                profile: p,
            },
            UpdateAction::SetAttenuation(ch),
        ],
        None => seq![UpdateAction::LogProfileError(ch)],
    }
}

/// The actions of the channels from the `i`-th on.
pub open spec fn plan_from(profiles: Seq<Option<Profile>>, i: int) -> Seq<UpdateAction>
    decreases 4 - i,
{
    if i >= 4 || i < 0 {
        Seq::empty()
    } else {
        channel_actions(update_channel(i), profiles[i]) + plan_from(profiles, i + 1)
    }
}

/// Plan the channel part of an update from the profiles computed for each channel in
/// update order (`None` where the settings had no valid profile). A channel that fails
/// blocks none of the others.
pub fn plan_channels(profiles: [Option<Profile>; 4]) -> (r: Vec<UpdateAction>)
    ensures
        r@ == plan_from(profiles@, 0),
{
    let order = update_order();
    let mut r: Vec<UpdateAction> = Vec::new();
    let mut i: usize = 4;
    // Built back to front, so that each step prepends one channel's actions.
    let mut tail: Vec<UpdateAction> = Vec::new();
    while i > 0
        invariant
            i <= 4,
            forall|j: int| 0 <= j < 4 ==> #[trigger] order@[j] == update_channel(j),
            tail@ == plan_from(profiles@, i as int),
        decreases i,
    {
        i = i - 1;
        let ch = order[i];
        let mut next: Vec<UpdateAction> = Vec::new();
        match profiles[i] {
            Some(p) => {
                next.push(UpdateAction::WriteProfile { channel: ch, mask: ch.dds_channel_mask(), profile: p });
                next.push(UpdateAction::SetAttenuation(ch));
            },
            None => {
                next.push(UpdateAction::LogProfileError(ch));
            },
        }
        assert(next@ =~= channel_actions(update_channel(i as int), profiles@[i as int]));
        next.append(&mut tail);
        tail = next;
    }
    r.append(&mut tail);
    assert(r@ =~= plan_from(profiles@, 0));
    r
}

/// The number of errors that a list of actions reports.
pub open spec fn reported_errors(s: Seq<UpdateAction>) -> nat
    decreases s.len(),
{
    if s.len() == 0 {
        0
    } else {
        (if s[0] is LogProfileError {
            1nat
        } else {
            0nat
        }) + reported_errors(s.drop_first())
    }
}

proof fn lemma_reported_errors_add(a: Seq<UpdateAction>, b: Seq<UpdateAction>)
    ensures
        reported_errors(a + b) == reported_errors(a) + reported_errors(b),
    decreases a.len(),
{
    if a.len() > 0 {
        assert((a + b).drop_first() =~= a.drop_first() + b);
        lemma_reported_errors_add(a.drop_first(), b);
    } else {
        assert(a + b =~= b);
    }
}

proof fn lemma_plan_from_errors(profiles: Seq<Option<Profile>>, i: int)
    requires
        0 <= i <= 4,
        profiles.len() == 4,
    ensures
        reported_errors(plan_from(profiles, i)) == Set::new(
            |j: int| i <= j < 4 && profiles[j].is_none(),
        ).len(),
        Set::new(|j: int| i <= j < 4 && profiles[j].is_none()).finite(),
    decreases 4 - i,
{
    let s = Set::new(|j: int| i <= j < 4 && profiles[j].is_none());
    if i == 4 {
        assert(s =~= Set::empty());
    } else {
        lemma_plan_from_errors(profiles, i + 1);
        let rest = Set::new(|j: int| i + 1 <= j < 4 && profiles[j].is_none());
        lemma_reported_errors_add(
            channel_actions(update_channel(i), profiles[i]),
            plan_from(profiles, i + 1),
        );
        lemma_channel_errors(update_channel(i), profiles[i]);
        if profiles[i].is_none() {
            assert(s =~= rest.insert(i));
            assert(!rest.contains(i));
        } else {
            assert(s =~= rest);
        }
    }
}

proof fn lemma_channel_errors(ch: Channel, profile: Option<Profile>)
    ensures
        reported_errors(channel_actions(ch, profile)) == (if profile.is_none() {
            1nat
        } else {
            0nat
        }),
{
    let a = channel_actions(ch, profile);
    if profile.is_none() {
        assert(a.drop_first() =~= Seq::<UpdateAction>::empty());
        assert(reported_errors(a.drop_first()) == 0);
        assert(a[0] is LogProfileError);
    } else {
        let b = a.drop_first();
        assert(b.drop_first() =~= Seq::<UpdateAction>::empty());
        assert(reported_errors(b.drop_first()) == 0);
        assert(b[0] == UpdateAction::SetAttenuation(ch));
        assert(reported_errors(b) == 0);
        assert(a[0] is WriteProfile);
    }
}

/// A channel without a valid profile costs exactly one reported error and no write; every
/// other channel still gets its profile written and its attenuation set. In particular one
/// invalid channel among four gives exactly one error and three applied channels.
pub proof fn lemma_failures_stay_local(profiles: [Option<Profile>; 4])
    ensures
        reported_errors(plan_from(profiles@, 0)) == Set::new(
            |j: int| 0 <= j < 4 && profiles@[j].is_none(),
        ).len(),
        forall|i: int|
            0 <= i < 4 ==> (#[trigger] channel_actions(update_channel(i), profiles@[i])
                + plan_from(profiles@, i + 1)) == plan_from(profiles@, i),
        forall|i: int|
            0 <= i < 4 && profiles@[i].is_some() ==> #[trigger] channel_actions(
                update_channel(i),
                profiles@[i],
            ) == seq![
                UpdateAction::WriteProfile {
                    channel: update_channel(i),
                    mask: vstd::arithmetic::power2::pow2(update_channel(i).dds_output()) as u8,
                    profile: profiles@[i]->0,
                },
                UpdateAction::SetAttenuation(update_channel(i)),
            ],
{
    lemma_plan_from_errors(profiles@, 0);
}

/// With exactly one channel lacking a valid profile, an update reports exactly one error.
pub proof fn lemma_one_invalid_channel(profiles: [Option<Profile>; 4], k: int)
    requires
        0 <= k < 4,
        profiles@[k].is_none(),
        forall|j: int| 0 <= j < 4 && j != k ==> (#[trigger] profiles@[j]).is_some(),
    ensures
        reported_errors(plan_from(profiles@, 0)) == 1,
{
    lemma_plan_from_errors(profiles@, 0);
    assert(Set::new(|j: int| 0 <= j < 4 && profiles@[j].is_none()) =~= set![k]);
}

} // verus!
