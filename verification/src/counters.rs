//! Per-user completion counters.
//!
//! The early registry kept two tiny records per user: a survey counter,
//! incremented once per completed survey, and a reward counter per
//! (user, admin) pair that is brought up to the survey counter when
//! rewards are settled. Each record stores the bump byte of its own
//! derived address, so the host can re-verify the address cheaply.

use vstd::prelude::*;

verus! {

/// A user's survey completion counter.
#[derive(Debug, PartialEq, Eq, Structural)]
pub struct Survey {
    pub bump: u8,
    pub count: u8,
}

/// A (user, admin) reward counter.
#[derive(Debug, PartialEq, Eq, Structural)]
pub struct Reward {
    pub bump: u8,
    pub count: u8,
}

/// Creates a survey counter at zero, remembering the bump byte of the
/// record's derived address.
pub fn create_survey(bump: u8) -> (r: Survey)
    ensures
        r.bump == bump,
        r.count == 0,
{
    Survey { bump, count: 0 }
}

/// Counts one more completed survey.
pub fn increment_survey(survey: &mut Survey)
    requires
        old(survey).count < u8::MAX,
    ensures
        final(survey).count == old(survey).count + 1,
        final(survey).bump == old(survey).bump,
{
    survey.count = survey.count + 1;
}

/// Creates a reward counter at zero, remembering the bump byte of the
/// record's derived address.
pub fn create_reward(bump: u8) -> (r: Reward)
    ensures
        r.bump == bump,
        r.count == 0,
{
    Reward { bump, count: 0 }
}

/// Settles rewards up to the user's current completion count: afterwards
/// the reward counter equals the survey counter.
pub fn update_reward(reward: &mut Reward, survey: &Survey)
    requires
        old(reward).count <= survey.count,
    ensures
        final(reward).count == survey.count,
        final(reward).bump == old(reward).bump,
{
    reward.count = reward.count + (survey.count - reward.count);
}

} // verus!
