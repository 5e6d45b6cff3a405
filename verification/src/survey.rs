//! The survey record.
//!
//! A survey names its owner (the creator), a delegated controller, a cap on
//! how many participants may be paid, the fixed per-payout amount, and how
//! many payouts have happened. The owner is immutable after creation; the
//! controller changes only through an authorized operation; the counter
//! only grows, and never past the cap.

use vstd::prelude::*;

use crate::address::Address;

verus! {

/// A reward campaign record.
#[derive(Debug)]
pub struct Survey {
    pub survey_id: u64,
    pub survey_uuid: String,
    pub owner: Address,
    pub controller: Address,
    pub participants_limit: u64,
    pub reward_amount: u64,
    pub participants_count: u64,
}

impl Survey {
    /// The record's invariant: never more payouts than the cap allows.
    pub open spec fn wf(&self) -> bool {
        self.participants_count <= self.participants_limit
    }
}

/// Role predicate: `who` is the survey's delegated controller. The
/// operations that move or promise funds demand this role.
pub open spec fn is_controller(survey: &Survey, who: Seq<u8>) -> bool {
    who == survey.controller@
}

/// Role predicate: `who` is the survey's owner. The circuit breaker
/// demands this role of the drain's destination.
pub open spec fn is_owner(survey: &Survey, who: Seq<u8>) -> bool {
    who == survey.owner@
}

/// Whether two survey records agree field for field.
pub open spec fn eq_survey(a: &Survey, b: &Survey) -> bool {
    &&& a.survey_id == b.survey_id
    &&& a.survey_uuid@ == b.survey_uuid@
    &&& a.owner@ == b.owner@
    &&& a.controller@ == b.controller@
    &&& a.participants_limit == b.participants_limit
    &&& a.reward_amount == b.reward_amount
    &&& a.participants_count == b.participants_count
}

/// Whether two survey records agree on everything but the payout counter.
pub open spec fn eq_survey_but_count(a: &Survey, b: &Survey) -> bool {
    &&& a.survey_id == b.survey_id
    &&& a.survey_uuid@ == b.survey_uuid@
    &&& a.owner@ == b.owner@
    &&& a.controller@ == b.controller@
    &&& a.participants_limit == b.participants_limit
    &&& a.reward_amount == b.reward_amount
}

/// Whether two survey records agree on everything but the controller.
pub open spec fn eq_survey_but_controller(a: &Survey, b: &Survey) -> bool {
    &&& a.survey_id == b.survey_id
    &&& a.survey_uuid@ == b.survey_uuid@
    &&& a.owner@ == b.owner@
    &&& a.participants_limit == b.participants_limit
    &&& a.reward_amount == b.reward_amount
    &&& a.participants_count == b.participants_count
}

} // verus!
