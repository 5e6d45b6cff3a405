//! The participation registry.
//!
//! A participation is a one-time receipt binding a participant to a claim.
//! The registry keeps at most one receipt per participant: inserting a
//! participant that is already present is rejected, which is the mechanism
//! that prevents a participant from being paid twice.

use vstd::prelude::*;

use crate::address::Address;
use crate::errors::SurveyErrors;

verus! {

/// The longest claim a participation receipt stores.
pub const MAX_CLAIM_LEN: usize = 128;

/// A one-time receipt: a participant and the opaque claim an external
/// verifier attached to it.
#[derive(Debug)]
pub struct Participation {
    pub participant: Address,
    pub zkp: String,
}

impl View for Participation {
    type V = (Seq<u8>, Seq<char>);

    open spec fn view(&self) -> (Seq<u8>, Seq<char>) {
        (self.participant@, self.zkp@)
    }
}

/// Whether the receipts `reg` already bind the participant at address `a`.
pub open spec fn seen(reg: Seq<(Seq<u8>, Seq<char>)>, a: Seq<u8>) -> bool {
    exists|i: int| 0 <= i < reg.len() && (#[trigger] reg[i]).0 == a
}

/// The receipts of one survey, in order of creation.
pub struct ParticipationRegistry {
    entries: Vec<Participation>,
}

impl View for ParticipationRegistry {
    type V = Seq<(Seq<u8>, Seq<char>)>;

    closed spec fn view(&self) -> Seq<(Seq<u8>, Seq<char>)> {
        self.entries@.map_values(|p: Participation| p@)
    }
}

impl ParticipationRegistry {
    /// Every stored claim respects the length bound.
    pub open spec fn wf(&self) -> bool {
        forall|i: int| 0 <= i < self@.len() ==> (#[trigger] self@[i]).1.len() <= MAX_CLAIM_LEN
    }

    /// Whether a receipt for `a` exists.
    pub open spec fn has(&self, a: Seq<u8>) -> bool {
        seen(self@, a)
    }

    /// An empty registry.
    pub fn new() -> (r: ParticipationRegistry)
        ensures
            r@ == Seq::<(Seq<u8>, Seq<char>)>::empty(),
            r.wf(),
    {
        let r = ParticipationRegistry { entries: Vec::new() };
        proof {
            assert(r@ =~= Seq::<(Seq<u8>, Seq<char>)>::empty());
        }
        r
    }

    /// How many receipts exist.
    pub fn count(&self) -> (r: usize)
        ensures
            r == self@.len(),
    {
        self.entries.len()
    }

    /// Whether a receipt for `participant` exists.
    pub fn contains(&self, participant: &Address) -> (r: bool)
        ensures
            r == self.has(participant@),
    {
        let mut i: usize = 0;
        while i < self.entries.len()
            invariant
                i <= self.entries@.len(),
                forall|j: int| 0 <= j < i ==> (#[trigger] self.entries@[j])@.0 != participant@,
            decreases self.entries@.len() - i,
        {
            if self.entries[i].participant.matches(participant) {
                proof {
                    assert((self@[i as int]).0 == participant@);
                }
                return true;
            }
            i = i + 1;
        }
        proof {
            assert(forall|j: int| 0 <= j < self@.len() ==> (#[trigger] self@[j]).0 != participant@);
        }
        false
    }

    /// The claim recorded for `participant`, if a receipt exists.
    pub fn claim_for(&self, participant: &Address) -> (r: Option<&String>)
        ensures
            match r {
                Some(c) => self.has(participant@) && exists|i: int| 0 <= i < self@.len()
                    && #[trigger] self@[i] == (participant@, c@),
                None => !self.has(participant@),
            },
    {
        let mut i: usize = 0;
        while i < self.entries.len()
            invariant
                i <= self.entries@.len(),
                forall|j: int| 0 <= j < i ==> (#[trigger] self.entries@[j])@.0 != participant@,
            decreases self.entries@.len() - i,
        {
            if self.entries[i].participant.matches(participant) {
                proof {
                    assert(self@[i as int] == (participant@, self.entries@[i as int].zkp@));
                }
                return Some(&self.entries[i].zkp);
            }
            i = i + 1;
        }
        proof {
            assert(forall|j: int| 0 <= j < self@.len() ==> (#[trigger] self@[j]).0 != participant@);
        }
        None
    }

    /// Inserts a receipt for `participant` holding `zkp_claim`, unless one
    /// already exists. Insert-or-reject is atomic: on rejection the
    /// registry is unchanged.
    pub fn register(&mut self, participant: &Address, zkp_claim: String) -> (r: Result<(), SurveyErrors>)
        requires
            old(self).wf(),
            zkp_claim@.len() <= MAX_CLAIM_LEN,
        ensures
            r is Ok <==> !old(self).has(participant@),
            r is Ok ==> final(self)@ == old(self)@.push((participant@, zkp_claim@)),
            r is Err ==> r == Err::<(), SurveyErrors>(SurveyErrors::DuplicateParticipant)
                && final(self)@ == old(self)@,
            final(self).wf(),
            final(self).has(participant@),
    {
        if self.contains(participant) {
            return Err(SurveyErrors::DuplicateParticipant);
        }
        let ghost entries0 = self.entries@;
        self.entries.push(Participation { participant: participant.dup(), zkp: zkp_claim });
        proof {
            assert(self@ =~= entries0.map_values(|p: Participation| p@).push((participant@, zkp_claim@)));
            assert((self@[self@.len() - 1]).0 == participant@);
        }
        Ok(())
    }
}

/// A receipt just inserted for a participant makes that participant seen:
/// whatever the registry held before, after the insert the duplicate check
/// refuses the same participant.
pub proof fn lemma_recorded_participant_is_seen(reg: Seq<(Seq<u8>, Seq<char>)>, p: Seq<u8>, c: Seq<char>)
    ensures
        seen(reg.push((p, c)), p),
{
    assert((reg.push((p, c))[reg.len() as int]).0 == p);
}

} // verus!
