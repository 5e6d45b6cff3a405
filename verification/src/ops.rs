//! The operations.
//!
//! Each function is one atomic operation of the escrow: the host
//! authenticates the caller's signature, hands in the records and claimed
//! addresses the operation declares, and commits all effects or none. Every
//! operation first re-derives each claimed address from its seed tuple and
//! rejects on mismatch, then evaluates its role predicates, then moves
//! funds and mutates records; a rejected operation changes nothing.

use vstd::prelude::*;

use crate::address::Address;
use crate::address::derive_survey_address;
use crate::address::derive_vault_address;
use crate::address::derives_to;
use crate::address::survey_pda;
use crate::address::vault_pda;
use crate::bank::Bank;
use crate::bank::same_balances;
use crate::errors::SurveyErrors;
use crate::participation::MAX_CLAIM_LEN;
use crate::participation::ParticipationRegistry;
use crate::survey::Survey;
use crate::survey::eq_survey;
use crate::survey::eq_survey_but_controller;
use crate::survey::eq_survey_but_count;
use crate::survey::is_controller;
use crate::survey::is_owner;

verus! {

/// The smallest funding amount a survey with the given caps accepts:
/// enough to pay every allowed participant once.
pub open spec fn spec_minimum_funding(participants_limit: u64, reward_amount: u64) -> int {
    participants_limit * reward_amount
}

/// Whether `amount` covers the full payout obligation of a survey with
/// the given caps.
pub fn covers_minimum_funding(participants_limit: u64, reward_amount: u64, amount: u64) -> (r: bool)
    ensures
        r == (amount >= spec_minimum_funding(participants_limit, reward_amount)),
{
    proof {
        assert((participants_limit as int) * (reward_amount as int) < 0x1_0000_0000_0000_0000_0000_0000_0000_0000int)
            by (nonlinear_arith)
            requires
                participants_limit <= 0xffff_ffff_ffff_ffffu64,
                reward_amount <= 0xffff_ffff_ffff_ffffu64,
        ;
    }
    let need: u128 = (participants_limit as u128) * (reward_amount as u128);
    (amount as u128) >= need
}

/// Whether the survey record claimed at `claimed` really lives at the
/// address derived from `(creator, survey_id)`.
fn survey_address_ok(program_id: &Address, creator: &Address, survey_id: u64, claimed: &Address) -> (r: bool)
    requires
        program_id.wf(),
    ensures
        r == derives_to(survey_pda(program_id@, creator@, survey_id), claimed@),
{
    match derive_survey_address(program_id, creator, survey_id) {
        Some(p) => p.0.matches(claimed),
        None => false,
    }
}

/// Whether the vault claimed at `claimed` really lives at the address
/// derived from `(survey_addr, owner)`.
fn vault_address_ok(program_id: &Address, survey_addr: &Address, owner: &Address, claimed: &Address) -> (r: bool)
    requires
        program_id.wf(),
    ensures
        r == derives_to(vault_pda(program_id@, survey_addr@, owner@), claimed@),
{
    match derive_vault_address(program_id, survey_addr, owner) {
        Some(p) => p.0.matches(claimed),
        None => false,
    }
}

/// How one funding operation changes the balance at `x`: `amount` arrives
/// at the vault, `fee` at the controller, and both leave the caller.
pub open spec fn fund_delta(x: Seq<u8>, caller: Seq<u8>, vault: Seq<u8>, ctl: Seq<u8>, amount: u64, fee: u64) -> int {
    (if x == vault { amount as int } else { 0 }) + (if x == ctl { fee as int } else { 0 })
        - (if x == caller { amount as int + fee as int } else { 0 })
}

/// Whether the ledger can apply both funding moves: `amount` from the
/// caller to the vault, then `fee` from the caller to the controller.
pub open spec fn fund_moves_ok(b: &Bank, caller: Seq<u8>, vault: Seq<u8>, ctl: Seq<u8>, amount: u64, fee: u64) -> bool {
    let c0 = b.bal(caller) as int;
    let v0 = b.bal(vault) as int;
    let t0 = b.bal(ctl) as int;
    let c1 = if caller == vault { c0 } else { c0 - amount };
    let t1 = if caller != vault && ctl == vault { t0 + amount } else { t0 };
    &&& c0 >= amount
    &&& (caller == vault || v0 + amount <= u64::MAX)
    &&& c1 >= fee
    &&& (caller == ctl || t1 + fee <= u64::MAX)
}

/// Whether the ledger can pay `reward` out of the vault to `participant`.
pub open spec fn payout_move_ok(b: &Bank, vault: Seq<u8>, participant: Seq<u8>, reward: u64) -> bool {
    &&& b.bal(vault) >= reward
    &&& (vault == participant || b.bal(participant) + reward <= u64::MAX)
}

/// Creates a survey record. The caller becomes the owner; the counter
/// starts at zero. The claimed survey and vault addresses are re-derived
/// from their seed tuples and the operation is rejected on any mismatch.
pub fn init_survey(
    program_id: &Address,
    caller: &Address,
    survey_id: u64,
    survey_uuid: String,
    controller: Address,
    participants_limit: u64,
    reward_amount: u64,
    claimed_survey: &Address,
    claimed_vault: &Address,
) -> (r: Result<Survey, SurveyErrors>)
    requires
        program_id.wf(),
    ensures
        ({
            let s_ok = derives_to(survey_pda(program_id@, caller@, survey_id), claimed_survey@);
            let v_ok = derives_to(vault_pda(program_id@, claimed_survey@, caller@), claimed_vault@);
            &&& (r is Ok <==> s_ok && v_ok)
            &&& (r matches Ok(s) ==> s.survey_id == survey_id
                && s.survey_uuid@ == survey_uuid@
                && s.owner@ == caller@
                && s.controller@ == controller@
                && s.participants_limit == participants_limit
                && s.reward_amount == reward_amount
                && s.participants_count == 0
                && s.wf())
            &&& (r is Err ==> r == Err::<Survey, SurveyErrors>(SurveyErrors::AddressMismatch))
        }),
{
    if !survey_address_ok(program_id, caller, survey_id, claimed_survey) {
        return Err(SurveyErrors::AddressMismatch);
    }
    if !vault_address_ok(program_id, claimed_survey, caller, claimed_vault) {
        return Err(SurveyErrors::AddressMismatch);
    }
    Ok(Survey {
        survey_id,
        survey_uuid,
        owner: caller.dup(),
        controller,
        participants_limit,
        reward_amount,
        participants_count: 0,
    })
}

/// Funds a survey: the caller moves `amount` into the vault and pays `fee`
/// to the controller. Rejected with `InsufficientFunds` when `amount` does
/// not cover the survey's full payout obligation, and with
/// `WrongController` when the presented controller address is not the
/// survey's controller. Both currency moves apply, or neither does.
///
/// Charging a funding fee is this library's policy; a deployment that
/// charges none passes a fee of zero.
pub fn fund_survey(
    survey: &Survey,
    bank: &mut Bank,
    program_id: &Address,
    caller: &Address,
    claimed_survey: &Address,
    claimed_vault: &Address,
    controller_addr: &Address,
    amount: u64,
    fee: u64,
) -> (r: Result<(), SurveyErrors>)
    requires
        program_id.wf(),
    ensures
        ({
            let s_ok = derives_to(survey_pda(program_id@, caller@, survey.survey_id), claimed_survey@);
            let v_ok = derives_to(vault_pda(program_id@, claimed_survey@, caller@), claimed_vault@);
            let enough = amount >= spec_minimum_funding(survey.participants_limit, survey.reward_amount);
            let auth = is_controller(survey, controller_addr@);
            let moves = fund_moves_ok(old(bank), caller@, claimed_vault@, controller_addr@, amount, fee);
            &&& (r is Ok <==> s_ok && v_ok && enough && auth && moves)
            &&& (!(s_ok && v_ok) ==> r == Err::<(), SurveyErrors>(SurveyErrors::AddressMismatch))
            &&& (s_ok && v_ok && !enough ==> r == Err::<(), SurveyErrors>(SurveyErrors::InsufficientFunds))
            &&& (s_ok && v_ok && enough && !auth ==> r == Err::<(), SurveyErrors>(SurveyErrors::WrongController))
            &&& (s_ok && v_ok && enough && auth && !moves ==> r == Err::<(), SurveyErrors>(SurveyErrors::TransferFailed))
            &&& (r is Err ==> same_balances(final(bank), old(bank)))
            &&& (r is Ok ==> forall|x: Seq<u8>| #[trigger] final(bank).bal(x)
                == old(bank).bal(x) + fund_delta(x, caller@, claimed_vault@, controller_addr@, amount, fee))
        }),
{
    if !survey_address_ok(program_id, caller, survey.survey_id, claimed_survey) {
        return Err(SurveyErrors::AddressMismatch);
    }
    if !vault_address_ok(program_id, claimed_survey, caller, claimed_vault) {
        return Err(SurveyErrors::AddressMismatch);
    }
    if !covers_minimum_funding(survey.participants_limit, survey.reward_amount, amount) {
        return Err(SurveyErrors::InsufficientFunds);
    }
    if !controller_addr.matches(&survey.controller) {
        return Err(SurveyErrors::WrongController);
    }
    // Check both moves before applying either, so a failed second move
    // cannot leave a half-applied funding.
    let c0 = bank.balance_of(caller);
    let v0 = bank.balance_of(claimed_vault);
    let t0 = bank.balance_of(controller_addr);
    let caller_is_vault = caller.matches(claimed_vault);
    let ctl_is_vault = controller_addr.matches(claimed_vault);
    let caller_is_ctl = caller.matches(controller_addr);
    if c0 < amount {
        return Err(SurveyErrors::TransferFailed);
    }
    if !caller_is_vault && amount > u64::MAX - v0 {
        return Err(SurveyErrors::TransferFailed);
    }
    let c1: u64 = if caller_is_vault { c0 } else { c0 - amount };
    if c1 < fee {
        return Err(SurveyErrors::TransferFailed);
    }
    let t1: u64 = if !caller_is_vault && ctl_is_vault { t0 + amount } else { t0 };
    if !caller_is_ctl && fee > u64::MAX - t1 {
        return Err(SurveyErrors::TransferFailed);
    }
    let r1 = bank.transfer(caller, claimed_vault, amount);
    proof {
        assert(r1 is Ok);
    }
    let ghost mid = *bank;
    let r2 = bank.transfer(caller, controller_addr, fee);
    proof {
        assert(r2 is Ok);
        assert forall|x: Seq<u8>| #[trigger] bank.bal(x)
            == old(bank).bal(x) + fund_delta(x, caller@, claimed_vault@, controller_addr@, amount, fee) by {
            assert(mid.bal(x) == if caller@ == claimed_vault@ {
                old(bank).bal(x) as int
            } else if x == caller@ {
                old(bank).bal(x) - amount
            } else if x == claimed_vault@ {
                old(bank).bal(x) + amount
            } else {
                old(bank).bal(x) as int
            });
        }
    }
    Ok(())
}

/// Pays the survey's fixed reward out of the vault to `participant` and
/// records the one-time participation receipt holding `zkp_claim`.
/// Only the survey's controller may call; the payout counter must be
/// below the cap; a participant with an existing receipt is rejected with
/// `DuplicateParticipant` and nothing moves. On success the receipt, the
/// currency move and the counter increment commit together.
///
/// Two clauses below combine into the no-double-payout law: a success
/// leaves the participant recorded, and a recorded participant forces the
/// `DuplicateParticipant` rejection with every balance unchanged. The
/// counter clauses keep `participants_count` within `participants_limit`
/// after every attempt, rejected ones included.
pub fn payout(
    survey: &mut Survey,
    registry: &mut ParticipationRegistry,
    bank: &mut Bank,
    program_id: &Address,
    caller: &Address,
    owner_addr: &Address,
    claimed_survey: &Address,
    claimed_vault: &Address,
    participant: &Address,
    zkp_claim: String,
) -> (r: Result<(), SurveyErrors>)
    requires
        program_id.wf(),
        old(survey).wf(),
        old(registry).wf(),
        zkp_claim@.len() <= MAX_CLAIM_LEN,
    ensures
        ({
            let s_ok = derives_to(survey_pda(program_id@, owner_addr@, old(survey).survey_id), claimed_survey@);
            let v_ok = derives_to(vault_pda(program_id@, claimed_survey@, owner_addr@), claimed_vault@);
            let auth = is_controller(old(survey), caller@);
            let below_cap = old(survey).participants_count < old(survey).participants_limit;
            let fresh = !old(registry).has(participant@);
            let move_ok = payout_move_ok(old(bank), claimed_vault@, participant@, old(survey).reward_amount);
            &&& (r is Ok <==> s_ok && v_ok && auth && below_cap && fresh && move_ok)
            &&& (!(s_ok && v_ok) ==> r == Err::<(), SurveyErrors>(SurveyErrors::AddressMismatch))
            &&& (s_ok && v_ok && !auth ==> r == Err::<(), SurveyErrors>(SurveyErrors::WrongController))
            &&& (s_ok && v_ok && auth && !below_cap
                ==> r == Err::<(), SurveyErrors>(SurveyErrors::ParticipantsLimitReached))
            &&& (s_ok && v_ok && auth && below_cap && !fresh
                ==> r == Err::<(), SurveyErrors>(SurveyErrors::DuplicateParticipant))
            &&& (s_ok && v_ok && auth && below_cap && fresh && !move_ok
                ==> r == Err::<(), SurveyErrors>(SurveyErrors::TransferFailed))
            &&& (r is Err ==> eq_survey(final(survey), old(survey))
                && final(registry)@ == old(registry)@
                && same_balances(final(bank), old(bank)))
            &&& (r is Ok ==> eq_survey_but_count(final(survey), old(survey))
                && final(survey).participants_count == old(survey).participants_count + 1
                && final(registry)@ == old(registry)@.push((participant@, zkp_claim@))
                && final(registry).has(participant@))
            &&& (r is Ok && claimed_vault@ == participant@ ==> same_balances(final(bank), old(bank)))
            &&& (r is Ok && claimed_vault@ != participant@
                ==> final(bank).bal(claimed_vault@) == old(bank).bal(claimed_vault@) - old(survey).reward_amount
                && final(bank).bal(participant@) == old(bank).bal(participant@) + old(survey).reward_amount
                && (forall|x: Seq<u8>| x != claimed_vault@ && x != participant@
                    ==> #[trigger] final(bank).bal(x) == old(bank).bal(x)))
            &&& final(survey).wf()
            &&& final(registry).wf()
        }),
{
    if !survey_address_ok(program_id, owner_addr, survey.survey_id, claimed_survey) {
        return Err(SurveyErrors::AddressMismatch);
    }
    if !vault_address_ok(program_id, claimed_survey, owner_addr, claimed_vault) {
        return Err(SurveyErrors::AddressMismatch);
    }
    if !caller.matches(&survey.controller) {
        return Err(SurveyErrors::WrongController);
    }
    if survey.participants_count >= survey.participants_limit {
        return Err(SurveyErrors::ParticipantsLimitReached);
    }
    if registry.contains(participant) {
        return Err(SurveyErrors::DuplicateParticipant);
    }
    match bank.transfer(claimed_vault, participant, survey.reward_amount) {
        Err(_) => {
            return Err(SurveyErrors::TransferFailed);
        },
        Ok(()) => {},
    }
    let r2 = registry.register(participant, zkp_claim);
    proof {
        assert(r2 is Ok);
    }
    survey.participants_count = survey.participants_count + 1;
    Ok(())
}

/// Records a participation receipt without moving funds: the registration
/// path of the variant that separates registering from paying. Only the
/// survey's controller may call; a participant with an existing receipt
/// is rejected with `DuplicateParticipant`.
pub fn register_participant(
    survey: &Survey,
    registry: &mut ParticipationRegistry,
    program_id: &Address,
    caller: &Address,
    owner_addr: &Address,
    claimed_survey: &Address,
    participant: &Address,
    zkp_claim: String,
) -> (r: Result<(), SurveyErrors>)
    requires
        program_id.wf(),
        old(registry).wf(),
        zkp_claim@.len() <= MAX_CLAIM_LEN,
    ensures
        ({
            let s_ok = derives_to(survey_pda(program_id@, owner_addr@, survey.survey_id), claimed_survey@);
            let auth = is_controller(survey, caller@);
            let fresh = !old(registry).has(participant@);
            &&& (r is Ok <==> s_ok && auth && fresh)
            &&& (!s_ok ==> r == Err::<(), SurveyErrors>(SurveyErrors::AddressMismatch))
            &&& (s_ok && !auth ==> r == Err::<(), SurveyErrors>(SurveyErrors::WrongController))
            &&& (s_ok && auth && !fresh ==> r == Err::<(), SurveyErrors>(SurveyErrors::DuplicateParticipant))
            &&& (r is Ok ==> final(registry)@ == old(registry)@.push((participant@, zkp_claim@)))
            &&& (r is Err ==> final(registry)@ == old(registry)@)
            &&& final(registry).wf()
        }),
{
    if !survey_address_ok(program_id, owner_addr, survey.survey_id, claimed_survey) {
        return Err(SurveyErrors::AddressMismatch);
    }
    if !caller.matches(&survey.controller) {
        return Err(SurveyErrors::WrongController);
    }
    registry.register(participant, zkp_claim)
}

/// Changes the controller entitled to trigger payouts. The policy here is
/// the delegation rule: the current controller authorizes the change (the
/// stricter rule, where the owner authorizes it instead, is not this
/// library's behaviour). The owner and every other field stay as they
/// were.
pub fn change_controller(
    survey: &mut Survey,
    program_id: &Address,
    caller: &Address,
    owner_addr: &Address,
    claimed_survey: &Address,
    new_controller: Address,
) -> (r: Result<(), SurveyErrors>)
    requires
        program_id.wf(),
        old(survey).wf(),
    ensures
        ({
            let s_ok = derives_to(survey_pda(program_id@, owner_addr@, old(survey).survey_id), claimed_survey@);
            let auth = is_controller(old(survey), caller@);
            &&& (r is Ok <==> s_ok && auth)
            &&& (!s_ok ==> r == Err::<(), SurveyErrors>(SurveyErrors::AddressMismatch))
            &&& (s_ok && !auth ==> r == Err::<(), SurveyErrors>(SurveyErrors::WrongController))
            &&& (r is Ok ==> eq_survey_but_controller(final(survey), old(survey))
                && final(survey).controller@ == new_controller@)
            &&& (r is Err ==> eq_survey(final(survey), old(survey)))
            &&& final(survey).wf()
        }),
{
    if !survey_address_ok(program_id, owner_addr, survey.survey_id, claimed_survey) {
        return Err(SurveyErrors::AddressMismatch);
    }
    if !caller.matches(&survey.controller) {
        return Err(SurveyErrors::WrongController);
    }
    survey.controller = new_controller;
    Ok(())
}

/// Drains the vault's entire current balance to the owner: the circuit
/// breaker. It demands both roles — the caller must be the controller and
/// the presented owner address the survey's owner — and ignores the payout
/// counter. A vault already at zero drains zero; that is a success, not an
/// error.
pub fn emergency_withdraw(
    survey: &Survey,
    bank: &mut Bank,
    program_id: &Address,
    caller: &Address,
    owner_addr: &Address,
    claimed_survey: &Address,
    claimed_vault: &Address,
) -> (r: Result<(), SurveyErrors>)
    requires
        program_id.wf(),
    ensures
        ({
            let s_ok = derives_to(survey_pda(program_id@, owner_addr@, survey.survey_id), claimed_survey@);
            let v_ok = derives_to(vault_pda(program_id@, claimed_survey@, owner_addr@), claimed_vault@);
            let auth = is_controller(survey, caller@);
            let owner_ok = is_owner(survey, owner_addr@);
            let balance = old(bank).bal(claimed_vault@);
            let move_ok = payout_move_ok(old(bank), claimed_vault@, owner_addr@, balance);
            &&& (r is Ok <==> s_ok && v_ok && auth && owner_ok && move_ok)
            &&& (!(s_ok && v_ok) ==> r == Err::<(), SurveyErrors>(SurveyErrors::AddressMismatch))
            &&& (s_ok && v_ok && !auth ==> r == Err::<(), SurveyErrors>(SurveyErrors::WrongController))
            &&& (s_ok && v_ok && auth && !owner_ok ==> r == Err::<(), SurveyErrors>(SurveyErrors::NotTheOwner))
            &&& (s_ok && v_ok && auth && owner_ok && !move_ok
                ==> r == Err::<(), SurveyErrors>(SurveyErrors::TransferFailed))
            &&& (r is Err ==> same_balances(final(bank), old(bank)))
            &&& (r is Ok && claimed_vault@ == owner_addr@ ==> same_balances(final(bank), old(bank)))
            &&& (r is Ok && claimed_vault@ != owner_addr@
                ==> final(bank).bal(claimed_vault@) == 0
                && final(bank).bal(owner_addr@) == old(bank).bal(owner_addr@) + balance
                && (forall|x: Seq<u8>| x != claimed_vault@ && x != owner_addr@
                    ==> #[trigger] final(bank).bal(x) == old(bank).bal(x)))
        }),
{
    if !survey_address_ok(program_id, owner_addr, survey.survey_id, claimed_survey) {
        return Err(SurveyErrors::AddressMismatch);
    }
    if !vault_address_ok(program_id, claimed_survey, owner_addr, claimed_vault) {
        return Err(SurveyErrors::AddressMismatch);
    }
    if !caller.matches(&survey.controller) {
        return Err(SurveyErrors::WrongController);
    }
    if !owner_addr.matches(&survey.owner) {
        return Err(SurveyErrors::NotTheOwner);
    }
    let balance = bank.balance_of(claimed_vault);
    bank.transfer(claimed_vault, owner_addr, balance)
}

} // verus!
