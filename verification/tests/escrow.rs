use qstn_survey::address::Address;
use qstn_survey::address::derive_survey_address;
use qstn_survey::address::derive_vault_address;
use qstn_survey::bank::Bank;
use qstn_survey::errors::SurveyErrors;
use qstn_survey::ops::change_controller;
use qstn_survey::ops::emergency_withdraw;
use qstn_survey::ops::fund_survey;
use qstn_survey::ops::init_survey;
use qstn_survey::ops::payout;
use qstn_survey::ops::register_participant;
use qstn_survey::participation::ParticipationRegistry;
use qstn_survey::survey::Survey;

fn addr(tag: u8) -> Address {
    Address::from_bytes(vec![tag; 32])
}

struct Setup {
    program: Address,
    creator: Address,
    controller: Address,
    survey_addr: Address,
    vault: Address,
    survey: Survey,
    bank: Bank,
    registry: ParticipationRegistry,
}

/// A survey with `participants_limit = 2`, `reward_amount = 100`, whose
/// creator holds 1000 units.
fn setup() -> Setup {
    let program = addr(1);
    let creator = addr(2);
    let controller = addr(9);
    let (survey_addr, _) = derive_survey_address(&program, &creator, 7).unwrap();
    let (vault, _) = derive_vault_address(&program, &survey_addr, &creator).unwrap();
    let survey = init_survey(
        &program,
        &creator,
        7,
        String::from("uuid-7"),
        controller.dup(),
        2,
        100,
        &survey_addr,
        &vault,
    )
    .unwrap();
    let mut bank = Bank::new();
    bank.credit(&creator, 1000).unwrap();
    Setup {
        program,
        creator,
        controller,
        survey_addr,
        vault,
        survey,
        bank,
        registry: ParticipationRegistry::new(),
    }
}

fn fund(s: &mut Setup, amount: u64, fee: u64) -> Result<(), SurveyErrors> {
    fund_survey(
        &s.survey,
        &mut s.bank,
        &s.program,
        &s.creator,
        &s.survey_addr,
        &s.vault,
        &s.controller,
        amount,
        fee,
    )
}

fn pay(s: &mut Setup, caller: &Address, participant: &Address, claim: &str) -> Result<(), SurveyErrors> {
    payout(
        &mut s.survey,
        &mut s.registry,
        &mut s.bank,
        &s.program,
        caller,
        &s.creator,
        &s.survey_addr,
        &s.vault,
        participant,
        String::from(claim),
    )
}

#[test]
fn init_survey_sets_all_fields() {
    let s = setup();
    assert_eq!(s.survey.survey_id, 7);
    assert_eq!(s.survey.survey_uuid, "uuid-7");
    assert_eq!(s.survey.owner.bytes, s.creator.bytes);
    assert_eq!(s.survey.controller.bytes, s.controller.bytes);
    assert_eq!(s.survey.participants_limit, 2);
    assert_eq!(s.survey.reward_amount, 100);
    assert_eq!(s.survey.participants_count, 0);
}

#[test]
fn init_survey_rejects_a_wrong_claimed_address() {
    let s = setup();
    let r = init_survey(
        &s.program,
        &s.creator,
        7,
        String::from("uuid-7"),
        s.controller.dup(),
        2,
        100,
        &addr(42),
        &s.vault,
    );
    assert_eq!(r.unwrap_err(), SurveyErrors::AddressMismatch);
}

#[test]
fn full_campaign_scenario() {
    let mut s = setup();
    let ctl = s.controller.dup();

    // Fund: 200 to the vault, 10 to the controller, both off the creator.
    fund(&mut s, 200, 10).unwrap();
    assert_eq!(s.bank.balance_of(&s.vault), 200);
    assert_eq!(s.bank.balance_of(&s.controller), 10);
    assert_eq!(s.bank.balance_of(&s.creator), 790);

    // First payout to A succeeds.
    let a = addr(3);
    pay(&mut s, &ctl, &a, "claim-a").unwrap();
    assert_eq!(s.bank.balance_of(&s.vault), 100);
    assert_eq!(s.bank.balance_of(&a), 100);
    assert_eq!(s.survey.participants_count, 1);

    // Second payout to A is refused and moves nothing.
    let r = pay(&mut s, &ctl, &a, "claim-a-again");
    assert_eq!(r.unwrap_err(), SurveyErrors::DuplicateParticipant);
    assert_eq!(s.bank.balance_of(&s.vault), 100);
    assert_eq!(s.bank.balance_of(&a), 100);
    assert_eq!(s.survey.participants_count, 1);

    // Payout to B succeeds and empties the vault.
    let b = addr(4);
    pay(&mut s, &ctl, &b, "claim-b").unwrap();
    assert_eq!(s.bank.balance_of(&s.vault), 0);
    assert_eq!(s.bank.balance_of(&b), 100);
    assert_eq!(s.survey.participants_count, 2);

    // Payout to C hits the cap.
    let c = addr(5);
    let r = pay(&mut s, &ctl, &c, "claim-c");
    assert_eq!(r.unwrap_err(), SurveyErrors::ParticipantsLimitReached);
    assert_eq!(s.survey.participants_count, 2);
}

#[test]
fn payout_records_the_claim() {
    let mut s = setup();
    let ctl = s.controller.dup();
    fund(&mut s, 200, 0).unwrap();
    let a = addr(3);
    pay(&mut s, &ctl, &a, "claim-a").unwrap();
    assert_eq!(s.registry.claim_for(&a).unwrap().as_str(), "claim-a");
    assert!(s.registry.claim_for(&addr(4)).is_none());
    assert_eq!(s.registry.count(), 1);
}

#[test]
fn fund_below_the_obligation_is_rejected_with_no_movement() {
    let mut s = setup();
    // limit 2 x reward 100 = 200; 199 is not enough.
    let r = fund(&mut s, 199, 10);
    assert_eq!(r.unwrap_err(), SurveyErrors::InsufficientFunds);
    assert_eq!(s.bank.balance_of(&s.vault), 0);
    assert_eq!(s.bank.balance_of(&s.controller), 0);
    assert_eq!(s.bank.balance_of(&s.creator), 1000);
}

#[test]
fn fund_with_a_wrong_controller_address_is_rejected_with_no_movement() {
    let mut s = setup();
    let wrong = addr(8);
    let r = fund_survey(
        &s.survey,
        &mut s.bank,
        &s.program,
        &s.creator,
        &s.survey_addr,
        &s.vault,
        &wrong,
        200,
        10,
    );
    assert_eq!(r.unwrap_err(), SurveyErrors::WrongController);
    assert_eq!(s.bank.balance_of(&s.vault), 0);
    assert_eq!(s.bank.balance_of(&wrong), 0);
    assert_eq!(s.bank.balance_of(&s.creator), 1000);
}

#[test]
fn fund_with_a_poor_caller_aborts_whole() {
    let mut s = setup();
    // 1000 covers the amount but not the fee on top.
    let r = fund(&mut s, 1000, 1);
    assert_eq!(r.unwrap_err(), SurveyErrors::TransferFailed);
    assert_eq!(s.bank.balance_of(&s.vault), 0);
    assert_eq!(s.bank.balance_of(&s.controller), 0);
    assert_eq!(s.bank.balance_of(&s.creator), 1000);
}

#[test]
fn payout_by_a_non_controller_is_rejected() {
    let mut s = setup();
    fund(&mut s, 200, 0).unwrap();
    let outsider = addr(8);
    let r = pay(&mut s, &outsider, &addr(3), "claim");
    assert_eq!(r.unwrap_err(), SurveyErrors::WrongController);
    assert_eq!(s.bank.balance_of(&s.vault), 200);
    assert_eq!(s.survey.participants_count, 0);
    assert_eq!(s.registry.count(), 0);
}

#[test]
fn payout_from_an_empty_vault_aborts_whole() {
    let mut s = setup();
    let ctl = s.controller.dup();
    let r = pay(&mut s, &ctl, &addr(3), "claim");
    assert_eq!(r.unwrap_err(), SurveyErrors::TransferFailed);
    assert_eq!(s.survey.participants_count, 0);
    assert_eq!(s.registry.count(), 0);
}

#[test]
fn change_controller_by_current_controller_succeeds() {
    let mut s = setup();
    let ctl = s.controller.dup();
    let new_ctl = addr(11);
    change_controller(&mut s.survey, &s.program, &ctl, &s.creator, &s.survey_addr, new_ctl.dup())
        .unwrap();
    assert_eq!(s.survey.controller.bytes, new_ctl.bytes);
    assert_eq!(s.survey.owner.bytes, s.creator.bytes);

    // The old controller lost the payout right; the new one has it.
    fund_survey(
        &s.survey,
        &mut s.bank,
        &s.program,
        &s.creator,
        &s.survey_addr,
        &s.vault,
        &new_ctl,
        200,
        0,
    )
    .unwrap();
    let r = pay(&mut s, &ctl, &addr(3), "claim");
    assert_eq!(r.unwrap_err(), SurveyErrors::WrongController);
    pay(&mut s, &new_ctl, &addr(3), "claim").unwrap();
}

#[test]
fn change_controller_by_anyone_else_is_rejected() {
    let mut s = setup();
    let outsider = addr(8);
    let r = change_controller(
        &mut s.survey,
        &s.program,
        &outsider,
        &s.creator,
        &s.survey_addr,
        addr(11),
    );
    assert_eq!(r.unwrap_err(), SurveyErrors::WrongController);
    assert_eq!(s.survey.controller.bytes, s.controller.bytes);
}

#[test]
fn register_participant_once_then_duplicate() {
    let mut s = setup();
    let ctl = s.controller.dup();
    let a = addr(3);
    register_participant(
        &s.survey,
        &mut s.registry,
        &s.program,
        &ctl,
        &s.creator,
        &s.survey_addr,
        &a,
        String::from("claim-a"),
    )
    .unwrap();
    assert_eq!(s.registry.count(), 1);
    let r = register_participant(
        &s.survey,
        &mut s.registry,
        &s.program,
        &ctl,
        &s.creator,
        &s.survey_addr,
        &a,
        String::from("claim-a"),
    );
    assert_eq!(r.unwrap_err(), SurveyErrors::DuplicateParticipant);
    assert_eq!(s.registry.count(), 1);
}

#[test]
fn emergency_withdraw_drains_the_vault_to_the_owner() {
    let mut s = setup();
    let ctl = s.controller.dup();
    fund(&mut s, 250, 0).unwrap();
    emergency_withdraw(
        &s.survey,
        &mut s.bank,
        &s.program,
        &ctl,
        &s.creator,
        &s.survey_addr,
        &s.vault,
    )
    .unwrap();
    assert_eq!(s.bank.balance_of(&s.vault), 0);
    assert_eq!(s.bank.balance_of(&s.creator), 1000);
}

#[test]
fn emergency_withdraw_of_an_empty_vault_is_a_success() {
    let mut s = setup();
    let ctl = s.controller.dup();
    let creator_before = s.bank.balance_of(&s.creator);
    emergency_withdraw(
        &s.survey,
        &mut s.bank,
        &s.program,
        &ctl,
        &s.creator,
        &s.survey_addr,
        &s.vault,
    )
    .unwrap();
    assert_eq!(s.bank.balance_of(&s.vault), 0);
    assert_eq!(s.bank.balance_of(&s.creator), creator_before);
}

#[test]
fn emergency_withdraw_needs_the_recorded_owner() {
    let mut s = setup();
    let ctl = s.controller.dup();
    fund(&mut s, 200, 0).unwrap();
    // The record claims another owner than the presented address.
    s.survey.owner = addr(12);
    let r = emergency_withdraw(
        &s.survey,
        &mut s.bank,
        &s.program,
        &ctl,
        &s.creator,
        &s.survey_addr,
        &s.vault,
    );
    assert_eq!(r.unwrap_err(), SurveyErrors::NotTheOwner);
    assert_eq!(s.bank.balance_of(&s.vault), 200);
}

#[test]
fn emergency_withdraw_by_a_non_controller_is_rejected() {
    let mut s = setup();
    fund(&mut s, 200, 0).unwrap();
    let outsider = addr(8);
    let r = emergency_withdraw(
        &s.survey,
        &mut s.bank,
        &s.program,
        &outsider,
        &s.creator,
        &s.survey_addr,
        &s.vault,
    );
    assert_eq!(r.unwrap_err(), SurveyErrors::WrongController);
    assert_eq!(s.bank.balance_of(&s.vault), 200);
}

#[test]
fn operations_reject_a_mismatched_survey_address() {
    let mut s = setup();
    let ctl = s.controller.dup();
    let bogus = addr(42);
    let r = fund_survey(
        &s.survey,
        &mut s.bank,
        &s.program,
        &s.creator,
        &bogus,
        &s.vault,
        &s.controller,
        200,
        0,
    );
    assert_eq!(r.unwrap_err(), SurveyErrors::AddressMismatch);
    let r = payout(
        &mut s.survey,
        &mut s.registry,
        &mut s.bank,
        &s.program,
        &ctl,
        &s.creator,
        &bogus,
        &s.vault,
        &addr(3),
        String::from("claim"),
    );
    assert_eq!(r.unwrap_err(), SurveyErrors::AddressMismatch);
    assert_eq!(s.bank.balance_of(&s.creator), 1000);
}

#[test]
fn a_registered_participant_cannot_be_paid() {
    let mut s = setup();
    let ctl = s.controller.dup();
    fund(&mut s, 200, 0).unwrap();
    let a = addr(3);
    register_participant(
        &s.survey,
        &mut s.registry,
        &s.program,
        &ctl,
        &s.creator,
        &s.survey_addr,
        &a,
        String::from("claim-a"),
    )
    .unwrap();
    let r = pay(&mut s, &ctl, &a, "claim-a");
    assert_eq!(r.unwrap_err(), SurveyErrors::DuplicateParticipant);
    assert_eq!(s.bank.balance_of(&s.vault), 200);
    assert_eq!(s.survey.participants_count, 0);
}

#[test]
fn funding_floor_is_mathematical_even_past_the_machine_word() {
    // limit x reward exceeds u64, so no u64 amount can ever cover it.
    let program = addr(1);
    let creator = addr(2);
    let (survey_addr, _) = derive_survey_address(&program, &creator, 8).unwrap();
    let (vault, _) = derive_vault_address(&program, &survey_addr, &creator).unwrap();
    let survey = init_survey(
        &program,
        &creator,
        8,
        String::from("uuid-8"),
        addr(9),
        u64::MAX,
        2,
        &survey_addr,
        &vault,
    )
    .unwrap();
    let mut bank = Bank::new();
    bank.credit(&creator, u64::MAX).unwrap();
    let r = fund_survey(
        &survey,
        &mut bank,
        &program,
        &creator,
        &survey_addr,
        &vault,
        &addr(9),
        u64::MAX,
        0,
    );
    assert_eq!(r.unwrap_err(), SurveyErrors::InsufficientFunds);
    assert_eq!(bank.balance_of(&creator), u64::MAX);
}
