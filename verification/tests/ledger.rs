use qstn_survey::address::Address;
use qstn_survey::bank::Bank;
use qstn_survey::counters::Reward;
use qstn_survey::counters::Survey;
use qstn_survey::counters::create_reward;
use qstn_survey::counters::create_survey;
use qstn_survey::counters::increment_survey;
use qstn_survey::counters::update_reward;
use qstn_survey::errors::SurveyErrors;

fn addr(tag: u8) -> Address {
    Address::from_bytes(vec![tag; 32])
}

#[test]
fn a_fresh_account_has_a_zero_balance() {
    let bank = Bank::new();
    assert_eq!(bank.balance_of(&addr(1)), 0);
}

#[test]
fn credit_then_transfer_moves_the_exact_amount() {
    let mut bank = Bank::new();
    let x = addr(1);
    let y = addr(2);
    bank.credit(&x, 100).unwrap();
    bank.transfer(&x, &y, 30).unwrap();
    assert_eq!(bank.balance_of(&x), 70);
    assert_eq!(bank.balance_of(&y), 30);
}

#[test]
fn transfer_beyond_the_balance_is_rejected_unchanged() {
    let mut bank = Bank::new();
    let x = addr(1);
    let y = addr(2);
    bank.credit(&x, 100).unwrap();
    let r = bank.transfer(&x, &y, 101);
    assert_eq!(r.unwrap_err(), SurveyErrors::TransferFailed);
    assert_eq!(bank.balance_of(&x), 100);
    assert_eq!(bank.balance_of(&y), 0);
}

#[test]
fn transfer_to_the_same_address_changes_nothing() {
    let mut bank = Bank::new();
    let x = addr(1);
    bank.credit(&x, 100).unwrap();
    bank.transfer(&x, &x, 40).unwrap();
    assert_eq!(bank.balance_of(&x), 100);
}

#[test]
fn credit_that_would_overflow_is_rejected() {
    let mut bank = Bank::new();
    let x = addr(1);
    bank.credit(&x, u64::MAX).unwrap();
    let r = bank.credit(&x, 1);
    assert_eq!(r.unwrap_err(), SurveyErrors::TransferFailed);
    assert_eq!(bank.balance_of(&x), u64::MAX);
}

#[test]
fn survey_counter_counts_completions() {
    let mut s: Survey = create_survey(253);
    assert_eq!(s.bump, 253);
    assert_eq!(s.count, 0);
    increment_survey(&mut s);
    increment_survey(&mut s);
    assert_eq!(s.count, 2);
}

#[test]
fn reward_counter_settles_up_to_the_survey_counter() {
    let mut s: Survey = create_survey(253);
    let mut r: Reward = create_reward(252);
    increment_survey(&mut s);
    increment_survey(&mut s);
    increment_survey(&mut s);
    update_reward(&mut r, &s);
    assert_eq!(r, Reward { bump: 252, count: 3 });
    update_reward(&mut r, &s);
    assert_eq!(r.count, 3);
}
