use chrono::Datelike;

use njord::account::Account;
use njord::amount::Amount;
use njord::date::Date;
use njord::driver::{match_transactions, Matcher, StepOutcome};
use njord::matcher::ScoredCandidate;
use njord::transaction::{NormalTransaction, RawTransaction, Transaction};

fn account(id: &str) -> Account {
    Account {
        id: id.to_string(),
        bban: None,
        iban: None,
        status: "enabled".to_string(),
        name: None,
        display_name: None,
    }
}

fn date(y: i32, m: u32, d: u32) -> Date {
    Date { day_number: chrono::NaiveDate::from_ymd_opt(y, m, d).unwrap().num_days_from_ce() }
}

fn raw(
    id: &str,
    account_id: &str,
    on: Date,
    negative: bool,
    cents: u128,
    currency: &str,
    info: &str,
) -> RawTransaction {
    RawTransaction {
        account: account_id.to_string(),
        date: on,
        currency: currency.to_string(),
        amount: Amount::new(negative, cents, 2),
        additional_info: info.to_string(),
        id: id.to_string(),
    }
}

fn pair(tx: RawTransaction, acc: &Account) -> (RawTransaction, Account) {
    (tx, acc.clone())
}

fn classify_all(input: &[(RawTransaction, Account)]) -> Vec<Transaction> {
    input
        .iter()
        .map(|(tx, acc)| Transaction::Normal(NormalTransaction::classify(tx, acc)))
        .collect()
}

/// Drives the matcher with a fixed oracle policy: `pick` of `None` declines
/// every prompt, `Some(k)` always chooses entry `k` (clamped).
fn run_with_policy(
    list: Vec<Transaction>,
    pick: Option<usize>,
    prompts: &mut Vec<Vec<ScoredCandidate>>,
) -> Vec<Transaction> {
    let mut m = Matcher::new(list);
    while !m.done() {
        match m.step() {
            StepOutcome::Advanced => {}
            StepOutcome::HumanNeeded(candidates) => {
                prompts.push(candidates.clone());
                let choice = pick.map(|k| k.min(candidates.len() - 1));
                m.resolve(&candidates, choice);
            }
        }
    }
    m.into_ledger()
}

#[test]
fn obvious_match_fuses_one_transfer() {
    // S1: two same-day legs, equal and opposite, different accounts.
    let a1 = account("A1");
    let a2 = account("A2");
    let input = vec![
        pair(raw("t1", "A1", date(2024, 1, 10), true, 5000, "EUR", "rent out"), &a1),
        pair(raw("t2", "A2", date(2024, 1, 10), false, 5000, "EUR", "rent in"), &a2),
    ];
    let out = match_transactions(&input);
    assert_eq!(out.len(), 1);
    match &out[0] {
        Transaction::Transfer(t) => {
            assert_eq!(t.from.id, "A1");
            assert_eq!(t.to.id, "A2");
            assert_eq!(t.amount, Amount::new(false, 5000, 2));
            assert_eq!(t.currency, "EUR");
            assert_eq!(t.date, date(2024, 1, 10));
            assert_eq!(t.from_additional_info, "rent out");
            assert_eq!(t.to_additional_info, "rent in");
        }
        Transaction::Normal(_) => panic!("expected a transfer"),
    }
}

#[test]
fn amount_mismatch_stays_normal() {
    // S2: amounts do not cancel exactly.
    let a1 = account("A1");
    let a2 = account("A2");
    let input = vec![
        pair(raw("t1", "A1", date(2024, 2, 1), true, 5000, "EUR", "x"), &a1),
        pair(raw("t2", "A2", date(2024, 2, 1), false, 4999, "EUR", "y"), &a2),
    ];
    let out = match_transactions(&input);
    assert_eq!(out.len(), 2);
    assert!(matches!(out[0], Transaction::Normal(_)));
    assert!(matches!(out[1], Transaction::Normal(_)));
    match (&out[0], &out[1]) {
        (Transaction::Normal(first), Transaction::Normal(second)) => {
            assert_eq!(first.account.id, "A1");
            assert_eq!(second.account.id, "A2");
        }
        _ => panic!("expected two normals"),
    }
}

#[test]
fn close_single_candidate_prompts_and_follows_the_choice() {
    // S3: one candidate two days off; the oracle is consulted.
    let a1 = account("A1");
    let a2 = account("A2");
    let input = vec![
        pair(raw("t1", "A1", date(2024, 3, 1), true, 10000, "EUR", "a"), &a1),
        pair(raw("t2", "A2", date(2024, 3, 3), false, 10000, "EUR", "b"), &a2),
    ];

    // Declined: both stay normal.
    let mut prompts = Vec::new();
    let declined = run_with_policy(classify_all(&input), None, &mut prompts);
    assert_eq!(prompts.len(), 1);
    assert_eq!(prompts[0].len(), 1);
    assert_eq!(prompts[0][0].index, 0);
    assert_eq!(prompts[0][0].score, -2);
    assert_eq!(declined.len(), 2);
    assert!(matches!(declined[0], Transaction::Normal(_)));
    assert!(matches!(declined[1], Transaction::Normal(_)));

    // Accepted: one transfer dated by the debit side.
    let mut prompts = Vec::new();
    let accepted = run_with_policy(classify_all(&input), Some(0), &mut prompts);
    assert_eq!(accepted.len(), 1);
    match &accepted[0] {
        Transaction::Transfer(t) => {
            assert_eq!(t.from.id, "A1");
            assert_eq!(t.to.id, "A2");
            assert_eq!(t.date, date(2024, 3, 1));
        }
        Transaction::Normal(_) => panic!("expected a transfer"),
    }
}

#[test]
fn two_perfect_candidates_prompt_and_follow_the_choice() {
    // S4: two same-day perfect candidates; the human decides which.
    let a1 = account("A1");
    let a2 = account("A2");
    let a3 = account("A3");
    let input = vec![
        pair(raw("t1", "A1", date(2024, 4, 1), true, 2000, "EUR", "t"), &a1),
        pair(raw("t2", "A2", date(2024, 4, 1), false, 2000, "EUR", "x"), &a2),
        pair(raw("t3", "A3", date(2024, 4, 1), false, 2000, "EUR", "y"), &a3),
    ];

    let mut prompts = Vec::new();
    let first = run_with_policy(classify_all(&input), Some(0), &mut prompts);
    assert_eq!(prompts.len(), 1);
    assert_eq!(prompts[0].len(), 2);
    assert_eq!(first.len(), 2);
    match (&first[0], &first[1]) {
        (Transaction::Transfer(t), Transaction::Normal(rest)) => {
            assert_eq!(t.from.id, "A1");
            assert_eq!(t.to.id, "A2");
            assert_eq!(rest.account.id, "A3");
        }
        _ => panic!("expected a transfer then a normal"),
    }

    let mut prompts = Vec::new();
    let second = run_with_policy(classify_all(&input), Some(1), &mut prompts);
    assert_eq!(second.len(), 2);
    match (&second[0], &second[1]) {
        (Transaction::Transfer(t), Transaction::Normal(rest)) => {
            assert_eq!(t.from.id, "A1");
            assert_eq!(t.to.id, "A3");
            assert_eq!(rest.account.id, "A2");
        }
        _ => panic!("expected a transfer then a normal"),
    }
}

#[test]
fn five_day_gap_is_outside_the_open_window() {
    // S5: the window is open at five days.
    let a1 = account("A1");
    let a2 = account("A2");
    let input = vec![
        pair(raw("t1", "A1", date(2024, 5, 1), true, 1000, "EUR", ""), &a1),
        pair(raw("t2", "A2", date(2024, 5, 6), false, 1000, "EUR", ""), &a2),
    ];
    let mut prompts = Vec::new();
    let out = run_with_policy(classify_all(&input), Some(0), &mut prompts);
    assert_eq!(prompts.len(), 0);
    assert_eq!(out.len(), 2);
    assert!(matches!(out[0], Transaction::Normal(_)));
    assert!(matches!(out[1], Transaction::Normal(_)));
}

#[test]
fn currency_barrier_blocks_the_pair() {
    // S6: same day, equal and opposite, but different currencies.
    let a1 = account("A1");
    let a2 = account("A2");
    let input = vec![
        pair(raw("t1", "A1", date(2024, 6, 1), true, 1000, "EUR", ""), &a1),
        pair(raw("t2", "A2", date(2024, 6, 1), false, 1000, "USD", ""), &a2),
    ];
    let out = match_transactions(&input);
    assert_eq!(out.len(), 2);
    assert!(matches!(out[0], Transaction::Normal(_)));
    assert!(matches!(out[1], Transaction::Normal(_)));
}

#[test]
fn same_account_never_pairs() {
    // Two legs on one account cancel but are not a transfer.
    let a1 = account("A1");
    let input = vec![
        pair(raw("t1", "A1", date(2024, 7, 1), true, 1000, "EUR", ""), &a1),
        pair(raw("t2", "A1", date(2024, 7, 1), false, 1000, "EUR", ""), &a1),
    ];
    let out = match_transactions(&input);
    assert_eq!(out.len(), 2);
    assert!(matches!(out[0], Transaction::Normal(_)));
    assert!(matches!(out[1], Transaction::Normal(_)));
}

#[test]
fn first_normal_claims_its_match() {
    // Input order matters: the earliest target takes the unique perfect
    // partner; the later equal leg stays unmatched.
    let a1 = account("A1");
    let a2 = account("A2");
    let a3 = account("A3");
    let input = vec![
        pair(raw("t1", "A1", date(2024, 8, 1), true, 3000, "EUR", "first"), &a1),
        pair(raw("t2", "A3", date(2024, 8, 4), true, 3000, "EUR", "late debit"), &a3),
        pair(raw("t3", "A2", date(2024, 8, 1), false, 3000, "EUR", "credit"), &a2),
    ];
    let out = match_transactions(&input);
    assert_eq!(out.len(), 2);
    match (&out[0], &out[1]) {
        (Transaction::Transfer(t), Transaction::Normal(rest)) => {
            assert_eq!(t.from.id, "A1");
            assert_eq!(t.to.id, "A2");
            assert_eq!(rest.account.id, "A3");
        }
        _ => panic!("expected a transfer then a normal"),
    }
}
