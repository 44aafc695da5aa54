use chrono::Datelike;

use njord::account::Account;
use njord::amount::{sums_to_zero, Amount};
use njord::client_credentials::ClientCredentials;
use njord::data::Count;
use njord::date::Date;
use njord::http_interface::accounts::{AccountDetails, BookedTransaction};
use njord::http_interface::token_new;
use njord::http_interface::token_refresh;
use njord::ingest::{raw_transactions_of, select_unseen, SeenTransactions};
use njord::institution::Institution;
use njord::interactions::ReuseConfirm;
use njord::ledger::OutputFormat;
use njord::requisition::available_accounts;
use njord::state::RequisitionStatus;
use njord::token::{Token, TokenAction, TokenPart};
use njord::transaction::{RawTransaction, Transaction, TransferTransaction};

fn account(id: &str) -> Account {
    Account {
        id: id.to_string(),
        bban: None,
        iban: None,
        status: "enabled".to_string(),
        name: None,
        display_name: None,
    }
}

fn date(y: i32, m: u32, d: u32) -> Date {
    Date { day_number: chrono::NaiveDate::from_ymd_opt(y, m, d).unwrap().num_days_from_ce() }
}

#[test]
fn amounts_normalize_and_compare_by_value() {
    // 50.00 and 50 and 50.000 are one value.
    assert_eq!(Amount::new(false, 5000, 2), Amount::new(false, 50, 0));
    assert_eq!(Amount::new(false, 50000, 3), Amount::new(false, 50, 0));
    // 49.99 is not 50.00.
    assert_ne!(Amount::new(false, 4999, 2), Amount::new(false, 5000, 2));
    // Zero is one value whatever the sign or scale it arrived with.
    assert_eq!(Amount::new(true, 0, 7), Amount::new(false, 0, 0));
}

#[test]
fn zero_sum_is_exact() {
    let debit = Amount::new(true, 5000, 2);
    let credit = Amount::new(false, 50, 0);
    assert!(sums_to_zero(&debit, &credit));
    assert!(!sums_to_zero(&debit, &Amount::new(false, 4999, 2)));
    assert!(!sums_to_zero(&debit, &debit));
    // Two zeros sum to zero.
    assert!(sums_to_zero(&Amount::new(false, 0, 0), &Amount::new(true, 0, 3)));
}

#[test]
fn amount_sign_and_absolute_value() {
    let debit = Amount::new(true, 123, 2);
    assert!(debit.is_negative());
    assert!(!debit.abs().is_negative());
    assert_eq!(debit.abs(), Amount::new(false, 123, 2));
    assert!(!Amount::new(false, 0, 0).is_negative());
}

#[test]
fn date_differences_are_signed_whole_days() {
    let a = date(2024, 3, 1);
    let b = date(2024, 3, 3);
    assert_eq!(a.days_since(&b), -2);
    assert_eq!(b.days_since(&a), 2);
    assert_eq!(a.days_since(&a), 0);
    // Across a leap day.
    assert_eq!(date(2024, 3, 1).days_since(&date(2024, 2, 27)), 3);
}

#[test]
fn account_labels_fall_back_in_order() {
    let mut acc = account("ID9");
    assert_eq!(acc.display_label(), "ID9");
    acc.iban = Some("SE00 0000".to_string());
    assert_eq!(acc.display_label(), "SE00 0000");
    acc.bban = Some("1234-5".to_string());
    assert_eq!(acc.display_label(), "1234-5");
    acc.name = Some("Salary".to_string());
    assert_eq!(acc.display_label(), "Salary");
    acc.display_name = Some("My salary".to_string());
    assert_eq!(acc.display_label(), "My salary");
}

#[test]
fn account_availability_is_the_enabled_status() {
    assert!(account("A").is_available());
    let mut suspended = account("B");
    suspended.status = "suspended".to_string();
    assert!(!suspended.is_available());
    let kept = available_accounts(vec![account("A"), suspended, account("C")]);
    assert_eq!(kept.len(), 2);
    assert_eq!(kept[0].id, "A");
    assert_eq!(kept[1].id, "C");
}

#[test]
fn requisition_status_codes_round_trip() {
    assert_eq!(RequisitionStatus::from_code("CR"), Some(RequisitionStatus::Created));
    assert_eq!(RequisitionStatus::from_code("GC"), Some(RequisitionStatus::GivingConsent));
    assert_eq!(
        RequisitionStatus::from_code("UA"),
        Some(RequisitionStatus::UndergoingAuthentication)
    );
    assert_eq!(RequisitionStatus::from_code("RJ"), Some(RequisitionStatus::Rejected));
    assert_eq!(RequisitionStatus::from_code("SA"), Some(RequisitionStatus::SelectingAccounts));
    assert_eq!(RequisitionStatus::from_code("GA"), Some(RequisitionStatus::GrantingAccess));
    assert_eq!(RequisitionStatus::from_code("LN"), Some(RequisitionStatus::Linked));
    assert_eq!(RequisitionStatus::from_code("SU"), Some(RequisitionStatus::Suspended));
    assert_eq!(RequisitionStatus::from_code("EX"), Some(RequisitionStatus::Expired));
    assert_eq!(RequisitionStatus::from_code("??"), None);
    assert_eq!(RequisitionStatus::from_code(""), None);
}

#[test]
fn count_increments_from_missing_or_present() {
    let first = Count::incremented("home".to_string(), None);
    assert_eq!(first.count, 1);
    assert_eq!(first.target, "home");
    let second = Count::incremented("home".to_string(), Some(&first));
    assert_eq!(second.count, 2);
}

#[test]
fn token_policy_uses_refreshes_and_renews() {
    let token = Token {
        access: TokenPart { secret: "acc".to_string(), expires_at: 1_000 },
        refresh: TokenPart { secret: "ref".to_string(), expires_at: 2_000 },
    };
    // Well before expiry, and up to 29 seconds past it, the access secret
    // still serves.
    assert_eq!(token.next_action(900), TokenAction::UseAccess);
    assert_eq!(token.next_action(1_029), TokenAction::UseAccess);
    // Thirty seconds past access expiry the refresh secret takes over.
    assert_eq!(token.next_action(1_030), TokenAction::Refresh);
    // Thirty seconds past refresh expiry the whole token is renewed.
    assert_eq!(token.next_action(2_030), TokenAction::Renew);
}

#[test]
fn token_expiries_measure_from_the_request_instant() {
    let granted = token_new::PostResponseBody {
        access: "a1".to_string(),
        access_expires: 600,
        refresh: "r1".to_string(),
        refresh_expires: 3_600,
    };
    let mut token = Token::from_response(10_000, granted);
    assert_eq!(token.access.expires_at, 10_600);
    assert_eq!(token.refresh.expires_at, 13_600);
    let refreshed = token_refresh::PostResponseBody { access: "a2".to_string(), access_expires: 600 };
    token.apply_refresh(12_000, refreshed);
    assert_eq!(token.access.secret, "a2");
    assert_eq!(token.access.expires_at, 12_600);
    assert_eq!(token.refresh.secret, "r1");
}

#[test]
fn seen_transactions_deduplicate_per_account() {
    let mut seen = SeenTransactions::new();
    let acc = "A1".to_string();
    let tx = "T1".to_string();
    assert!(seen.observe(&acc, &tx));
    assert!(!seen.observe(&acc, &tx));
    // The same transaction id under another account is fresh.
    assert!(seen.observe(&"A2".to_string(), &tx));
}

#[test]
fn select_unseen_keeps_only_fresh_transactions_in_order() {
    let acc = account("A1");
    let tx = |id: &str| RawTransaction {
        account: "A1".to_string(),
        date: date(2024, 1, 1),
        currency: "EUR".to_string(),
        amount: Amount::new(true, 100, 2),
        additional_info: String::new(),
        id: id.to_string(),
    };
    let mut seen = SeenTransactions::new();
    assert!(seen.observe(&"A1".to_string(), &"T2".to_string()));
    let batch = vec![tx("T1"), tx("T2"), tx("T3"), tx("T1")];
    let picked = select_unseen(&mut seen, &acc, &batch);
    let ids: Vec<&str> = picked.iter().map(|(t, _)| t.id.as_str()).collect();
    assert_eq!(ids, vec!["T1", "T3"]);
    assert!(picked.iter().all(|(_, a)| a.id == "A1"));
}

#[test]
fn booked_listing_lifts_to_raw_transactions() {
    let booked = vec![BookedTransaction {
        value_date: date(2024, 6, 5),
        amount: Amount::new(true, 999, 2),
        currency: "EUR".to_string(),
        transaction_id: "T9".to_string(),
        additional_information: "coffee".to_string(),
    }];
    let raws = raw_transactions_of(&"A7".to_string(), &booked);
    assert_eq!(raws.len(), 1);
    assert_eq!(raws[0].account, "A7");
    assert_eq!(raws[0].id, "T9");
    assert_eq!(raws[0].additional_info, "coffee");
    assert_eq!(raws[0].date, date(2024, 6, 5));
}

#[test]
fn institution_listing_and_label() {
    let institution = Institution {
        id: "BANK_SE".to_string(),
        name: "Bank".to_string(),
        countries: vec!["SE".to_string(), "NO".to_string()],
        requisition_id: None,
    };
    assert_eq!(institution.display_label(), "Bank [SE, NO]");
    let lonely = Institution {
        id: "B2".to_string(),
        name: "Solo".to_string(),
        countries: vec!["FI".to_string()],
        requisition_id: None,
    };
    assert_eq!(lonely.display_label(), "Solo [FI]");
}

#[test]
fn reuse_is_never_offered_on_an_empty_selection() {
    let none: Vec<Institution> = Vec::new();
    assert!(ReuseConfirm::new(&none).nothing_to_reuse());
    let some = vec![Institution {
        id: "B".to_string(),
        name: "Bank".to_string(),
        countries: vec![],
        requisition_id: None,
    }];
    assert!(!ReuseConfirm::new(&some).nothing_to_reuse());
}

#[test]
fn credentials_become_a_token_request_body() {
    let creds = ClientCredentials::new("the-id".to_string(), "the-secret".to_string());
    let body = token_new::PostRequestBody::of_credentials(&creds);
    assert_eq!(body.secret_id, "the-id");
    assert_eq!(body.secret_key, "the-secret");
}

#[test]
fn account_details_resolve_under_the_requested_id() {
    let details = AccountDetails {
        bban: None,
        iban: Some("SE12".to_string()),
        status: "enabled".to_string(),
        name: Some("Main".to_string()),
        display_name: None,
    };
    let acc = njord::requisition::account_from_details("A5".to_string(), details);
    assert_eq!(acc.id, "A5");
    assert_eq!(acc.name.as_deref(), Some("Main"));
    assert!(acc.is_available());
}

#[test]
fn ledger_rows_render_both_variants() {
    let normal = Transaction::Normal(njord::transaction::NormalTransaction {
        account: account("A1"),
        amount: Amount::new(true, 1500, 2),
        currency: "EUR".to_string(),
        date: date(2024, 1, 2),
        additional_info: "groceries".to_string(),
    });
    let row = OutputFormat::from_transaction(&normal);
    assert_eq!(row.account_from, "A1");
    assert_eq!(row.account_to, None);
    assert_eq!(row.amount, Amount::new(true, 1500, 2));
    assert_eq!(row.description, "groceries");

    let mut to_acc = account("A2");
    to_acc.display_name = Some("Savings".to_string());
    let transfer = Transaction::Transfer(TransferTransaction {
        from: account("A1"),
        to: to_acc,
        amount: Amount::new(false, 1500, 2),
        currency: "EUR".to_string(),
        date: date(2024, 1, 2),
        from_additional_info: "out".to_string(),
        to_additional_info: "in".to_string(),
    });
    let row = OutputFormat::from_transaction(&transfer);
    assert_eq!(row.account_from, "A1");
    assert_eq!(row.account_to.as_deref(), Some("Savings"));
    assert_eq!(row.description, "from: out to: in");
    assert_eq!(row.amount, Amount::new(false, 1500, 2));
}
