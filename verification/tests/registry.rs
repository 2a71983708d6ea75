use cooler_alerts::registry::types::{from_rows, AlertDB, ErrorDB, SqlxAlertDB};
use cooler_alerts::registry::utils::{create_alert, mark};

fn row(alert_id: i64, webhook: Option<&str>, email: Option<&str>, active: bool) -> SqlxAlertDB {
    SqlxAlertDB {
        alert_id,
        external_rule_id: None,
        user_id: 77,
        cooler: "0x1111111111111111111111111111111111111111".to_string(),
        loan_id: 3,
        threshold: 5,
        webhook_url: webhook.map(|s| s.to_string()),
        email: email.map(|s| s.to_string()),
        active,
    }
}

#[test]
fn record_carries_every_column_of_its_row() {
    let alert = AlertDB::from(row(12, Some("https://hook"), None, true));
    assert_eq!(alert.get_alert_id(), 12);
    assert_eq!(alert.get_user_id(), 77);
    assert_eq!(alert.get_cooler(), "0x1111111111111111111111111111111111111111");
    assert_eq!(alert.get_loan_id(), 3);
    assert_eq!(alert.get_threshold(), 5);
    assert_eq!(alert.get_webhook_url(), Some("https://hook"));
    assert_eq!(alert.get_email(), None);
    assert!(alert.is_active());
    assert!(alert.is_well_formed());
}

#[test]
fn record_of_an_inactive_row_with_an_email() {
    let alert = AlertDB::from(row(1, None, Some("a@b.c"), false));
    assert_eq!(alert.get_webhook_url(), None);
    assert_eq!(alert.get_email(), Some("a@b.c"));
    assert!(!alert.is_active());
}

#[test]
fn record_without_channel_is_not_well_formed() {
    assert!(!AlertDB::from(row(1, None, None, true)).is_well_formed());
    let mut negative = row(1, Some("https://hook"), None, true);
    negative.threshold = -1;
    assert!(!AlertDB::from(negative).is_well_formed());
}

#[test]
fn duplicate_has_the_same_contents() {
    let alert = AlertDB::from(row(9, Some("https://hook"), Some("a@b.c"), true));
    let copy = alert.duplicate();
    assert_eq!(copy.get_alert_id(), 9);
    assert_eq!(copy.get_cooler(), alert.get_cooler());
    assert_eq!(copy.get_webhook_url(), Some("https://hook"));
    assert_eq!(copy.get_email(), Some("a@b.c"));
    assert!(copy.is_active());
}

#[test]
fn rows_become_records_in_order() {
    let alerts = from_rows(vec![
        row(1, Some("https://one"), None, true),
        row(2, None, Some("two@x.y"), false),
    ]);
    assert_eq!(alerts.len(), 2);
    assert_eq!(alerts[0].get_alert_id(), 1);
    assert_eq!(alerts[0].get_webhook_url(), Some("https://one"));
    assert_eq!(alerts[1].get_alert_id(), 2);
    assert_eq!(alerts[1].get_email(), Some("two@x.y"));
    assert!(!alerts[1].is_active());
    assert!(from_rows(Vec::new()).is_empty());
}

#[test]
fn storage_error_keeps_its_message() {
    assert_eq!(ErrorDB::new("no such table").message(), "no such table");
}

#[test]
fn marks_of_channels() {
    assert_eq!(mark(true), ":white_check_mark:");
    assert_eq!(mark(false), ":x:");
}

#[test]
fn new_alert_with_both_channels() {
    let creation = create_alert(
        5,
        "0xabc",
        2,
        7,
        Some("https://hook".to_string()),
        Some("a@b.c".to_string()),
    )
    .unwrap();
    assert_eq!(creation.email_check, ":white_check_mark:");
    assert_eq!(creation.webhook_check, ":white_check_mark:");
    assert_eq!(creation.row.user_id, 5);
    assert_eq!(creation.row.cooler, "0xabc");
    assert_eq!(creation.row.loan_id, 2);
    assert_eq!(creation.row.threshold, 7);
    assert_eq!(creation.row.webhook_url.as_deref(), Some("https://hook"));
    assert_eq!(creation.row.email.as_deref(), Some("a@b.c"));
    assert!(creation.row.active);
}

#[test]
fn new_alert_with_a_webhook_only() {
    let creation = create_alert(5, "0xabc", 2, 7, Some("https://hook".to_string()), None).unwrap();
    assert_eq!(creation.email_check, ":x:");
    assert_eq!(creation.webhook_check, ":white_check_mark:");
    assert_eq!(creation.row.email, None);
}

#[test]
fn new_alert_with_an_email_only() {
    let creation = create_alert(5, "0xabc", 2, 7, None, Some("a@b.c".to_string())).unwrap();
    assert_eq!(creation.email_check, ":white_check_mark:");
    assert_eq!(creation.webhook_check, ":x:");
    assert_eq!(creation.row.webhook_url, None);
}

#[test]
fn new_alert_without_channel_is_rejected() {
    let error = create_alert(5, "0xabc", 2, 7, None, None).unwrap_err();
    assert_eq!(error.message(), "Error when trying to create the alert. Please try again!");
}
