use cooler_alerts::listener::alerts::{dispatch, email_message, webhook_message, Notification};
use cooler_alerts::listener::{
    active_only, trips, Phase, Poller, PollerAction, PollerEvent, TimeToExpiry, RETRY_SECONDS,
    TICK_SECONDS,
};
use cooler_alerts::registry::types::{AlertDB, SqlxAlertDB};

const COOLER: &str = "0x4444444444444444444444444444444444444444";
const DAY: u64 = 86400;

fn row(alert_id: i64, loan_id: i64, threshold: i64, webhook: Option<&str>, email: Option<&str>) -> SqlxAlertDB {
    SqlxAlertDB {
        alert_id,
        external_rule_id: None,
        user_id: 1,
        cooler: COOLER.to_string(),
        loan_id,
        threshold,
        webhook_url: webhook.map(|s| s.to_string()),
        email: email.map(|s| s.to_string()),
        active: true,
    }
}

fn copy(row: &SqlxAlertDB) -> SqlxAlertDB {
    SqlxAlertDB {
        alert_id: row.alert_id,
        external_rule_id: row.external_rule_id,
        user_id: row.user_id,
        cooler: row.cooler.clone(),
        loan_id: row.loan_id,
        threshold: row.threshold,
        webhook_url: row.webhook_url.clone(),
        email: row.email.clone(),
        active: row.active,
    }
}

/// Everything around the poller: the stored rows, the time each loan has
/// left on the chain, and a record of what was asked for.
struct World {
    rows: Vec<SqlxAlertDB>,
    time_left: Vec<(i64, Option<u64>)>,
    storage_down: bool,
    failing_updates: usize,
    failing_sends: usize,
    log: Vec<String>,
}

impl World {
    fn new(rows: Vec<SqlxAlertDB>, time_left: Vec<(i64, Option<u64>)>) -> World {
        World { rows, time_left, storage_down: false, failing_updates: 0, failing_sends: 0, log: Vec::new() }
    }

    fn perform(&mut self, action: PollerAction) -> PollerEvent {
        match action {
            PollerAction::FetchActiveAlerts => {
                self.log.push("fetch".to_string());
                if self.storage_down {
                    return PollerEvent::AlertsFetched(None);
                }
                let active = self.rows.iter().filter(|r| r.active).map(|r| AlertDB::from(copy(r))).collect();
                PollerEvent::AlertsFetched(Some(active))
            }
            PollerAction::ReadExpiry { cooler, loan_id } => {
                assert_eq!(cooler, COOLER);
                self.log.push(format!("read {}", loan_id));
                let found = self.time_left.iter().find(|(id, _)| *id == loan_id).and_then(|(_, t)| *t);
                PollerEvent::ExpiryRead(found.map(TimeToExpiry::from_seconds))
            }
            PollerAction::Notify(Notification::Webhook(message)) => {
                self.log.push(format!("webhook {} {}", message.url, message.embed.fields[1].value));
                self.sent()
            }
            PollerAction::Notify(Notification::Email(message)) => {
                self.log.push(format!("email {}", message.to));
                self.sent()
            }
            PollerAction::Deactivate { alert_id } => {
                self.log.push(format!("deactivate {}", alert_id));
                if self.failing_updates > 0 {
                    self.failing_updates -= 1;
                    return PollerEvent::DeactivationDone(false);
                }
                for row in self.rows.iter_mut() {
                    if row.alert_id == alert_id {
                        row.active = false;
                    }
                }
                PollerEvent::DeactivationDone(true)
            }
            PollerAction::Sleep { seconds } => {
                self.log.push(format!("sleep {}", seconds));
                PollerEvent::Slept
            }
        }
    }

    fn sent(&mut self) -> PollerEvent {
        if self.failing_sends > 0 {
            self.failing_sends -= 1;
            PollerEvent::NotificationSent(false)
        } else {
            PollerEvent::NotificationSent(true)
        }
    }

    /// Runs one tick: from the fetch to the end of the sleep that follows.
    fn tick(&mut self, poller: &mut Poller) -> Vec<String> {
        self.log.clear();
        assert_eq!(poller.phase(), Phase::Fetching);
        let mut action = poller.pending_action();
        loop {
            let event = self.perform(action);
            action = poller.step(event);
            if poller.phase() == Phase::Fetching {
                return self.log.clone();
            }
        }
    }
}

fn log(lines: &[&str]) -> Vec<String> {
    lines.iter().map(|s| s.to_string()).collect()
}

#[test]
fn trip_with_a_webhook_only() {
    let mut world = World::new(vec![row(1, 7, 5, Some("https://hook"), None)], vec![(7, Some(4 * DAY))]);
    let mut poller = Poller::new();
    let seen = world.tick(&mut poller);
    assert_eq!(seen, log(&["fetch", "read 7", "webhook https://hook 4 days", "deactivate 1", "sleep 30"]));
    assert!(!world.rows[0].active);
    assert_eq!(seen.iter().filter(|l| l.starts_with("email")).count(), 0);
    assert_eq!(seen.iter().filter(|l| l.starts_with("webhook")).count(), 1);
}

#[test]
fn no_trip_leaves_the_alert_alone() {
    let mut world = World::new(vec![row(1, 7, 5, Some("https://hook"), None)], vec![(7, Some(10 * DAY))]);
    let mut poller = Poller::new();
    let seen = world.tick(&mut poller);
    assert_eq!(seen, log(&["fetch", "read 7", "sleep 30"]));
    assert!(world.rows[0].active);
}

#[test]
fn deactivation_that_fails_twice_leaves_the_alert_active() {
    let mut world = World::new(vec![row(1, 7, 5, Some("https://hook"), None)], vec![(7, Some(4 * DAY))]);
    world.failing_updates = 2;
    let mut poller = Poller::new();
    let seen = world.tick(&mut poller);
    assert_eq!(
        seen,
        log(&[
            "fetch",
            "read 7",
            "webhook https://hook 4 days",
            "deactivate 1",
            "sleep 1",
            "deactivate 1",
            "sleep 30",
        ])
    );
    assert!(world.rows[0].active);
    let again = world.tick(&mut poller);
    assert_eq!(again, log(&["fetch", "read 7", "webhook https://hook 4 days", "deactivate 1", "sleep 30"]));
    assert!(!world.rows[0].active);
    let after = world.tick(&mut poller);
    assert_eq!(after, log(&["fetch", "sleep 30"]));
}

#[test]
fn deactivation_that_fails_once_succeeds_on_the_retry() {
    let mut world = World::new(vec![row(1, 7, 5, None, Some("a@b.c"))], vec![(7, Some(0))]);
    world.failing_updates = 1;
    let mut poller = Poller::new();
    let seen = world.tick(&mut poller);
    assert_eq!(
        seen,
        log(&["fetch", "read 7", "email a@b.c", "deactivate 1", "sleep 1", "deactivate 1", "sleep 30"])
    );
    assert!(!world.rows[0].active);
}

#[test]
fn both_channels_are_notified_before_the_deactivation() {
    let mut world = World::new(vec![row(3, 9, 2, Some("https://hook"), Some("a@b.c"))], vec![(9, Some(2 * DAY))]);
    let mut poller = Poller::new();
    let seen = world.tick(&mut poller);
    assert_eq!(
        seen,
        log(&["fetch", "read 9", "webhook https://hook 2 days", "email a@b.c", "deactivate 3", "sleep 30"])
    );
}

#[test]
fn a_failed_send_blocks_neither_the_other_channel_nor_the_deactivation() {
    let mut world = World::new(vec![row(3, 9, 2, Some("https://hook"), Some("a@b.c"))], vec![(9, Some(DAY))]);
    world.failing_sends = 2;
    let mut poller = Poller::new();
    let seen = world.tick(&mut poller);
    assert_eq!(
        seen,
        log(&["fetch", "read 9", "webhook https://hook 1 days", "email a@b.c", "deactivate 3", "sleep 30"])
    );
    assert!(!world.rows[0].active);
}

#[test]
fn a_failed_read_skips_the_alert_for_the_tick() {
    let rows = vec![row(1, 7, 5, Some("https://one"), None), row(2, 8, 5, Some("https://two"), None)];
    let mut world = World::new(rows, vec![(7, None), (8, Some(DAY))]);
    let mut poller = Poller::new();
    let seen = world.tick(&mut poller);
    assert_eq!(
        seen,
        log(&["fetch", "read 7", "read 8", "webhook https://two 1 days", "deactivate 2", "sleep 30"])
    );
    assert!(world.rows[0].active);
    assert!(!world.rows[1].active);
    world.time_left[0].1 = Some(5 * DAY);
    let next = world.tick(&mut poller);
    assert_eq!(next, log(&["fetch", "read 7", "webhook https://one 5 days", "deactivate 1", "sleep 30"]));
}

#[test]
fn inactive_alerts_are_never_read() {
    let mut rows = vec![
        row(1, 7, 5, Some("https://one"), None),
        row(2, 8, 5, Some("https://two"), None),
        row(3, 9, 5, Some("https://three"), None),
    ];
    rows[1].active = false;
    let mut poller = Poller::new();
    let mut action = poller.pending_action();
    assert!(matches!(action, PollerAction::FetchActiveAlerts));
    let fetched = rows.iter().map(|r| AlertDB::from(copy(r))).collect();
    action = poller.step(PollerEvent::AlertsFetched(Some(fetched)));
    let mut read = Vec::new();
    loop {
        match action {
            PollerAction::ReadExpiry { loan_id, .. } => {
                read.push(loan_id);
                action = poller.step(PollerEvent::ExpiryRead(Some(TimeToExpiry::from_seconds(100 * DAY))));
            }
            PollerAction::Sleep { seconds } => {
                assert_eq!(seconds, TICK_SECONDS);
                break;
            }
            _ => panic!("nothing trips in this tick"),
        }
    }
    assert_eq!(read, vec![7, 9]);
    let kept = active_only(&rows.iter().map(|r| AlertDB::from(copy(r))).collect());
    assert_eq!(kept.iter().map(|a| a.get_alert_id()).collect::<Vec<_>>(), vec![1, 3]);
}

#[test]
fn storage_failure_gives_an_empty_tick() {
    let mut world = World::new(vec![row(1, 7, 5, Some("https://hook"), None)], vec![(7, Some(0))]);
    world.storage_down = true;
    let mut poller = Poller::new();
    assert_eq!(world.tick(&mut poller), log(&["fetch", "sleep 30"]));
    world.storage_down = false;
    assert_eq!(
        world.tick(&mut poller),
        log(&["fetch", "read 7", "webhook https://hook 0 days", "deactivate 1", "sleep 30"])
    );
}

#[test]
fn an_alert_without_channel_is_deactivated_without_a_notification() {
    let mut world = World::new(vec![row(1, 7, 5, None, None)], vec![(7, Some(DAY))]);
    let mut poller = Poller::new();
    assert_eq!(world.tick(&mut poller), log(&["fetch", "read 7", "deactivate 1", "sleep 30"]));
    assert!(!world.rows[0].active);
}

#[test]
fn an_event_that_answers_nothing_changes_nothing() {
    let mut poller = Poller::new();
    let action = poller.step(PollerEvent::Slept);
    assert!(matches!(action, PollerAction::FetchActiveAlerts));
    assert_eq!(poller.phase(), Phase::Fetching);
    let alerts = vec![AlertDB::from(row(1, 7, 5, Some("https://hook"), None))];
    poller.step(PollerEvent::AlertsFetched(Some(alerts)));
    assert_eq!(poller.phase(), Phase::Reading);
    let action = poller.step(PollerEvent::DeactivationDone(true));
    assert!(matches!(action, PollerAction::ReadExpiry { loan_id: 7, .. }));
    assert_eq!(poller.phase(), Phase::Reading);
    let action = poller.step(PollerEvent::ExpiryRead(Some(TimeToExpiry::from_seconds(0))));
    assert!(matches!(action, PollerAction::Notify(Notification::Webhook(_))));
    assert_eq!(poller.phase(), Phase::Notifying(0));
    poller.step(PollerEvent::NotificationSent(true));
    assert_eq!(poller.phase(), Phase::Deactivating(false));
    let action = poller.step(PollerEvent::DeactivationDone(false));
    assert!(matches!(action, PollerAction::Sleep { seconds } if seconds == RETRY_SECONDS));
    assert_eq!(poller.phase(), Phase::BackingOff);
    poller.step(PollerEvent::Slept);
    assert_eq!(poller.phase(), Phase::Deactivating(true));
    poller.step(PollerEvent::DeactivationDone(false));
    assert_eq!(poller.phase(), Phase::Sleeping);
}

#[test]
fn trip_at_the_threshold_and_not_beyond() {
    assert_eq!(trips(&TimeToExpiry::from_seconds(5 * DAY), 5), Some(5));
    assert_eq!(trips(&TimeToExpiry::from_seconds(5 * DAY + 1), 5), None);
    assert_eq!(trips(&TimeToExpiry::from_seconds(5 * DAY - 1), 5), Some(4));
    assert_eq!(trips(&TimeToExpiry::from_seconds(0), 0), Some(0));
    assert_eq!(trips(&TimeToExpiry::from_seconds(1), 0), None);
    assert_eq!(trips(&TimeToExpiry::from_seconds(0), -1), None);
}

#[test]
fn time_left_beyond_64_bits() {
    assert_eq!(trips(&TimeToExpiry::from_limbs([0, 1, 0, 0]), 5), None);
    assert_eq!(trips(&TimeToExpiry::from_limbs([0, 0, 1, 0]), i64::MAX), None);
    assert_eq!(trips(&TimeToExpiry::from_limbs([0, 0, 0, 1]), i64::MAX), None);
    assert_eq!(trips(&TimeToExpiry::from_limbs([5, 0, 0, 0]), 1), Some(0));
    // 2^64 seconds are 213503982334601 whole days.
    assert_eq!(trips(&TimeToExpiry::from_limbs([0, 1, 0, 0]), 213503982334601), None);
    assert_eq!(trips(&TimeToExpiry::from_limbs([0, 1, 0, 0]), 213503982334602), Some(213503982334601));
    assert_eq!(trips(&TimeToExpiry::from_limbs([u64::MAX, u64::MAX, 0, 0]), i64::MAX), None);
    assert_eq!(
        trips(&TimeToExpiry::from_limbs([0, 43199, 0, 0]), i64::MAX),
        Some(9223158532872441206)
    );
}

#[test]
fn webhook_message_of_an_alert() {
    let message = webhook_message("https://hook", COOLER, 12, 3);
    assert_eq!(message.url, "https://hook");
    assert_eq!(message.username, "Webhook test");
    assert_eq!(message.content, "");
    assert_eq!(message.embed.title.as_deref(), Some("New Alert!"));
    assert_eq!(
        message.embed.description.as_deref(),
        Some("Cooler Contract: [0x4444444444444444444444444444444444444444](https://www.etherscan.io/address/0x4444444444444444444444444444444444444444) is about to expire!")
    );
    let fields: Vec<(&str, &str, bool)> =
        message.embed.fields.iter().map(|f| (f.name.as_str(), f.value.as_str(), f.inline)).collect();
    assert_eq!(fields, vec![("Loan ID", "12", true), ("Time Left", "3 days", true), (" ", " ", false)]);
    assert_eq!(
        message.embed.footer.as_deref(),
        Some("Remember that you can check your current alerts by using the slash command /list_alerts.")
    );
    assert_eq!(message.embed.color, Some(0xDB4B4B));
}

#[test]
fn email_of_an_alert() {
    let message = email_message("a@b.c", COOLER, 12, 3);
    assert_eq!(message.from, "Cooler Monitoring <test@gmail.com>");
    assert_eq!(message.to, "a@b.c");
    assert_eq!(message.subject, "New Cooler Alert!");
    assert_eq!(
        message.body,
        "Cooler: 0x4444444444444444444444444444444444444444 is about to expire!\n- Loan ID: 12\n- Time Left: 3 days\n\nhttps://www.etherscan.io/address/0x4444444444444444444444444444444444444444\n\nRemember that you can check your current alerts by using the slash command /list_alerts."
    );
}

#[test]
fn notifications_of_an_alert_by_its_channels() {
    let both = AlertDB::from(row(1, 7, 5, Some("https://hook"), Some("a@b.c")));
    let sent = dispatch(&both, 2);
    assert_eq!(sent.len(), 2);
    assert!(matches!(&sent[0], Notification::Webhook(m) if m.url == "https://hook"));
    assert!(matches!(&sent[1], Notification::Email(m) if m.to == "a@b.c" && m.body.contains("Time Left: 2 days")));
    let hook = AlertDB::from(row(1, 7, 5, Some("https://hook"), None));
    let sent = dispatch(&hook, 2);
    assert_eq!(sent.len(), 1);
    assert!(matches!(&sent[0], Notification::Webhook(_)));
    let mail = AlertDB::from(row(1, 7, 5, None, Some("a@b.c")));
    let sent = dispatch(&mail, 2);
    assert_eq!(sent.len(), 1);
    assert!(matches!(&sent[0], Notification::Email(_)));
    assert!(dispatch(&AlertDB::from(row(1, 7, 5, None, None)), 2).is_empty());
}

#[test]
fn an_alert_left_active_is_notified_again_behind_other_alerts() {
    let rows = vec![
        row(1, 7, 5, Some("https://one"), Some("one@x.y")),
        row(2, 8, 5, None, Some("two@x.y")),
        row(3, 9, 5, Some("https://three"), None),
    ];
    let mut world = World::new(rows, vec![(7, None), (8, Some(20 * DAY)), (9, Some(3 * DAY))]);
    world.failing_updates = 2;
    let mut poller = Poller::new();
    let first = world.tick(&mut poller);
    assert_eq!(
        first,
        log(&[
            "fetch",
            "read 7",
            "read 8",
            "read 9",
            "webhook https://three 3 days",
            "deactivate 3",
            "sleep 1",
            "deactivate 3",
            "sleep 30",
        ])
    );
    assert!(world.rows[2].active);
    world.time_left[0].1 = Some(DAY);
    world.failing_sends = 1;
    world.failing_updates = 1;
    let second = world.tick(&mut poller);
    assert_eq!(
        second,
        log(&[
            "fetch",
            "read 7",
            "webhook https://one 1 days",
            "email one@x.y",
            "deactivate 1",
            "sleep 1",
            "deactivate 1",
            "read 8",
            "read 9",
            "webhook https://three 3 days",
            "deactivate 3",
            "sleep 30",
        ])
    );
    assert!(!world.rows[0].active);
    assert!(world.rows[1].active);
    assert!(!world.rows[2].active);
}
