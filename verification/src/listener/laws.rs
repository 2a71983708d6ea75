//! What holds of the poller over every run.

use vstd::prelude::*;
use crate::listener::alerts::spec_dispatch;
use crate::listener::{
    spec_active_only, spec_days_left, spec_trips, Phase, PollerActionView, PollerEventView,
    PollerView, RETRY_SECONDS, TICK_SECONDS,
};
use crate::registry::types::AlertView;

verus! {

/// The chain is asked about active alerts only: whenever the next request
/// is a chain read, it is for the current alert of the tick, and that alert
/// is active.
pub proof fn lemma_reads_only_active(poller: PollerView, event: PollerEventView)
    requires
        poller.wf(),
    ensures
        poller.next(event).pending() is ReadExpiry ==> {
            let after = poller.next(event);
            &&& 0 <= after.pos < after.queue.len()
            &&& after.current().active
            &&& after.pending() == (PollerActionView::ReadExpiry {
                cooler: after.current().cooler,
                loan_id: after.current().loan_id,
            })
        },
{
    crate::listener::lemma_next_wf(poller, event);
}

/// An alert that is not active never enters a tick, whatever storage
/// returned: the tick runs over the active alerts of the list, in their
/// order.
pub proof fn lemma_inactive_never_queued(poller: PollerView, alerts: Seq<AlertView>, alert: AlertView)
    requires
        poller.phase == Phase::Fetching,
        !alert.active,
    ensures
        poller.next(PollerEventView::AlertsFetched(Some(alerts))).queue == spec_active_only(alerts),
        !poller.next(PollerEventView::AlertsFetched(Some(alerts))).queue.contains(alert),
{
    let queue = spec_active_only(alerts);
    if queue.contains(alert) {
        let i = choose|i: int| 0 <= i < queue.len() && queue[i] == alert;
        alerts.lemma_filter_pred(|a: AlertView| a.active, i);
    }
}

/// The alerts of a tick are fixed when the tick starts: no later event of
/// the tick adds one.
pub proof fn lemma_queue_fixed_within_tick(poller: PollerView, event: PollerEventView)
    requires
        poller.phase != Phase::Fetching,
    ensures
        poller.next(event).queue == poller.queue,
{
}

/// When the time left of an alert is at most its threshold, its
/// notifications are handed out, one for each channel it has and in their
/// order, and after them the deactivation of that alert is asked for. This
/// holds whether a notification was sent or not, and all of it comes
/// before the tick ends.
pub proof fn lemma_trip_notifies_then_deactivates(
    poller: PollerView,
    time_left: nat,
    first_sent: bool,
    second_sent: bool,
)
    requires
        poller.wf(),
        poller.phase == Phase::Reading,
        spec_trips(time_left, poller.current().threshold),
    ensures
        ({
            let alert = poller.current();
            let plan = spec_dispatch(alert, spec_days_left(time_left));
            let s1 = poller.next(PollerEventView::ExpiryRead(Some(time_left)));
            let s2 = s1.next(PollerEventView::NotificationSent(first_sent));
            let s3 = s2.next(PollerEventView::NotificationSent(second_sent));
            let deactivate = PollerActionView::Deactivate { alert_id: alert.alert_id };
            &&& plan.len() == alert.channel_count()
            &&& plan.len() <= 2
            &&& plan.len() == 0 ==> s1.pending() == deactivate
            &&& plan.len() == 1 ==> s1.pending() == PollerActionView::Notify(plan[0])
                && s2.pending() == deactivate
            &&& plan.len() == 2 ==> s1.pending() == PollerActionView::Notify(plan[0])
                && s2.pending() == PollerActionView::Notify(plan[1]) && s3.pending() == deactivate
        }),
{
}

/// An alert with more time left than its threshold is left alone: nothing
/// is sent, no deactivation is asked for, and the poller moves on to the
/// next alert or to its sleep.
pub proof fn lemma_no_trip_moves_on(poller: PollerView, time_left: nat)
    requires
        poller.wf(),
        poller.phase == Phase::Reading,
        !spec_trips(time_left, poller.current().threshold),
    ensures
        poller.next(PollerEventView::ExpiryRead(Some(time_left))) == poller.advance(),
        !(poller.advance().pending() is Notify),
        !(poller.advance().pending() is Deactivate),
{
}

/// A chain read that fails skips the alert for this tick: nothing is sent
/// and no deactivation is asked for.
pub proof fn lemma_failed_read_skips(poller: PollerView)
    requires
        poller.wf(),
        poller.phase == Phase::Reading,
    ensures
        poller.next(PollerEventView::ExpiryRead(None)) == poller.advance(),
        !(poller.advance().pending() is Notify),
        !(poller.advance().pending() is Deactivate),
{
}

/// A notification that could not be sent holds up nothing: what follows is
/// the same as after one that was sent.
pub proof fn lemma_send_failure_blocks_nothing(poller: PollerView)
    ensures
        poller.next(PollerEventView::NotificationSent(false)) == poller.next(
            PollerEventView::NotificationSent(true),
        ),
{
}

/// A deactivation is tried at most twice. When the first attempt fails the
/// poller waits, tries once more, and moves on whatever came of the second
/// attempt; when the first attempt succeeds it moves on at once.
pub proof fn lemma_deactivation_retries_once(poller: PollerView, second_done: bool)
    requires
        poller.wf(),
        poller.phase == Phase::Deactivating(false),
    ensures
        ({
            let failed = poller.next(PollerEventView::DeactivationDone(false));
            let retry = failed.next(PollerEventView::Slept);
            &&& poller.next(PollerEventView::DeactivationDone(true)) == poller.advance()
            &&& failed.pending() == (PollerActionView::Sleep { seconds: RETRY_SECONDS as nat })
            &&& retry.pending() == (PollerActionView::Deactivate {
                alert_id: poller.current().alert_id,
            })
            &&& retry.next(PollerEventView::DeactivationDone(second_done)) == poller.advance()
        }),
{
}

/// The alerts of a tick are taken one after the other, in their order, and
/// none twice: an event either stays with the current alert or moves on to
/// the one that follows it.
pub proof fn lemma_one_alert_after_the_other(poller: PollerView, event: PollerEventView)
    requires
        poller.wf(),
        poller.phase != Phase::Fetching,
    ensures
        poller.next(event).pos == poller.pos || poller.next(event).pos == poller.pos + 1,
        poller.next(event).pos == poller.pos + 1 ==> poller.next(event) == poller.advance(),
{
}

/// The event answers the request that is on its way.
pub open spec fn answers(poller: PollerView, event: PollerEventView) -> bool {
    match (poller.phase, event) {
        (Phase::Fetching, PollerEventView::AlertsFetched(_)) => true,
        (Phase::Reading, PollerEventView::ExpiryRead(_)) => true,
        (Phase::Notifying(_), PollerEventView::NotificationSent(_)) => true,
        (Phase::Deactivating(_), PollerEventView::DeactivationDone(_)) => true,
        (Phase::BackingOff, PollerEventView::Slept) => true,
        (Phase::Sleeping, PollerEventView::Slept) => true,
        _ => false,
    }
}

/// The poller after a sequence of events, taken in their order.
pub open spec fn run(poller: PollerView, events: Seq<PollerEventView>) -> PollerView
    decreases events.len(),
{
    if events.len() == 0 {
        poller
    } else {
        run(poller.next(events[0]), events.drop_first())
    }
}

/// Each event of the sequence answers the request that is on its way when
/// it arrives: the caller carries out what it is asked for.
pub open spec fn responsive(poller: PollerView, events: Seq<PollerEventView>) -> bool
    decreases events.len(),
{
    events.len() == 0 || (answers(poller, events[0]) && responsive(
        poller.next(events[0]),
        events.drop_first(),
    ))
}

/// The most events that the current alert still takes before the poller
/// moves on: its read, two notifications, the deactivation, the wait, and
/// the retry.
pub open spec fn events_left(phase: Phase) -> int {
    match phase {
        Phase::Reading => 6,
        Phase::Notifying(index) => 5 - index,
        Phase::Deactivating(false) => 3,
        Phase::BackingOff => 2,
        Phase::Deactivating(true) => 1,
        Phase::Fetching => 0,
        Phase::Sleeping => 0,
    }
}

/// A tick reaches every one of its alerts. Whatever comes of the alerts
/// before it (reads that fail, alerts that trip, notifications that are not
/// sent, deactivations that fail), the poller comes to read the alert at
/// the index `turn`, within six events for each alert before it.
pub proof fn lemma_tick_reaches_every_alert(
    poller: PollerView,
    events: Seq<PollerEventView>,
    turn: int,
)
    requires
        poller.wf(),
        poller.phase != Phase::Fetching,
        poller.phase != Phase::Sleeping,
        poller.pos <= turn < poller.queue.len(),
        poller.pos == turn ==> poller.phase == Phase::Reading,
        responsive(poller, events),
        events.len() >= 6 * (turn - poller.pos) - (6 - events_left(poller.phase)),
    ensures
        exists|n: int|
            0 <= n <= events.len() && at_turn(#[trigger] run(poller, events.take(n)), poller, turn),
    decreases events.len(),
{
    if poller.pos == turn {
        assert(events.take(0).len() == 0);
        assert(at_turn(run(poller, events.take(0)), poller, turn));
    } else {
        let event = events[0];
        let after = poller.next(event);
        let rest = events.drop_first();
        crate::listener::lemma_next_wf(poller, event);
        lemma_tick_reaches_every_alert(after, rest, turn);
        let n = choose|n: int|
            0 <= n <= rest.len() && at_turn(#[trigger] run(after, rest.take(n)), after, turn);
        assert(events.take(n + 1)[0] == event);
        assert(events.take(n + 1).drop_first() =~= rest.take(n));
        assert(at_turn(run(poller, events.take(n + 1)), poller, turn));
    }
}

/// The poller reads the alert at the index `turn` of the tick that `start`
/// is in.
pub open spec fn at_turn(poller: PollerView, start: PollerView, turn: int) -> bool {
    &&& poller.wf()
    &&& poller.phase == Phase::Reading
    &&& poller.pos == turn
    &&& poller.queue == start.queue
}

/// An alert that tripped and could not be deactivated is notified again in
/// the next tick. When storage returns the alert among the active ones and
/// its loan still has no more time left than the threshold, then, whatever
/// comes of the alerts before it, the tick comes to read it, hands out its
/// notifications once more, one for each channel it has, and after them
/// asks for its deactivation again.
pub proof fn lemma_active_alert_is_notified_again(
    poller: PollerView,
    alerts: Seq<AlertView>,
    alert: AlertView,
    events: Seq<PollerEventView>,
    time_left: nat,
    first_sent: bool,
    second_sent: bool,
)
    requires
        poller.wf(),
        poller.phase == Phase::Fetching,
        alerts.contains(alert),
        alert.active,
        spec_trips(time_left, alert.threshold),
        responsive(poller.next(PollerEventView::AlertsFetched(Some(alerts))), events),
        events.len() >= 6 * alerts.len(),
    ensures
        exists|n: int|
            0 <= n <= events.len() && notified_again(
                #[trigger] run(
                    poller.next(PollerEventView::AlertsFetched(Some(alerts))),
                    events.take(n),
                ),
                alert,
                time_left,
                first_sent,
                second_sent,
            ),
{
    let pred = |a: AlertView| a.active;
    let started = poller.next(PollerEventView::AlertsFetched(Some(alerts)));
    let queue = spec_active_only(alerts);
    crate::listener::lemma_next_wf(poller, PollerEventView::AlertsFetched(Some(alerts)));
    let at = choose|i: int| 0 <= i < alerts.len() && alerts[i] == alert;
    alerts.lemma_filter_contains(pred, at);
    alerts.lemma_filter_len(pred);
    let turn = choose|k: int| 0 <= k < queue.len() && queue[k] == alert;
    assert(started.queue == queue);
    assert(started.phase == Phase::Reading);
    assert(6 * turn <= 6 * alerts.len()) by (nonlinear_arith)
        requires
            turn < queue.len(),
            queue.len() <= alerts.len(),
    ;
    lemma_tick_reaches_every_alert(started, events, turn);
    let n = choose|n: int|
        0 <= n <= events.len() && at_turn(#[trigger] run(started, events.take(n)), started, turn);
    let reading = run(started, events.take(n));
    assert(reading.current() == alert);
    lemma_trip_notifies_then_deactivates(reading, time_left, first_sent, second_sent);
    assert(notified_again(reading, alert, time_left, first_sent, second_sent));
}

/// The poller reads `alert`, and when the chain answers with `time_left`
/// the notifications of the alert are handed out, in their order, and after
/// them its deactivation is asked for, whether the notifications were sent
/// or not.
pub open spec fn notified_again(
    poller: PollerView,
    alert: AlertView,
    time_left: nat,
    first_sent: bool,
    second_sent: bool,
) -> bool {
    let plan = spec_dispatch(alert, spec_days_left(time_left));
    let s1 = poller.next(PollerEventView::ExpiryRead(Some(time_left)));
    let s2 = s1.next(PollerEventView::NotificationSent(first_sent));
    let s3 = s2.next(PollerEventView::NotificationSent(second_sent));
    let deactivate = PollerActionView::Deactivate { alert_id: alert.alert_id };
    &&& poller.phase == Phase::Reading
    &&& poller.current() == alert
    &&& poller.pending() == (PollerActionView::ReadExpiry {
        cooler: alert.cooler,
        loan_id: alert.loan_id,
    })
    &&& plan.len() == alert.channel_count()
    &&& plan.len() == 0 ==> s1.pending() == deactivate
    &&& plan.len() == 1 ==> s1.pending() == PollerActionView::Notify(plan[0]) && s2.pending()
        == deactivate
    &&& plan.len() == 2 ==> s1.pending() == PollerActionView::Notify(plan[0]) && s2.pending()
        == PollerActionView::Notify(plan[1]) && s3.pending() == deactivate
}

/// After the last alert of a tick the poller sleeps for the interval, and
/// then asks for the active alerts again: the loop has no end.
pub proof fn lemma_tick_follows_tick(poller: PollerView)
    requires
        poller.wf(),
        poller.phase == Phase::Sleeping,
    ensures
        poller.pending() == (PollerActionView::Sleep { seconds: TICK_SECONDS as nat }),
        poller.next(PollerEventView::Slept).pending() == PollerActionView::FetchActiveAlerts,
{
}

} // verus!
