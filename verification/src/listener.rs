//! The expiry poller: tick after tick it takes the active alerts, asks the
//! chain how long each loan has left, and for each alert that trips sends
//! the notifications and then has the alert deactivated. It decides; the
//! caller carries out each request and hands back what came of it.

use vstd::prelude::*;
use crate::listener::alerts::{
    dispatch, spec_dispatch, Notification, NotificationView,
};
use crate::registry::types::{alerts_view, AlertDB, AlertView};

pub mod alerts;
pub mod laws;

verus! {

/// Seconds between two ticks.
pub const TICK_SECONDS: u64 = 30;

/// Seconds to wait before the one retry of a failed deactivation.
pub const RETRY_SECONDS: u64 = 1;

/// The time a loan has left, in seconds, as the chain reports it: an
/// unsigned number of 256 bits, given by its four 64-bit limbs, the least
/// significant first.
#[derive(Debug, Clone, Copy)]
pub struct TimeToExpiry {
    pub limbs: [u64; 4],
}

impl View for TimeToExpiry {
    type V = nat;

    open spec fn view(&self) -> nat {
        (self.limbs[0] + self.limbs[1] * 0x1_0000_0000_0000_0000
            + self.limbs[2] * 0x1_0000_0000_0000_0000_0000_0000_0000_0000 + self.limbs[3]
            * 0x1_0000_0000_0000_0000_0000_0000_0000_0000_0000_0000_0000_0000) as nat
    }
}

impl TimeToExpiry {
    /// The number with the given limbs, the least significant first.
    pub fn from_limbs(limbs: [u64; 4]) -> (r: Self)
        ensures
            r.limbs == limbs,
    {
        TimeToExpiry { limbs }
    }

    /// The given number of seconds.
    pub fn from_seconds(seconds: u64) -> (r: Self)
        ensures
            r@ == seconds,
    {
        TimeToExpiry { limbs: [seconds, 0, 0, 0] }
    }
}

/// An alert trips when the time left is at most its threshold, the
/// threshold taken in seconds.
pub open spec fn spec_trips(time_left: nat, threshold_days: int) -> bool {
    time_left <= threshold_days * 86400
}

/// The whole days in the time left.
pub open spec fn spec_days_left(time_left: nat) -> nat {
    time_left / 86400
}

/// Compares the time left with a threshold in days. Where the alert trips,
/// the whole days that are left are returned.
pub fn trips(time_left: &TimeToExpiry, threshold_days: i64) -> (r: Option<u64>)
    ensures
        r is Some <==> spec_trips(time_left@, threshold_days as int),
        r is Some ==> r->0 == spec_days_left(time_left@),
{
    if threshold_days < 0 {
        return None;
    }
    if time_left.limbs[2] != 0 || time_left.limbs[3] != 0 {
        return None;
    }
    let remaining: u128 = time_left.limbs[0] as u128 + (time_left.limbs[1] as u128)
        * 0x1_0000_0000_0000_0000u128;
    let threshold: u128 = (threshold_days as u128) * 86400u128;
    if remaining <= threshold {
        Some((remaining / 86400u128) as u64)
    } else {
        None
    }
}

/// Where a tick stands.
#[derive(Debug, Clone, Copy, PartialEq, Eq, Structural)]
pub enum Phase {
    /// The active alerts were asked for.
    Fetching,
    /// The time left of the current alert was asked for.
    Reading,
    /// The notification with this index, among those of the current alert,
    /// was handed out for sending.
    Notifying(usize),
    /// The deactivation of the current alert was asked for: the first
    /// attempt if `false`, the retry if `true`.
    Deactivating(bool),
    /// The wait before the retry of a deactivation was asked for.
    BackingOff,
    /// The wait until the next tick was asked for.
    Sleeping,
}

/// What came of the request that was on its way.
#[derive(Debug)]
pub enum PollerEvent {
    /// Storage returned the active alerts, or failed.
    AlertsFetched(Option<Vec<AlertDB>>),
    /// The chain returned the time left, or the query failed.
    ExpiryRead(Option<TimeToExpiry>),
    /// The notification was sent, or sending failed.
    NotificationSent(bool),
    /// Storage marked the alert inactive, or failed.
    DeactivationDone(bool),
    /// The wait is over.
    Slept,
}

pub enum PollerEventView {
    AlertsFetched(Option<Seq<AlertView>>),
    ExpiryRead(Option<nat>),
    NotificationSent(bool),
    DeactivationDone(bool),
    Slept,
}

impl View for PollerEvent {
    type V = PollerEventView;

    open spec fn view(&self) -> PollerEventView {
        match self {
            PollerEvent::AlertsFetched(Some(alerts)) => PollerEventView::AlertsFetched(
                Some(alerts_view(alerts@)),
            ),
            PollerEvent::AlertsFetched(None) => PollerEventView::AlertsFetched(None),
            PollerEvent::ExpiryRead(Some(time_left)) => PollerEventView::ExpiryRead(
                Some(time_left@),
            ),
            PollerEvent::ExpiryRead(None) => PollerEventView::ExpiryRead(None),
            PollerEvent::NotificationSent(sent) => PollerEventView::NotificationSent(*sent),
            PollerEvent::DeactivationDone(done) => PollerEventView::DeactivationDone(*done),
            PollerEvent::Slept => PollerEventView::Slept,
        }
    }
}

/// A request of the poller to its caller.
#[derive(Debug)]
pub enum PollerAction {
    /// List the alerts that are active, in the order of their insertion.
    FetchActiveAlerts,
    /// Ask the chain for the time left of this loan of this contract.
    ReadExpiry { cooler: String, loan_id: i64 },
    /// Send this notification.
    Notify(Notification),
    /// Mark this alert inactive in storage.
    Deactivate { alert_id: i64 },
    /// Wait this many seconds.
    Sleep { seconds: u64 },
}

pub enum PollerActionView {
    FetchActiveAlerts,
    ReadExpiry { cooler: Seq<char>, loan_id: int },
    Notify(NotificationView),
    Deactivate { alert_id: int },
    Sleep { seconds: nat },
}

impl View for PollerAction {
    type V = PollerActionView;

    open spec fn view(&self) -> PollerActionView {
        match self {
            PollerAction::FetchActiveAlerts => PollerActionView::FetchActiveAlerts,
            PollerAction::ReadExpiry { cooler, loan_id } => PollerActionView::ReadExpiry {
                cooler: cooler@,
                loan_id: *loan_id as int,
            },
            PollerAction::Notify(notification) => PollerActionView::Notify(notification@),
            PollerAction::Deactivate { alert_id } => PollerActionView::Deactivate {
                alert_id: *alert_id as int,
            },
            PollerAction::Sleep { seconds } => PollerActionView::Sleep { seconds: *seconds as nat },
        }
    }
}

/// The alerts of a list that are active, in their order.
pub open spec fn spec_active_only(alerts: Seq<AlertView>) -> Seq<AlertView> {
    alerts.filter(|a: AlertView| a.active)
}

/// What the poller holds, as mathematical values.
pub struct PollerView {
    pub phase: Phase,
    /// The alerts of this tick, in the order in which they are taken.
    pub queue: Seq<AlertView>,
    /// The index of the current alert.
    pub pos: int,
    /// The whole days the current alert has left, once it has tripped.
    pub days_left: nat,
}

impl PollerView {
    /// The alert that is being handled.
    pub open spec fn current(self) -> AlertView {
        self.queue[self.pos]
    }

    /// Every alert of the tick is active; the current alert is one of them
    /// while one is being handled, and the notification on its way is one
    /// of its own.
    pub open spec fn wf(self) -> bool {
        &&& forall|i: int| 0 <= i < self.queue.len() ==> (#[trigger] self.queue[i]).active
        &&& 0 <= self.pos <= self.queue.len()
        &&& match self.phase {
            Phase::Fetching => true,
            Phase::Sleeping => true,
            Phase::Reading => self.pos < self.queue.len(),
            Phase::Deactivating(_) => self.pos < self.queue.len(),
            Phase::BackingOff => self.pos < self.queue.len(),
            Phase::Notifying(index) => self.pos < self.queue.len() && index
                < self.current().channel_count(),
        }
    }

    /// The poller before its first tick.
    pub open spec fn initial() -> PollerView {
        PollerView { phase: Phase::Fetching, queue: Seq::empty(), pos: 0, days_left: 0 }
    }

    /// The request that is on its way.
    pub open spec fn pending(self) -> PollerActionView {
        match self.phase {
            Phase::Fetching => PollerActionView::FetchActiveAlerts,
            Phase::Reading => PollerActionView::ReadExpiry {
                cooler: self.current().cooler,
                loan_id: self.current().loan_id,
            },
            Phase::Notifying(index) => PollerActionView::Notify(
                spec_dispatch(self.current(), self.days_left)[index as int],
            ),
            Phase::Deactivating(_) => PollerActionView::Deactivate {
                alert_id: self.current().alert_id,
            },
            Phase::BackingOff => PollerActionView::Sleep { seconds: RETRY_SECONDS as nat },
            Phase::Sleeping => PollerActionView::Sleep { seconds: TICK_SECONDS as nat },
        }
    }

    /// The poller at the start of a tick over the given alerts: it reads
    /// the first one, or sleeps where there is none.
    pub open spec fn begin_tick(self, queue: Seq<AlertView>) -> PollerView {
        PollerView {
            phase: if queue.len() > 0 {
                Phase::Reading
            } else {
                Phase::Sleeping
            },
            queue: queue,
            pos: 0,
            days_left: 0,
        }
    }

    /// The poller once the current alert is done with: it reads the next
    /// one, or sleeps after the last.
    pub open spec fn advance(self) -> PollerView {
        PollerView {
            phase: if self.pos + 1 < self.queue.len() {
                Phase::Reading
            } else {
                Phase::Sleeping
            },
            queue: self.queue,
            pos: self.pos + 1,
            days_left: self.days_left,
        }
    }

    /// The poller in another phase, with the same alerts.
    pub open spec fn with_phase(self, phase: Phase) -> PollerView {
        PollerView { phase: phase, queue: self.queue, pos: self.pos, days_left: self.days_left }
    }

    /// The poller once the notification with the given index is due: it
    /// hands that one out, or asks for the deactivation when the
    /// notifications are through.
    pub open spec fn notify_from(self, index: nat) -> PollerView {
        if index < self.current().channel_count() {
            self.with_phase(Phase::Notifying(index as usize))
        } else {
            self.with_phase(Phase::Deactivating(false))
        }
    }

    /// The poller once the current alert has tripped with `days` whole days
    /// left.
    pub open spec fn tripped(self, days: nat) -> PollerView {
        PollerView {
            phase: self.phase,
            queue: self.queue,
            pos: self.pos,
            days_left: days,
        }.notify_from(0)
    }

    /// The poller after an event. An event that does not answer the request
    /// on its way changes nothing.
    pub open spec fn next(self, event: PollerEventView) -> PollerView {
        match (self.phase, event) {
            (Phase::Fetching, PollerEventView::AlertsFetched(Some(alerts))) => self.begin_tick(
                spec_active_only(alerts),
            ),
            (Phase::Fetching, PollerEventView::AlertsFetched(None)) => self.begin_tick(
                Seq::empty(),
            ),
            (Phase::Reading, PollerEventView::ExpiryRead(Some(time_left))) => if spec_trips(
                time_left,
                self.current().threshold,
            ) {
                self.tripped(spec_days_left(time_left))
            } else {
                self.advance()
            },
            (Phase::Reading, PollerEventView::ExpiryRead(None)) => self.advance(),
            (Phase::Notifying(index), PollerEventView::NotificationSent(_)) => self.notify_from(
                (index + 1) as nat,
            ),
            (Phase::Deactivating(false), PollerEventView::DeactivationDone(false)) => self.with_phase(
                Phase::BackingOff,
            ),
            (Phase::Deactivating(_), PollerEventView::DeactivationDone(_)) => self.advance(),
            (Phase::BackingOff, PollerEventView::Slept) => self.with_phase(
                Phase::Deactivating(true),
            ),
            (Phase::Sleeping, PollerEventView::Slept) => self.with_phase(Phase::Fetching),
            _ => self,
        }
    }
}

/// The poller keeps its shape through every event.
pub proof fn lemma_next_wf(poller: PollerView, event: PollerEventView)
    requires
        poller.wf(),
    ensures
        poller.next(event).wf(),
{
    match (poller.phase, event) {
        (Phase::Fetching, PollerEventView::AlertsFetched(Some(alerts))) => {
            let queue = spec_active_only(alerts);
            assert forall|i: int| 0 <= i < queue.len() implies (#[trigger] queue[i]).active by {
                alerts.lemma_filter_pred(|a: AlertView| a.active, i);
            }
        },
        _ => {},
    }
}

/// The alerts of a list that are active, in their order.
pub fn active_only(alerts: &Vec<AlertDB>) -> (r: Vec<AlertDB>)
    ensures
        alerts_view(r@) == spec_active_only(alerts_view(alerts@)),
{
    let mut active: Vec<AlertDB> = Vec::new();
    let mut i: usize = 0;
    let ghost all = alerts_view(alerts@);
    let ghost pred = |a: AlertView| a.active;
    assert(all.take(0).filter(pred) =~= Seq::<AlertView>::empty()) by {
        reveal(Seq::filter);
    }
    assert(alerts_view(active@) =~= Seq::<AlertView>::empty());
    while i < alerts.len()
        invariant
            i <= alerts.len(),
            all == alerts_view(alerts@),
            pred == |a: AlertView| a.active,
            alerts_view(active@) == all.take(i as int).filter(pred),
        decreases alerts.len() - i,
    {
        let ghost before = alerts_view(active@);
        proof {
            reveal(Seq::filter);
            assert(all.take(i + 1).drop_last() =~= all.take(i as int));
            assert(all.take(i + 1).last() == alerts@[i as int]@);
        }
        if alerts[i].is_active() {
            let copy = alerts[i].duplicate();
            active.push(copy);
            assert(alerts_view(active@) =~= before.push(alerts@[i as int]@));
        }
        i = i + 1;
    }
    assert(all.take(alerts.len() as int) =~= all);
    active
}

/// The expiry poller.
#[derive(Debug)]
pub struct Poller {
    phase: Phase,
    queue: Vec<AlertDB>,
    pos: usize,
    days_left: u64,
}

impl View for Poller {
    type V = PollerView;

    closed spec fn view(&self) -> PollerView {
        PollerView {
            phase: self.phase,
            queue: alerts_view(self.queue@),
            pos: self.pos as int,
            days_left: self.days_left as nat,
        }
    }
}

impl Poller {
    /// A poller before its first tick: its first request asks for the
    /// active alerts.
    pub fn new() -> (r: Self)
        ensures
            r@ == PollerView::initial(),
            r@.wf(),
    {
        let queue: Vec<AlertDB> = Vec::new();
        assert(alerts_view(queue@) =~= Seq::<AlertView>::empty());
        Poller { phase: Phase::Fetching, queue, pos: 0, days_left: 0 }
    }

    /// Whether the poller is in order. It is when it is made, and every
    /// step keeps it so.
    pub fn is_well_formed(&self) -> (r: bool)
        ensures
            r == self@.wf(),
    {
        let len = self.queue.len();
        assert(alerts_view(self.queue@).len() == len);
        let mut i: usize = 0;
        while i < len
            invariant
                i <= len,
                len == self.queue.len(),
                forall|k: int| 0 <= k < i ==> (#[trigger] alerts_view(self.queue@)[k]).active,
            decreases len - i,
        {
            if !self.queue[i].is_active() {
                assert(!alerts_view(self.queue@)[i as int].active);
                return false;
            }
            i = i + 1;
        }
        if self.pos > len {
            return false;
        }
        match self.phase {
            Phase::Fetching => true,
            Phase::Sleeping => true,
            Phase::Reading => self.pos < len,
            Phase::Deactivating(_) => self.pos < len,
            Phase::BackingOff => self.pos < len,
            Phase::Notifying(index) => self.pos < len && index < self.channel_count(),
        }
    }

    /// Where the tick stands.
    pub fn phase(&self) -> (r: Phase)
        ensures
            r == self@.phase,
    {
        self.phase
    }

    /// The request that is on its way: the one to carry out next.
    pub fn pending_action(&self) -> (r: PollerAction)
        requires
            self@.wf(),
        ensures
            r@ == self@.pending(),
    {
        match self.phase {
            Phase::Fetching => PollerAction::FetchActiveAlerts,
            Phase::Reading => {
                let alert = &self.queue[self.pos];
                PollerAction::ReadExpiry {
                    cooler: alert.get_cooler().to_owned(),
                    loan_id: alert.get_loan_id(),
                }
            },
            Phase::Notifying(index) => {
                let alert = &self.queue[self.pos];
                let mut notifications = dispatch(alert, self.days_left);
                let notification = notifications.remove(index);
                PollerAction::Notify(notification)
            },
            Phase::Deactivating(_) => PollerAction::Deactivate {
                alert_id: self.queue[self.pos].get_alert_id(),
            },
            Phase::BackingOff => PollerAction::Sleep { seconds: RETRY_SECONDS },
            Phase::Sleeping => PollerAction::Sleep { seconds: TICK_SECONDS },
        }
    }

    fn begin_tick(&mut self, queue: Vec<AlertDB>)
        ensures
            final(self)@ == old(self)@.begin_tick(alerts_view(queue@)),
    {
        self.phase = if queue.len() > 0 {
            Phase::Reading
        } else {
            Phase::Sleeping
        };
        self.queue = queue;
        self.pos = 0;
        self.days_left = 0;
    }

    fn advance(&mut self)
        requires
            old(self)@.pos < old(self)@.queue.len(),
        ensures
            final(self)@ == old(self)@.advance(),
    {
        let len = self.queue.len();
        assert(alerts_view(self.queue@).len() == len);
        self.pos = self.pos + 1;
        self.phase = if self.pos < len {
            Phase::Reading
        } else {
            Phase::Sleeping
        };
    }

    fn channel_count(&self) -> (r: usize)
        requires
            self@.pos < self@.queue.len(),
        ensures
            r == self@.current().channel_count(),
    {
        let alert = &self.queue[self.pos];
        let hooks: usize = if alert.get_webhook_url().is_some() {
            1
        } else {
            0
        };
        let mails: usize = if alert.get_email().is_some() {
            1
        } else {
            0
        };
        hooks + mails
    }

    fn notify_from(&mut self, index: usize)
        requires
            old(self)@.pos < old(self)@.queue.len(),
        ensures
            final(self)@ == old(self)@.notify_from(index as nat),
    {
        if index < self.channel_count() {
            self.phase = Phase::Notifying(index);
        } else {
            self.phase = Phase::Deactivating(false);
        }
    }

    /// Takes what came of the request that was on its way, and returns the
    /// next request.
    pub fn step(&mut self, event: PollerEvent) -> (action: PollerAction)
        requires
            old(self)@.wf(),
        ensures
            final(self)@ == old(self)@.next(event@),
            final(self)@.wf(),
            action@ == final(self)@.pending(),
    {
        proof {
            lemma_next_wf(self@, event@);
        }
        match (self.phase, event) {
            (Phase::Fetching, PollerEvent::AlertsFetched(Some(alerts))) => {
                let queue = active_only(&alerts);
                self.begin_tick(queue);
            },
            (Phase::Fetching, PollerEvent::AlertsFetched(None)) => {
                let queue: Vec<AlertDB> = Vec::new();
                assert(alerts_view(queue@) =~= Seq::<AlertView>::empty());
                self.begin_tick(queue);
            },
            (Phase::Reading, PollerEvent::ExpiryRead(Some(time_left))) => {
                let threshold = self.queue[self.pos].get_threshold();
                match trips(&time_left, threshold) {
                    Some(days) => {
                        self.days_left = days;
                        self.notify_from(0);
                    },
                    None => {
                        self.advance();
                    },
                }
            },
            (Phase::Reading, PollerEvent::ExpiryRead(None)) => {
                self.advance();
            },
            (Phase::Notifying(index), PollerEvent::NotificationSent(_)) => {
                self.notify_from(index + 1);
            },
            (Phase::Deactivating(false), PollerEvent::DeactivationDone(false)) => {
                self.phase = Phase::BackingOff;
            },
            (Phase::Deactivating(_), PollerEvent::DeactivationDone(_)) => {
                self.advance();
            },
            (Phase::BackingOff, PollerEvent::Slept) => {
                self.phase = Phase::Deactivating(true);
            },
            (Phase::Sleeping, PollerEvent::Slept) => {
                self.phase = Phase::Fetching;
            },
            _ => {},
        }
        self.pending_action()
    }
}

} // verus!
