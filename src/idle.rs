//! The idle state machine: samples the time since the last reported activity
//! and announces each crossing of the idle threshold exactly once.
//!
//! Times are seconds on a monotonic clock chosen by the caller. The caller
//! runs the poll loop: it calls [`IdleMonitor::tick`] once per check interval
//! while [`IdleMonitor::is_running`] holds, and delivers what comes back.

use vstd::prelude::*;
use crate::text::decimal;
use crate::text::decimal_string;
use crate::webhook::{
    dispatch_spec,
    dispatch_view,
    DispatchError,
    EventCategory,
    Outgoing,
    WebhookSender,
};

verus! {

/// Whether the user counts as present.
#[derive(Clone, Copy, Debug, PartialEq, Eq, Structural)]
pub enum IdleState {
    Active,
    Idle,
}

/// An edge of the state machine, with the minutes it reports.
#[derive(Clone, Copy, Debug, PartialEq, Eq, Structural)]
pub enum IdleTransition {
    /// Inactivity reached the threshold; carries the minutes since the last activity.
    BecameIdle { idle_minutes: u64 },
    /// Activity ended an idle period; carries the minutes that period lasted.
    BecameActive { idle_minutes: u64 },
}

/// The state of an [`IdleMonitor`] apart from its dispatcher.
pub struct IdleModel {
    /// Seconds of inactivity after which the user counts as idle.
    pub threshold: u64,
    /// Seconds between two polls.
    pub interval: u64,
    /// Time of the last reported activity.
    pub last_activity: u64,
    pub running: bool,
    pub state: IdleState,
    /// While idle: the last activity before the idle period began.
    pub idle_since: u64,
    /// While idle: the first activity reported after the idle period began.
    pub resumed_at: Option<u64>,
}

/// Seconds from the last activity to `now`; zero if `now` comes before it.
pub open spec fn elapsed(m: IdleModel, now: u64) -> u64 {
    if now >= m.last_activity {
        (now - m.last_activity) as u64
    } else {
        0
    }
}

/// How long the current idle period lasted: from the last activity before it
/// to the first activity after it (or the last one, if none was recorded).
pub open spec fn idle_duration(m: IdleModel) -> u64 {
    let end = match m.resumed_at {
        Some(t) => t,
        None => m.last_activity,
    };
    if end >= m.idle_since {
        (end - m.idle_since) as u64
    } else {
        0
    }
}

/// One poll at time `now`: the next state and the edge crossed, if any.
pub open spec fn poll_spec(m: IdleModel, now: u64) -> (IdleModel, Option<IdleTransition>) {
    let e = elapsed(m, now);
    if e >= m.threshold && m.state == IdleState::Active {
        (
            IdleModel { state: IdleState::Idle, idle_since: m.last_activity, resumed_at: None, ..m },
            Some(IdleTransition::BecameIdle { idle_minutes: e / 60 }),
        )
    } else if e < m.threshold && m.state == IdleState::Idle {
        (
            IdleModel { state: IdleState::Active, resumed_at: None, ..m },
            Some(IdleTransition::BecameActive { idle_minutes: idle_duration(m) / 60 }),
        )
    } else {
        (m, None)
    }
}

/// Activity reported at time `now`.
pub open spec fn update_spec(m: IdleModel, now: u64) -> IdleModel {
    IdleModel {
        last_activity: now,
        resumed_at: if m.state == IdleState::Idle && m.resumed_at is None {
            Some(now)
        } else {
            m.resumed_at
        },
        ..m
    }
}

/// The edges reported by polls at the given times, in order, with no activity
/// reported in between.
pub open spec fn run_polls(m: IdleModel, times: Seq<u64>) -> Seq<Option<IdleTransition>>
    decreases times.len(),
{
    if times.len() == 0 {
        Seq::empty()
    } else {
        let (next, t) = poll_spec(m, times[0]);
        seq![t] + run_polls(next, times.drop_first())
    }
}

/// "<n> minutes"
pub open spec fn minutes_text(n: u64) -> Seq<char> {
    decimal(n as nat) + " minutes"@
}

/// The dispatch announcing that the user has been idle for `idle_minutes`.
pub open spec fn idle_dispatch(w: WebhookSender, idle_minutes: u64, timestamp: Seq<char>) -> Result<
    crate::webhook::OutgoingView,
    DispatchError,
> {
    dispatch_spec(
        w,
        EventCategory::Idle,
        "System Idle"@,
        "System has been idle for "@ + minutes_text(idle_minutes),
        seq![("Idle Time"@, minutes_text(idle_minutes))],
        timestamp,
    )
}

/// The dispatch announcing the end of an idle period of `idle_minutes`.
pub open spec fn active_dispatch(w: WebhookSender, idle_minutes: u64, timestamp: Seq<char>) -> Result<
    crate::webhook::OutgoingView,
    DispatchError,
> {
    dispatch_spec(
        w,
        EventCategory::Idle,
        "System Active"@,
        "System has returned from idle state"@,
        seq![("Was Idle For"@, minutes_text(idle_minutes))],
        timestamp,
    )
}

/// The dispatch that announces `t`.
pub open spec fn transition_dispatch(
    w: WebhookSender,
    t: IdleTransition,
    timestamp: Seq<char>,
) -> Result<crate::webhook::OutgoingView, DispatchError> {
    match t {
        IdleTransition::BecameIdle { idle_minutes } => idle_dispatch(w, idle_minutes, timestamp),
        IdleTransition::BecameActive { idle_minutes } => active_dispatch(
            w,
            idle_minutes,
            timestamp,
        ),
    }
}

fn minutes_string(n: u64) -> (r: String)
    ensures
        r@ == minutes_text(n),
{
    let mut s = decimal_string(n);
    s.append(" minutes");
    s
}

/// Prepares the notification that the user has been idle for `idle_minutes`.
pub fn send_idle_notification(webhook: &WebhookSender, idle_minutes: u64, timestamp: &str) -> (r:
    Result<Outgoing, DispatchError>)
    ensures
        dispatch_view(r) == idle_dispatch(*webhook, idle_minutes, timestamp@),
{
    let mut message = String::from_str("System has been idle for ");
    let minutes = minutes_string(idle_minutes);
    message.append(minutes.as_str());
    let fields = vec![(String::from_str("Idle Time"), minutes)];
    proof {
        assert(crate::webhook::pairs_view(fields@) =~= seq![("Idle Time"@, minutes_text(idle_minutes))]);
    }
    webhook.send(EventCategory::Idle, "System Idle", message.as_str(), fields, timestamp)
}

/// Prepares the notification that an idle period of `idle_minutes` has ended.
pub fn send_active_notification(webhook: &WebhookSender, idle_minutes: u64, timestamp: &str) -> (r:
    Result<Outgoing, DispatchError>)
    ensures
        dispatch_view(r) == active_dispatch(*webhook, idle_minutes, timestamp@),
{
    let fields = vec![(String::from_str("Was Idle For"), minutes_string(idle_minutes))];
    proof {
        assert(crate::webhook::pairs_view(fields@) =~= seq![("Was Idle For"@, minutes_text(idle_minutes))]);
    }
    webhook.send(
        EventCategory::Idle,
        "System Active",
        "System has returned from idle state",
        fields,
        timestamp,
    )
}

/// The idle state machine, with the dispatcher it reports through.
pub struct IdleMonitor {
    webhook: WebhookSender,
    idle_threshold: u64,
    check_interval: u64,
    last_activity: u64,
    running: bool,
    state: IdleState,
    idle_since: u64,
    resumed_at: Option<u64>,
}

impl View for IdleMonitor {
    type V = IdleModel;

    closed spec fn view(&self) -> IdleModel {
        IdleModel {
            threshold: self.idle_threshold,
            interval: self.check_interval,
            last_activity: self.last_activity,
            running: self.running,
            state: self.state,
            idle_since: self.idle_since,
            resumed_at: self.resumed_at,
        }
    }
}

impl IdleMonitor {
    pub closed spec fn spec_webhook(&self) -> WebhookSender {
        self.webhook
    }

    /// A stopped monitor in state `Active` that counts `idle_minutes` of
    /// inactivity as idle, polls once a minute, and takes `now` as the last
    /// activity.
    pub fn new(webhook: WebhookSender, idle_minutes: u64, now: u64) -> (r: Self)
        requires
            idle_minutes <= u64::MAX / 60,
        ensures
            r@.threshold == idle_minutes * 60,
            r@.interval == 60,
            r@.last_activity == now,
            !r@.running,
            r@.state == IdleState::Active,
            r@.resumed_at is None,
            r.spec_webhook() == webhook,
    {
        IdleMonitor {
            webhook,
            idle_threshold: idle_minutes * 60,
            check_interval: 60,
            last_activity: now,
            running: false,
            state: IdleState::Active,
            idle_since: now,
            resumed_at: None,
        }
    }

    pub fn webhook(&self) -> (r: &WebhookSender)
        ensures
            *r == self.spec_webhook(),
    {
        &self.webhook
    }

    pub fn state(&self) -> (r: IdleState)
        ensures
            r == self@.state,
    {
        self.state
    }

    /// Seconds of inactivity after which the user counts as idle.
    pub fn idle_threshold_secs(&self) -> (r: u64)
        ensures
            r == self@.threshold,
    {
        self.idle_threshold
    }

    /// Seconds between two polls.
    pub fn check_interval_secs(&self) -> (r: u64)
        ensures
            r == self@.interval,
    {
        self.check_interval
    }

    /// Whether the poll loop should go on.
    pub fn is_running(&self) -> (r: bool)
        ensures
            r == self@.running,
    {
        self.running
    }

    /// Lets the poll loop run.
    pub fn start(&mut self)
        ensures
            final(self)@ == (IdleModel { running: true, ..old(self)@ }),
            final(self).spec_webhook() == old(self).spec_webhook(),
    {
        self.running = true;
    }

    /// Asks the poll loop to end at the top of its next iteration.
    pub fn stop(&mut self)
        ensures
            final(self)@ == (IdleModel { running: false, ..old(self)@ }),
            final(self).spec_webhook() == old(self).spec_webhook(),
    {
        self.running = false;
    }

    /// Records activity at time `now`. Makes no transition itself: the next
    /// poll observes it.
    pub fn update_activity(&mut self, now: u64)
        ensures
            final(self)@ == update_spec(old(self)@, now),
            final(self).spec_webhook() == old(self).spec_webhook(),
    {
        if self.state == IdleState::Idle && self.resumed_at.is_none() {
            self.resumed_at = Some(now);
        }
        self.last_activity = now;
    }

    /// Samples the clock at time `now` and moves along an edge if the idle
    /// threshold was crossed in either direction.
    pub fn poll(&mut self, now: u64) -> (r: Option<IdleTransition>)
        ensures
            (final(self)@, r) == poll_spec(old(self)@, now),
            final(self).spec_webhook() == old(self).spec_webhook(),
    {
        let elapsed: u64 = now.saturating_sub(self.last_activity);
        if elapsed >= self.idle_threshold && self.state == IdleState::Active {
            self.state = IdleState::Idle;
            self.idle_since = self.last_activity;
            self.resumed_at = None;
            Some(IdleTransition::BecameIdle { idle_minutes: elapsed / 60 })
        } else if elapsed < self.idle_threshold && self.state == IdleState::Idle {
            let end: u64 = match self.resumed_at {
                Some(t) => t,
                None => self.last_activity,
            };
            let duration: u64 = end.saturating_sub(self.idle_since);
            self.state = IdleState::Active;
            self.resumed_at = None;
            Some(IdleTransition::BecameActive { idle_minutes: duration / 60 })
        } else {
            None
        }
    }

    /// One iteration of the poll loop: polls at time `now` and, on an edge,
    /// prepares its notification stamped with `timestamp`. The state moves
    /// before anything is delivered, so no delivery outcome can undo it.
    pub fn tick(&mut self, now: u64, timestamp: &str) -> (r: Option<Result<Outgoing, DispatchError>>)
        ensures
            final(self)@ == poll_spec(old(self)@, now).0,
            final(self).spec_webhook() == old(self).spec_webhook(),
            match poll_spec(old(self)@, now).1 {
                None => r is None,
                Some(t) => match r {
                    Some(d) => dispatch_view(d) == transition_dispatch(
                        old(self).spec_webhook(),
                        t,
                        timestamp@,
                    ),
                    None => false,
                },
            },
    {
        match self.poll(now) {
            None => None,
            Some(IdleTransition::BecameIdle { idle_minutes }) => Some(
                send_idle_notification(&self.webhook, idle_minutes, timestamp),
            ),
            Some(IdleTransition::BecameActive { idle_minutes }) => Some(
                send_active_notification(&self.webhook, idle_minutes, timestamp),
            ),
        }
    }
}

/// Whether the poll at index `i` is the first of `times` whose inactivity
/// reaches the threshold.
pub open spec fn first_crossing(m: IdleModel, times: Seq<u64>, i: int) -> bool {
    &&& elapsed(m, times[i]) >= m.threshold
    &&& (i == 0 || elapsed(m, times[i - 1]) < m.threshold)
}

/// Polls while the user stays active (inactivity below the threshold), or
/// stays idle (inactivity at or above it), announce nothing and change nothing.
pub proof fn lemma_steady_polls(m: IdleModel, times: Seq<u64>)
    requires
        forall|i: int|
            0 <= i < times.len() ==> if m.state == IdleState::Active {
                elapsed(m, #[trigger] times[i]) < m.threshold
            } else {
                elapsed(m, times[i]) >= m.threshold
            },
    ensures
        run_polls(m, times) =~= Seq::new(times.len(), |i: int| None::<IdleTransition>),
        forall|now: u64| #[trigger] times.contains(now) ==> poll_spec(m, now).0 == m,
    decreases times.len(),
{
    if times.len() > 0 {
        let rest = times.drop_first();
        assert forall|i: int| 0 <= i < rest.len() implies if m.state == IdleState::Active {
            elapsed(m, #[trigger] rest[i]) < m.threshold
        } else {
            elapsed(m, rest[i]) >= m.threshold
        } by {
            assert(rest[i] == times[i + 1]);
        }
        lemma_steady_polls(m, rest);
        assert(poll_spec(m, times[0]).0 == m);
    }
}

/// With no activity reported, a monitor that starts active announces idleness
/// exactly once: at the first poll whose inactivity reaches the threshold,
/// with the minutes of inactivity, and never again while it stays there.
pub proof fn lemma_single_idle_edge(m: IdleModel, times: Seq<u64>)
    requires
        m.state == IdleState::Active,
        forall|i: int, j: int| 0 <= i <= j < times.len() ==> times[i] <= times[j],
    ensures
        run_polls(m, times).len() == times.len(),
        forall|i: int|
            0 <= i < times.len() ==> #[trigger] run_polls(m, times)[i] == if first_crossing(
                m,
                times,
                i,
            ) {
                Some(IdleTransition::BecameIdle { idle_minutes: elapsed(m, times[i]) / 60 })
            } else {
                None
            },
        forall|i: int, j: int|
            0 <= i < times.len() && 0 <= j < times.len() && (#[trigger] run_polls(m, times)[i]
                is Some) && (#[trigger] run_polls(m, times)[j] is Some) ==> i == j,
        (exists|k: int| 0 <= k < times.len() && elapsed(m, #[trigger] times[k]) >= m.threshold)
            ==> exists|i: int| 0 <= i < times.len() && (#[trigger] run_polls(m, times)[i] is Some),
    decreases times.len(),
{
    if times.len() > 0 {
        let rest = times.drop_first();
        let (next, t) = poll_spec(m, times[0]);
        let run = run_polls(m, times);
        assert(run == seq![t] + run_polls(next, rest));
        if elapsed(m, times[0]) >= m.threshold {
            assert forall|i: int| 0 <= i < rest.len() implies elapsed(
                next,
                #[trigger] rest[i],
            ) >= next.threshold by {
                assert(rest[i] == times[i + 1]);
            }
            lemma_steady_polls(next, rest);
            assert forall|i: int| 0 <= i < times.len() implies #[trigger] run[i] == if first_crossing(
                m,
                times,
                i,
            ) {
                Some(IdleTransition::BecameIdle { idle_minutes: elapsed(m, times[i]) / 60 })
            } else {
                None
            } by {
                if i > 0 {
                    assert(run[i] == run_polls(next, rest)[i - 1]);
                    assert(times[0] <= times[i - 1]);
                }
            }
            assert(run[0] is Some);
        } else {
            assert(next == m);
            assert forall|i: int, j: int| 0 <= i <= j < rest.len() implies rest[i] <= rest[j] by {
                assert(rest[i] == times[i + 1] && rest[j] == times[j + 1]);
            }
            lemma_single_idle_edge(m, rest);
            let sub = run_polls(m, rest);
            assert forall|i: int| 0 <= i < times.len() implies #[trigger] run[i] == if first_crossing(
                m,
                times,
                i,
            ) {
                Some(IdleTransition::BecameIdle { idle_minutes: elapsed(m, times[i]) / 60 })
            } else {
                None
            } by {
                if i > 0 {
                    assert(run[i] == sub[i - 1]);
                    assert(rest[i - 1] == times[i]);
                    if i > 1 {
                        assert(rest[i - 2] == times[i - 1]);
                    }
                }
            }
            assert forall|i: int, j: int|
                0 <= i < times.len() && 0 <= j < times.len() && (#[trigger] run[i] is Some)
                    && (#[trigger] run[j] is Some) implies i == j by {
                assert(i > 0 && j > 0);
                assert(run[i] == sub[i - 1] && run[j] == sub[j - 1]);
            }
            if exists|k: int| 0 <= k < times.len() && elapsed(m, #[trigger] times[k]) >= m.threshold {
                let k = choose|k: int| 0 <= k < times.len() && elapsed(m, #[trigger] times[k]) >= m.threshold;
                assert(k > 0);
                assert(rest[k - 1] == times[k]);
                assert(elapsed(m, rest[k - 1]) >= m.threshold);
                let i = choose|i: int| 0 <= i < rest.len() && (#[trigger] sub[i] is Some);
                assert(run[i + 1] == sub[i]);
            }
        }
    }
}

/// Activity reported while idle ends the idle period at the next poll, when
/// that poll comes less than the threshold after the activity: that poll
/// announces the return, with the length of the idle period, and polls after
/// it announce nothing while inactivity stays below the threshold.
pub proof fn lemma_activity_ends_idle(m: IdleModel, t: u64, now: u64, later: Seq<u64>)
    requires
        m.state == IdleState::Idle,
        t <= now,
        now - t < m.threshold,
        forall|i: int| 0 <= i < later.len() ==> t <= #[trigger] later[i] && later[i] - t < m.threshold,
    ensures
        poll_spec(update_spec(m, t), now).0.state == IdleState::Active,
        run_polls(update_spec(m, t), seq![now] + later) =~= seq![
            Some(IdleTransition::BecameActive { idle_minutes: idle_duration(update_spec(m, t)) / 60 }),
        ] + Seq::new(later.len(), |i: int| None::<IdleTransition>),
        m.resumed_at is None && m.idle_since <= t ==> idle_duration(update_spec(m, t)) == t
            - m.idle_since,
{
    let u = update_spec(m, t);
    let times = seq![now] + later;
    let (next, tr) = poll_spec(u, now);
    assert(times[0] == now);
    assert(times.drop_first() =~= later);
    assert(next.last_activity == t);
    assert forall|i: int| 0 <= i < later.len() implies elapsed(next, #[trigger] later[i])
        < next.threshold by {}
    lemma_steady_polls(next, later);
}

} // verus!
