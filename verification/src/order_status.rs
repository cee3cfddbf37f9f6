//! The life of an order's status: the simulated fulfillment that moves a new
//! order through its stages, and the watch that streams status changes to a
//! subscriber.  Both are state machines; the service performs their actions
//! (sleeping, polling the database, sending) and hands back what happened.
use crate::ids::{uuid_text, uuid_to_text};
use crate::instant::{utc_rfc3339, Instant};
use crate::order_model::OrderStatusUpdate;
use vstd::prelude::*;

verus! {

broadcast use vstd::string::group_string_axioms;

/// The stage of a status in an order's life: created, paid, shipped,
/// delivered; -1 for any other status.
pub open spec fn status_stage(s: Seq<char>) -> int {
    if s == "created"@ {
        0
    } else if s == "paid"@ {
        1
    } else if s == "shipped"@ {
        2
    } else if s == "delivered"@ {
        3
    } else {
        -1
    }
}

/// A status after which an order never changes again.
pub open spec fn is_final_status(s: Seq<char>) -> bool {
    s == "delivered"@ || s == "cancelled"@
}

/// Whether a status is final (`delivered` or `cancelled`).
pub fn is_final(status: &String) -> (r: bool)
    ensures
        r == is_final_status(status@),
{
    let delivered = "delivered".to_string();
    let cancelled = "cancelled".to_string();
    *status == delivered || *status == cancelled
}

/// Number of stages the fulfillment simulator moves an order through.
pub const FULFILLMENT_STAGES: usize = 3;

/// The simulated fulfillment of a new order: after a pause it marks the order
/// paid, then shipped, then delivered, and ends.
pub struct Fulfillment {
    step: usize,
}

impl Fulfillment {
    /// How many stages have been handed out.
    pub closed spec fn done_steps(&self) -> nat {
        self.step as nat
    }

    pub open spec fn wf(&self) -> bool {
        self.done_steps() <= FULFILLMENT_STAGES
    }

    /// The simulation of a freshly created order.
    pub fn new() -> (r: Fulfillment)
        ensures
            r.wf(),
            r.done_steps() == 0,
    {
        Fulfillment { step: 0 }
    }

    /// The status to set next, or `None` when the order is delivered.  Each
    /// status handed out is the stage right after the previous one, starting
    /// right after `created`.
    pub fn next_status(&mut self) -> (r: Option<String>)
        requires
            old(self).wf(),
        ensures
            final(self).wf(),
            old(self).done_steps() < FULFILLMENT_STAGES ==> (r matches Some(s)
                && status_stage(s@) == old(self).done_steps() + 1
                && final(self).done_steps() == old(self).done_steps() + 1),
            old(self).done_steps() == FULFILLMENT_STAGES ==> r is None && final(self).done_steps()
                == FULFILLMENT_STAGES,
            old(self).done_steps() == 0 ==> (r matches Some(s) && s@ == "paid"@),
            old(self).done_steps() == 1 ==> (r matches Some(s) && s@ == "shipped"@),
            old(self).done_steps() == 2 ==> (r matches Some(s) && s@ == "delivered"@),
    {
        proof {
            reveal_strlit("created");
            reveal_strlit("paid");
            reveal_strlit("shipped");
            reveal_strlit("delivered");
            assert("paid"@.len() != "created"@.len());
            assert("shipped"@[0] != "created"@[0]);
            assert("shipped"@.len() != "paid"@.len());
            assert("delivered"@.len() != "created"@.len());
            assert("delivered"@.len() != "paid"@.len());
            assert("delivered"@.len() != "shipped"@.len());
        }
        if self.step == 0 {
            self.step = 1;
            Some("paid".to_string())
        } else if self.step == 1 {
            self.step = 2;
            Some("shipped".to_string())
        } else if self.step == 2 {
            self.step = 3;
            Some("delivered".to_string())
        } else {
            None
        }
    }
}

/// The last stage the fulfillment reaches is a final status, so a watch
/// that delivers it stops.
pub proof fn lemma_last_stage_is_final(s: Seq<char>)
    requires
        status_stage(s) == FULFILLMENT_STAGES as int,
    ensures
        is_final_status(s),
{
}

/// Most database polls a watch makes before it gives up.
pub const WATCH_MAX_POLLS: u32 = 300;

/// What a watch asks of the service after a poll.
pub enum WatchStep {
    /// Nothing changed; poll again after the next tick.
    Wait,
    /// Send this update to the subscriber and report whether it arrived.
    Send(OrderStatusUpdate),
    /// Close the stream.
    Stop,
}

/// The state of a watch, as plain values.
pub struct WatchView {
    /// The last status the subscriber received.
    pub last: Option<Seq<char>>,
    /// The status being sent, if any.
    pub pending: Option<Seq<char>>,
    pub polls: nat,
    pub stopped: bool,
}

pub open spec fn opt_text(s: Option<String>) -> Option<Seq<char>> {
    match s {
        Some(t) => Some(t@),
        None => None,
    }
}

/// A watch that has not polled yet.
pub open spec fn fresh_watch() -> WatchView {
    WatchView { last: None, pending: None, polls: 0, stopped: false }
}

/// Whether the watch polls again: it is running, has nothing to send, and
/// has polls left.
pub open spec fn can_poll(v: WatchView) -> bool {
    !v.stopped && v.pending is None && v.polls < WATCH_MAX_POLLS
}

/// The status a poll read, or `None` when the order is gone or the poll
/// failed.
pub open spec fn polled_status(row: Option<(String, Instant)>) -> Option<Seq<char>> {
    match row {
        Some((status, _)) => Some(status@),
        None => None,
    }
}

/// The watch after a poll that read `status`: counted; stopped when nothing
/// was read; holding the status to send when it differs from the last one
/// delivered.
pub open spec fn after_poll(v: WatchView, status: Option<Seq<char>>) -> WatchView {
    match status {
        None => WatchView { last: v.last, pending: v.pending, polls: v.polls + 1, stopped: true },
        Some(s) => if v.last == Some(s) {
            WatchView { last: v.last, pending: v.pending, polls: v.polls + 1, stopped: v.stopped }
        } else {
            WatchView { last: v.last, pending: Some(s), polls: v.polls + 1, stopped: v.stopped }
        },
    }
}

/// The watch after sending its pending status: a delivered status becomes
/// the last one and stops the watch when it is final; a failed send stops it.
pub open spec fn after_send(v: WatchView, delivered: bool) -> WatchView {
    if delivered {
        WatchView {
            last: v.pending,
            pending: None,
            polls: v.polls,
            stopped: match v.pending {
                Some(p) => is_final_status(p),
                None => v.stopped,
            },
        }
    } else {
        WatchView { last: v.last, pending: None, polls: v.polls, stopped: true }
    }
}

/// One thing that happens to a watch: a poll and what it read, or the
/// outcome of sending the pending status.
pub enum WatchEvent {
    Polled(Option<Seq<char>>),
    Sent(bool),
}

/// Whether the watch takes an event: a poll when it can poll, a send outcome
/// when it has a status to send.
pub open spec fn event_enabled(v: WatchView, e: WatchEvent) -> bool {
    match e {
        WatchEvent::Polled(_) => can_poll(v),
        WatchEvent::Sent(_) => v.pending is Some,
    }
}

pub open spec fn after_event(v: WatchView, e: WatchEvent) -> WatchView {
    match e {
        WatchEvent::Polled(s) => after_poll(v, s),
        WatchEvent::Sent(ok) => after_send(v, ok),
    }
}

/// The watch after a run of events from its start.
pub open spec fn run_watch(evs: Seq<WatchEvent>) -> WatchView
    decreases evs.len(),
{
    if evs.len() == 0 {
        fresh_watch()
    } else {
        after_event(run_watch(evs.drop_last()), evs.last())
    }
}

/// A run of events that the watch takes one after another from its start.
pub open spec fn is_watch_run(evs: Seq<WatchEvent>) -> bool
    decreases evs.len(),
{
    evs.len() == 0 || (is_watch_run(evs.drop_last()) && event_enabled(run_watch(evs.drop_last()), evs.last()))
}

/// The statuses the subscriber received during a run, in order.
pub open spec fn delivered_statuses(evs: Seq<WatchEvent>) -> Seq<Seq<char>>
    decreases evs.len(),
{
    if evs.len() == 0 {
        Seq::empty()
    } else {
        let d = delivered_statuses(evs.drop_last());
        let w = run_watch(evs.drop_last());
        if evs.last() == WatchEvent::Sent(true) && w.pending is Some {
            d.push(w.pending.unwrap())
        } else {
            d
        }
    }
}

/// Whether a status was read at one of the polls of a run.
pub open spec fn read_at_poll(evs: Seq<WatchEvent>, s: Seq<char>) -> bool {
    exists|j: int| 0 <= j < evs.len() && evs[j] == WatchEvent::Polled(Some(s))
}

/// Why a watch may have stopped during a run: a poll found no order, a send
/// did not reach the subscriber, or the last status delivered is
/// `delivered` or `cancelled`.
pub open spec fn stopped_for_cause(evs: Seq<WatchEvent>) -> bool {
    ||| exists|j: int|
        0 <= j < evs.len() && (evs[j] == WatchEvent::Polled(None) || evs[j] == WatchEvent::Sent(false))
    ||| delivered_statuses(evs).len() > 0 && (delivered_statuses(evs).last() == "delivered"@
        || delivered_statuses(evs).last() == "cancelled"@)
}

/// What holds of a watch after every run of events it takes.
spec fn watch_run_inv(evs: Seq<WatchEvent>) -> bool {
    let w = run_watch(evs);
    let d = delivered_statuses(evs);
    &&& w.polls <= WATCH_MAX_POLLS
    &&& w.stopped ==> w.pending is None
    &&& w.last == (if d.len() == 0 {
        None
    } else {
        Some(d.last())
    })
    &&& (w.pending matches Some(p) ==> w.last != Some(p) && read_at_poll(evs, p))
    &&& forall|i: int| 0 < i < d.len() ==> #[trigger] d[i] != d[i - 1]
    &&& forall|i: int| 0 <= i < d.len() ==> read_at_poll(evs, #[trigger] d[i])
    &&& d.len() == 0 ==> (w.pending matches Some(p) ==> evs.len() == 1 && evs[0] == WatchEvent::Polled(Some(p)))
    &&& d.len() == 0 && !w.stopped && w.pending is None ==> evs.len() == 0
    &&& d.len() > 0 ==> evs.len() >= 2 && evs[0] == WatchEvent::Polled(Some(d[0])) && evs[1] == WatchEvent::Sent(
        true,
    )
    &&& d.len() > 0 && is_final_status(d.last()) ==> w.stopped
    &&& w.stopped ==> stopped_for_cause(evs)
}

proof fn lemma_read_at_poll_grows(evs: Seq<WatchEvent>, s: Seq<char>)
    requires
        evs.len() > 0,
        read_at_poll(evs.drop_last(), s),
    ensures
        read_at_poll(evs, s),
{
    let j = choose|j: int| 0 <= j < evs.drop_last().len() && evs.drop_last()[j] == WatchEvent::Polled(Some(s));
    assert(evs[j] == evs.drop_last()[j]);
}

proof fn lemma_watch_run_inv(evs: Seq<WatchEvent>)
    requires
        is_watch_run(evs),
    ensures
        watch_run_inv(evs),
    decreases evs.len(),
{
    if evs.len() > 0 {
        let p = evs.drop_last();
        let e = evs.last();
        let n = p.len() as int;
        lemma_watch_run_inv(p);
        let w0 = run_watch(p);
        let d0 = delivered_statuses(p);
        let d = delivered_statuses(evs);
        assert(forall|j: int| 0 <= j < n ==> #[trigger] evs[j] == p[j]);
        assert(evs[n] == e);
        assert forall|i: int| 0 <= i < d0.len() implies read_at_poll(evs, #[trigger] d0[i]) by {
            lemma_read_at_poll_grows(evs, d0[i]);
        }
        if let Some(q) = w0.pending {
            lemma_read_at_poll_grows(evs, q);
        }
        match e {
            WatchEvent::Polled(st) => {
                assert(d == d0);
                if st is None {
                    assert(evs[n] == WatchEvent::Polled(None));
                }
                if let Some(s) = st {
                    assert(evs[n] == WatchEvent::Polled(Some(s)));
                    assert(read_at_poll(evs, s));
                }
            },
            WatchEvent::Sent(ok) => {
                if ok {
                    let q = w0.pending.unwrap();
                    assert(d == d0.push(q));
                    assert(d.last() == q);
                    assert forall|i: int| 0 <= i < d.len() implies read_at_poll(evs, #[trigger] d[i]) by {
                        if i < d0.len() {
                            assert(d[i] == d0[i]);
                        }
                    }
                    if d0.len() > 0 {
                        assert(d[0] == d0[0]);
                    }
                } else {
                    assert(d == d0);
                    assert(evs[n] == WatchEvent::Sent(false));
                }
            },
        }
    }
}

/// Sending a pending status: when it reaches the subscriber it becomes the
/// last status delivered, and the watch stops exactly when that status is
/// `delivered` or `cancelled`, so after any other status (`created`, `paid`,
/// `shipped`) it can poll again while polls are left; when it does not
/// reach the subscriber, the watch stops.
pub proof fn lemma_send_outcome(v: WatchView, p: Seq<char>)
    requires
        v.pending == Some(p),
        !v.stopped,
    ensures
        after_send(v, true).last == Some(p),
        after_send(v, true).pending is None,
        after_send(v, true).polls == v.polls,
        after_send(v, true).stopped <==> (p == "delivered"@ || p == "cancelled"@),
        !(p == "delivered"@ || p == "cancelled"@) && v.polls < WATCH_MAX_POLLS ==> can_poll(after_send(v, true)),
        after_send(v, false).stopped,
        after_send(v, false).last == v.last,
{
}

/// The whole stream of a watch, from its start through any run of events it
/// takes: it polls at most `WATCH_MAX_POLLS` times; no status is delivered
/// twice in a row; every status delivered was read at a poll; the last
/// status delivered is the one the watch compares the next poll with; the
/// first status delivered is the one the first poll read, sent right after
/// that poll; once a final status is delivered, the watch has stopped and
/// takes no further event; and it stops only for a cause: a poll that found
/// no order, a send that failed, or a delivered `delivered` or `cancelled`.
pub proof fn lemma_watch_stream(evs: Seq<WatchEvent>)
    requires
        is_watch_run(evs),
    ensures
        run_watch(evs).polls <= WATCH_MAX_POLLS,
        forall|i: int|
            0 < i < delivered_statuses(evs).len() ==> #[trigger] delivered_statuses(evs)[i]
                != delivered_statuses(evs)[i - 1],
        forall|i: int|
            0 <= i < delivered_statuses(evs).len() ==> read_at_poll(evs, #[trigger] delivered_statuses(evs)[i]),
        run_watch(evs).last == (if delivered_statuses(evs).len() == 0 {
            None
        } else {
            Some(delivered_statuses(evs).last())
        }),
        delivered_statuses(evs).len() > 0 ==> evs[0] == WatchEvent::Polled(Some(delivered_statuses(evs)[0]))
            && evs[1] == WatchEvent::Sent(true),
        delivered_statuses(evs).len() > 0 && is_final_status(delivered_statuses(evs).last()) ==> run_watch(
            evs,
        ).stopped,
        run_watch(evs).stopped ==> forall|e: WatchEvent| !event_enabled(run_watch(evs), e),
        run_watch(evs).stopped ==> stopped_for_cause(evs),
{
    lemma_watch_run_inv(evs);
}

/// Streams the status changes of one order to a subscriber: poll once per
/// tick; on a status different from the last one delivered, send it; stop
/// when the order is gone, the subscriber is gone, a final status has been
/// delivered, or after `WATCH_MAX_POLLS` polls.
pub struct StatusWatch {
    order_id: u128,
    last_status: Option<String>,
    pending: Option<String>,
    polls: u32,
    stopped: bool,
}

impl View for StatusWatch {
    type V = WatchView;

    closed spec fn view(&self) -> WatchView {
        WatchView {
            last: opt_text(self.last_status),
            pending: opt_text(self.pending),
            polls: self.polls as nat,
            stopped: self.stopped,
        }
    }
}

impl StatusWatch {
    /// The order being watched.
    pub closed spec fn order(&self) -> u128 {
        self.order_id
    }

    pub open spec fn wf(&self) -> bool {
        &&& self@.polls <= WATCH_MAX_POLLS
        &&& self@.stopped ==> self@.pending is None
    }

    /// A watch of an order whose existence has been checked.
    pub fn new(order_id: u128) -> (r: StatusWatch)
        ensures
            r.wf(),
            r.order() == order_id,
            r@ == fresh_watch(),
    {
        StatusWatch { order_id, last_status: None, pending: None, polls: 0, stopped: false }
    }

    /// Whether the service should wait for the next tick and poll.
    pub fn should_poll(&self) -> (r: bool)
        requires
            self.wf(),
        ensures
            r == can_poll(self@),
    {
        !self.stopped && self.pending.is_none() && self.polls < WATCH_MAX_POLLS
    }

    /// Takes the result of a poll: the order's status and the time of its
    /// last change, or `None` when the order is gone or the poll failed.
    pub fn on_poll(&mut self, row: Option<(String, Instant)>) -> (r: WatchStep)
        requires
            old(self).wf(),
            !old(self)@.stopped,
            old(self)@.pending is None,
            old(self)@.polls < WATCH_MAX_POLLS,
        ensures
            final(self).wf(),
            final(self).order() == old(self).order(),
            final(self)@ == after_poll(old(self)@, polled_status(row)),
            match row {
                None => r is Stop,
                Some((status, at)) => if old(self)@.last == Some(status@) {
                    r is Wait
                } else {
                    r matches WatchStep::Send(u) && u.order_id@ == uuid_text(old(self).order())
                        && u.status@ == status@ && u.updated_at@ == utc_rfc3339(at.spec_secs(), at.spec_nanos())
                },
            },
    {
        self.polls = self.polls + 1;
        match row {
            None => {
                self.stopped = true;
                WatchStep::Stop
            },
            Some((status, at)) => {
                let same = match &self.last_status {
                    Some(last) => *last == status,
                    None => false,
                };
                if same {
                    WatchStep::Wait
                } else {
                    let update = OrderStatusUpdate {
                        order_id: uuid_to_text(self.order_id),
                        status: status.clone(),
                        updated_at: at.to_rfc3339(),
                    };
                    self.pending = Some(status);
                    WatchStep::Send(update)
                }
            },
        }
    }

    /// Takes whether the update sent last reached the subscriber.  If it did
    /// not, the watch stops; if it did, its status becomes the last one
    /// delivered, and the watch stops when that status is final.
    pub fn on_sent(&mut self, delivered: bool)
        requires
            old(self).wf(),
            old(self)@.pending is Some,
        ensures
            final(self).wf(),
            final(self).order() == old(self).order(),
            final(self)@ == after_send(old(self)@, delivered),
            delivered ==> final(self)@.last == old(self)@.pending && (final(self)@.stopped <==> (old(self)@.pending
                == Some("delivered"@) || old(self)@.pending == Some("cancelled"@))),
            !delivered ==> final(self)@.stopped,
    {
        let status = self.pending.take();
        match status {
            Some(s) => {
                if !delivered {
                    self.stopped = true;
                } else {
                    let fin = is_final(&s);
                    self.last_status = Some(s);
                    self.stopped = fin;
                }
            },
            None => {},
        }
    }
}

} // verus!
