//! The event loop of the dashboard.
//!
//! Between two frames the loop remembers what is on the terminal and which
//! notifications are due. Painting, waiting and reading the clock are the
//! terminal's business; each reply is turned into the next thing to do here.

use vstd::prelude::*;

use crate::input::map_key_event;
use crate::input::KeyEvent;
use crate::input::KeyEventKind;
use crate::model::DashboardModel;
use crate::model::DashboardMsg;
use crate::model::Notification;
use crate::runtime::Notice;
use crate::telemetry::last_n;

verus! {

/// An auto-dismiss timer of a notification.
#[derive(Debug, Clone, Copy, PartialEq, Eq, Structural)]
pub struct NotificationTimer {
    pub id: u64,
    /// On the monotonic clock, in milliseconds.
    pub deadline: u64,
}

/// The timers that have run out, in order.
pub open spec fn expired_timers(timers: Seq<NotificationTimer>, now: u64) -> Seq<NotificationTimer> {
    timers.filter(|t: NotificationTimer| now >= t.deadline)
}

/// The timers that are still running, in order.
pub open spec fn running_timers(timers: Seq<NotificationTimer>, now: u64) -> Seq<NotificationTimer> {
    timers.filter(|t: NotificationTimer| now < t.deadline)
}

/// No timer is lost, none runs out early and none runs on after its deadline.
pub proof fn law_timers_are_partitioned(timers: Seq<NotificationTimer>, now: u64)
    ensures
        running_timers(timers, now).to_multiset().add(expired_timers(timers, now).to_multiset())
            == timers.to_multiset(),
        forall|i: int|
            0 <= i < expired_timers(timers, now).len() ==> now >= (#[trigger] expired_timers(
                timers,
                now,
            )[i]).deadline,
        forall|i: int|
            0 <= i < running_timers(timers, now).len() ==> now < (#[trigger] running_timers(
                timers,
                now,
            )[i]).deadline,
    decreases timers.len(),
{
    broadcast use {
        vstd::seq_lib::group_filter_ensures,
        vstd::seq_lib::group_to_multiset_ensures,
        vstd::multiset::group_multiset_axioms,
    };

    reveal(Seq::filter);
    if timers.len() > 0 {
        let rest = timers.drop_last();
        let last = timers.last();
        law_timers_are_partitioned(rest, now);
        assert(rest.push(last) =~= timers);
        let runs = running_timers(rest, now);
        let done = expired_timers(rest, now);
        if now < last.deadline {
            assert(running_timers(timers, now) == runs.push(last));
            assert(expired_timers(timers, now) == done);
        } else {
            assert(running_timers(timers, now) == runs);
            assert(expired_timers(timers, now) == done.push(last));
        }
        assert(running_timers(timers, now).to_multiset().add(
            expired_timers(timers, now).to_multiset(),
        ) =~= timers.to_multiset());
    } else {
        assert(running_timers(timers, now).to_multiset().add(
            expired_timers(timers, now).to_multiset(),
        ) =~= timers.to_multiset());
    }
}

/// A terminal size with at least one cell.
pub open spec fn at_least_one_cell(size: (u16, u16)) -> (u16, u16) {
    (
        if size.0 == 0 {
            1
        } else {
            size.0
        },
        if size.1 == 0 {
            1
        } else {
            size.1
        },
    )
}

/// A terminal size with at least one cell.
pub fn drawable_size(size: (u16, u16)) -> (r: (u16, u16))
    ensures
        r == at_least_one_cell(size),
{
    let cols: u16 = if size.0 == 0 {
        1
    } else {
        size.0
    };
    let rows: u16 = if size.1 == 0 {
        1
    } else {
        size.1
    };
    (cols, rows)
}

/// A terminal event.
#[derive(Debug, Clone, Copy, PartialEq, Eq)]
pub enum TerminalEvent {
    Key(KeyEvent),
    Resize { width: u16, height: u16 },
    /// An event that no message stands for.
    Other,
}

/// The message for a terminal event: key presses and resizes have one, key
/// releases and other events have none.
pub fn event_message(event: TerminalEvent) -> (msg: Option<DashboardMsg>)
    ensures
        match event {
            TerminalEvent::Key(key) => if key.kind == KeyEventKind::Press {
                msg is Some && call_ensures(map_key_event, (key,), msg->0)
            } else {
                msg is None
            },
            TerminalEvent::Resize { width, height } => msg == Some(
                DashboardMsg::Resize { cols: width, rows: height },
            ),
            TerminalEvent::Other => msg is None,
        },
{
    match event {
        TerminalEvent::Key(key) => if key.kind == KeyEventKind::Press {
            Some(map_key_event(key))
        } else {
            None
        },
        TerminalEvent::Resize { width, height } => Some(
            DashboardMsg::Resize { cols: width, rows: height },
        ),
        TerminalEvent::Other => None,
    }
}

/// The message for the outcome of waiting: that of the event that came, and a
/// tick where none came in time.
pub fn poll_message(polled: Option<TerminalEvent>) -> (msg: Option<DashboardMsg>)
    ensures
        match polled {
            Some(event) => call_ensures(event_message, (event,), msg),
            None => msg == Some(DashboardMsg::Tick),
        },
{
    match polled {
        Some(event) => event_message(event),
        None => Some(DashboardMsg::Tick),
    }
}

/// How a frame is painted.
#[derive(Debug, Clone, Copy, PartialEq, Eq)]
pub struct FramePlan {
    /// Columns and rows.
    pub size: (u16, u16),
    /// Whether every cell is painted, not only those that changed.
    pub full: bool,
}

/// The timers after a notification was shown: one more for a notification with
/// a time, no other for one that persists.
pub open spec fn timers_with(
    timers: Seq<NotificationTimer>,
    id: u64,
    now: u64,
    stays: Option<u64>,
) -> Seq<NotificationTimer> {
    match stays {
        Some(after) => timers.push(NotificationTimer { id, deadline: (now + after) as u64 }),
        None => timers,
    }
}

/// What the loop remembers between two frames.
#[derive(Debug, PartialEq, Eq)]
pub struct CockpitLoop {
    /// Whether nothing has been painted yet.
    pub first_frame: bool,
    /// The size of the buffer that the last frame left.
    pub shown: (u16, u16),
    /// The running timers, oldest first.
    pub timers: Vec<NotificationTimer>,
}

/// How the next frame is painted: in full at first and whenever the size has
/// changed.
pub open spec fn planned_frame(first_frame: bool, shown: (u16, u16), size: (u16, u16)) -> FramePlan {
    FramePlan {
        size: at_least_one_cell(size),
        full: first_frame || shown != at_least_one_cell(size),
    }
}

impl CockpitLoop {
    /// The loop before its first frame.
    pub fn new(size: (u16, u16)) -> (l: Self)
        ensures
            l.first_frame,
            l.shown == at_least_one_cell(size),
            l.timers@.len() == 0,
    {
        CockpitLoop { first_frame: true, shown: drawable_size(size), timers: Vec::new() }
    }

    /// Plans the next frame for a terminal size.
    pub fn next_frame(&mut self, size: (u16, u16)) -> (plan: FramePlan)
        ensures
            plan == planned_frame(old(self).first_frame, old(self).shown, size),
            !final(self).first_frame,
            final(self).shown == plan.size,
            final(self).timers == old(self).timers,
    {
        let now = drawable_size(size);
        let full = self.first_frame || self.shown.0 != now.0 || self.shown.1 != now.1;
        self.first_frame = false;
        self.shown = now;
        FramePlan { size: now, full }
    }

    /// Starts the timer of a notification.
    pub fn start_timer(&mut self, id: u64, now: u64, after: u64)
        requires
            now + after <= u64::MAX,
        ensures
            final(self).timers@ == old(self).timers@.push(
                NotificationTimer { id, deadline: (now + after) as u64 },
            ),
            final(self).first_frame == old(self).first_frame,
            final(self).shown == old(self).shown,
    {
        self.timers.push(NotificationTimer { id, deadline: now + after });
    }

    /// Shows a notice and starts its timer, where it has a time.
    pub fn notify(&mut self, model: &mut DashboardModel, notice: Notice, now: u64)
        requires
            notice.stays is Some ==> now + notice.stays->0 <= u64::MAX,
            old(model).next_notification_id < u64::MAX,
        ensures
            final(self).timers@ == timers_with(
                old(self).timers@,
                old(model).next_notification_id,
                now,
                notice.stays,
            ),
            final(self).first_frame == old(self).first_frame,
            final(self).shown == old(self).shown,
            final(model).notifications@ == last_n(
                old(model).notifications@.push(
                    Notification {
                        id: old(model).next_notification_id,
                        level: notice.level,
                        message: notice.message,
                    },
                ),
                3,
            ),
            final(model).next_notification_id == old(model).next_notification_id + 1,
            *final(model) == (DashboardModel {
                next_notification_id: final(model).next_notification_id,
                notifications: final(model).notifications,
                ..*old(model)
            }),
    {
        let id: u64 = model.push_notification(notice.level, notice.message);
        if let Some(after) = notice.stays {
            self.start_timer(id, now, after);
        }
    }

    /// Takes the timers that have run out away and returns their notifications.
    pub fn take_expired(&mut self, now: u64) -> (ids: Vec<u64>)
        ensures
            final(self).timers@ == running_timers(old(self).timers@, now),
            ids@ == expired_timers(old(self).timers@, now).map_values(
                |t: NotificationTimer| t.id,
            ),
            final(self).first_frame == old(self).first_frame,
            final(self).shown == old(self).shown,
    {
        let ghost all = self.timers@;
        let ghost runs = |t: NotificationTimer| now < t.deadline;
        let ghost done = |t: NotificationTimer| now >= t.deadline;
        let ghost id_of = |t: NotificationTimer| t.id;
        let mut ids: Vec<u64> = Vec::new();
        let mut kept: Vec<NotificationTimer> = Vec::new();
        let mut k: usize = 0;
        proof {
            reveal(Seq::filter);
            assert(all.take(0).filter(runs) =~= Seq::<NotificationTimer>::empty());
            assert(all.take(0).filter(done).map_values(id_of) =~= Seq::<u64>::empty());
        }
        while k < self.timers.len()
            invariant
                self.timers@ == all,
                *self == *old(self),
                k <= all.len(),
                runs == (|t: NotificationTimer| now < t.deadline),
                done == (|t: NotificationTimer| now >= t.deadline),
                id_of == (|t: NotificationTimer| t.id),
                kept@ == all.take(k as int).filter(runs),
                ids@ == all.take(k as int).filter(done).map_values(id_of),
            decreases all.len() - k,
        {
            let timer = self.timers[k];
            proof {
                reveal(Seq::filter);
                assert(all.take(k + 1).drop_last() =~= all.take(k as int));
            }
            if now >= timer.deadline {
                ids.push(timer.id);
                assert(all.take(k + 1).filter(done) =~= all.take(k as int).filter(done).push(timer));
                assert(ids@ =~= all.take(k + 1).filter(done).map_values(id_of));
            } else {
                kept.push(timer);
            }
            k += 1;
        }
        assert(all.take(k as int) =~= all);
        self.timers = kept;
        ids
    }
}

/// A frame of the size of the one before is never painted in full.
pub proof fn law_unchanged_size_repaints_changes_only(
    first_frame: bool,
    shown: (u16, u16),
    size: (u16, u16),
)
    ensures
        !planned_frame(false, planned_frame(first_frame, shown, size).size, size).full,
{
}

/// A notification expires in the round in which its time is up, and in none
/// before.
pub proof fn law_notification_expires_on_time(
    timers: Seq<NotificationTimer>,
    id: u64,
    start: u64,
    after: u64,
    now: u64,
)
    requires
        start + after <= u64::MAX,
    ensures
        ({
            let timer = NotificationTimer { id, deadline: (start + after) as u64 };
            &&& now >= start + after ==> expired_timers(timers.push(timer), now)
                == expired_timers(timers, now).push(timer)
            &&& now < start + after ==> running_timers(timers.push(timer), now)
                == running_timers(timers, now).push(timer)
        }),
{
    let timer = NotificationTimer { id, deadline: (start + after) as u64 };
    reveal(Seq::filter);
    assert(timers.push(timer).drop_last() =~= timers);
}

/// A notification that persists is never taken as expired.
pub proof fn law_persistent_notification_never_expires(
    timers: Seq<NotificationTimer>,
    id: u64,
    shown: u64,
    now: u64,
)
    requires
        forall|i: int| 0 <= i < timers.len() ==> (#[trigger] timers[i]).id != id,
    ensures
        forall|i: int|
            0 <= i < expired_timers(timers_with(timers, id, shown, None), now).len() ==> (
            #[trigger] expired_timers(timers_with(timers, id, shown, None), now)[i]).id != id,
{
    let done = |t: NotificationTimer| now >= t.deadline;
    assert forall|i: int| 0 <= i < timers.filter(done).len() implies (#[trigger] timers.filter(
        done,
    )[i]).id != id by {
        timers.lemma_filter_pred(done, i);
        timers.lemma_filter_contains_rev(done, timers.filter(done)[i]);
    }
}

/// A frame always has a cell, and a size that has one is kept.
pub proof fn law_frames_have_a_cell(first_frame: bool, shown: (u16, u16), size: (u16, u16))
    ensures
        ({
            let plan = planned_frame(first_frame, shown, size);
            &&& plan.size.0 >= 1 && plan.size.1 >= 1
            &&& size.0 >= 1 ==> plan.size.0 == size.0
            &&& size.1 >= 1 ==> plan.size.1 == size.1
            &&& plan.full <==> first_frame || plan.size != shown
        }),
{
}

/// A key press comes as the very key, a resize with its own columns and rows, and a key
/// that is released or repeated not at all; without an event a tick comes.
pub proof fn law_events_become_messages(event: TerminalEvent, msg: Option<DashboardMsg>)
    requires
        call_ensures(event_message, (event,), msg),
    ensures
        event matches TerminalEvent::Key(key) ==> (msg is Some <==> key.kind == KeyEventKind::Press)
            && (msg is Some ==> msg->0 == DashboardMsg::Key(key)),
        event matches TerminalEvent::Resize { width, height } ==> msg == Some(
            DashboardMsg::Resize { cols: width, rows: height },
        ),
        event is Other ==> msg is None,
{
}

/// A notice with a time gets a timer of its own that runs out after that time; the other
/// timers stay.
pub proof fn law_notice_starts_its_timer(
    timers: Seq<NotificationTimer>,
    id: u64,
    now: u64,
    stays: Option<u64>,
)
    requires
        stays is Some ==> now + stays->0 <= u64::MAX,
    ensures
        stays is None ==> timers_with(timers, id, now, stays) == timers,
        stays is Some ==> ({
            let all = timers_with(timers, id, now, stays);
            &&& all.len() == timers.len() + 1
            &&& all.last().id == id
            &&& all.last().deadline - now == stays->0
            &&& all.drop_last() == timers
        }),
{
    assert(stays is Some ==> timers_with(timers, id, now, stays).drop_last() =~= timers);
}

/// A round of the loop takes away exactly the timers that have run out, and hands their
/// notifications out.
pub proof fn law_round_takes_expired_timers(l: &mut CockpitLoop, now: u64, ids: Vec<u64>, i: int)
    requires
        call_ensures(CockpitLoop::take_expired, (l, now), ids),
        0 <= i < old(l).timers@.len(),
    ensures
        old(l).timers@[i].deadline <= now ==> ids@.contains(old(l).timers@[i].id),
        old(l).timers@[i].deadline > now ==> final(l).timers@.contains(old(l).timers@[i]),
        forall|k: int|
            0 <= k < final(l).timers@.len() ==> now < (#[trigger] final(l).timers@[k]).deadline,
        final(l).first_frame == old(l).first_frame,
        final(l).shown == old(l).shown,
{
    let timers = old(l).timers@;
    let done = |t: NotificationTimer| now >= t.deadline;
    let runs = |t: NotificationTimer| now < t.deadline;
    let f = |t: NotificationTimer| t.id;
    if done(timers[i]) {
        timers.lemma_filter_contains(done, i);
        let k = choose|k: int|
            0 <= k < timers.filter(done).len() && timers.filter(done)[k] == timers[i];
        assert(ids@[k] == timers[i].id);
    } else {
        timers.lemma_filter_contains(runs, i);
    }
    assert forall|k: int| 0 <= k < final(l).timers@.len() implies now < (
    #[trigger] final(l).timers@[k]).deadline by {
        timers.lemma_filter_pred(runs, k);
        assert(runs(timers.filter(runs)[k]));
    }
}

/// The first frame is painted in full, the next one of the same size only where it changed,
/// and a frame of another size in full again.
pub proof fn law_frames_follow_each_other(
    first: &mut CockpitLoop,
    second: &mut CockpitLoop,
    size: (u16, u16),
    next: (u16, u16),
    a: FramePlan,
    b: FramePlan,
)
    requires
        call_ensures(CockpitLoop::next_frame, (first, size), a),
        *second == *final(first),
        call_ensures(CockpitLoop::next_frame, (second, next), b),
        next.0 >= 1 && next.1 >= 1 && size.0 >= 1 && size.1 >= 1,
    ensures
        old(first).first_frame ==> a.full,
        a.size == size,
        b.size == next,
        b.full <==> next != size,
        final(second).timers == old(first).timers,
{
}

/// A notice is shown under a new id with its own words, and its timer carries that id.
pub proof fn law_notice_is_shown_and_timed(
    l: &mut CockpitLoop,
    model: &mut DashboardModel,
    notice: Notice,
    now: u64,
)
    requires
        call_ensures(CockpitLoop::notify, (l, model, notice, now), ()),
        notice.stays is Some ==> now + notice.stays->0 <= u64::MAX,
        old(model).next_notification_id < u64::MAX,
    ensures
        final(model).notifications@.len() > 0,
        final(model).notifications@.last().message == notice.message,
        final(model).notifications@.last().level == notice.level,
        notice.stays is Some ==> final(l).timers@.len() == old(l).timers@.len() + 1 && final(l).timers@.last().id == final(model).notifications@.last().id && final(l).timers@.last().deadline == now + notice.stays->0,
        notice.stays is None ==> final(l).timers@ == old(l).timers@,
        final(model).screen == old(model).screen,
{
}

/// A size without cells is drawn as one cell; any other size stays.
pub proof fn law_drawable_size_has_a_cell(size: (u16, u16), r: (u16, u16))
    requires
        call_ensures(drawable_size, (size,), r),
    ensures
        r.0 >= 1 && r.1 >= 1,
        size.0 >= 1 ==> r.0 == size.0,
        size.1 >= 1 ==> r.1 == size.1,
        r.0 <= size.0 + 1 && r.1 <= size.1 + 1,
{
}

/// A poll that runs out is a tick, and one that does not is the message of its event.
pub proof fn law_idle_poll_ticks(polled: Option<TerminalEvent>, msg: Option<DashboardMsg>)
    requires
        call_ensures(poll_message, (polled,), msg),
    ensures
        polled is None ==> msg == Some(DashboardMsg::Tick),
        polled == Some(TerminalEvent::Other) ==> msg is None,
        polled matches Some(TerminalEvent::Key(key)) ==> (msg is Some <==> key.kind
            == KeyEventKind::Press) && (msg is Some ==> msg->0 == DashboardMsg::Key(key)),
        polled matches Some(TerminalEvent::Resize { width, height }) ==> msg == Some(
            DashboardMsg::Resize { cols: width, rows: height },
        ),
{
}

/// A loop begins with a full frame and without timers.
pub proof fn law_loop_begins_afresh(size: (u16, u16), l: CockpitLoop)
    requires
        call_ensures(CockpitLoop::new, (size,), l),
    ensures
        l.first_frame,
        l.timers@.len() == 0,
        l.shown.0 >= 1 && l.shown.1 >= 1,
        size.0 >= 1 && size.1 >= 1 ==> l.shown == size,
{
}

/// A timer runs out as long after its start as it was told, not before.
pub proof fn law_timer_runs_its_time(
    started: &mut CockpitLoop,
    taken: &mut CockpitLoop,
    id: u64,
    now: u64,
    after: u64,
    later: u64,
    ids: Vec<u64>,
)
    requires
        now + after <= u64::MAX,
        old(started).timers@.len() == 0,
        call_ensures(CockpitLoop::start_timer, (started, id, now, after), ()),
        *taken == *final(started),
        call_ensures(CockpitLoop::take_expired, (taken, later), ids),
    ensures
        later >= now + after ==> ids@.contains(id) && final(taken).timers@.len() == 0,
        later < now + after ==> ids@.len() == 0 && final(taken).timers@ == final(started).timers@,
{
    let timers = final(started).timers@;
    let done = |t: NotificationTimer| later >= t.deadline;
    let runs = |t: NotificationTimer| later < t.deadline;
    assert(timers.len() == 1);
    assert(timers.drop_last() =~= Seq::empty());
    reveal_with_fuel(Seq::filter, 2);
    assert(timers.filter(done) =~= if later >= now + after {
        timers
    } else {
        Seq::empty()
    });
    assert(timers.filter(runs) =~= if later >= now + after {
        Seq::empty()
    } else {
        timers
    });
    if later >= now + after {
        assert(ids@[0] == id);
    }
}

} // verus!
