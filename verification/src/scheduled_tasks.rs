//! Periodic maintenance: what a tick of the scheduler does, and the
//! retention of the outbox log.

use crate::context::{IbisContext, Store};
use crate::error::BackendResult;
use crate::records::SentActivity;
use crate::time::now_micros;
use vstd::prelude::*;

verus! {

/// The days for which an entry of the outbox log is kept.
pub const SENT_ACTIVITY_RETENTION_DAYS: i64 = 7;

/// The same in microseconds.
pub const SENT_ACTIVITY_RETENTION_MICROS: i64 = 604_800_000_000;

/// The hours between two ticks of the scheduler.
pub const TICK_INTERVAL_HOURS: u32 = 1;

/// The seconds between two looks of the scheduler at its clock.
pub const WATCH_INTERVAL_SECS: u64 = 60;

/// A maintenance action.
#[derive(Clone, Copy, Debug, PartialEq, Eq, Structural)]
pub enum ScheduledTask {
    /// Refresh the counts of active users.
    ActiveCounts,
    /// Delete the entries of the outbox log that are older than the retention window.
    CleanupSentActivities,
}

/// The action that follows one in a tick, whatever came of that one.
pub open spec fn task_following(task: ScheduledTask) -> Option<ScheduledTask> {
    match task {
        ScheduledTask::ActiveCounts => Some(ScheduledTask::CleanupSentActivities),
        ScheduledTask::CleanupSentActivities => None,
    }
}

/// Whether an entry of the outbox log is within the retention window at the
/// time `now`.
pub open spec fn is_retained(entry: SentActivity, now: i64) -> bool {
    entry.published >= now - SENT_ACTIVITY_RETENTION_MICROS
}

impl Store {
    /// The entries among the first `n` of the outbox log that are within the
    /// retention window at the time `now`, in the order of the log.
    pub open spec fn retained_upto(self, now: i64, n: int) -> Seq<SentActivity>
        decreases n,
    {
        if n <= 0 {
            Seq::empty()
        } else {
            let before = self.retained_upto(now, n - 1);
            if is_retained(self.sent_activities[n - 1], now) {
                before.push(self.sent_activities[n - 1])
            } else {
                before
            }
        }
    }

    /// The store after the outbox log was cleaned up at the time `now`.
    pub open spec fn cleaned_up(self, now: i64) -> Store {
        Store {
            sent_activities: self.retained_upto(now, self.sent_activities.len() as int),
            ..self
        }
    }
}

/// The retention bound. After a cleanup at the time `now` no entry of the
/// outbox log is older than the retention window.
pub proof fn lemma_cleanup_retention_bound(store: Store, now: i64)
    ensures
        forall|i: int|
            0 <= i < store.cleaned_up(now).sent_activities.len() ==> (
            #[trigger] store.cleaned_up(now).sent_activities[i]).published >= now
                - SENT_ACTIVITY_RETENTION_MICROS,
{
    lemma_cleanup_bound(store, now, store.sent_activities.len() as int);
}

/// What is retained of a stretch of the log is within the retention window.
proof fn lemma_cleanup_bound(store: Store, now: i64, n: int)
    ensures
        forall|i: int|
            0 <= i < store.retained_upto(now, n).len() ==> is_retained(
                #[trigger] store.retained_upto(now, n)[i],
                now,
            ),
    decreases n,
{
    if n > 0 {
        lemma_cleanup_bound(store, now, n - 1);
        let before = store.retained_upto(now, n - 1);
        assert forall|i: int| 0 <= i < store.retained_upto(now, n).len() implies is_retained(
            #[trigger] store.retained_upto(now, n)[i],
            now,
        ) by {
            if i < before.len() {
                assert(store.retained_upto(now, n)[i] == before[i]);
            }
        }
    }
}

/// A cleanup keeps every entry that is within the retention window, and
/// touches nothing but the outbox log.
pub proof fn lemma_cleanup_keeps_recent(store: Store, now: i64, k: int)
    requires
        0 <= k < store.sent_activities.len(),
        is_retained(store.sent_activities[k], now),
    ensures
        store.cleaned_up(now).sent_activities.contains(store.sent_activities[k]),
        store.cleaned_up(now).comments == store.comments,
        store.cleaned_up(now).articles == store.articles,
        store.cleaned_up(now).persons == store.persons,
        store.cleaned_up(now).instances == store.instances,
        store.cleaned_up(now).instance_followers == store.instance_followers,
{
    lemma_retained_holds(store, now, k, store.sent_activities.len() as int);
}

/// An entry within the retention window is among those retained of any
/// stretch of the log that reaches it.
proof fn lemma_retained_holds(store: Store, now: i64, k: int, n: int)
    requires
        0 <= k < n <= store.sent_activities.len(),
        is_retained(store.sent_activities[k], now),
    ensures
        store.retained_upto(now, n).contains(store.sent_activities[k]),
    decreases n,
{
    let before = store.retained_upto(now, n - 1);
    if k == n - 1 {
        assert(before.push(store.sent_activities[k])[before.len() as int]
            == store.sent_activities[k]);
    } else {
        lemma_retained_holds(store, now, k, n - 1);
        let w = choose|i: int| 0 <= i < before.len() && before[i] == store.sent_activities[k];
        if is_retained(store.sent_activities[n - 1], now) {
            assert(before.push(store.sent_activities[n - 1])[w] == store.sent_activities[k]);
        }
    }
}

/// A cleanup of a log whose entries are all within the retention window
/// changes nothing.
pub proof fn lemma_cleanup_leaves_recent_log(store: Store, now: i64)
    requires
        forall|i: int|
            0 <= i < store.sent_activities.len() ==> is_retained(
                #[trigger] store.sent_activities[i],
                now,
            ),
    ensures
        store.cleaned_up(now) == store,
{
    lemma_retained_all(store, now, store.sent_activities.len() as int);
    assert(store.sent_activities.take(store.sent_activities.len() as int)
        =~= store.sent_activities);
}

proof fn lemma_retained_all(store: Store, now: i64, n: int)
    requires
        0 <= n <= store.sent_activities.len(),
        forall|i: int|
            0 <= i < store.sent_activities.len() ==> is_retained(
                #[trigger] store.sent_activities[i],
                now,
            ),
    ensures
        store.retained_upto(now, n) == store.sent_activities.take(n),
    decreases n,
{
    if n > 0 {
        lemma_retained_all(store, now, n - 1);
        assert(store.sent_activities.take(n) =~= store.sent_activities.take(n - 1).push(
            store.sent_activities[n - 1],
        ));
    } else {
        assert(store.sent_activities.take(0) =~= Seq::<SentActivity>::empty());
    }
}

/// The action with which a tick begins.
pub fn first_task() -> (task: ScheduledTask)
    ensures
        task == ScheduledTask::ActiveCounts,
{
    ScheduledTask::ActiveCounts
}

/// The action that follows `task` in a tick, or `None` where the tick is
/// over. Whether `task` succeeded makes no difference: a failure neither
/// holds up the actions after it nor the next tick.
pub fn task_after(task: ScheduledTask, succeeded: bool) -> (next: Option<ScheduledTask>)
    ensures
        next == task_following(task),
{
    match task {
        ScheduledTask::ActiveCounts => Some(ScheduledTask::CleanupSentActivities),
        ScheduledTask::CleanupSentActivities => None,
    }
}

/// Whether an entry of the outbox log that was published at `published` is
/// older than the retention window at the time `now`, and so due for deletion.
pub fn is_expired(published: i64, now: i64) -> (expired: bool)
    ensures
        expired == (published < now - SENT_ACTIVITY_RETENTION_MICROS),
{
    (published as i128) < (now as i128) - (SENT_ACTIVITY_RETENTION_MICROS as i128)
}

/// Deletes the entries of the outbox log that are older than the retention
/// window at the time `now`. The entries within the window stay as they are
/// and in their order.
pub fn cleanup_sent_activities_at(context: &mut IbisContext, now: i64) -> (r: BackendResult<()>)
    ensures
        r is Ok,
        final(context)@ == old(context)@.cleaned_up(now),
        old(context)@.wf() ==> final(context)@.wf(),
{
    let mut kept: Vec<SentActivity> = Vec::new();
    let mut i: usize = 0;
    while i < context.sent_activities.len()
        invariant
            i <= context.sent_activities.len(),
            *context == *old(context),
            kept@ == context@.retained_upto(now, i as int),
        decreases context.sent_activities.len() - i,
    {
        if !is_expired(context.sent_activities[i].published, now) {
            kept.push(context.sent_activities[i].clone());
        }
        i += 1;
    }
    context.sent_activities = kept;
    Ok(())
}

/// Deletes the entries of the outbox log that are older than the retention
/// window now: as [`cleanup_sent_activities_at`] at the time that the clock
/// gives, which is not before the epoch. So an entry published more than
/// seven days before the epoch never survives.
pub fn cleanup_sent_activities(context: &mut IbisContext) -> (r: BackendResult<()>)
    ensures
        r is Ok,
        exists|now: i64| now >= 0 && final(context)@ == #[trigger] old(context)@.cleaned_up(now),
        old(context)@.wf() ==> final(context)@.wf(),
{
    let now = now_micros();
    cleanup_sent_activities_at(context, now)
}

} // verus!
