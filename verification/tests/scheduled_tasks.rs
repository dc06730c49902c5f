use ibis_core::context::{IbisConfig, IbisConfigFederation, IbisContext};
use ibis_core::db_url::DbUrl;
use ibis_core::records::SentActivity;
use ibis_core::scheduled_tasks::{
    cleanup_sent_activities, cleanup_sent_activities_at, first_task, is_expired, task_after,
    ScheduledTask, SENT_ACTIVITY_RETENTION_DAYS, SENT_ACTIVITY_RETENTION_MICROS,
    TICK_INTERVAL_HOURS, WATCH_INTERVAL_SECS,
};
use ibis_core::error::BackendError;

const DAY: i64 = 86_400_000_000;

fn context() -> IbisContext {
    IbisContext::new(IbisConfig {
        federation: IbisConfigFederation { domain: "example.com".to_string() },
        https: true,
        max_comment_depth: 10,
    })
}

fn sent(n: i64, published: i64) -> SentActivity {
    SentActivity {
        id: DbUrl::parse(&format!("https://example.com/activity/{n}")).unwrap(),
        published,
    }
}

#[test]
fn test_scheduled_tasks() {
    let mut context = context();
    let first = first_task();
    assert_eq!(first, ScheduledTask::ActiveCounts);
    let next = task_after(first, true).unwrap();
    assert_eq!(next, ScheduledTask::CleanupSentActivities);
    let outcome = cleanup_sent_activities(&mut context);
    assert_eq!(outcome, Ok(()));
    assert_eq!(task_after(next, outcome.is_ok()), None);
}

#[test]
fn a_failure_holds_up_neither_the_next_action_nor_the_end_of_the_tick() {
    let failed: Result<(), BackendError> = Err(BackendError::NotFound);
    assert_eq!(
        task_after(ScheduledTask::ActiveCounts, failed.is_ok()),
        Some(ScheduledTask::CleanupSentActivities)
    );
    assert_eq!(task_after(ScheduledTask::CleanupSentActivities, failed.is_ok()), None);
}

#[test]
fn the_log_is_kept_for_seven_days_and_looked_after_every_hour() {
    assert_eq!(SENT_ACTIVITY_RETENTION_DAYS, 7);
    assert_eq!(SENT_ACTIVITY_RETENTION_MICROS, 7 * DAY);
    assert_eq!(TICK_INTERVAL_HOURS, 1);
    assert_eq!(WATCH_INTERVAL_SECS, 60);
}

#[test]
fn an_entry_expires_once_it_is_older_than_seven_days() {
    let now = 100 * DAY;
    assert!(!is_expired(now, now));
    assert!(!is_expired(93 * DAY + 1, now));
    assert!(!is_expired(93 * DAY, now));
    assert!(is_expired(93 * DAY - 1, now));
    assert!(is_expired(0, now));
    assert!(!is_expired(now + DAY, now));
    assert!(!is_expired(i64::MIN, i64::MIN));
    assert!(is_expired(i64::MIN, i64::MAX));
    assert!(!is_expired(i64::MAX, i64::MIN));
}

#[test]
fn a_cleanup_deletes_the_old_entries_and_leaves_the_others_untouched() {
    let mut context = context();
    let now = 100 * DAY;
    context.sent_activities.push(sent(1, 99 * DAY));
    context.sent_activities.push(sent(2, 10 * DAY));
    context.sent_activities.push(sent(3, 93 * DAY));
    context.sent_activities.push(sent(4, 93 * DAY - 1));
    context.sent_activities.push(sent(5, 100 * DAY));
    assert_eq!(cleanup_sent_activities_at(&mut context, now), Ok(()));
    let left: Vec<(&str, i64)> = context
        .sent_activities
        .iter()
        .map(|a| (a.id.text.as_str(), a.published))
        .collect();
    assert_eq!(
        left,
        vec![
            ("https://example.com/activity/1", 99 * DAY),
            ("https://example.com/activity/3", 93 * DAY),
            ("https://example.com/activity/5", 100 * DAY),
        ]
    );
    assert!(context.sent_activities.iter().all(|a| a.published >= now - 7 * DAY));
    let before = format!("{:?}", context);
    assert_eq!(cleanup_sent_activities_at(&mut context, now), Ok(()));
    assert_eq!(format!("{:?}", context), before);
}

#[test]
fn a_cleanup_now_deletes_what_is_long_past() {
    let mut context = context();
    context.sent_activities.push(sent(1, 0));
    context.sent_activities.push(sent(2, i64::MAX));
    assert_eq!(cleanup_sent_activities(&mut context), Ok(()));
    assert_eq!(context.sent_activities.len(), 1);
    assert_eq!(context.sent_activities[0].published, i64::MAX);
}
