use isoflash::retry::{ShortWriteTracker, WriteStep};

#[test]
fn whole_write_finishes_at_once() {
    let mut tracker = ShortWriteTracker::new(512, 3);
    assert_eq!(tracker.remaining(), 512);
    assert_eq!(tracker.note_result(512), WriteStep::Done);
    assert_eq!(tracker.remaining(), 0);
}

#[test]
fn short_writes_carry_on_from_where_they_ended() {
    let mut tracker = ShortWriteTracker::new(100, 3);
    assert_eq!(tracker.note_result(40), WriteStep::Retry { offset: 40 });
    assert_eq!(tracker.remaining(), 60);
    assert_eq!(tracker.note_result(10), WriteStep::Retry { offset: 50 });
    assert_eq!(tracker.note_result(50), WriteStep::Done);
}

#[test]
fn the_retry_budget_is_bounded() {
    let mut tracker = ShortWriteTracker::new(100, 2);
    assert_eq!(tracker.note_result(10), WriteStep::Retry { offset: 10 });
    assert_eq!(tracker.note_result(0), WriteStep::Retry { offset: 10 });
    assert_eq!(tracker.note_result(0), WriteStep::GiveUp);
    // Progress up to the failure is still accounted for.
    assert_eq!(tracker.remaining(), 90);
}

#[test]
fn no_budget_means_one_short_write_fails() {
    let mut tracker = ShortWriteTracker::new(8, 0);
    assert_eq!(tracker.note_result(7), WriteStep::GiveUp);
}
