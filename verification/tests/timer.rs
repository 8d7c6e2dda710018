use stim::progress::Ratio;
use stim::session::CountdownSession;
use stim::state::{Command, Effects, TaskCommand, TimerStatus};
use stim::time_spec::TimeSpec;
use stim::timer::{Snapshot, TimerModel};

const NOTHING: Effects = Effects { notify: false, task: TaskCommand::Keep, finished: false };
const REDRAW: Effects = Effects { notify: true, task: TaskCommand::Keep, finished: false };
const SPAWN: Effects = Effects { notify: true, task: TaskCommand::Spawn, finished: false };
const CANCEL: Effects = Effects { notify: true, task: TaskCommand::Cancel, finished: false };
const COMPLETED: Effects = Effects { notify: true, task: TaskCommand::Cancel, finished: true };

fn hms(hours: u8, minutes: u8, seconds: u8) -> TimeSpec {
    TimeSpec { hours, minutes, seconds }
}

fn typed(digits: &[u8]) -> TimerModel {
    let mut model = TimerModel::new();
    for &digit in digits {
        assert_eq!(model.push_digit(digit), REDRAW);
    }
    model
}

fn running(digits: &[u8], now: u64) -> TimerModel {
    let mut model = typed(digits);
    assert_eq!(model.start(now), SPAWN);
    model
}

#[test]
fn new_timer_is_idle_and_empty() {
    let model = TimerModel::new();
    assert_eq!(model.status(), TimerStatus::Idle);
    assert_eq!(model.display(), hms(0, 0, 0));
    assert_eq!(model.raw_digits(), 0);
    assert_eq!(model.session(), CountdownSession::idle());
    assert_eq!(model.gen_progress_ratio(0), Ratio { part: 1, whole: 1 });
}

#[test]
fn typing_shows_uncarried_digits() {
    let model = typed(&[9, 9, 9, 9]);
    assert_eq!(model.raw_digits(), 9999);
    assert_eq!(model.display(), hms(0, 99, 99));
    assert_eq!(model.status(), TimerStatus::Idle);
}

#[test]
fn backspace_erases_the_newest_digit() {
    let mut model = typed(&[1, 2, 3]);
    assert_eq!(model.pop_digit(), REDRAW);
    assert_eq!(model.raw_digits(), 12);
    assert_eq!(model.display(), hms(0, 0, 12));
}

#[test]
fn start_normalizes_and_runs() {
    let mut model = typed(&[9, 9, 9, 9]);
    assert_eq!(model.start(500), SPAWN);
    assert_eq!(model.status(), TimerStatus::Running);
    assert_eq!(model.display(), hms(1, 40, 39));
    assert_eq!(
        model.session(),
        CountdownSession { base_secs: 6039, anchor: Some(500), banked_ms: 0 }
    );
    assert_eq!(model.raw_digits(), 9999);
}

#[test]
fn start_with_all_nines_clamps() {
    let mut model = typed(&[9, 9, 9, 9, 9, 9]);
    assert_eq!(model.raw_digits(), 999999);
    assert_eq!(model.display(), hms(99, 99, 99));
    model.start(0);
    assert_eq!(model.display(), hms(99, 59, 59));
    assert_eq!(model.session().base_secs, 359_999);
}

#[test]
fn start_with_nothing_typed_stays_idle() {
    let mut model = TimerModel::new();
    assert_eq!(model.start(1_000), REDRAW);
    assert_eq!(model.status(), TimerStatus::Idle);
    assert_eq!(model.display(), hms(0, 0, 0));
    assert_eq!(model.session(), CountdownSession::idle());
    assert_eq!(model.poll(100_000), NOTHING);
}

#[test]
fn start_with_zeros_typed_stays_idle() {
    let mut model = typed(&[0, 0, 0]);
    model.start(1_000);
    assert_eq!(model.status(), TimerStatus::Idle);
}

#[test]
fn one_minute_runs_out_after_61_seconds() {
    let mut model = typed(&[1, 0, 0]);
    assert_eq!(model.raw_digits(), 100);
    assert_eq!(model.display(), hms(0, 1, 0));
    assert_eq!(model.start(0), SPAWN);
    let mut finished = 0;
    for now in (100..=61_000u64).step_by(100) {
        let effects = model.poll(now);
        if effects.finished {
            finished += 1;
        }
    }
    assert_eq!(model.display(), hms(0, 0, 0));
    assert_eq!(model.status(), TimerStatus::Finished);
    assert!(model.gen_progress_ratio(61_000).is_zero());
    assert_eq!(model.gen_progress_ratio(61_000).per_mille(), 0);
    assert_eq!(finished, 1);
}

#[test]
fn one_late_poll_finishes_once() {
    let mut model = running(&[1, 0, 0], 0);
    assert_eq!(model.poll(61_000), COMPLETED);
    assert_eq!(model.status(), TimerStatus::Finished);
    assert_eq!(model.display(), hms(0, 0, 0));
    assert_eq!(model.poll(61_100), NOTHING);
    assert_eq!(model.poll(120_000), NOTHING);
}

#[test]
fn timer_finishes_exactly_when_the_duration_has_run() {
    let mut model = running(&[1, 0], 2_000);
    assert_eq!(model.poll(11_999), REDRAW);
    assert_eq!(model.status(), TimerStatus::Running);
    assert_eq!(model.display(), hms(0, 0, 1));
    assert_eq!(model.poll(12_000), COMPLETED);
    assert_eq!(model.status(), TimerStatus::Finished);
}

#[test]
fn poll_takes_whole_seconds_off_the_display() {
    let mut model = running(&[1, 3, 0], 0);
    assert_eq!(model.display(), hms(0, 1, 30));
    assert_eq!(model.poll(999), NOTHING);
    assert_eq!(model.display(), hms(0, 1, 30));
    assert_eq!(model.poll(1_000), REDRAW);
    assert_eq!(model.display(), hms(0, 1, 29));
    assert_eq!(model.poll(1_100), NOTHING);
    assert_eq!(model.poll(1_999), NOTHING);
    assert_eq!(model.display(), hms(0, 1, 29));
    assert_eq!(model.poll(2_050), REDRAW);
    assert_eq!(model.display(), hms(0, 1, 28));
}

#[test]
fn delayed_poll_takes_every_second_crossed() {
    let mut model = running(&[1, 3, 0], 0);
    assert_eq!(model.poll(1_000), REDRAW);
    assert_eq!(model.poll(35_400), REDRAW);
    assert_eq!(model.display(), hms(0, 0, 55));
    assert_eq!(model.culc_hms_secs(), 55);
}

#[test]
fn poll_with_an_earlier_reading_takes_nothing_back() {
    let mut model = running(&[1, 3, 0], 0);
    model.poll(10_000);
    assert_eq!(model.display(), hms(0, 1, 20));
    assert_eq!(model.poll(4_000), NOTHING);
    assert_eq!(model.display(), hms(0, 1, 20));
}

#[test]
fn poll_leaves_a_timer_alone_that_is_not_running() {
    let mut model = typed(&[1, 0]);
    assert_eq!(model.poll(50_000), NOTHING);
    assert_eq!(model.status(), TimerStatus::Idle);
    model.start(0);
    model.pause(3_000);
    assert_eq!(model.poll(50_000), NOTHING);
    assert_eq!(model.status(), TimerStatus::Paused);
    assert_eq!(model.display(), hms(0, 0, 10));
}

#[test]
fn pause_banks_the_time_run() {
    let mut model = running(&[1, 0], 1_000);
    assert_eq!(model.pause(5_000), CANCEL);
    assert_eq!(model.status(), TimerStatus::Paused);
    assert_eq!(
        model.session(),
        CountdownSession { base_secs: 10, anchor: None, banked_ms: 4_000 }
    );
    assert_eq!(model.current_remaining(5_000), 6_000);
    assert_eq!(model.current_remaining(900_000), 6_000);
}

#[test]
fn resume_runs_on_from_what_was_banked() {
    let mut model = running(&[1, 0], 1_000);
    model.pause(5_000);
    assert_eq!(model.resume(70_000), SPAWN);
    assert_eq!(model.status(), TimerStatus::Running);
    assert_eq!(
        model.session(),
        CountdownSession { base_secs: 10, anchor: Some(70_000), banked_ms: 4_000 }
    );
    assert_eq!(model.current_remaining(70_000), 6_000);
}

#[test]
fn ten_seconds_paused_after_four_finish_six_seconds_after_resume() {
    let mut model = running(&[1, 0], 0);
    for now in (100..=4_000u64).step_by(100) {
        assert!(!model.poll(now).finished);
    }
    assert_eq!(model.display(), hms(0, 0, 6));
    model.pause(4_000);
    let resumed_at = 1_000_000;
    model.resume(resumed_at);
    let mut finished_at = None;
    for offset in (100..=7_000u64).step_by(100) {
        if model.poll(resumed_at + offset).finished {
            assert_eq!(finished_at, None);
            finished_at = Some(offset);
        }
    }
    assert_eq!(finished_at, Some(6_000));
    assert_eq!(model.status(), TimerStatus::Finished);
    assert_eq!(model.display(), hms(0, 0, 0));
}

#[test]
fn pause_and_resume_keep_what_remains() {
    for pause_at in [0u64, 1, 999, 1_000, 4_321, 9_999] {
        for resume_at in [0u64, 5_000, 10_000, 88_888_888] {
            let mut model = running(&[1, 0], 0);
            let before = model.current_remaining(pause_at);
            model.pause(pause_at);
            assert_eq!(model.current_remaining(resume_at), before);
            model.resume(resume_at);
            assert_eq!(model.current_remaining(resume_at), before);
        }
    }
}

#[test]
fn progress_falls_as_the_clock_advances() {
    let mut model = running(&[1, 0], 0);
    assert_eq!(model.gen_progress_ratio(0), Ratio { part: 10_000, whole: 10_000 });
    assert_eq!(model.gen_progress_ratio(2_500), Ratio { part: 7_500, whole: 10_000 });
    assert_eq!(model.gen_progress_ratio(2_500).per_mille(), 750);
    let mut last = 1000;
    for now in (0..=12_000u64).step_by(50) {
        model.poll(now);
        let progress = model.gen_progress_ratio(now).per_mille();
        assert!(progress <= last);
        last = progress;
    }
    assert_eq!(last, 0);
    assert_eq!(model.gen_progress_ratio(10_000), Ratio { part: 0, whole: 1 });
}

#[test]
fn progress_of_a_paused_timer_stands_still() {
    let mut model = running(&[1, 0], 0);
    model.pause(4_000);
    assert_eq!(model.gen_progress_ratio(4_000), Ratio { part: 6_000, whole: 10_000 });
    assert_eq!(model.gen_progress_ratio(400_000), Ratio { part: 6_000, whole: 10_000 });
}

#[test]
fn reset_returns_to_the_typed_digits() {
    let mut model = running(&[9, 9, 9, 9], 0);
    model.poll(5_000);
    assert_eq!(model.display(), hms(1, 40, 34));
    assert_eq!(model.reset(), CANCEL);
    assert_eq!(model.status(), TimerStatus::Idle);
    assert_eq!(model.display(), hms(0, 99, 99));
    assert_eq!(model.raw_digits(), 9999);
    assert_eq!(model.session(), CountdownSession::idle());
    assert_eq!(model.gen_progress_ratio(9_000), Ratio { part: 1, whole: 1 });
}

#[test]
fn reset_from_paused_and_finished_keeps_no_task() {
    let mut model = running(&[5], 0);
    model.pause(1_000);
    assert_eq!(model.reset(), REDRAW);
    assert_eq!(model.status(), TimerStatus::Idle);
    let mut model = running(&[5], 0);
    model.poll(5_000);
    assert_eq!(model.status(), TimerStatus::Finished);
    assert_eq!(model.reset(), REDRAW);
    assert_eq!(model.status(), TimerStatus::Idle);
    assert_eq!(model.display(), hms(0, 0, 5));
}

#[test]
fn reset_of_an_idle_timer_does_nothing() {
    let mut model = typed(&[7, 5]);
    model.add(0);
    assert_eq!(model.display(), hms(0, 1, 15));
    assert_eq!(model.reset(), NOTHING);
    assert_eq!(model.display(), hms(0, 1, 15));
}

#[test]
fn timer_can_be_used_again_after_it_finished() {
    let mut model = running(&[2], 0);
    assert_eq!(model.poll(2_000), COMPLETED);
    model.reset();
    assert_eq!(model.start(10_000), SPAWN);
    assert_eq!(model.poll(11_000), REDRAW);
    assert_eq!(model.poll(12_000), COMPLETED);
}

#[test]
fn commands_out_of_place_do_nothing() {
    let mut model = typed(&[1, 0]);
    assert_eq!(model.pause(0), NOTHING);
    assert_eq!(model.resume(0), NOTHING);
    assert_eq!(model.status(), TimerStatus::Idle);
    model.start(0);
    assert_eq!(model.start(1_000), NOTHING);
    assert_eq!(model.resume(1_000), NOTHING);
    assert_eq!(model.session().anchor, Some(0));
    model.pause(2_000);
    assert_eq!(model.pause(3_000), NOTHING);
    assert_eq!(model.start(3_000), NOTHING);
    assert_eq!(model.session().banked_ms, 2_000);
    model.resume(4_000);
    model.poll(60_000);
    assert_eq!(model.start(61_000), NOTHING);
    assert_eq!(model.pause(61_000), NOTHING);
    assert_eq!(model.resume(61_000), NOTHING);
    assert_eq!(model.status(), TimerStatus::Finished);
}

#[test]
fn typing_is_locked_while_the_timer_is_not_idle() {
    let mut model = running(&[1, 0], 0);
    assert_eq!(model.push_digit(5), NOTHING);
    assert_eq!(model.pop_digit(), NOTHING);
    assert_eq!(model.add(30), NOTHING);
    assert_eq!(model.raw_digits(), 10);
    assert_eq!(model.display(), hms(0, 0, 10));
    model.pause(1_000);
    assert_eq!(model.push_digit(5), NOTHING);
    assert_eq!(model.pop_digit(), NOTHING);
    assert_eq!(model.raw_digits(), 10);
    model.resume(1_000);
    model.poll(99_000);
    assert_eq!(model.push_digit(5), NOTHING);
    assert_eq!(model.pop_digit(), NOTHING);
    assert_eq!(model.raw_digits(), 10);
}

#[test]
fn add_is_ignored_while_running() {
    let mut model = running(&[1, 0], 0);
    model.poll(2_000);
    assert_eq!(model.add(30), NOTHING);
    assert_eq!(model.add(999_999), NOTHING);
    assert_eq!(model.raw_digits(), 10);
    assert_eq!(model.display(), hms(0, 0, 8));
    assert_eq!(model.status(), TimerStatus::Running);
}

#[test]
fn add_works_on_a_paused_timer() {
    let mut model = running(&[1, 0], 0);
    model.poll(3_000);
    model.pause(3_000);
    let session = model.session();
    assert_eq!(model.add(30), REDRAW);
    assert_eq!(model.raw_digits(), 40);
    assert_eq!(model.display(), hms(0, 0, 40));
    assert_eq!(model.status(), TimerStatus::Paused);
    assert_eq!(model.session(), session);
    assert_eq!(model.current_remaining(50_000), 7_000);
    assert_eq!(model.gen_progress_ratio(50_000), Ratio { part: 7_000, whole: 10_000 });
    assert_eq!(model.add(100), REDRAW);
    assert_eq!(model.raw_digits(), 140);
    assert_eq!(model.display(), hms(0, 1, 40));
}

#[test]
fn add_works_on_a_finished_timer() {
    let mut model = running(&[5], 0);
    assert_eq!(model.poll(5_000), COMPLETED);
    let session = model.session();
    assert_eq!(model.add(75), REDRAW);
    assert_eq!(model.raw_digits(), 80);
    assert_eq!(model.display(), hms(0, 1, 20));
    assert_eq!(model.status(), TimerStatus::Finished);
    assert_eq!(model.session(), session);
    assert!(model.gen_progress_ratio(9_000).is_zero());
    assert_eq!(model.poll(9_000), NOTHING);
    assert_eq!(model.reset(), REDRAW);
    assert_eq!(model.status(), TimerStatus::Idle);
    assert_eq!(model.display(), hms(0, 0, 80));
}

#[test]
fn add_on_a_paused_timer_wraps_and_clamps() {
    let mut model = running(&[9, 9, 5, 9, 5, 9], 0);
    model.pause(500);
    assert_eq!(model.add(500), REDRAW);
    assert_eq!(model.raw_digits(), 996_459);
    assert_eq!(model.display(), hms(99, 59, 59));
    assert_eq!(model.add(3_541), REDRAW);
    assert_eq!(model.raw_digits(), 0);
    assert_eq!(model.display(), hms(0, 0, 0));
    assert_eq!(model.status(), TimerStatus::Paused);
}

#[test]
fn countdown_goes_on_from_the_display_after_an_add() {
    let mut model = running(&[1, 0], 0);
    model.poll(3_000);
    assert_eq!(model.display(), hms(0, 0, 7));
    model.pause(3_000);
    model.add(30);
    assert_eq!(model.display(), hms(0, 0, 40));
    assert_eq!(model.resume(20_000), SPAWN);
    assert_eq!(model.poll(20_500), NOTHING);
    assert_eq!(model.display(), hms(0, 0, 40));
    assert_eq!(model.poll(21_000), REDRAW);
    assert_eq!(model.display(), hms(0, 0, 39));
    assert_eq!(model.poll(23_400), REDRAW);
    assert_eq!(model.display(), hms(0, 0, 37));
    assert_eq!(model.poll(27_000), COMPLETED);
    assert_eq!(model.display(), hms(0, 0, 0));
    assert_eq!(model.status(), TimerStatus::Finished);
}

#[test]
fn add_shows_the_carried_sum() {
    let mut model = typed(&[4, 5]);
    assert_eq!(model.add(30), REDRAW);
    assert_eq!(model.raw_digits(), 75);
    assert_eq!(model.display(), hms(0, 1, 15));
    assert_eq!(model.add(100), REDRAW);
    assert_eq!(model.raw_digits(), 175);
    assert_eq!(model.display(), hms(0, 2, 15));
    assert_eq!(model.add(500), REDRAW);
    assert_eq!(model.raw_digits(), 675);
    assert_eq!(model.display(), hms(0, 7, 15));
}

#[test]
fn add_clamps_the_display_and_wraps_the_digits() {
    let mut model = typed(&[9, 9, 5, 9, 5, 9]);
    model.add(500);
    assert_eq!(model.raw_digits(), 996459);
    assert_eq!(model.display(), hms(99, 59, 59));
    let mut model = typed(&[9, 9, 9, 9, 0, 0]);
    model.add(100);
    assert_eq!(model.raw_digits(), 0);
    assert_eq!(model.display(), hms(0, 0, 0));
}

#[test]
fn confirm_walks_through_the_states() {
    let mut model = typed(&[3]);
    assert_eq!(model.confirm(0), SPAWN);
    assert_eq!(model.status(), TimerStatus::Running);
    assert_eq!(model.confirm(1_000), CANCEL);
    assert_eq!(model.status(), TimerStatus::Paused);
    assert_eq!(model.confirm(5_000), SPAWN);
    assert_eq!(model.status(), TimerStatus::Running);
    assert_eq!(model.poll(7_000), COMPLETED);
    assert_eq!(model.confirm(8_000), REDRAW);
    assert_eq!(model.status(), TimerStatus::Idle);
    assert_eq!(model.display(), hms(0, 0, 3));
}

#[test]
fn dispatch_carries_out_each_command() {
    let mut model = TimerModel::new();
    assert_eq!(model.dispatch(Command::Digit(4), 0), REDRAW);
    assert_eq!(model.dispatch(Command::Digit(2), 0), REDRAW);
    assert_eq!(model.dispatch(Command::Backspace, 0), REDRAW);
    assert_eq!(model.raw_digits(), 4);
    assert_eq!(model.dispatch(Command::Add(30), 0), REDRAW);
    assert_eq!(model.display(), hms(0, 0, 34));
    assert_eq!(model.dispatch(Command::Start, 0), SPAWN);
    assert_eq!(model.dispatch(Command::Poll, 1_500), REDRAW);
    assert_eq!(model.display(), hms(0, 0, 33));
    assert_eq!(model.dispatch(Command::Pause, 2_000), CANCEL);
    assert_eq!(model.dispatch(Command::Resume, 3_000), SPAWN);
    assert_eq!(model.dispatch(Command::Add(30), 3_500), NOTHING);
    assert_eq!(model.dispatch(Command::Confirm, 4_000), CANCEL);
    assert_eq!(model.dispatch(Command::Add(100), 4_000), REDRAW);
    assert_eq!(model.raw_digits(), 134);
    assert_eq!(model.display(), hms(0, 1, 34));
    assert_eq!(model.dispatch(Command::Reset, 4_000), REDRAW);
    assert_eq!(model.status(), TimerStatus::Idle);
    assert_eq!(model.display(), hms(0, 1, 34));
}

#[test]
fn input_reads_key_names() {
    let mut model = TimerModel::new();
    assert_eq!(model.input("1", 0), REDRAW);
    assert_eq!(model.input("5", 0), REDRAW);
    assert_eq!(model.input("9", 0), REDRAW);
    assert_eq!(model.raw_digits(), 159);
    assert_eq!(model.input("backspace", 0), REDRAW);
    assert_eq!(model.raw_digits(), 15);
    assert_eq!(model.input("enter", 100), SPAWN);
    assert_eq!(model.status(), TimerStatus::Running);
    assert_eq!(model.input("enter", 200), CANCEL);
    assert_eq!(model.status(), TimerStatus::Paused);
}

#[test]
fn input_ignores_other_keys() {
    let mut model = typed(&[1, 2]);
    for key in ["a", "space", "", "10", "escape", "Enter", "BACKSPACE", "٣", "-1"] {
        assert_eq!(model.input(key, 0), NOTHING);
    }
    assert_eq!(model.raw_digits(), 12);
    assert_eq!(model.status(), TimerStatus::Idle);
}

#[test]
fn inter_run_timer_starts_or_resumes() {
    let mut model = typed(&[1, 0]);
    assert_eq!(model.inter_run_timer(0), SPAWN);
    assert_eq!(model.status(), TimerStatus::Running);
    assert_eq!(model.inter_run_timer(500), NOTHING);
    assert_eq!(model.session().anchor, Some(0));
    model.pause(1_000);
    assert_eq!(model.inter_run_timer(2_000), SPAWN);
    assert_eq!(model.session().anchor, Some(2_000));
    model.poll(99_000);
    assert_eq!(model.inter_run_timer(99_500), NOTHING);
    assert_eq!(model.status(), TimerStatus::Finished);
}

#[test]
fn inter_pause_timer_pauses_only_a_running_timer() {
    let mut model = typed(&[1, 0]);
    assert_eq!(model.inter_pause_timer(0), NOTHING);
    model.start(0);
    assert_eq!(model.inter_pause_timer(1_500), CANCEL);
    assert_eq!(model.status(), TimerStatus::Paused);
    assert_eq!(model.inter_pause_timer(2_000), NOTHING);
    assert_eq!(model.session().banked_ms, 1_500);
}

#[test]
fn stop_pauses() {
    let mut model = running(&[1, 0], 0);
    assert_eq!(model.stop(2_500), CANCEL);
    assert_eq!(model.status(), TimerStatus::Paused);
    assert_eq!(model.session().banked_ms, 2_500);
}

#[test]
fn inter_reload_goes_back_to_idle() {
    let mut model = typed(&[1, 0]);
    assert_eq!(model.inter_reload(0), NOTHING);
    model.start(0);
    model.poll(3_000);
    assert_eq!(model.inter_reload(3_500), CANCEL);
    assert_eq!(model.status(), TimerStatus::Idle);
    assert_eq!(model.display(), hms(0, 0, 10));
    model.start(0);
    model.pause(1_000);
    assert_eq!(model.inter_reload(2_000), REDRAW);
    assert_eq!(model.status(), TimerStatus::Idle);
    model.start(0);
    model.poll(10_000);
    assert_eq!(model.inter_reload(11_000), REDRAW);
    assert_eq!(model.status(), TimerStatus::Idle);
}

#[test]
fn normalize_digits_carries_an_idle_display() {
    let mut model = typed(&[9, 9, 9, 9]);
    assert_eq!(model.normalize_digits(), REDRAW);
    assert_eq!(model.display(), hms(1, 40, 39));
    assert_eq!(model.raw_digits(), 9999);
    assert_eq!(model.notify_digits_display(), REDRAW);
    assert_eq!(model.display(), hms(0, 99, 99));
    model.start(0);
    assert_eq!(model.normalize_digits(), NOTHING);
    assert_eq!(model.notify_digits_display(), NOTHING);
    assert_eq!(model.display(), hms(1, 40, 39));
}

#[test]
fn culc_hms_secs_weighs_the_display() {
    let mut model = typed(&[9, 9, 9, 9]);
    assert_eq!(model.culc_hms_secs(), 99 * 60 + 99);
    let mut model = typed(&[1, 0, 0, 0, 0]);
    assert_eq!(model.culc_hms_secs(), 3_600);
}

#[test]
fn current_remaining_never_goes_below_zero() {
    let model = running(&[1, 0], 0);
    assert_eq!(model.current_remaining(0), 10_000);
    assert_eq!(model.current_remaining(9_999), 1);
    assert_eq!(model.current_remaining(10_000), 0);
    assert_eq!(model.current_remaining(u64::MAX), 0);
}

#[test]
fn countdown_task_ends_when_the_timer_stops_running() {
    let mut model = running(&[2], 0);
    assert_eq!(model.countdown_timer(500), (NOTHING, false));
    assert_eq!(model.countdown_timer(1_000), (REDRAW, false));
    assert_eq!(model.countdown_timer(2_300), (COMPLETED, true));
    assert_eq!(model.countdown_timer(2_400), (NOTHING, true));
    let mut model = running(&[2], 0);
    model.pause(100);
    assert_eq!(model.countdown_timer(200), (NOTHING, true));
}

#[test]
fn snapshot_shows_state_display_and_progress() {
    let mut model = running(&[1, 3, 0], 0);
    model.poll(45_000);
    assert_eq!(
        model.snapshot(45_000),
        Snapshot {
            status: TimerStatus::Running,
            hours: 0,
            minutes: 0,
            seconds: 45,
            progress: Ratio { part: 45_000, whole: 90_000 },
        }
    );
    let idle = TimerModel::new();
    assert_eq!(
        idle.snapshot(7),
        Snapshot {
            status: TimerStatus::Idle,
            hours: 0,
            minutes: 0,
            seconds: 0,
            progress: Ratio { part: 1, whole: 1 },
        }
    );
}

#[test]
fn jittered_polls_finish_exactly_once() {
    let gaps = [3u64, 250, 4_100, 90, 1, 2_999, 7_500, 100, 100, 12_000, 5];
    for start in [0u64, 17, 1_000_000] {
        let mut model = running(&[1, 5], start);
        let mut now = start;
        let mut finished = 0;
        for round in 0..200 {
            now += gaps[round % gaps.len()];
            if model.poll(now).finished {
                finished += 1;
                assert!(now - start >= 15_000);
            }
        }
        assert_eq!(finished, 1);
        assert_eq!(model.status(), TimerStatus::Finished);
    }
}
