use stoned::stable_ground::FallState;
use stoned::stable_ground::GroundNormal;
use stoned::stable_ground::Pos;
use stoned::stable_ground::RecoveryOutcome;
use stoned::stable_ground::StableGround;
use stoned::stable_ground::FALL_THRESHOLD_MS;
use stoned::stable_ground::HISTORY_CAP;
use stoned::stable_ground::NORMAL_EPSILON;
use stoned::stable_ground::NORMAL_UNIT;

fn level_ground() -> Option<GroundNormal> {
    Some(GroundNormal { up: NORMAL_UNIT })
}

fn pos(x: i64, y: i64, z: i64) -> Pos {
    Pos { x, y, z }
}

#[test]
fn history_keeps_the_five_most_recent_samples_newest_first() {
    let mut sg = StableGround::default();
    for i in 1..=6 {
        sg.calculate_stable_ground(level_ground(), pos(i, 0, 0));
    }
    assert_eq!(
        sg.previous,
        vec![pos(6, 0, 0), pos(5, 0, 0), pos(4, 0, 0), pos(3, 0, 0), pos(2, 0, 0)]
    );
    assert!(sg.previous.len() <= HISTORY_CAP);
}

#[test]
fn slightly_tilted_ground_within_epsilon_still_counts() {
    let mut sg = StableGround::default();
    sg.calculate_stable_ground(Some(GroundNormal { up: NORMAL_UNIT - NORMAL_EPSILON }), pos(1, 2, 3));
    assert_eq!(sg.previous, vec![pos(1, 2, 3)]);
}

#[test]
fn sloped_ground_and_airborne_ticks_are_not_sampled() {
    let mut sg = StableGround::default();
    sg.calculate_stable_ground(Some(GroundNormal { up: NORMAL_UNIT - NORMAL_EPSILON - 1 }), pos(1, 0, 0));
    assert!(sg.previous.is_empty());
    sg.calculate_stable_ground(None, pos(2, 0, 0));
    assert!(sg.previous.is_empty());
}

#[test]
fn prolonged_fall_restores_the_last_stable_sample_once() {
    let mut sg = StableGround::default();
    let safe = pos(10, 50, -3);
    sg.calculate_stable_ground(level_ground(), safe);
    // near terminal velocity: within one percent of the maximum speed
    let max_speed = 100_000;
    let vertical = 99_990;
    let mut restored = Vec::new();
    for _ in 0..51 {
        match sg.apply_last_stable_ground(vertical, max_speed, 100) {
            RecoveryOutcome::Recovered(p) => restored.push(p),
            RecoveryOutcome::NoRecovery | RecoveryOutcome::SkippedEmptyHistory => {}
        }
    }
    // 5.1 seconds of sustained fall: the teleport fired exactly once, to the sample
    assert_eq!(restored, vec![safe]);
    assert!(sg.previous.is_empty());
}

#[test]
fn recovery_with_no_samples_is_skipped() {
    let mut sg = StableGround::default();
    let mut skips = 0;
    for _ in 0..60 {
        if matches!(
            sg.apply_last_stable_ground(1_000, 1_000, 100),
            RecoveryOutcome::SkippedEmptyHistory
        ) {
            skips += 1;
        }
    }
    // once the threshold is reached every further tick skips and warns
    assert_eq!(skips, 11);
    assert!(matches!(sg.state, FallState::Falling));
}

#[test]
fn leaving_the_fall_resets_the_timer() {
    let mut sg = StableGround::default();
    sg.apply_last_stable_ground(1_000, 1_000, 3_000);
    assert_eq!(sg.fall_timer_ms, 3_000);
    assert!(matches!(sg.state, FallState::Falling));
    // an ordinary reading: the fraction is far above the tolerance
    let r = sg.apply_last_stable_ground(0, 1_000, 100);
    assert!(matches!(r, RecoveryOutcome::NoRecovery));
    assert_eq!(sg.fall_timer_ms, 0);
    assert!(matches!(sg.state, FallState::Stable));
}

#[test]
fn speed_fraction_boundary_is_exact() {
    // fraction exactly 0.01 counts as sustained fall
    let mut at = StableGround::default();
    at.apply_last_stable_ground(990_000, 1_000_000, 100);
    assert_eq!(at.fall_timer_ms, 100);
    // a hair slower does not
    let mut under = StableGround::default();
    under.apply_last_stable_ground(989_999, 1_000_000, 100);
    assert_eq!(under.fall_timer_ms, 0);
}

#[test]
fn fall_timer_must_accumulate_the_full_threshold() {
    let mut sg = StableGround::default();
    sg.calculate_stable_ground(level_ground(), pos(0, 0, 0));
    let mut outcomes = Vec::new();
    for _ in 0..49 {
        outcomes.push(sg.apply_last_stable_ground(1_000, 1_000, 100));
    }
    assert!(outcomes.iter().all(|o| matches!(o, RecoveryOutcome::NoRecovery)));
    assert_eq!(sg.fall_timer_ms, 4_900);
    let fiftieth = sg.apply_last_stable_ground(1_000, 1_000, 100);
    assert_eq!(sg.fall_timer_ms, FALL_THRESHOLD_MS);
    assert!(matches!(fiftieth, RecoveryOutcome::Recovered(p) if p == pos(0, 0, 0)));
    assert!(matches!(sg.state, FallState::Recovered));
}
