use rust_rocks::score;
use rust_rocks::scores::{Score, Scores};

#[test]
fn test_first_score_is_a_high_score() {
    assert_eq!(Score::High { score: 0 }, Scores::init().score())
}

#[test]
fn test_new_high_score() {
    assert_eq!(Score::High { score: 1 }, Scores::init().new_score(1).score())
}

#[test]
fn test_new_normal_score() {
    assert_eq!(
        Score::Normal { score: 0, high: 1 },
        Scores::init()
            .new_score(1) // the high score
            .new_score(0) // the current score (< high score)
            .score()
    )
}

#[test]
fn equal_score_is_not_a_high_score() {
    assert_eq!(
        Score::Normal { score: 5, high: 5 },
        Scores::init().new_score(5).new_score(5).score()
    )
}

#[test]
fn session_score_counts_and_saturates() {
    let mut s = score::Score::new();
    assert_eq!(0, s.value());
    s.add_points(3);
    assert_eq!(3, s.value());
    s.add_points(u32::MAX);
    assert_eq!(u32::MAX, s.value());
    assert!(s.beats(&score::Score(7)));
    assert!(!score::Score(7).beats(&score::Score(7)));
}
