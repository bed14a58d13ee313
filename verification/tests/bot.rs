use rock_paper_scissors::{BotMode, BotPlayer, Move, PlayerInput};

const TRIALS: u32 = 100_000;

/// How often each move came up: rock, paper, scissors.
fn tally(bot: &BotPlayer, trials: u32) -> [u32; 3] {
    let mut seen = [0u32; 3];
    for _ in 0..trials {
        match bot.get_move() {
            Move::Rock => seen[0] += 1,
            Move::Paper => seen[1] += 1,
            Move::Scissors => seen[2] += 1,
        }
    }
    seen
}

fn share(count: u32, of: u32) -> f64 {
    count as f64 / of as f64
}

fn assert_close(observed: f64, expected: f64, tolerance: f64) {
    assert!(
        (observed - expected).abs() <= tolerance,
        "observed {observed}, expected {expected} within {tolerance}"
    );
}

#[test]
fn new_bot_keeps_its_mode_and_assumes_rock() {
    for mode in [BotMode::Random, BotMode::Easy, BotMode::Medium, BotMode::Hard] {
        let bot = BotPlayer::new(mode);
        assert_eq!(bot.mode(), mode);
        assert_eq!(bot.enemy_move(), Move::Rock);
    }
}

#[test]
fn observing_replaces_the_remembered_move() {
    let mut bot = BotPlayer::new(BotMode::Medium);
    bot.observe(Move::Scissors);
    assert_eq!(bot.enemy_move(), Move::Scissors);
    assert_eq!(bot.mode(), BotMode::Medium);
    bot.observe(Move::Paper);
    assert_eq!(bot.enemy_move(), Move::Paper);
    bot.get_move();
    assert_eq!(bot.enemy_move(), Move::Paper);
    assert_eq!(bot.mode(), BotMode::Medium);
}

#[test]
fn move_from_index_follows_rock_paper_scissors() {
    assert_eq!(BotPlayer::move_from_index(0), Move::Rock);
    assert_eq!(BotPlayer::move_from_index(1), Move::Paper);
    assert_eq!(BotPlayer::move_from_index(2), Move::Scissors);
}

#[test]
fn move_except_picks_among_the_other_two() {
    assert_eq!(BotPlayer::move_except(Move::Rock, 0), Move::Paper);
    assert_eq!(BotPlayer::move_except(Move::Rock, 1), Move::Scissors);
    assert_eq!(BotPlayer::move_except(Move::Paper, 0), Move::Rock);
    assert_eq!(BotPlayer::move_except(Move::Paper, 1), Move::Scissors);
    assert_eq!(BotPlayer::move_except(Move::Scissors, 0), Move::Rock);
    assert_eq!(BotPlayer::move_except(Move::Scissors, 1), Move::Paper);
}

#[test]
fn biased_move_on_a_hit_is_the_counter_move() {
    assert_eq!(BotPlayer::biased_move(Move::Rock, true), Move::Paper);
    assert_eq!(BotPlayer::biased_move(Move::Paper, true), Move::Scissors);
    assert_eq!(BotPlayer::biased_move(Move::Scissors, true), Move::Rock);
}

#[test]
fn biased_move_on_a_miss_is_never_the_counter_move() {
    for enemy in [Move::Rock, Move::Paper, Move::Scissors] {
        let counter = BotPlayer::winner_move(enemy);
        let mut seen = [false; 3];
        for _ in 0..1000 {
            let m = BotPlayer::biased_move(enemy, false);
            assert_ne!(m, counter);
            match m {
                Move::Rock => seen[0] = true,
                Move::Paper => seen[1] = true,
                Move::Scissors => seen[2] = true,
            }
        }
        assert_eq!(seen.iter().filter(|s| **s).count(), 2);
    }
}

#[test]
fn random_bot_plays_every_move_a_third_of_the_time() {
    let bot = BotPlayer::new(BotMode::Random);
    let seen = tally(&bot, TRIALS);
    for count in seen {
        assert_close(share(count, TRIALS), 1.0 / 3.0, 0.01);
    }
}

#[test]
fn random_bot_does_not_care_what_it_was_told() {
    let mut bot = BotPlayer::new(BotMode::Random);
    bot.observe(Move::Scissors);
    let seen = tally(&bot, TRIALS);
    for count in seen {
        assert_close(share(count, TRIALS), 1.0 / 3.0, 0.01);
    }
}

#[test]
fn easy_bot_counters_three_times_in_ten() {
    let bot = BotPlayer::new(BotMode::Easy);
    let seen = tally(&bot, TRIALS);
    assert_close(share(seen[1], TRIALS), 0.3, 0.01);
}

#[test]
fn medium_bot_counters_every_other_time() {
    let bot = BotPlayer::new(BotMode::Medium);
    let seen = tally(&bot, TRIALS);
    assert_close(share(seen[1], TRIALS), 0.5, 0.01);
}

#[test]
fn hard_bot_counters_seven_times_in_ten() {
    let bot = BotPlayer::new(BotMode::Hard);
    let seen = tally(&bot, TRIALS);
    assert_close(share(seen[1], TRIALS), 0.7, 0.01);
}

#[test]
fn hard_bot_counters_the_move_it_was_told_of() {
    let mut bot = BotPlayer::new(BotMode::Hard);
    bot.observe(Move::Scissors);
    let seen = tally(&bot, TRIALS);
    assert_close(share(seen[0], TRIALS), 0.7, 0.01);
    bot.observe(Move::Paper);
    let seen = tally(&bot, TRIALS);
    assert_close(share(seen[2], TRIALS), 0.7, 0.01);
}

#[test]
fn biased_bot_splits_its_misses_evenly() {
    let trials = 2 * TRIALS;
    let bot = BotPlayer::new(BotMode::Easy);
    let seen = tally(&bot, trials);
    let misses = seen[0] + seen[2];
    assert_close(share(misses, trials), 0.7, 0.01);
    assert_close(share(seen[0], misses), 0.5, 0.01);
    assert_close(share(seen[2], misses), 0.5, 0.01);
}
