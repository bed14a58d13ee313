use rock_paper_scissors::play::game_result_on_points;
use rock_paper_scissors::{determine_round_result, BotPlayer, Move, RoundResult};

#[test]
fn rock_meets_every_move() {
    assert_eq!(determine_round_result(Move::Rock, Move::Rock), RoundResult::Tie);
    assert_eq!(determine_round_result(Move::Rock, Move::Paper), RoundResult::Player2Won);
    assert_eq!(determine_round_result(Move::Rock, Move::Scissors), RoundResult::Player1Won);
}

#[test]
fn paper_meets_every_move() {
    assert_eq!(determine_round_result(Move::Paper, Move::Rock), RoundResult::Player1Won);
    assert_eq!(determine_round_result(Move::Paper, Move::Paper), RoundResult::Tie);
    assert_eq!(determine_round_result(Move::Paper, Move::Scissors), RoundResult::Player2Won);
}

#[test]
fn scissors_meet_every_move() {
    assert_eq!(determine_round_result(Move::Scissors, Move::Rock), RoundResult::Player2Won);
    assert_eq!(determine_round_result(Move::Scissors, Move::Paper), RoundResult::Player1Won);
    assert_eq!(determine_round_result(Move::Scissors, Move::Scissors), RoundResult::Tie);
}

#[test]
fn trading_moves_trades_the_winner() {
    let moves = [Move::Rock, Move::Paper, Move::Scissors];
    for a in moves {
        for b in moves {
            let there = determine_round_result(a, b);
            let back = determine_round_result(b, a);
            match there {
                RoundResult::Tie => {
                    assert_eq!(a, b);
                    assert_eq!(back, RoundResult::Tie);
                }
                RoundResult::Player1Won => assert_eq!(back, RoundResult::Player2Won),
                RoundResult::Player2Won => assert_eq!(back, RoundResult::Player1Won),
            }
        }
    }
}

#[test]
fn winner_move_beats_its_argument() {
    assert_eq!(BotPlayer::winner_move(Move::Rock), Move::Paper);
    assert_eq!(BotPlayer::winner_move(Move::Paper), Move::Scissors);
    assert_eq!(BotPlayer::winner_move(Move::Scissors), Move::Rock);
    for m in [Move::Rock, Move::Paper, Move::Scissors] {
        assert_eq!(
            determine_round_result(BotPlayer::winner_move(m), m),
            RoundResult::Player1Won
        );
    }
}

#[test]
fn more_points_win_the_game() {
    assert_eq!(game_result_on_points(0, 0), RoundResult::Tie);
    assert_eq!(game_result_on_points(3, 3), RoundResult::Tie);
    assert_eq!(game_result_on_points(1, 0), RoundResult::Player1Won);
    assert_eq!(game_result_on_points(255, 254), RoundResult::Player1Won);
    assert_eq!(game_result_on_points(0, 1), RoundResult::Player2Won);
    assert_eq!(game_result_on_points(2, 5), RoundResult::Player2Won);
}
