use kinetic_ball::match_game::{FieldZone, MatchGame, MatchGameState, MatchStatus, MatchWinner, SetPiece};
use kinetic_ball::match_rules::field_zone;

type Game = MatchGame<f32, (f32, f32)>;

/// Length of the pause after a goal, in seconds.
const GOAL_PAUSE: f32 = 3.0;

/// One clock step of `delta_secs`, as the host takes it: the arithmetic on
/// the clock here, the decisions in the library.
fn tick(m: &mut Game, delta_secs: f32) {
    match m.status {
        MatchStatus::Running => {
            let remaining = m.time_remaining - delta_secs;
            m.advance_clock(remaining, remaining <= 0.0, 0.0);
        }
        MatchStatus::GoalScored { countdown, .. } => {
            let left = countdown - delta_secs;
            m.advance_goal_pause(left, left <= 0.0);
        }
        _ => {}
    }
}

fn zone(ball: (f32, f32), goals: &Vec<(String, bool)>, half_w: f32, half_h: f32) -> FieldZone {
    let out = ball.0.abs() > half_w || ball.1.abs() > half_h;
    field_zone(goals, out, ball.1.abs() > half_h)
}

#[test]
fn test_new_match_waiting() {
    let m = Game::new(90.0);
    assert!(m.is_waiting());
    assert_eq!(m.time_remaining, 90.0);
    assert_eq!(m.score, [0, 0]);
}

#[test]
fn test_start_match() {
    let mut m = Game::new(90.0);
    m.start();
    assert!(m.is_running());
}

#[test]
fn test_score_goal() {
    let mut m = Game::new(90.0);
    m.start();
    m.score_goal(1, GOAL_PAUSE);
    assert!(m.is_goal_countdown());
    assert_eq!(m.score[1], 1);
}

#[test]
fn test_tick_ends_match() {
    let mut m = Game::new(1.0);
    m.start();
    tick(&mut m, 2.0);
    assert!(m.is_ended());
    assert_eq!(m.time_remaining, 0.0);
}

#[test]
fn test_goal_countdown_resumes() {
    let mut m = Game::new(90.0);
    m.start();
    m.score_goal(0, GOAL_PAUSE);
    tick(&mut m, 3.5);
    assert!(m.is_running());
    assert!(m.pending_kickoff);
}

#[test]
fn test_winner_team0() {
    let mut m = Game::new(1.0);
    m.start();
    m.score_goal(0, GOAL_PAUSE);
    tick(&mut m, 4.0);
    tick(&mut m, 1.0);
    assert_eq!(m.winner(), Some(MatchWinner::Team(0)));
}

#[test]
fn test_winner_draw() {
    let mut m = Game::new(1.0);
    m.start();
    tick(&mut m, 2.0);
    assert_eq!(m.winner(), Some(MatchWinner::Draw));
}

#[test]
fn test_get_field_zone_inner() {
    let goals = vec![];
    let z = zone((0.0, 0.0), &goals, 700.0, 370.0);
    assert_eq!(z, FieldZone::InnerField);
}

#[test]
fn test_get_field_zone_out_of_bounds() {
    let goals = vec![];
    let z = zone((0.0, 400.0), &goals, 700.0, 370.0);
    assert_eq!(z, FieldZone::OutOfBounds { is_sideline: true });
}

#[test]
fn start_only_from_waiting() {
    let mut m = Game::new(60.0);
    m.start();
    m.score_goal(0, GOAL_PAUSE);
    m.start();
    assert!(m.is_goal_countdown());
}

#[test]
fn goal_ignored_unless_running() {
    let mut m = Game::new(60.0);
    m.score_goal(0, GOAL_PAUSE);
    assert_eq!(m.score, [0, 0]);
    assert!(m.is_waiting());
    m.start();
    m.score_goal(1, GOAL_PAUSE);
    m.score_goal(1, GOAL_PAUSE);
    assert_eq!(m.score, [0, 1]);
}

#[test]
fn goal_clears_last_touch() {
    let mut m = Game::new(60.0);
    m.start();
    m.record_touch(1);
    assert_eq!(m.last_team_touch, Some(1));
    m.score_goal(0, GOAL_PAUSE);
    assert_eq!(m.last_team_touch, None);
    assert_eq!(m.status, MatchStatus::GoalScored { scoring_team: 0, countdown: 3.0 });
}

#[test]
fn goal_pause_counts_down() {
    let mut m = Game::new(60.0);
    m.start();
    m.score_goal(1, GOAL_PAUSE);
    m.pending_kickoff = false;
    tick(&mut m, 1.0);
    assert_eq!(m.status, MatchStatus::GoalScored { scoring_team: 1, countdown: 2.0 });
    assert!(!m.pending_kickoff);
    assert_eq!(m.time_remaining, 60.0);
}

#[test]
fn ended_match_is_final() {
    let mut m = Game::new(1.0);
    m.start();
    tick(&mut m, 1.0);
    assert!(m.is_ended());
    m.start();
    m.score_goal(0, GOAL_PAUSE);
    tick(&mut m, 5.0);
    assert!(m.is_ended());
    assert_eq!(m.score, [0, 0]);
}

#[test]
fn no_winner_before_end() {
    let mut m = Game::new(10.0);
    assert_eq!(m.winner(), None);
    m.start();
    m.score_goal(1, GOAL_PAUSE);
    assert_eq!(m.winner(), None);
}

#[test]
fn finalize_reports_winner() {
    let mut m = Game::new(10.0);
    m.start();
    m.score_goal(1, GOAL_PAUSE);
    assert_eq!(m.finalize(), MatchWinner::Team(1));
    assert!(m.is_ended());
    assert_eq!(m.winner(), Some(MatchWinner::Team(1)));
    let mut d = Game::new(10.0);
    assert_eq!(d.finalize(), MatchWinner::Draw);
}

#[test]
fn default_match_is_empty() {
    let m: Game = Game::default();
    assert!(m.is_waiting());
    assert_eq!(m.duration, 0.0);
    assert!(m.pending_kickoff);
}

#[test]
fn set_piece_position_and_team() {
    let sp: SetPiece<(f32, f32)> = SetPiece::Corner { team: 1, position: (3.0, -4.0) };
    assert_eq!(sp.position(), Some((3.0, -4.0)));
    assert_eq!(sp.team(), 1);
    let k: SetPiece<(f32, f32)> = SetPiece::KickOff;
    assert_eq!(k.position(), None);
    assert_eq!(k.team(), 0);
}

#[test]
fn snapshot_hides_rolling_set_piece() {
    let mut m = Game::new(60.0);
    m.start();
    m.begin_set_piece(SetPiece::Lateral { team: 0, position: (1.0, 2.0) }, 1.5);
    let s: MatchGameState<f32, (f32, f32)> = m.snapshot();
    assert_eq!(s.pending_set_piece, None);
    assert_eq!(s.winner, None);
    let placed = m.advance_set_piece_delay(0.0, true, (0.0, 0.0));
    assert_eq!(placed, Some((1.0, 2.0)));
    let s = MatchGameState::from(&m);
    assert_eq!(s.pending_set_piece, Some(SetPiece::Lateral { team: 0, position: (1.0, 2.0) }));
    assert_eq!(s.score, [0, 0]);
    assert_eq!(s.time_remaining, 60.0);
}
