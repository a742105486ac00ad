use kinetic_ball::admin::{get_player_name, PlayerInfo};
use kinetic_ball::field::{collides_with_ball, hex_color_would_cut, parse_hex_color, segment_kind, SegmentKind};
use kinetic_ball::match_game::{FieldZone, MatchGame, MatchStatus, MatchWinner, SetPiece};
use kinetic_ball::panel::{clock_text, goal_text, match_section, result_text, MatchSection};
use kinetic_ball::match_rules::{decide_restart, field_zone, goal_defending_team, goal_scorer, goal_scoring_team};
use kinetic_ball::text::{push_decimal, str_eq, strip_key_word};

type Game = MatchGame<f32, (f32, f32)>;

#[test]
fn goal_teams() {
    assert_eq!(goal_defending_team("red"), Some(0));
    assert_eq!(goal_defending_team("blue"), Some(1));
    assert_eq!(goal_defending_team("green"), None);
    assert_eq!(goal_scoring_team("red"), Some(1));
    assert_eq!(goal_scoring_team("blue"), Some(0));
    assert_eq!(goal_scoring_team("Red"), None);
}

#[test]
fn zone_and_scorer_agree() {
    let goals = vec![("green".to_string(), true), ("blue".to_string(), false), ("red".to_string(), true)];
    assert_eq!(field_zone(&goals, true, true), FieldZone::GoalInterior { defending_team: 0 });
    assert_eq!(goal_scorer(&goals), Some(1));
    let none = vec![("red".to_string(), false)];
    assert_eq!(field_zone(&none, true, false), FieldZone::OutOfBounds { is_sideline: false });
    assert_eq!(goal_scorer(&none), None);
}

#[test]
fn restarts() {
    assert_eq!(decide_restart(Some(0), true, false, 1, 2, 3), SetPiece::Lateral { team: 1, position: 1 });
    assert_eq!(decide_restart(None, true, true, 1, 2, 3), SetPiece::Lateral { team: 0, position: 1 });
    assert_eq!(decide_restart(Some(0), false, true, 1, 2, 3), SetPiece::Corner { team: 1, position: 2 });
    assert_eq!(decide_restart(Some(1), false, true, 1, 2, 3), SetPiece::GoalKick { team: 0, position: 3 });
    assert_eq!(decide_restart(Some(1), false, false, 1, 2, 3), SetPiece::Corner { team: 0, position: 2 });
    assert_eq!(decide_restart(None, false, false, 1, 2, 3), SetPiece::GoalKick { team: 1, position: 3 });
}

#[test]
fn set_piece_flow() {
    let mut m = Game::new(60.0);
    m.start();
    assert!(m.take_kickoff());
    assert!(!m.take_kickoff());
    assert!(m.goal_detection_enabled());
    assert!(m.out_detection_enabled());
    m.record_touch(1);
    m.begin_set_piece(SetPiece::Corner { team: 0, position: (690.0, 360.0) }, 2.0);
    assert_eq!(m.last_team_touch, None);
    assert!(!m.goal_detection_enabled());
    assert!(!m.out_detection_enabled());
    assert!(!m.set_piece_locked());
    assert_eq!(m.exclusion_center_for(1), None);
    assert_eq!(m.advance_set_piece_delay(1.0, false, (0.0, 0.0)), None);
    assert_eq!(m.set_piece_delay_timer, Some(1.0));
    m.apply_ball_touch(true, Some(1));
    assert!(m.pending_set_piece.is_some());
    assert_eq!(m.advance_set_piece_delay(-0.5, true, (0.0, 0.0)), Some((690.0, 360.0)));
    assert!(m.set_piece_locked());
    assert_eq!(m.exclusion_center_for(1), Some((690.0, 360.0)));
    assert_eq!(m.exclusion_center_for(0), None);
    m.apply_ball_touch(false, Some(1));
    assert!(m.set_piece_locked());
    m.apply_ball_touch(true, None);
    assert!(!m.set_piece_locked());
    assert_eq!(m.pending_set_piece, None);
    m.apply_ball_touch(false, Some(0));
    assert_eq!(m.last_team_touch, Some(0));
}

#[test]
fn kickoff_set_piece_goes_to_centre() {
    let mut m = Game::new(60.0);
    m.start();
    m.begin_set_piece(SetPiece::KickOff, 0.5);
    assert_eq!(m.advance_set_piece_delay(0.0, true, (0.0, 0.0)), Some((0.0, 0.0)));
    assert_eq!(m.exclusion_center_for(1), None);
}

#[test]
fn hex_colors() {
    assert_eq!(parse_hex_color("ff4444"), Some((255, 68, 68)));
    assert_eq!(parse_hex_color("##00Aa10zz"), Some((0, 170, 16)));
    assert_eq!(parse_hex_color("+f+f+f"), Some((15, 15, 15)));
    assert_eq!(parse_hex_color("fff"), None);
    assert_eq!(parse_hex_color("gg0000"), None);
    assert_eq!(parse_hex_color("-10000"), None);
    assert!(!hex_color_would_cut("ffffff"));
    assert!(hex_color_would_cut("ab€cdef"));
    assert!(!hex_color_would_cut("xb€cdef"));
}

#[test]
fn segment_kinds() {
    assert_eq!(segment_kind(&None), SegmentKind::Decorative);
    assert_eq!(segment_kind(&Some(vec![])), SegmentKind::Decorative);
    assert_eq!(segment_kind(&Some(vec!["".to_string()])), SegmentKind::Decorative);
    assert_eq!(segment_kind(&Some(vec!["ball".to_string()])), SegmentKind::BallBarrier);
    assert_eq!(segment_kind(&Some(vec!["ball".to_string(), "red".to_string()])), SegmentKind::PlayerBarrier);
    assert_eq!(segment_kind(&Some(vec!["red".to_string()])), SegmentKind::PlayerBarrier);
    assert!(collides_with_ball(&Some(vec!["x".to_string(), "ball".to_string()])));
    assert!(!collides_with_ball(&None));
    assert!(!collides_with_ball(&Some(vec!["red".to_string()])));
}

#[test]
fn player_names() {
    let players = vec![
        PlayerInfo { id: 7, name: "Ana".to_string() },
        PlayerInfo { id: 9, name: "Bo".to_string() },
    ];
    assert_eq!(get_player_name(9, &players), "Bo");
    assert_eq!(get_player_name(1042, &players), "Player#1042");
    assert_eq!(get_player_name(0, &[]), "Player#0");
}

#[test]
fn text_helpers() {
    assert!(str_eq("añb", "añb"));
    assert!(!str_eq("ab", "abc"));
    let mut s = String::from("n=");
    push_decimal(&mut s, 4294967295);
    assert_eq!(s, "n=4294967295");
    assert_eq!(strip_key_word("KeyKeyA"), "A");
    assert_eq!(strip_key_word("Ke"), "Ke");
}

#[test]
fn admin_panel_texts() {
    let running: MatchStatus<f32> = MatchStatus::Running;
    let ended: MatchStatus<f32> = MatchStatus::Ended;
    let paused: MatchStatus<f32> = MatchStatus::GoalScored { scoring_team: 1, countdown: 2.0 };
    let waiting: MatchStatus<f32> = MatchStatus::WaitingToStart;
    assert_eq!(match_section(Some(&running), false), MatchSection::Status);
    assert_eq!(match_section(Some(&paused), true), MatchSection::Status);
    assert_eq!(match_section(Some(&ended), true), MatchSection::StatusAndConfig);
    assert_eq!(match_section(Some(&ended), false), MatchSection::Status);
    assert_eq!(match_section(Some(&waiting), true), MatchSection::Config);
    assert_eq!(match_section::<f32>(None, false), MatchSection::NoMatch);
    assert_eq!(clock_text(4, 7), "⏱  04:07");
    assert_eq!(clock_text(125, 59), "⏱  125:59");
    assert_eq!(goal_text(0), "⚽ ¡GOL de 🔴 ROJO!");
    assert_eq!(goal_text(1), "⚽ ¡GOL de 🔵 AZUL!");
    assert_eq!(result_text(Some(MatchWinner::Team(0))), "🔴 Ganó el equipo ROJO");
    assert_eq!(result_text(Some(MatchWinner::Team(1))), "🔵 Ganó el equipo AZUL");
    assert_eq!(result_text(None), "🤝 Empate");
}
