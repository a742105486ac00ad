//! Rules the host applies to a running match: which team a goal counts
//! for, how play restarts after the ball left the field, and when the ball
//! is locked at a restart spot.
//!
//! The geometry (where the ball is, which line it crossed) is measured by
//! the caller; the functions here take its results.
use vstd::prelude::*;
use crate::match_game::{FieldZone, MatchGame, MatchGameState, MatchStatus, SetPiece};
use crate::text::str_eq;

verus! {

// ============================================================================
// Goals and teams
// ============================================================================

/// The team that defends a goal, from the goal's team name: "red" is team 0
/// and "blue" team 1; other names belong to no team.
pub open spec fn defending_team_of(goal_team: Seq<char>) -> Option<u8> {
    if goal_team == "red"@ {
        Some(0)
    } else if goal_team == "blue"@ {
        Some(1)
    } else {
        None
    }
}

/// The team that scores in a goal: the one that does not defend it.
pub open spec fn scoring_team_of(goal_team: Seq<char>) -> Option<u8> {
    if goal_team == "red"@ {
        Some(1)
    } else if goal_team == "blue"@ {
        Some(0)
    } else {
        None
    }
}

/// The team that defends the goal named `goal_team`.
pub fn goal_defending_team(goal_team: &str) -> (r: Option<u8>)
    ensures
        r == defending_team_of(goal_team@),
{
    if str_eq(goal_team, "red") {
        Some(0)
    } else if str_eq(goal_team, "blue") {
        Some(1)
    } else {
        None
    }
}

/// The team that scores in the goal named `goal_team`.
pub fn goal_scoring_team(goal_team: &str) -> (r: Option<u8>)
    ensures
        r == scoring_team_of(goal_team@),
{
    if str_eq(goal_team, "red") {
        Some(1)
    } else if str_eq(goal_team, "blue") {
        Some(0)
    } else {
        None
    }
}

/// The zone of the ball, given for each goal of the map (in map order) its
/// team name and whether the ball is inside it, whether the ball is out of
/// the field, and whether it is beyond a sideline: the first goal of a team
/// that holds the ball, else out of bounds, else the inner field.
pub open spec fn zone_of(
    goals: Seq<(Seq<char>, bool)>,
    out_of_bounds: bool,
    beyond_sideline: bool,
) -> FieldZone
    decreases goals.len(),
{
    if goals.len() == 0 {
        if out_of_bounds {
            FieldZone::OutOfBounds { is_sideline: beyond_sideline }
        } else {
            FieldZone::InnerField
        }
    } else {
        match defending_team_of(goals[0].0) {
            Some(t) => if goals[0].1 {
                FieldZone::GoalInterior { defending_team: t }
            } else {
                zone_of(goals.drop_first(), out_of_bounds, beyond_sideline)
            },
            None => zone_of(goals.drop_first(), out_of_bounds, beyond_sideline),
        }
    }
}

/// The team that scores, given for each goal of the map (in map order) its
/// team name and whether the ball is inside it: the first goal of a team
/// that holds the ball decides; one goal per step.
pub open spec fn scorer_of(goals: Seq<(Seq<char>, bool)>) -> Option<u8>
    decreases goals.len(),
{
    if goals.len() == 0 {
        None
    } else {
        match scoring_team_of(goals[0].0) {
            Some(t) => if goals[0].1 {
                Some(t)
            } else {
                scorer_of(goals.drop_first())
            },
            None => scorer_of(goals.drop_first()),
        }
    }
}

/// The goals as team names and ball-inside flags.
pub open spec fn goals_view(goals: Seq<(String, bool)>) -> Seq<(Seq<char>, bool)> {
    goals.map_values(|g: (String, bool)| (g.0@, g.1))
}

/// The zone of the ball (see [`zone_of`]).
pub fn field_zone(goals: &Vec<(String, bool)>, out_of_bounds: bool, beyond_sideline: bool) -> (r:
    FieldZone)
    ensures
        r == zone_of(goals_view(goals@), out_of_bounds, beyond_sideline),
{
    let n = goals.len();
    let mut i: usize = 0;
    assert(goals_view(goals@).skip(0) =~= goals_view(goals@));
    while i < n
        invariant
            n == goals@.len(),
            i <= n,
            zone_of(goals_view(goals@).skip(i as int), out_of_bounds, beyond_sideline) == zone_of(
                goals_view(goals@),
                out_of_bounds,
                beyond_sideline,
            ),
        decreases n - i,
    {
        let ghost rest = goals_view(goals@).skip(i as int);
        assert(rest.drop_first() =~= goals_view(goals@).skip(i + 1));
        assert(rest[0] == (goals@[i as int].0@, goals@[i as int].1));
        match goal_defending_team(goals[i].0.as_str()) {
            Some(t) => {
                if goals[i].1 {
                    return FieldZone::GoalInterior { defending_team: t };
                }
            },
            None => {},
        }
        i = i + 1;
    }
    assert(goals_view(goals@).skip(n as int).len() == 0);
    if out_of_bounds {
        FieldZone::OutOfBounds { is_sideline: beyond_sideline }
    } else {
        FieldZone::InnerField
    }
}

/// The team that scores this step, if the ball is in a goal (see
/// [`scorer_of`]).
pub fn goal_scorer(goals: &Vec<(String, bool)>) -> (r: Option<u8>)
    ensures
        r == scorer_of(goals_view(goals@)),
{
    let n = goals.len();
    let mut i: usize = 0;
    assert(goals_view(goals@).skip(0) =~= goals_view(goals@));
    while i < n
        invariant
            n == goals@.len(),
            i <= n,
            scorer_of(goals_view(goals@).skip(i as int)) == scorer_of(goals_view(goals@)),
        decreases n - i,
    {
        let ghost rest = goals_view(goals@).skip(i as int);
        assert(rest.drop_first() =~= goals_view(goals@).skip(i + 1));
        assert(rest[0] == (goals@[i as int].0@, goals@[i as int].1));
        match goal_scoring_team(goals[i].0.as_str()) {
            Some(t) => {
                if goals[i].1 {
                    return Some(t);
                }
            },
            None => {},
        }
        i = i + 1;
    }
    assert(goals_view(goals@).skip(n as int).len() == 0);
    None
}

// ============================================================================
// Restarts
// ============================================================================

/// The set piece after the ball left the field.
///
/// Over a sideline: a throw-in for the team that did not touch the ball
/// last (team 0 when nobody touched it). Over an end line (`left_end` for
/// the end that team 0 defends): a corner for the attackers when the
/// defenders touched it last, else a goal kick for the defenders. The
/// restart spots are measured by the caller.
pub open spec fn restart_after_out<P>(
    last_touch: Option<u8>,
    is_sideline: bool,
    left_end: bool,
    lateral_spot: P,
    corner_spot: P,
    goal_kick_spot: P,
) -> SetPiece<P> {
    if is_sideline {
        SetPiece::Lateral {
            team: match last_touch {
                Some(t) => (1 - t) as u8,
                None => 0,
            },
            position: lateral_spot,
        }
    } else {
        let defending: u8 = if left_end {
            0
        } else {
            1
        };
        if last_touch == Some(defending) {
            SetPiece::Corner { team: (1 - defending) as u8, position: corner_spot }
        } else {
            SetPiece::GoalKick { team: defending, position: goal_kick_spot }
        }
    }
}

/// The set piece after the ball left the field (see [`restart_after_out`]).
/// A throw-in after a touch of a team numbered above 1 has no kicking team.
pub fn decide_restart<P>(
    last_touch: Option<u8>,
    is_sideline: bool,
    left_end: bool,
    lateral_spot: P,
    corner_spot: P,
    goal_kick_spot: P,
) -> (r: SetPiece<P>)
    requires
        is_sideline ==> (last_touch matches Some(t) ==> t <= 1),
    ensures
        r == restart_after_out(
            last_touch,
            is_sideline,
            left_end,
            lateral_spot,
            corner_spot,
            goal_kick_spot,
        ),
{
    if is_sideline {
        let team = match last_touch {
            Some(t) => 1 - t,
            None => 0,
        };
        SetPiece::Lateral { team, position: lateral_spot }
    } else {
        let defending_team: u8 = if left_end {
            0
        } else {
            1
        };
        if last_touch == Some(defending_team) {
            SetPiece::Corner { team: 1 - defending_team, position: corner_spot }
        } else {
            SetPiece::GoalKick { team: defending_team, position: goal_kick_spot }
        }
    }
}

impl<T, P> MatchGame<T, P> {
    /// Goals count only while the match runs, with no kick-off pending and
    /// no set piece under way.
    pub open spec fn spec_goal_detection_enabled(self) -> bool {
        self.status is Running && !self.pending_kickoff && self.pending_set_piece is None
    }

    /// The ball going out counts only while the match runs and no set piece
    /// is under way.
    pub open spec fn spec_out_detection_enabled(self) -> bool {
        self.status is Running && self.pending_set_piece is None
    }

    /// The ball is locked at the restart spot: a set piece is pending and
    /// its delay has run out.
    pub open spec fn spec_set_piece_locked(self) -> bool {
        self.pending_set_piece is Some && self.set_piece_delay_timer is None
    }

    /// What `begin_set_piece` leaves.
    pub open spec fn spec_begin_set_piece(self, set_piece: SetPiece<P>, delay: T) -> Self {
        MatchGame {
            last_team_touch: None,
            pending_set_piece: Some(set_piece),
            set_piece_delay_timer: Some(delay),
            ..self
        }
    }

    /// What `take_kickoff` leaves.
    pub open spec fn spec_take_kickoff(self) -> Self {
        MatchGame { pending_kickoff: false, ..self }
    }

    /// What `advance_set_piece_delay` leaves.
    pub open spec fn spec_advance_set_piece_delay(self, remaining: T, expired: bool) -> Self {
        if self.set_piece_delay_timer is None {
            self
        } else if !expired {
            MatchGame { set_piece_delay_timer: Some(remaining), ..self }
        } else {
            MatchGame { set_piece_delay_timer: None, ..self }
        }
    }

    /// Where the ball goes when the set piece delay runs out: the restart
    /// spot, or `centre` for a kick-off; nowhere without a set piece.
    pub open spec fn spec_placement(self, expired: bool, centre: P) -> Option<P> {
        if self.set_piece_delay_timer is Some && expired {
            match self.pending_set_piece {
                Some(sp) => match sp.spec_position() {
                    Some(p) => Some(p),
                    None => Some(centre),
                },
                None => None,
            }
        } else {
            None
        }
    }

    /// The spot that players of `team` must keep away from: the restart
    /// spot of a placed set piece that the other team takes.
    pub open spec fn spec_exclusion_center(self, team: u8) -> Option<P> {
        if self.set_piece_delay_timer is Some {
            None
        } else {
            match self.pending_set_piece {
                Some(sp) => if team == sp.spec_team() {
                    None
                } else {
                    sp.spec_position()
                },
                None => None,
            }
        }
    }

    /// What `apply_ball_touch` leaves.
    pub open spec fn spec_apply_ball_touch(self, ball_moving: bool, toucher: Option<u8>) -> Self {
        if !(self.status is Running) {
            self
        } else if self.pending_set_piece is Some {
            if self.set_piece_delay_timer is None && ball_moving {
                MatchGame { pending_set_piece: None, ..self }
            } else {
                self
            }
        } else {
            match toucher {
                Some(t) => MatchGame { last_team_touch: Some(t), ..self },
                None => self,
            }
        }
    }
}

impl<T: Copy, P: Copy> MatchGame<T, P> {
    /// Whether a ball in a goal counts now.
    pub fn goal_detection_enabled(&self) -> (r: bool)
        ensures
            r == self.spec_goal_detection_enabled(),
    {
        self.is_running() && !self.pending_kickoff && self.pending_set_piece.is_none()
    }

    /// Whether the ball leaving the field counts now.
    pub fn out_detection_enabled(&self) -> (r: bool)
        ensures
            r == self.spec_out_detection_enabled(),
    {
        self.is_running() && self.pending_set_piece.is_none()
    }

    /// Whether the ball is locked at the restart spot.
    pub fn set_piece_locked(&self) -> (r: bool)
        ensures
            r == self.spec_set_piece_locked(),
    {
        self.pending_set_piece.is_some() && self.set_piece_delay_timer.is_none()
    }

    /// Records a set piece after the ball left the field; the ball rolls on
    /// for `delay` before it is placed, and the last touch is forgotten.
    pub fn begin_set_piece(&mut self, set_piece: SetPiece<P>, delay: T)
        ensures
            *final(self) == old(self).spec_begin_set_piece(set_piece, delay),
    {
        self.last_team_touch = None;
        self.pending_set_piece = Some(set_piece);
        self.set_piece_delay_timer = Some(delay);
    }

    /// Takes the pending kick-off: returns whether one was pending (and the
    /// ball must be put back in the centre), and clears it.
    pub fn take_kickoff(&mut self) -> (r: bool)
        ensures
            r == old(self).pending_kickoff,
            *final(self) == old(self).spec_take_kickoff(),
    {
        let pending = self.pending_kickoff;
        self.pending_kickoff = false;
        pending
    }

    /// One step of the set piece delay, taken by the caller: `remaining` is
    /// the delay left after the step and `expired` whether it ran out. When
    /// it runs out the ball is placed: the spot is returned (`centre` for a
    /// kick-off).
    pub fn advance_set_piece_delay(&mut self, remaining: T, expired: bool, centre: P) -> (r:
        Option<P>)
        ensures
            *final(self) == old(self).spec_advance_set_piece_delay(remaining, expired),
            r == old(self).spec_placement(expired, centre),
    {
        if self.set_piece_delay_timer.is_none() {
            return None;
        }
        if !expired {
            self.set_piece_delay_timer = Some(remaining);
            return None;
        }
        self.set_piece_delay_timer = None;
        match self.pending_set_piece {
            Some(sp) => match sp.position() {
                Some(p) => Some(p),
                None => Some(centre),
            },
            None => None,
        }
    }

    /// The spot that the players of `team` must keep away from, if any.
    pub fn exclusion_center_for(&self, team: u8) -> (r: Option<P>)
        ensures
            r == self.spec_exclusion_center(team),
    {
        if self.set_piece_delay_timer.is_some() {
            return None;
        }
        match self.pending_set_piece {
            Some(sp) => {
                if team == sp.team() {
                    None
                } else {
                    sp.position()
                }
            },
            None => None,
        }
    }

    /// Follows the ball for one step of a running match: a placed set piece
    /// ends as soon as the ball moves; otherwise `toucher`, the team of the
    /// first player found touching the ball, is recorded.
    pub fn apply_ball_touch(&mut self, ball_moving: bool, toucher: Option<u8>)
        ensures
            *final(self) == old(self).spec_apply_ball_touch(ball_moving, toucher),
    {
        if !self.is_running() {
            return;
        }
        if self.pending_set_piece.is_some() {
            if self.set_piece_delay_timer.is_none() && ball_moving {
                self.pending_set_piece = None;
            }
            return;
        }
        match toucher {
            Some(t) => self.record_touch(t),
            None => {},
        }
    }
}


// ============================================================================
// Laws
// ============================================================================

/// A goal counts for the team that does not defend it.
pub proof fn law_scorer_is_not_defender(goal_team: Seq<char>)
    ensures
        match defending_team_of(goal_team) {
            Some(d) => d <= 1 && scoring_team_of(goal_team) == Some((1 - d) as u8),
            None => scoring_team_of(goal_team) is None,
        },
{
}

/// The zone of the ball and the scorer agree: the ball is in the goal that
/// `d` defends exactly when the other team scores.
pub proof fn law_zone_matches_scorer(
    goals: Seq<(Seq<char>, bool)>,
    out_of_bounds: bool,
    beyond_sideline: bool,
)
    ensures
        match scorer_of(goals) {
            Some(s) => s <= 1 && zone_of(goals, out_of_bounds, beyond_sideline) == (
            FieldZone::GoalInterior { defending_team: (1 - s) as u8 }),
            None => !(zone_of(goals, out_of_bounds, beyond_sideline) is GoalInterior),
        },
    decreases goals.len(),
{
    if goals.len() > 0 {
        law_scorer_is_not_defender(goals[0].0);
        law_zone_matches_scorer(goals.drop_first(), out_of_bounds, beyond_sideline);
    }
}

/// A restart never goes to the team that touched the ball last, and its
/// kind follows the line the ball crossed: a throw-in over a sideline, a
/// corner when the defenders touched it over their end line, a goal kick
/// otherwise.
pub proof fn law_restart_goes_to_other_team<P>(
    last_touch: Option<u8>,
    is_sideline: bool,
    left_end: bool,
    lateral_spot: P,
    corner_spot: P,
    goal_kick_spot: P,
)
    requires
        last_touch matches Some(t) ==> t <= 1,
    ensures
        ({
            let sp = restart_after_out(
                last_touch,
                is_sideline,
                left_end,
                lateral_spot,
                corner_spot,
                goal_kick_spot,
            );
            &&& last_touch matches Some(t) ==> sp.spec_team() != t
            &&& sp.spec_team() <= 1
            &&& is_sideline ==> sp is Lateral
            &&& !is_sideline && last_touch == Some(if left_end { 0u8 } else { 1u8 }) ==> sp is Corner
            &&& !is_sideline && last_touch != Some(if left_end { 0u8 } else { 1u8 })
                ==> sp is GoalKick
            &&& sp.spec_position() is Some
        }),
{
}

/// The snapshot sent to players shows a set piece exactly when the ball is
/// locked at its spot, and then shows the pending one.
pub proof fn law_snapshot_shows_placed_set_piece<T, P>(g: MatchGame<T, P>)
    ensures
        MatchGameState::spec_from(g).pending_set_piece is Some <==> g.spec_set_piece_locked(),
        g.spec_set_piece_locked() ==> MatchGameState::spec_from(g).pending_set_piece
            == g.pending_set_piece,
{
}

/// Only the team without the restart is kept away, and only from a placed
/// set piece with a spot.
pub proof fn law_exclusion_spares_kicking_team<T, P>(g: MatchGame<T, P>, team: u8)
    ensures
        g.pending_set_piece matches Some(sp) ==> g.spec_exclusion_center(sp.spec_team()) is None,
        g.spec_exclusion_center(team) is Some ==> g.spec_set_piece_locked(),
        g.spec_exclusion_center(team) is Some ==> g.pending_set_piece.unwrap().spec_position()
            == g.spec_exclusion_center(team),
{
}

/// While a set piece is pending (rolling or placed) or a kick-off is
/// pending, no goal counts and the ball going out is not judged again;
/// nothing counts before the start or after the end.
pub proof fn law_no_detection_outside_open_play<T, P>(g: MatchGame<T, P>)
    ensures
        g.pending_set_piece is Some ==> !g.spec_goal_detection_enabled()
            && !g.spec_out_detection_enabled(),
        g.pending_kickoff ==> !g.spec_goal_detection_enabled(),
        !(g.status is Running) ==> !g.spec_goal_detection_enabled()
            && !g.spec_out_detection_enabled(),
{
}

/// After the ball went out, the set piece is pending but not placed, the
/// last touch is forgotten, and neither goals nor outs count until it is
/// over.
pub proof fn law_out_starts_set_piece<T, P>(g: MatchGame<T, P>, sp: SetPiece<P>, delay: T)
    ensures
        g.spec_begin_set_piece(sp, delay).pending_set_piece == Some(sp),
        !g.spec_begin_set_piece(sp, delay).spec_set_piece_locked(),
        g.spec_begin_set_piece(sp, delay).last_team_touch is None,
        !g.spec_begin_set_piece(sp, delay).spec_goal_detection_enabled(),
        !g.spec_begin_set_piece(sp, delay).spec_out_detection_enabled(),
        g.spec_begin_set_piece(sp, delay).status == g.status,
        g.spec_begin_set_piece(sp, delay).score == g.score,
{
}

/// When the delay runs out the set piece becomes locked at its spot.
pub proof fn law_delay_expiry_locks_set_piece<T, P>(g: MatchGame<T, P>, remaining: T, centre: P)
    requires
        g.pending_set_piece is Some,
        g.set_piece_delay_timer is Some,
    ensures
        g.spec_advance_set_piece_delay(remaining, true).spec_set_piece_locked(),
        g.spec_placement(true, centre) is Some,
        !g.spec_advance_set_piece_delay(remaining, false).spec_set_piece_locked(),
        g.spec_placement(false, centre) is None,
{
}


/// Team numbers that a match holds are 0 or 1: the team in a goal pause
/// and the team of a pending set piece.
pub open spec fn teams_valid<T, P>(g: MatchGame<T, P>) -> bool {
    &&& g.status matches MatchStatus::GoalScored { scoring_team, .. } ==> scoring_team <= 1
    &&& g.pending_set_piece matches Some(sp) ==> sp.spec_team() <= 1
}

/// Every operation keeps the team numbers of a match valid, starting from
/// a new match; a set piece comes from [`restart_after_out`] with a last
/// touch of team 0 or 1 (or none).
pub proof fn law_teams_stay_valid<T, P>(
    g: MatchGame<T, P>,
    team: u8,
    pause: T,
    remaining: T,
    expired: bool,
    zero: T,
    centre: P,
    ball_moving: bool,
    toucher: Option<u8>,
    is_sideline: bool,
    left_end: bool,
    spot: P,
)
    requires
        teams_valid(g),
        g.goal_fits(team),
        g.last_team_touch matches Some(t) ==> t <= 1,
    ensures
        teams_valid(MatchGame::<T, P>::spec_new(zero)),
        teams_valid(g.spec_start()),
        teams_valid(g.spec_score_goal(team, pause)),
        teams_valid(g.spec_record_touch(team)),
        teams_valid(g.spec_finalize()),
        teams_valid(g.spec_advance_clock(remaining, expired, zero)),
        teams_valid(g.spec_advance_goal_pause(remaining, expired)),
        teams_valid(g.spec_take_kickoff()),
        teams_valid(g.spec_advance_set_piece_delay(remaining, expired)),
        teams_valid(g.spec_apply_ball_touch(ball_moving, toucher)),
        teams_valid(
            g.spec_begin_set_piece(
                restart_after_out(g.last_team_touch, is_sideline, left_end, spot, spot, spot),
                pause,
            ),
        ),
{
}


/// The restart spot follows the kind of restart, whatever the last touch:
/// a throw-in is at the sideline spot, a corner at the corner spot and a
/// goal kick at the goal-kick spot.
pub proof fn law_restart_spot_follows_kind<P>(
    last_touch: Option<u8>,
    is_sideline: bool,
    left_end: bool,
    lateral_spot: P,
    corner_spot: P,
    goal_kick_spot: P,
)
    ensures
        ({
            let sp = restart_after_out(
                last_touch,
                is_sideline,
                left_end,
                lateral_spot,
                corner_spot,
                goal_kick_spot,
            );
            &&& sp is Lateral ==> sp.spec_position() == Some(lateral_spot)
            &&& sp is Corner ==> sp.spec_position() == Some(corner_spot)
            &&& sp is GoalKick ==> sp.spec_position() == Some(goal_kick_spot)
            &&& !(sp is KickOff)
        }),
{
}

/// When the delay runs out the ball goes to the pending set piece's own
/// spot (the centre only for a kick-off), and from then on the players of
/// the other team are kept away from that same spot.
pub proof fn law_placement_at_restart_spot<T, P>(
    g: MatchGame<T, P>,
    remaining: T,
    centre: P,
    team: u8,
)
    requires
        g.set_piece_delay_timer is Some,
        g.pending_set_piece is Some,
    ensures
        ({
            let sp = g.pending_set_piece.unwrap();
            let placed = g.spec_advance_set_piece_delay(remaining, true);
            &&& sp.spec_position() matches Some(p) ==> g.spec_placement(true, centre) == Some(p)
            &&& sp is KickOff ==> g.spec_placement(true, centre) == Some(centre)
            &&& placed.pending_set_piece == g.pending_set_piece
            &&& (team != sp.spec_team() && sp.spec_position() is Some) ==> placed.spec_exclusion_center(
                team,
            ) == g.spec_placement(true, centre)
        }),
{
}

/// From the ball going out to its placement: the ball ends up at the spot
/// measured for the restart that applies (the sideline spot for a throw-in,
/// the corner spot for a corner, the goal-kick spot otherwise).
pub proof fn law_ball_out_to_placement<T, P>(
    g: MatchGame<T, P>,
    is_sideline: bool,
    left_end: bool,
    lateral_spot: P,
    corner_spot: P,
    goal_kick_spot: P,
    delay: T,
    centre: P,
)
    ensures
        ({
            let sp = restart_after_out(
                g.last_team_touch,
                is_sideline,
                left_end,
                lateral_spot,
                corner_spot,
                goal_kick_spot,
            );
            let started = g.spec_begin_set_piece(sp, delay);
            &&& is_sideline ==> started.spec_placement(true, centre) == Some(lateral_spot)
            &&& !is_sideline && sp is Corner ==> started.spec_placement(true, centre) == Some(
                corner_spot,
            )
            &&& !is_sideline && sp is GoalKick ==> started.spec_placement(true, centre) == Some(
                goal_kick_spot,
            )
        }),
{
}

/// In open play of a running match the last touch follows the ball: the
/// team seen touching it becomes the last toucher, and a step without a
/// touch keeps the previous one.
pub proof fn law_ball_touch_tracks_last_toucher<T, P>(
    g: MatchGame<T, P>,
    ball_moving: bool,
    t: u8,
)
    requires
        g.status is Running,
        g.pending_set_piece is None,
    ensures
        g.spec_apply_ball_touch(ball_moving, Some(t)).last_team_touch == Some(t),
        g.spec_apply_ball_touch(ball_moving, None) == g,
        g.spec_apply_ball_touch(ball_moving, Some(t)).score == g.score,
        g.spec_apply_ball_touch(ball_moving, Some(t)).status == g.status,
{
}

} // verus!
