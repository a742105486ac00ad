//! The state of a match: score, status, touches and pending restarts.
//!
//! Times (`T`) and field positions (`P`) are carried by the match but never
//! computed on here: the clock arithmetic and the geometry stay with the
//! caller, which hands in the results.
use vstd::prelude::*;

verus! {

/// Zone of the field where the ball is.
#[derive(Debug, Clone, Copy, PartialEq, Eq, Structural)]
pub enum FieldZone {
    /// Inside the pitch: normal play.
    InnerField,
    /// Inside the goal defended by `defending_team`.
    GoalInterior { defending_team: u8 },
    /// Outside the pitch (over a sideline or an end line).
    OutOfBounds { is_sideline: bool },
}

/// Status of a match.
#[derive(Debug, Clone, Copy, PartialEq)]
pub enum MatchStatus<T> {
    /// Waiting for the admin to start the match.
    WaitingToStart,
    /// Match in progress.
    Running,
    /// Short pause after a goal, before the kick-off.
    GoalScored { scoring_team: u8, countdown: T },
    /// Match over.
    Ended,
}

/// Winner of a finished match.
#[derive(Debug, Clone, Copy, PartialEq, Eq, Structural)]
pub enum MatchWinner {
    Team(u8),
    Draw,
}

/// How play restarts after the ball left the field.
#[derive(Debug, Clone, Copy, PartialEq)]
pub enum SetPiece<P> {
    /// Throw-in: kicking team and spot on the sideline.
    Lateral { team: u8, position: P },
    /// Corner kick: kicking team and nearest corner.
    Corner { team: u8, position: P },
    /// Goal kick: kicking team and spot in front of its goal.
    GoalKick { team: u8, position: P },
    /// Kick-off from the centre (start of match or after a goal).
    KickOff,
}

impl<P> SetPiece<P> {
    /// Restart spot of a set piece; none for the kick-off (always the centre).
    pub open spec fn spec_position(self) -> Option<P> {
        match self {
            SetPiece::Lateral { position, .. } => Some(position),
            SetPiece::Corner { position, .. } => Some(position),
            SetPiece::GoalKick { position, .. } => Some(position),
            SetPiece::KickOff => None,
        }
    }

    /// Team that takes the set piece (team 0 for the kick-off).
    pub open spec fn spec_team(self) -> u8 {
        match self {
            SetPiece::Lateral { team, .. } => team,
            SetPiece::Corner { team, .. } => team,
            SetPiece::GoalKick { team, .. } => team,
            SetPiece::KickOff => 0,
        }
    }
}

impl<P: Copy> SetPiece<P> {
    /// Restart spot; `None` for the kick-off.
    pub fn position(&self) -> (r: Option<P>)
        ensures
            r == self.spec_position(),
    {
        match self {
            SetPiece::Lateral { position, .. } => Some(*position),
            SetPiece::Corner { position, .. } => Some(*position),
            SetPiece::GoalKick { position, .. } => Some(*position),
            SetPiece::KickOff => None,
        }
    }

    /// Team that has the restart.
    pub fn team(&self) -> (r: u8)
        ensures
            r == self.spec_team(),
    {
        match self {
            SetPiece::Lateral { team, .. } => *team,
            SetPiece::Corner { team, .. } => *team,
            SetPiece::GoalKick { team, .. } => *team,
            SetPiece::KickOff => 0,
        }
    }
}

/// Complete state of a match.
#[derive(Debug, Clone)]
pub struct MatchGame<T, P> {
    /// Score `[team_0, team_1]`.
    pub score: [u8; 2],
    /// Time left, in seconds.
    pub time_remaining: T,
    /// Configured length, in seconds.
    pub duration: T,
    /// Status of the match.
    pub status: MatchStatus<T>,
    /// Last team that touched the ball (decides throw-ins and corners).
    pub last_team_touch: Option<u8>,
    /// Kick-off pending (after the start or a goal).
    pub pending_kickoff: bool,
    /// Pending set piece.
    pub pending_set_piece: Option<SetPiece<P>>,
    /// Delay before the ball is moved to the restart spot.
    /// `Some(t)`: the ball still rolls freely; `None`: the ball is placed.
    pub set_piece_delay_timer: Option<T>,
}

/// Snapshot of a match, as sent over the network.
#[derive(Debug, Clone)]
pub struct MatchGameState<T, P> {
    pub score: [u8; 2],
    pub time_remaining: T,
    pub status: MatchStatus<T>,
    pub winner: Option<MatchWinner>,
    /// Active set piece, present only once the ball has been placed at the
    /// restart spot (not while it still rolls freely).
    pub pending_set_piece: Option<SetPiece<P>>,
}

/// The outcome that a score gives.
pub open spec fn outcome(score: [u8; 2]) -> MatchWinner {
    if score[0] > score[1] {
        MatchWinner::Team(0)
    } else if score[0] < score[1] {
        MatchWinner::Team(1)
    } else {
        MatchWinner::Draw
    }
}

/// The score after a goal of `team` (0 or 1).
pub open spec fn score_after_goal(score: [u8; 2], team: u8) -> [u8; 2] {
    if team == 0 {
        [(score[0] + 1) as u8, score[1]]
    } else {
        [score[0], (score[1] + 1) as u8]
    }
}

impl<T, P> MatchGame<T, P> {
    /// A new match of `duration_secs`, waiting to be started.
    pub open spec fn spec_new(duration_secs: T) -> Self {
        MatchGame {
            score: [0, 0],
            time_remaining: duration_secs,
            duration: duration_secs,
            status: MatchStatus::WaitingToStart,
            last_team_touch: None,
            pending_kickoff: true,
            pending_set_piece: None,
            set_piece_delay_timer: None,
        }
    }

    /// What `start` leaves.
    pub open spec fn spec_start(self) -> Self {
        if self.status is WaitingToStart {
            MatchGame { status: MatchStatus::Running, pending_kickoff: true, ..self }
        } else {
            self
        }
    }

    /// Whether `score_goal(team, ..)` can be applied without overflow or an
    /// index out of range: it only acts on a running match.
    pub open spec fn goal_fits(self, team: u8) -> bool {
        self.status is Running ==> team < 2 && self.score[team as int] < 255
    }

    /// What `score_goal` leaves.
    pub open spec fn spec_score_goal(self, team: u8, pause: T) -> Self {
        if self.status is Running {
            MatchGame {
                score: score_after_goal(self.score, team),
                status: MatchStatus::GoalScored { scoring_team: team, countdown: pause },
                last_team_touch: None,
                ..self
            }
        } else {
            self
        }
    }

    /// What `record_touch` leaves.
    pub open spec fn spec_record_touch(self, team: u8) -> Self {
        MatchGame { last_team_touch: Some(team), ..self }
    }

    /// The winner, known once the match has ended.
    pub open spec fn spec_winner(self) -> Option<MatchWinner> {
        if self.status is Ended {
            Some(outcome(self.score))
        } else {
            None
        }
    }

    /// What `finalize` leaves.
    pub open spec fn spec_finalize(self) -> Self {
        MatchGame { status: MatchStatus::Ended, ..self }
    }

    /// What `advance_clock` leaves: the running clock after a step whose
    /// value is `remaining`, ending the match (clock at `zero`) when it expired.
    pub open spec fn spec_advance_clock(self, remaining: T, expired: bool, zero: T) -> Self {
        if self.status is Running {
            if expired {
                MatchGame { time_remaining: zero, status: MatchStatus::Ended, ..self }
            } else {
                MatchGame { time_remaining: remaining, ..self }
            }
        } else {
            self
        }
    }

    /// What `advance_goal_pause` leaves: the goal pause after a step whose
    /// value is `countdown`, resuming play when it expired.
    pub open spec fn spec_advance_goal_pause(self, countdown: T, expired: bool) -> Self {
        match self.status {
            MatchStatus::GoalScored { scoring_team, .. } => {
                if expired {
                    MatchGame {
                        status: MatchStatus::Running,
                        pending_kickoff: true,
                        last_team_touch: None,
                        ..self
                    }
                } else {
                    MatchGame {
                        status: MatchStatus::GoalScored { scoring_team, countdown },
                        ..self
                    }
                }
            },
            _ => self,
        }
    }
}

impl<T: Copy, P: Copy> MatchGame<T, P> {
    /// Creates a match of `duration_secs` seconds, waiting to be started.
    pub fn new(duration_secs: T) -> (r: Self)
        ensures
            r == Self::spec_new(duration_secs),
    {
        MatchGame {
            score: [0, 0],
            time_remaining: duration_secs,
            duration: duration_secs,
            status: MatchStatus::WaitingToStart,
            last_team_touch: None,
            pending_kickoff: true,
            pending_set_piece: None,
            set_piece_delay_timer: None,
        }
    }

    /// Starts the match (WaitingToStart → Running); does nothing otherwise.
    pub fn start(&mut self)
        ensures
            *final(self) == old(self).spec_start(),
    {
        if self.is_waiting() {
            self.status = MatchStatus::Running;
            self.pending_kickoff = true;
        }
    }

    /// Records a goal of `scoring_team` (0 or 1) and opens the goal pause of
    /// length `pause`. A goal outside a running match is ignored.
    pub fn score_goal(&mut self, scoring_team: u8, pause: T)
        requires
            old(self).goal_fits(scoring_team),
        ensures
            *final(self) == old(self).spec_score_goal(scoring_team, pause),
    {
        if !self.is_running() {
            return;
        }
        if scoring_team == 0 {
            self.score = [self.score[0] + 1, self.score[1]];
        } else {
            self.score = [self.score[0], self.score[1] + 1];
        }
        self.status = MatchStatus::GoalScored { scoring_team, countdown: pause };
        self.last_team_touch = None;
    }

    /// Records that `team` was the last to touch the ball.
    pub fn record_touch(&mut self, team: u8)
        ensures
            *final(self) == old(self).spec_record_touch(team),
    {
        self.last_team_touch = Some(team);
    }

    /// The winner; `None` until the match has ended.
    pub fn winner(&self) -> (r: Option<MatchWinner>)
        ensures
            r == self.spec_winner(),
    {
        if !self.is_ended() {
            return None;
        }
        if self.score[0] > self.score[1] {
            Some(MatchWinner::Team(0))
        } else if self.score[0] < self.score[1] {
            Some(MatchWinner::Team(1))
        } else {
            Some(MatchWinner::Draw)
        }
    }

    /// Ends the match now and returns its winner.
    pub fn finalize(&mut self) -> (r: MatchWinner)
        ensures
            *final(self) == old(self).spec_finalize(),
            r == outcome(old(self).score),
    {
        self.status = MatchStatus::Ended;
        match self.winner() {
            Some(w) => w,
            None => MatchWinner::Draw,
        }
    }

    /// `true` while waiting for the start.
    pub fn is_waiting(&self) -> (r: bool)
        ensures
            r == (self.status is WaitingToStart),
    {
        match self.status {
            MatchStatus::WaitingToStart => true,
            _ => false,
        }
    }

    /// `true` while the match runs normally.
    pub fn is_running(&self) -> (r: bool)
        ensures
            r == (self.status is Running),
    {
        match self.status {
            MatchStatus::Running => true,
            _ => false,
        }
    }

    /// `true` during the pause after a goal.
    pub fn is_goal_countdown(&self) -> (r: bool)
        ensures
            r == (self.status is GoalScored),
    {
        match self.status {
            MatchStatus::GoalScored { .. } => true,
            _ => false,
        }
    }

    /// `true` once the match is over.
    pub fn is_ended(&self) -> (r: bool)
        ensures
            r == (self.status is Ended),
    {
        match self.status {
            MatchStatus::Ended => true,
            _ => false,
        }
    }

    /// One step of the match clock, taken by the caller: `remaining` is the
    /// time left after the step and `expired` whether it reached zero, in
    /// which case the clock is set to `zero` and the match ends. Only a
    /// running match is affected.
    pub fn advance_clock(&mut self, remaining: T, expired: bool, zero: T)
        ensures
            *final(self) == old(self).spec_advance_clock(remaining, expired, zero),
    {
        if self.is_running() {
            if expired {
                self.time_remaining = zero;
                self.status = MatchStatus::Ended;
            } else {
                self.time_remaining = remaining;
            }
        }
    }

    /// One step of the goal pause, taken by the caller: `countdown` is the
    /// pause left after the step and `expired` whether it reached zero, in
    /// which case play resumes with a kick-off. Only a goal pause is affected.
    pub fn advance_goal_pause(&mut self, countdown: T, expired: bool)
        ensures
            *final(self) == old(self).spec_advance_goal_pause(countdown, expired),
    {
        match self.status {
            MatchStatus::GoalScored { scoring_team, .. } => {
                if expired {
                    self.status = MatchStatus::Running;
                    self.pending_kickoff = true;
                    self.last_team_touch = None;
                } else {
                    self.status = MatchStatus::GoalScored { scoring_team, countdown };
                }
            },
            _ => {},
        }
    }

    /// Snapshot of the match for the network.
    pub fn snapshot(&self) -> (r: MatchGameState<T, P>)
        ensures
            r == MatchGameState::spec_from(*self),
    {
        MatchGameState::from(self)
    }
}

impl<T: Copy + Default, P: Copy> Default for MatchGame<T, P> {
    /// A match of the default duration of `T` (zero seconds for numbers).
    fn default() -> (r: Self)
        ensures
            r == Self::spec_new(r.duration),
    {
        Self::new(T::default())
    }
}

impl<T, P> MatchGameState<T, P> {
    /// The snapshot of a match: the set piece is included only once the
    /// ball has been placed (its delay timer has run out).
    pub open spec fn spec_from(g: MatchGame<T, P>) -> Self {
        MatchGameState {
            score: g.score,
            time_remaining: g.time_remaining,
            status: g.status,
            winner: g.spec_winner(),
            pending_set_piece: if g.set_piece_delay_timer is None {
                g.pending_set_piece
            } else {
                None
            },
        }
    }
}

impl<T: Copy, P: Copy> MatchGameState<T, P> {
    /// Builds the snapshot of a match.
    pub fn from(g: &MatchGame<T, P>) -> (r: Self)
        ensures
            r == Self::spec_from(*g),
    {
        MatchGameState {
            score: g.score,
            time_remaining: g.time_remaining,
            status: g.status,
            winner: g.winner(),
            pending_set_piece: if g.set_piece_delay_timer.is_none() {
                g.pending_set_piece
            } else {
                None
            },
        }
    }
}


// ============================================================================
// Laws
// ============================================================================

/// A new match waits for its start with the score at 0-0, the whole
/// duration left, a kick-off pending and no winner.
pub proof fn law_new_match<T, P>(duration_secs: T)
    ensures
        MatchGame::<T, P>::spec_new(duration_secs).status is WaitingToStart,
        MatchGame::<T, P>::spec_new(duration_secs).score == [0u8, 0u8],
        MatchGame::<T, P>::spec_new(duration_secs).time_remaining == duration_secs,
        MatchGame::<T, P>::spec_new(duration_secs).pending_kickoff,
        MatchGame::<T, P>::spec_new(duration_secs).spec_winner() is None,
{
}

/// Once a match has ended it stays ended: starting, scoring, running the
/// clock or the goal pause change nothing, and its winner is fixed by the
/// score.
pub proof fn law_ended_is_final<T, P>(
    g: MatchGame<T, P>,
    team: u8,
    pause: T,
    remaining: T,
    expired: bool,
    zero: T,
)
    requires
        g.status is Ended,
    ensures
        g.spec_start() == g,
        g.spec_score_goal(team, pause) == g,
        g.spec_advance_clock(remaining, expired, zero) == g,
        g.spec_advance_goal_pause(remaining, expired) == g,
        g.spec_finalize() == g,
        g.spec_record_touch(team).status is Ended,
        g.spec_winner() == Some(outcome(g.score)),
{
}

/// A match waiting for its start leaves that state only through `start`:
/// goals, clock steps and goal-pause steps change nothing.
pub proof fn law_waiting_until_started<T, P>(
    g: MatchGame<T, P>,
    team: u8,
    pause: T,
    remaining: T,
    expired: bool,
    zero: T,
)
    requires
        g.status is WaitingToStart,
    ensures
        g.spec_score_goal(team, pause) == g,
        g.spec_advance_clock(remaining, expired, zero) == g,
        g.spec_advance_goal_pause(remaining, expired) == g,
        g.spec_start().status is Running,
        g.spec_start().pending_kickoff,
{
}

/// Scores never go down, and a goal in a running match adds exactly one
/// to the scoring team and nothing to the other.
pub proof fn law_score_goal_counts_once<T, P>(g: MatchGame<T, P>, team: u8, pause: T)
    requires
        g.goal_fits(team),
    ensures
        g.spec_score_goal(team, pause).score[0] >= g.score[0],
        g.spec_score_goal(team, pause).score[1] >= g.score[1],
        g.status is Running ==> g.spec_score_goal(team, pause).score[team as int] == g.score[team
            as int] + 1,
        g.status is Running ==> g.spec_score_goal(team, pause).score[1 - team] == g.score[1
            - team],
        !(g.status is Running) ==> g.spec_score_goal(team, pause).score == g.score,
{
}

/// Only goals change the score: starting, touches, clock and goal-pause
/// steps and finalizing keep it.
pub proof fn law_only_goals_change_score<T, P>(
    g: MatchGame<T, P>,
    team: u8,
    remaining: T,
    expired: bool,
    zero: T,
)
    ensures
        g.spec_start().score == g.score,
        g.spec_record_touch(team).score == g.score,
        g.spec_advance_clock(remaining, expired, zero).score == g.score,
        g.spec_advance_goal_pause(remaining, expired).score == g.score,
        g.spec_finalize().score == g.score,
{
}

/// A winner is known exactly when the match has ended, and finalizing
/// returns the winner that the ended match then reports.
pub proof fn law_winner_when_ended<T, P>(g: MatchGame<T, P>)
    ensures
        g.spec_winner() is Some <==> g.status is Ended,
        g.spec_finalize().spec_winner() == Some(outcome(g.score)),
        outcome(g.score) == MatchWinner::Team(0) <==> g.score[0] > g.score[1],
        outcome(g.score) == MatchWinner::Team(1) <==> g.score[0] < g.score[1],
        outcome(g.score) == MatchWinner::Draw <==> g.score[0] == g.score[1],
{
}

/// After a goal the match pauses; when the pause runs out play resumes
/// with a kick-off and no last touch.
pub proof fn law_goal_pause_resumes_with_kickoff<T, P>(
    g: MatchGame<T, P>,
    team: u8,
    pause: T,
    countdown: T,
)
    requires
        g.status is Running,
        g.goal_fits(team),
    ensures
        g.spec_score_goal(team, pause).status == (MatchStatus::GoalScored {
            scoring_team: team,
            countdown: pause,
        }),
        g.spec_score_goal(team, pause).spec_advance_goal_pause(countdown, true).status is Running,
        g.spec_score_goal(team, pause).spec_advance_goal_pause(countdown, true).pending_kickoff,
        g.spec_score_goal(team, pause).spec_advance_goal_pause(
            countdown,
            true,
        ).last_team_touch is None,
{
}

/// The running clock ends the match exactly when it expires, and then
/// shows zero.
pub proof fn law_clock_ends_match<T, P>(g: MatchGame<T, P>, remaining: T, zero: T)
    requires
        g.status is Running,
    ensures
        g.spec_advance_clock(remaining, true, zero).status is Ended,
        g.spec_advance_clock(remaining, true, zero).time_remaining == zero,
        g.spec_advance_clock(remaining, false, zero).status is Running,
        g.spec_advance_clock(remaining, false, zero).time_remaining == remaining,
{
}


/// The snapshot carries the match's own score, clock, status and winner.
pub proof fn law_snapshot_carries_match<T, P>(g: MatchGame<T, P>)
    ensures
        MatchGameState::spec_from(g).score == g.score,
        MatchGameState::spec_from(g).time_remaining == g.time_remaining,
        MatchGameState::spec_from(g).status == g.status,
        MatchGameState::spec_from(g).winner == g.spec_winner(),
{
}

/// The last touch is the latest one: after a touch by `a` the last touch is
/// `a`, after touches by `a` then `b` it is `b`, and a touch changes nothing
/// else.
pub proof fn law_last_touch_wins<T, P>(g: MatchGame<T, P>, a: u8, b: u8)
    ensures
        g.spec_record_touch(a).last_team_touch == Some(a),
        g.spec_record_touch(a).spec_record_touch(b).last_team_touch == Some(b),
        g.spec_record_touch(a).score == g.score,
        g.spec_record_touch(a).status == g.status,
        g.spec_record_touch(a).pending_kickoff == g.pending_kickoff,
        g.spec_record_touch(a).pending_set_piece == g.pending_set_piece,
        g.spec_record_touch(a).set_piece_delay_timer == g.set_piece_delay_timer,
        g.spec_record_touch(a).time_remaining == g.time_remaining,
{
}

} // verus!
