//! What the admin panel shows about the match.
use vstd::prelude::*;
use vstd::string::*;
use crate::match_game::{MatchStatus, MatchWinner};
use crate::text::{decimal, push_decimal};

verus! {

/// What the match section of the admin panel holds.
#[derive(Debug, Clone, Copy, PartialEq, Eq, Structural)]
pub enum MatchSection {
    /// Score and clock of a match in progress (or in a goal pause).
    Status,
    /// Result of a finished match, then the controls to start a new one.
    StatusAndConfig,
    /// Only the controls to start a match.
    Config,
    /// A note that no match is active.
    NoMatch,
}

/// The match section for the last known state of the match (none before
/// any) and the viewer's rights: only admins get the controls.
pub open spec fn match_section_of<T>(status: Option<MatchStatus<T>>, is_admin: bool) -> MatchSection {
    match status {
        Some(MatchStatus::Running) => MatchSection::Status,
        Some(MatchStatus::GoalScored { .. }) => MatchSection::Status,
        Some(MatchStatus::Ended) => if is_admin {
            MatchSection::StatusAndConfig
        } else {
            MatchSection::Status
        },
        _ => if is_admin {
            MatchSection::Config
        } else {
            MatchSection::NoMatch
        },
    }
}

/// The match section to show.
pub fn match_section<T>(status: Option<&MatchStatus<T>>, is_admin: bool) -> (r: MatchSection)
    ensures
        r == match_section_of(
            match status {
                Some(s) => Some(*s),
                None => None,
            },
            is_admin,
        ),
{
    match status {
        Some(MatchStatus::Running) => MatchSection::Status,
        Some(MatchStatus::GoalScored { .. }) => MatchSection::Status,
        Some(MatchStatus::Ended) => {
            if is_admin {
                MatchSection::StatusAndConfig
            } else {
                MatchSection::Status
            }
        },
        _ => {
            if is_admin {
                MatchSection::Config
            } else {
                MatchSection::NoMatch
            }
        },
    }
}

/// `n` in decimal on at least two digits (as `{:02}` prints it).
pub open spec fn two_digits(n: nat) -> Seq<char> {
    if n < 10 {
        "0"@ + decimal(n)
    } else {
        decimal(n)
    }
}

/// The clock of a running match, `MM:SS`.
pub open spec fn clock_label(mins: u32, secs: u32) -> Seq<char> {
    "⏱  "@ + two_digits(mins as nat) + ":"@ + two_digits(secs as nat)
}

fn push_two_digits(out: &mut String, n: u32)
    ensures
        final(out)@ == old(out)@ + two_digits(n as nat),
{
    if n < 10 {
        out.append("0");
    }
    push_decimal(out, n);
    assert(final(out)@ =~= old(out)@ + two_digits(n as nat));
}

/// The clock label for `mins` minutes and `secs` seconds left.
pub fn clock_text(mins: u32, secs: u32) -> (r: String)
    ensures
        r@ == clock_label(mins, secs),
{
    let mut s = String::from_str("⏱  ");
    push_two_digits(&mut s, mins);
    s.append(":");
    push_two_digits(&mut s, secs);
    assert(s@ =~= clock_label(mins, secs));
    s
}

/// The name of the team that scored, as the goal message shows it.
pub open spec fn scoring_team_label(team: u8) -> Seq<char> {
    if team == 0 {
        "🔴 ROJO"@
    } else {
        "🔵 AZUL"@
    }
}

/// The goal message.
pub fn goal_text(scoring_team: u8) -> (r: String)
    ensures
        r@ == "⚽ ¡GOL de "@ + scoring_team_label(scoring_team) + "!"@,
{
    let mut s = String::from_str("⚽ ¡GOL de ");
    if scoring_team == 0 {
        s.append("🔴 ROJO");
    } else {
        s.append("🔵 AZUL");
    }
    s.append("!");
    s
}

/// The result line of a finished match.
pub open spec fn result_label(winner: Option<MatchWinner>) -> Seq<char> {
    match winner {
        Some(MatchWinner::Team(0)) => "🔴 Ganó el equipo ROJO"@,
        Some(MatchWinner::Team(_)) => "🔵 Ganó el equipo AZUL"@,
        _ => "🤝 Empate"@,
    }
}

/// The result line of a finished match.
pub fn result_text(winner: Option<MatchWinner>) -> (r: &'static str)
    ensures
        r@ == result_label(winner),
{
    match winner {
        Some(MatchWinner::Team(0)) => "🔴 Ganó el equipo ROJO",
        Some(MatchWinner::Team(_)) => "🔵 Ganó el equipo AZUL",
        _ => "🤝 Empate",
    }
}

} // verus!
