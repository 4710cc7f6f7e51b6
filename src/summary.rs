//! The snapshot of a match that the ticker shows: the current innings and the
//! players at the crease and with the ball.

use vstd::prelude::*;

use crate::decimal::{decimal, decimal_string};
use crate::overs::{overs_text, Overs};

verus! {

/// The score of the innings in progress.
#[derive(Debug, Clone)]
pub struct Innings {
    pub runs: u32,
    pub wickets: u32,
    /// Overs bowled, in the screen notation.
    pub overs: String,
    /// The score to chase, where the innings has one.
    pub target: Option<u32>,
}

/// A batter at the crease and their score.
#[derive(Debug, Clone)]
pub struct Batter {
    pub name: String,
    pub runs: u32,
    pub balls_faced: u32,
    pub on_strike: bool,
}

/// A bowler of the innings and their figures.
#[derive(Debug, Clone)]
pub struct Bowler {
    pub name: String,
    pub overs: Overs,
    pub wickets: u32,
    pub runs_conceded: u32,
}

/// The two batters at the crease and the two bowlers of the current spell,
/// where the source names them.
#[derive(Debug, Clone)]
pub struct ActivePlayers {
    pub batter_one: Option<Batter>,
    pub batter_two: Option<Batter>,
    pub bowler_one: Option<Bowler>,
    pub bowler_two: Option<Bowler>,
}

/// One complete picture of a match: the current innings, the active players
/// and a free-text note shown after the score.
#[derive(Debug, Clone)]
pub struct SimpleSummary {
    pub current_innings: Innings,
    pub active_players: ActivePlayers,
    pub debug_string: String,
}

/// `<runs>-<wickets> <overs>`.
pub open spec fn innings_text(i: Innings) -> Seq<char> {
    decimal(i.runs as nat) + "-"@ + decimal(i.wickets as nat) + " "@ + i.overs@
}

/// `<name>[*] <runs> (<balls faced>)`, with the star for the batter on strike.
pub open spec fn batter_text(b: Batter) -> Seq<char> {
    b.name@ + (if b.on_strike {
        "*"@
    } else {
        Seq::<char>::empty()
    }) + " "@ + decimal(b.runs as nat) + " ("@ + decimal(b.balls_faced as nat) + ")"@
}

/// `<name> <wickets>-<runs conceded> (<overs>)`.
pub open spec fn bowler_text(b: Bowler) -> Seq<char> {
    b.name@ + " "@ + decimal(b.wickets as nat) + "-"@ + decimal(b.runs_conceded as nat) + " ("@
        + overs_text(b.overs) + ")"@
}

/// Two texts side by side, `<one> | <two>`.
pub open spec fn pair_text(one: Seq<char>, two: Seq<char>) -> Seq<char> {
    one + " | "@ + two
}

/// The text of a batter who may be absent: empty when absent.
pub open spec fn batter_slot_text(b: Option<Batter>) -> Seq<char> {
    match b {
        Some(b) => batter_text(b),
        None => Seq::<char>::empty(),
    }
}

/// The text of a bowler who may be absent: empty when absent.
pub open spec fn bowler_slot_text(b: Option<Bowler>) -> Seq<char> {
    match b {
        Some(b) => bowler_text(b),
        None => Seq::<char>::empty(),
    }
}

/// The score, followed by the note where there is one.
pub open spec fn summary_text(s: SimpleSummary) -> Seq<char> {
    if s.debug_string@.len() == 0 {
        innings_text(s.current_innings)
    } else {
        innings_text(s.current_innings) + " "@ + s.debug_string@
    }
}

/// A summary with no score yet: nothing scored, no players, no note.
pub open spec fn is_blank_summary(s: SimpleSummary) -> bool {
    &&& is_blank_innings(s.current_innings)
    &&& is_empty_players(s.active_players)
    &&& s.debug_string@.len() == 0
}

/// An innings with nothing scored and no overs bowled.
pub open spec fn is_blank_innings(i: Innings) -> bool {
    i.runs == 0 && i.wickets == 0 && i.overs@ == "0"@ && i.target is None
}

/// No player named.
pub open spec fn is_empty_players(p: ActivePlayers) -> bool {
    &&& p.batter_one is None
    &&& p.batter_two is None
    &&& p.bowler_one is None
    &&& p.bowler_two is None
}

impl Innings {
    /// The score of the innings, `<runs>-<wickets> <overs>`.
    pub fn display(&self) -> (r: String)
        ensures
            r@ == innings_text(*self),
    {
        let mut text = decimal_string(self.runs as u64);
        text.append("-");
        text.append(decimal_string(self.wickets as u64).as_str());
        text.append(" ");
        text.append(self.overs.as_str());
        text
    }

    /// An innings with nothing scored yet.
    pub fn new() -> (r: Self)
        ensures
            is_blank_innings(r),
    {
        Self::default()
    }
}

impl Default for Innings {
    fn default() -> (r: Self)
        ensures
            is_blank_innings(r),
    {
        Self { runs: 0, wickets: 0, overs: String::from_str("0"), target: None }
    }
}

impl Default for ActivePlayers {
    fn default() -> (r: Self)
        ensures
            is_empty_players(r),
    {
        Self { batter_one: None, batter_two: None, bowler_one: None, bowler_two: None }
    }
}

impl ActivePlayers {
    /// The two bowlers, `<one> | <two>`, an absent one left empty.
    pub fn display_bowlers(&self) -> (r: String)
        ensures
            r@ == pair_text(bowler_slot_text(self.bowler_one), bowler_slot_text(self.bowler_two)),
    {
        let mut text = match &self.bowler_one {
            Some(bowler) => bowler.display(),
            None => String::new(),
        };
        text.append(" | ");
        match &self.bowler_two {
            Some(bowler) => text.append(bowler.display().as_str()),
            None => {},
        }
        text
    }

    /// The two batters, `<one> | <two>`, an absent one left empty.
    pub fn display_batters(&self) -> (r: String)
        ensures
            r@ == pair_text(batter_slot_text(self.batter_one), batter_slot_text(self.batter_two)),
    {
        let mut text = match &self.batter_one {
            Some(batter) => batter.display(),
            None => String::new(),
        };
        text.append(" | ");
        match &self.batter_two {
            Some(batter) => text.append(batter.display().as_str()),
            None => {},
        }
        text
    }
}

impl Batter {
    /// A batter with the given name and score.
    pub fn new(name: &str, runs: u32, balls_faced: u32, on_strike: bool) -> (r: Self)
        ensures
            r.name@ == name@,
            r.runs == runs,
            r.balls_faced == balls_faced,
            r.on_strike == on_strike,
    {
        Self { name: String::from_str(name), runs, balls_faced, on_strike }
    }

    /// `<name>[*] <runs> (<balls faced>)`, as in `Root* 57 (54)`.
    pub fn display(&self) -> (r: String)
        ensures
            r@ == batter_text(*self),
    {
        let mut text = self.name.clone();
        if self.on_strike {
            text.append("*");
        }
        text.append(" ");
        text.append(decimal_string(self.runs as u64).as_str());
        text.append(" (");
        text.append(decimal_string(self.balls_faced as u64).as_str());
        text.append(")");
        text
    }
}

impl Bowler {
    /// A bowler with the given name and figures.
    pub fn new(name: &str, overs: Overs, wickets: u32, runs_conceded: u32) -> (r: Self)
        ensures
            r.name@ == name@,
            r.overs == overs,
            r.wickets == wickets,
            r.runs_conceded == runs_conceded,
    {
        Self { name: String::from_str(name), overs, wickets, runs_conceded }
    }

    /// `<name> <wickets>-<runs conceded> (<overs>)`, as in `Broad 4-37 (12.1)`.
    pub fn display(&self) -> (r: String)
        ensures
            r@ == bowler_text(*self),
    {
        let mut text = self.name.clone();
        text.append(" ");
        text.append(decimal_string(self.wickets as u64).as_str());
        text.append("-");
        text.append(decimal_string(self.runs_conceded as u64).as_str());
        text.append(" (");
        text.append(self.overs.display().as_str());
        text.append(")");
        text
    }
}

impl SimpleSummary {
    /// The score, followed by the note where there is one.
    pub fn display(&self) -> (r: String)
        ensures
            r@ == summary_text(*self),
    {
        let mut text = self.current_innings.display();
        if self.debug_string.as_str().unicode_len() != 0 {
            text.append(" ");
            text.append(self.debug_string.as_str());
        }
        text
    }

    /// A summary with no score yet.
    pub fn new() -> (r: Self)
        ensures
            is_blank_summary(r),
    {
        Self::default()
    }
}

impl Default for SimpleSummary {
    fn default() -> (r: Self)
        ensures
            is_blank_summary(r),
    {
        Self {
            current_innings: Innings::new(),
            active_players: ActivePlayers::default(),
            debug_string: String::new(),
        }
    }
}

} // verus!
