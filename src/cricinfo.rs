//! The remote scoreboard's match summary, as far as the ticker reads it, and
//! its conversion into a snapshot. Decoding the payload into these records is
//! left to the caller.

use vstd::prelude::*;

use crate::decimal::{self, parse_u32_spec};
use crate::overs::{parse_overs_or_zero, Overs};
use crate::summary::{self, is_empty_players, SimpleSummary};

verus! {

/// A player of a team sheet.
#[derive(Debug, Clone)]
pub struct Player {
    pub known_as: String,
    pub popular_name: String,
    pub player_id: String,
}

/// A batter at the crease, as the scoreboard lists them.
#[derive(Debug, Clone)]
pub struct Batter {
    /// Balls faced, in decimal.
    pub balls_faced: String,
    /// `striker` for the batter on strike.
    pub live_current_name: String,
    pub runs: u32,
    pub player_id: String,
    pub team_id: u32,
}

/// A bowler of the current spell, as the scoreboard lists them.
#[derive(Debug, Clone)]
pub struct Bowler {
    /// Overs bowled, as `<overs>` or `<overs>,<balls>`.
    pub overs: String,
    pub live_current_name: String,
    pub conceded: u32,
    pub wickets: u32,
    pub player_id: String,
    pub team_id: u32,
}

/// The innings in progress; a target of 0 stands for none.
#[derive(Debug, Clone)]
pub struct Innings {
    pub runs: u32,
    pub wickets: u32,
    pub target: u32,
    pub overs: String,
}

/// The live part of the summary.
#[derive(Debug, Clone)]
pub struct LiveState {
    pub innings: Innings,
    pub batting: Vec<Batter>,
    pub bowling: Vec<Bowler>,
}

/// A team sheet.
#[derive(Debug, Clone)]
pub struct Team {
    pub player: Vec<Player>,
    pub team_id: String,
    pub team_name: String,
    pub team_short_name: String,
}

/// A match summary of the remote scoreboard.
#[derive(Debug, Clone)]
pub struct Summary {
    pub live: LiveState,
    pub team: Vec<Team>,
}

/// The name of the first of `players` with the identifier `id`.
pub open spec fn find_in_players(players: Seq<Player>, id: Seq<char>) -> Option<Seq<char>>
    decreases players.len(),
{
    if players.len() == 0 {
        None
    } else if players[0].player_id@ == id {
        Some(players[0].known_as@)
    } else {
        find_in_players(players.drop_first(), id)
    }
}

/// The name of the first player with the identifier `id`, team after team.
pub open spec fn find_in_teams(teams: Seq<Team>, id: Seq<char>) -> Option<Seq<char>>
    decreases teams.len(),
{
    if teams.len() == 0 {
        None
    } else {
        match find_in_players(teams[0].player@, id) {
            Some(name) => Some(name),
            None => find_in_teams(teams.drop_first(), id),
        }
    }
}

/// The name shown for a player that no team sheet lists.
pub open spec fn unknown_name() -> Seq<char> {
    "Unkown"@
}

/// The name shown for the player with the identifier `id`.
pub open spec fn player_name(teams: Seq<Team>, id: Seq<char>) -> Seq<char> {
    match find_in_teams(teams, id) {
        Some(name) => name,
        None => unknown_name(),
    }
}

/// A count in decimal, zero where the text is not one.
pub open spec fn count_or_zero(s: Seq<char>) -> u32 {
    match parse_u32_spec(s) {
        Some(n) => n,
        None => 0,
    }
}

/// The value of the marker of the batter on strike.
pub open spec fn striker_marker() -> Seq<char> {
    "striker"@
}

/// Whether `b` shows the scoreboard's batter `src` under the name `name`.
pub open spec fn shows_batter(b: summary::Batter, src: Batter, name: Seq<char>) -> bool {
    &&& b.name@ == name
    &&& b.runs == src.runs
    &&& b.balls_faced == count_or_zero(src.balls_faced@)
    &&& b.on_strike == (src.live_current_name@ == striker_marker())
}

/// Whether `b` shows the scoreboard's bowler `src` under the name `name`.
pub open spec fn shows_bowler(b: summary::Bowler, src: Bowler, name: Seq<char>) -> bool {
    &&& b.name@ == name
    &&& b.overs == parse_overs_or_zero(src.overs@)
    &&& b.wickets == src.wickets
    &&& b.runs_conceded == src.conceded
}

/// Whether `slot` shows the batter at position `i` of `batting`, or is empty
/// where there is none.
pub open spec fn shows_batter_at(
    slot: Option<summary::Batter>,
    batting: Seq<Batter>,
    i: int,
    teams: Seq<Team>,
) -> bool {
    if i < batting.len() {
        slot matches Some(b) && shows_batter(b, batting[i], player_name(teams, batting[i].player_id@))
    } else {
        slot is None
    }
}

/// Whether `slot` shows the bowler at position `i` of `bowling`, or is empty
/// where there is none.
pub open spec fn shows_bowler_at(
    slot: Option<summary::Bowler>,
    bowling: Seq<Bowler>,
    i: int,
    teams: Seq<Team>,
) -> bool {
    if i < bowling.len() {
        slot matches Some(b) && shows_bowler(b, bowling[i], player_name(teams, bowling[i].player_id@))
    } else {
        slot is None
    }
}

/// Whether `r` is the snapshot of the summary `s`: its innings, no note, and
/// the active players when the scoreboard lists four of them, batters and
/// bowlers together, else none.
pub open spec fn is_snapshot_of(r: SimpleSummary, s: Summary) -> bool {
    let teams = s.team@;
    let batting = s.live.batting@;
    let bowling = s.live.bowling@;
    &&& r.current_innings.runs == s.live.innings.runs
    &&& r.current_innings.wickets == s.live.innings.wickets
    &&& r.current_innings.overs@ == s.live.innings.overs@
    &&& r.current_innings.target == (if s.live.innings.target == 0 {
        None
    } else {
        Some(s.live.innings.target)
    })
    &&& r.debug_string@.len() == 0
    &&& if batting.len() + bowling.len() == 4 {
        &&& shows_batter_at(r.active_players.batter_one, batting, 0, teams)
        &&& shows_batter_at(r.active_players.batter_two, batting, 1, teams)
        &&& shows_bowler_at(r.active_players.bowler_one, bowling, 0, teams)
        &&& shows_bowler_at(r.active_players.bowler_two, bowling, 1, teams)
    } else {
        is_empty_players(r.active_players)
    }
}

/// The name shown for the player with the identifier `player_id`: the name
/// the first team sheet that lists them gives, `Unkown` where none does.
pub fn lookup_in_teams(teams: &Vec<Team>, player_id: &str) -> (r: String)
    ensures
        r@ == player_name(teams@, player_id@),
{
    let id = String::from_str(player_id);
    let mut t: usize = 0;
    assert(teams@.subrange(0, teams@.len() as int) =~= teams@);
    while t < teams.len()
        invariant
            t <= teams.len(),
            id@ == player_id@,
            find_in_teams(teams@, id@) == find_in_teams(
                teams@.subrange(t as int, teams@.len() as int),
                id@,
            ),
        decreases teams.len() - t,
    {
        let players = &teams[t].player;
        let ghost rest = teams@.subrange(t as int, teams@.len() as int);
        assert(rest[0] == teams@[t as int]);
        assert(rest.drop_first() =~= teams@.subrange(t + 1, teams@.len() as int));
        let mut p: usize = 0;
        assert(players@.subrange(0, players@.len() as int) =~= players@);
        while p < players.len()
            invariant
                p <= players.len(),
                t < teams.len(),
                id@ == player_id@,
                players@ == teams@[t as int].player@,
                rest == teams@.subrange(t as int, teams@.len() as int),
                find_in_teams(teams@, id@) == find_in_teams(rest, id@),
                find_in_players(players@, id@) == find_in_players(
                    players@.subrange(p as int, players@.len() as int),
                    id@,
                ),
            decreases players.len() - p,
        {
            let ghost tail = players@.subrange(p as int, players@.len() as int);
            assert(tail[0] == players@[p as int]);
            assert(tail.drop_first() =~= players@.subrange(p + 1, players@.len() as int));
            if players[p].player_id == id {
                return players[p].known_as.clone();
            }
            p = p + 1;
        }
        assert(players@.subrange(p as int, players@.len() as int) =~= Seq::<Player>::empty());
        t = t + 1;
    }
    assert(teams@.subrange(t as int, teams@.len() as int) =~= Seq::<Team>::empty());
    String::from_str("Unkown")
}

impl Summary {
    /// The name shown for the player with the identifier `player_id`.
    pub fn lookup_player_name(&self, player_id: &str) -> (r: String)
        ensures
            r@ == player_name(self.team@, player_id@),
    {
        lookup_in_teams(&self.team, player_id)
    }
}

impl Batter {
    /// The batter as the ticker shows them, under the name `name`.
    pub fn to_wicketick(self, name: &str) -> (r: summary::Batter)
        ensures
            shows_batter(r, self, name@),
    {
        let balls_faced = parse_u32(self.balls_faced.as_str());
        let on_strike = self.live_current_name == String::from_str("striker");
        summary::Batter::new(name, self.runs, balls_faced, on_strike)
    }
}

impl Bowler {
    /// The bowler as the ticker shows them, under the name `name`.
    pub fn to_wicketick(self, name: &str) -> (r: summary::Bowler)
        ensures
            shows_bowler(r, self, name@),
    {
        summary::Bowler::new(
            name,
            Overs::from_str_with_default(self.overs.as_str()),
            self.wickets,
            self.conceded,
        )
    }
}

fn next_batter(batting: &mut Vec<Batter>, teams: &Vec<Team>) -> (r: Option<summary::Batter>)
    ensures
        if old(batting)@.len() > 0 {
            &&& r matches Some(b) && shows_batter(
                b,
                old(batting)@[0],
                player_name(teams@, old(batting)@[0].player_id@),
            )
            &&& final(batting)@ == old(batting)@.drop_first()
        } else {
            r is None && final(batting)@ == old(batting)@
        },
{
    if batting.len() == 0 {
        return None;
    }
    let b = batting.remove(0);
    let name = lookup_in_teams(teams, b.player_id.as_str());
    Some(b.to_wicketick(name.as_str()))
}

fn next_bowler(bowling: &mut Vec<Bowler>, teams: &Vec<Team>) -> (r: Option<summary::Bowler>)
    ensures
        if old(bowling)@.len() > 0 {
            &&& r matches Some(b) && shows_bowler(
                b,
                old(bowling)@[0],
                player_name(teams@, old(bowling)@[0].player_id@),
            )
            &&& final(bowling)@ == old(bowling)@.drop_first()
        } else {
            r is None && final(bowling)@ == old(bowling)@
        },
{
    if bowling.len() == 0 {
        return None;
    }
    let b = bowling.remove(0);
    let name = lookup_in_teams(teams, b.player_id.as_str());
    Some(b.to_wicketick(name.as_str()))
}

impl Summary {
    /// The snapshot of this summary: its innings with a target of 0 read as
    /// none, and the active players when the scoreboard lists four of them,
    /// the first two batters and the first two bowlers, each under the name
    /// its team sheet gives.
    pub fn into(self) -> (r: SimpleSummary)
        ensures
            is_snapshot_of(r, self),
    {
        let teams = self.team;
        let mut batting = self.live.batting;
        let mut bowling = self.live.bowling;
        let innings = self.live.innings;
        let active_players = if batting.len() <= 4 && bowling.len() <= 4 && batting.len()
            + bowling.len() == 4 {
            let batter_one = next_batter(&mut batting, &teams);
            let batter_two = next_batter(&mut batting, &teams);
            let bowler_one = next_bowler(&mut bowling, &teams);
            let bowler_two = next_bowler(&mut bowling, &teams);
            summary::ActivePlayers { batter_one, batter_two, bowler_one, bowler_two }
        } else {
            summary::ActivePlayers::default()
        };
        let target = if innings.target == 0 {
            None
        } else {
            Some(innings.target)
        };
        SimpleSummary {
            current_innings: summary::Innings {
                runs: innings.runs,
                wickets: innings.wickets,
                overs: innings.overs,
                target,
            },
            active_players,
            debug_string: String::new(),
        }
    }
}

/// Reads a count in decimal, zero where the text is not one.
pub fn parse_u32(s: &str) -> (r: u32)
    ensures
        r == count_or_zero(s@),
{
    match decimal::parse_u32(s) {
        Some(n) => n,
        None => 0,
    }
}

/// A number that the scoreboard sends as a signed integer, where it fits a
/// count.
pub fn stringy_int_from_signed(value: i64) -> (r: Option<u32>)
    ensures
        r == (if 0 <= value <= u32::MAX {
            Some(value as u32)
        } else {
            None
        }),
{
    if 0 <= value && value <= 4294967295 {
        Some(value as u32)
    } else {
        None
    }
}

/// A number that the scoreboard sends as an unsigned integer, where it fits
/// a count.
pub fn stringy_int_from_unsigned(value: u64) -> (r: Option<u32>)
    ensures
        r == (if value <= u32::MAX {
            Some(value as u32)
        } else {
            None
        }),
{
    if value <= 4294967295 {
        Some(value as u32)
    } else {
        None
    }
}

} // verus!
