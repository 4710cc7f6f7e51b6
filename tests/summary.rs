use wicketick::{ActivePlayers, Batter, Bowler, Innings, Overs, SimpleSummary};

fn innings(runs: u32, wickets: u32, overs: &str) -> Innings {
    Innings { runs, wickets, overs: overs.to_string(), target: None }
}

#[test]
fn innings_display_matches_scoreboard_notation() {
    assert_eq!(innings(120, 4, "35.2").display(), "120-4 35.2");
}

#[test]
fn innings_display_of_zero_and_large_values() {
    assert_eq!(innings(0, 0, "0").display(), "0-0 0");
    assert_eq!(innings(4294967295, 10, "50").display(), "4294967295-10 50");
}

#[test]
fn new_innings_is_blank() {
    let i = Innings::new();
    assert_eq!((i.runs, i.wickets, i.overs.as_str(), i.target), (0, 0, "0", None));
}

#[test]
fn batter_display_marks_the_striker() {
    assert_eq!(Batter::new("Root", 57, 54, true).display(), "Root* 57 (54)");
    assert_eq!(Batter::new("Root", 57, 54, false).display(), "Root 57 (54)");
}

#[test]
fn bowler_display_shows_figures() {
    let o = Overs::from_str_with_default("12,1");
    assert_eq!(Bowler::new("Broad", o, 4, 37).display(), "Broad 4-37 (12.1)");
    let whole = Overs::from_str_with_default("10");
    assert_eq!(Bowler::new("Anderson", whole, 0, 12).display(), "Anderson 0-12 (10)");
}

#[test]
fn active_players_display_pairs() {
    let players = ActivePlayers {
        batter_one: Some(Batter::new("Root", 57, 54, true)),
        batter_two: None,
        bowler_one: None,
        bowler_two: Some(Bowler::new("Broad", Overs::from_str_with_default("12,1"), 4, 37)),
    };
    assert_eq!(players.display_batters(), "Root* 57 (54) | ");
    assert_eq!(players.display_bowlers(), " | Broad 4-37 (12.1)");
}

#[test]
fn empty_active_players_display_separators_only() {
    let players = ActivePlayers::default();
    assert_eq!(players.display_batters(), " | ");
    assert_eq!(players.display_bowlers(), " | ");
}

#[test]
fn summary_display_appends_the_note() {
    let mut s = SimpleSummary::new();
    s.current_innings = innings(120, 4, "35.2");
    assert_eq!(s.display(), "120-4 35.2");
    s.debug_string = "(Ticks: 3)".to_string();
    assert_eq!(s.display(), "120-4 35.2 (Ticks: 3)");
}

#[test]
fn new_summary_is_blank() {
    let s = SimpleSummary::default();
    assert_eq!(s.display(), "0-0 0");
    assert!(s.active_players.batter_one.is_none());
    assert!(s.active_players.bowler_two.is_none());
    assert!(s.debug_string.is_empty());
}
