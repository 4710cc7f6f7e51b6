use wicketick::channel::UpdateSlot;
use wicketick::{
    phase_from_args, ActivePlayers, Batter, Bowler, CliSources, Error, HandleInputResponse,
    Innings, MatchSelect, Overs, Palette, SimpleSummary, Source, TickerPhase, TickerState,
};

fn quiet() -> HandleInputResponse {
    HandleInputResponse { should_close: false, cancel: None, spawn: None, refresh: false }
}

fn live_state() -> TickerState {
    let (state, r) = TickerState::new(None).handle_input(Some('1'));
    assert_eq!(r, quiet());
    let (state, r) = state.handle_input(Some('1'));
    assert_eq!(r.spawn, Some(0));
    state
}

fn score() -> SimpleSummary {
    SimpleSummary {
        current_innings: Innings { runs: 120, wickets: 4, overs: "35.2".to_string(), target: None },
        active_players: ActivePlayers {
            batter_one: Some(Batter::new("Root", 57, 54, true)),
            batter_two: Some(Batter::new("Stokes", 3, 10, false)),
            bowler_one: Some(Bowler::new("Broad", Overs::from_str_with_default("12,1"), 4, 37)),
            bowler_two: None,
        },
        debug_string: String::new(),
    }
}

#[test]
fn source_select_key_leads_to_match_select() {
    let (state, r) = TickerState::new(None).handle_input(Some('1'));
    assert_eq!(r, quiet());
    match &state.phase {
        TickerPhase::MatchSelect(m) => {
            assert!(matches!(&m.source, Source::Cricinfo { match_id: None }))
        },
        other => panic!("unexpected {other:?}"),
    }
}

#[test]
fn match_select_key_starts_one_live_stream() {
    let state = TickerState::new(Some(15)).handle_input(Some('1')).0;
    let (state, r) = state.handle_input(Some('1'));
    assert_eq!(
        r,
        HandleInputResponse { should_close: false, cancel: None, spawn: Some(0), refresh: false }
    );
    match &state.phase {
        TickerPhase::LiveStream(ls) => {
            assert_eq!(ls.poller, 0);
            assert_eq!(ls.wicketick.poll_interval, Some(15));
            match &ls.wicketick.source {
                Source::Cricinfo { match_id: Some(id) } => assert_eq!(id, "1442214"),
                other => panic!("unexpected {other:?}"),
            }
        },
        other => panic!("unexpected {other:?}"),
    }
    assert_eq!(state.next_poller, 1);
}

#[test]
fn match_select_keeps_a_supplied_match() {
    let state = TickerState {
        phase: TickerPhase::MatchSelect(MatchSelect::new(Source::Cricinfo {
            match_id: Some("1385691".to_string()),
        })),
        poll_interval: None,
        next_poller: 4,
    };
    let (state, r) = state.handle_input(Some('1'));
    assert_eq!(r.spawn, Some(4));
    match &state.phase {
        TickerPhase::LiveStream(ls) => match &ls.wicketick.source {
            Source::Cricinfo { match_id: Some(id) } => assert_eq!(id, "1385691"),
            other => panic!("unexpected {other:?}"),
        },
        other => panic!("unexpected {other:?}"),
    }
}

#[test]
fn match_select_of_generic_api_stays() {
    let src = Source::_SomeApi { base_url: "u".to_string(), api_token: "t".to_string() };
    let state = TickerState {
        phase: TickerPhase::MatchSelect(MatchSelect::new(src)),
        poll_interval: None,
        next_poller: 0,
    };
    assert_eq!(state.draw().text, "Match select not implemented for _SomeApi");
    let (state, r) = state.handle_input(Some('1'));
    assert_eq!(r, quiet());
    assert!(matches!(state.phase, TickerPhase::MatchSelect(_)));
}

#[test]
fn quitting_a_live_stream_cancels_its_poller() {
    let (state, r) = live_state().handle_input(Some('q'));
    assert_eq!(
        r,
        HandleInputResponse { should_close: true, cancel: Some(0), spawn: None, refresh: false }
    );
    assert!(matches!(state.phase, TickerPhase::LiveStream(_)));
}

#[test]
fn quitting_a_selection_cancels_nothing() {
    let (_, r) = TickerState::new(None).handle_input(Some('q'));
    assert_eq!(
        r,
        HandleInputResponse { should_close: true, cancel: None, spawn: None, refresh: false }
    );
}

#[test]
fn reselection_cancels_the_previous_poller() {
    let state = live_state();
    let (state, r) = state.select(Source::Cricinfo { match_id: Some("1410472".to_string()) });
    assert_eq!(
        r,
        HandleInputResponse { should_close: false, cancel: Some(0), spawn: Some(1), refresh: false }
    );
    match &state.phase {
        TickerPhase::LiveStream(ls) => {
            assert_eq!(ls.poller, 1);
            assert!(ls.wicketick.summary.is_none());
        },
        other => panic!("unexpected {other:?}"),
    }
}

#[test]
fn refresh_key_asks_for_a_manual_refresh_only() {
    let (state, r) = live_state().handle_input(Some('r'));
    assert_eq!(
        r,
        HandleInputResponse { should_close: false, cancel: None, spawn: None, refresh: true }
    );
    assert!(matches!(state.phase, TickerPhase::LiveStream(_)));
    let (_, r) = TickerState::new(None).handle_input(Some('r'));
    assert_eq!(r, quiet());
}

#[test]
fn other_keys_change_nothing() {
    let (state, r) = live_state().handle_input(Some('x'));
    assert_eq!(r, quiet());
    let (state, r) = state.handle_input(None);
    assert_eq!(r, quiet());
    assert_eq!(state.poller(), Some(0));
    let (state, r) = state.handle_input(Some('1'));
    assert_eq!(r, quiet());
    assert_eq!(state.poller(), Some(0));
}

#[test]
fn selection_phases_draw_their_menus() {
    let state = TickerState::new(None);
    let frame = state.draw();
    assert_eq!(frame.text, "1. CricInfo\n");
    assert_eq!(frame.palette, Palette::WhiteOnGreen);
    let state = state.handle_input(Some('1')).0;
    assert_eq!(state.draw().text, "1. pakistan-vs-bangladesh-2nd-test-1442214");
    let local = MatchSelect::new(Source::LocalCricinfo { filename: "m.json".to_string() });
    assert_eq!(local.draw().text, "1. m.json");
}

#[test]
fn live_stream_shows_placeholder_then_score() {
    let mut state = live_state();
    let frame = state.draw();
    assert_eq!(frame.text, "Loading...");
    assert_eq!(frame.palette, Palette::WhiteOnBlack);
    let mut slot = UpdateSlot::new();
    slot.send(score());
    state.update(&mut slot);
    assert!(slot.take().is_none());
    assert_eq!(
        state.draw().text,
        "120-4 35.2          Root* 57 (54) | Stokes 3 (10)     Broad 4-37 (12.1) | "
    );
}

#[test]
fn update_with_empty_slot_keeps_the_snapshot() {
    let mut state = live_state();
    let mut slot = UpdateSlot::new();
    slot.send(score());
    state.update(&mut slot);
    state.update(&mut slot);
    assert!(state.draw().text.starts_with("120-4 35.2"));
}

#[test]
fn update_outside_a_live_stream_leaves_the_slot() {
    let mut state = TickerState::new(None);
    let mut slot = UpdateSlot::new();
    slot.send(score());
    state.update(&mut slot);
    assert!(slot.take().is_some());
}

#[test]
fn args_without_source_start_at_source_select() {
    let (state, r) = phase_from_args(None, 30, false).unwrap();
    assert!(matches!(state.phase, TickerPhase::SourceSelect(_)));
    assert_eq!(state.poll_interval, Some(30));
    assert_eq!(r, quiet());
}

#[test]
fn args_without_match_start_at_match_select() {
    let (state, r) = phase_from_args(Some(CliSources::Cricinfo { match_id: None }), 30, false).unwrap();
    assert!(matches!(state.phase, TickerPhase::MatchSelect(_)));
    assert_eq!(r, quiet());
}

#[test]
fn args_with_match_start_polling() {
    let args = Some(CliSources::Cricinfo { match_id: Some("1410472".to_string()) });
    let (state, r) = phase_from_args(args, 10, false).unwrap();
    assert_eq!(r.spawn, Some(0));
    assert_eq!(r.cancel, None);
    match &state.phase {
        TickerPhase::LiveStream(ls) => assert_eq!(ls.wicketick.poll_interval, Some(10)),
        other => panic!("unexpected {other:?}"),
    }
}

#[test]
fn args_with_local_file() {
    let args = Some(CliSources::LocalCricinfo { filename: "m.json".to_string() });
    let (state, r) = phase_from_args(args, 30, true).unwrap();
    assert_eq!(r.spawn, Some(0));
    assert!(matches!(state.phase, TickerPhase::LiveStream(_)));
    let args = Some(CliSources::LocalCricinfo { filename: "m.json".to_string() });
    match phase_from_args(args, 30, false) {
        Err(Error::Todo(m)) => assert_eq!(m, "file does not exist"),
        other => panic!("unexpected {other:?}"),
    }
}
