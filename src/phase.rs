//! The phases of the ticker's interface and the one function that moves
//! between them. A live stream owns the poller that feeds it, so a transition
//! that leaves it names that poller to be cancelled before any new one starts.

use vstd::prelude::*;

use crate::channel::{after_take, UpdateSlot};
use crate::error::{is_todo, Error};
use crate::summary::{
    batter_slot_text, bowler_slot_text, pair_text, summary_text, SimpleSummary,
};
use crate::ticker::{
    has_target, interval_or_default, is_fresh_ticker, source_label, Source, WickeTick,
};

verus! {

/// The first phase: the kind of source is to be chosen.
#[derive(Debug)]
pub struct SourceSelect {}

/// The second phase: the match of the chosen kind of source is to be chosen.
#[derive(Debug)]
pub struct MatchSelect {
    /// The kind of source, as a template for the match to choose.
    pub source: Source,
}

/// A region of the terminal, in cells.
#[derive(Debug, Clone, Copy, PartialEq, Eq, Structural)]
pub struct Area {
    pub x: u16,
    pub y: u16,
    pub width: u16,
    pub height: u16,
}

/// How a live stream lays the score out.
#[derive(Debug, Clone, Copy, PartialEq, Eq, Structural)]
pub enum TickerConfiguration {
    /// One line of text with the score and the active players.
    MinimalTicker,
    /// A layout over a region of the terminal, not drawn yet.
    _RelaxedTicker(Area),
}

/// The last phase: a match is followed, fed by a poller.
#[derive(Debug)]
pub struct LiveStream {
    pub wicketick: WickeTick,
    pub configuration: TickerConfiguration,
    /// The poller that feeds this stream; it lives as long as the stream.
    pub poller: u64,
}

/// The phase the interface is in.
#[derive(Debug)]
pub enum TickerPhase {
    SourceSelect(SourceSelect),
    MatchSelect(MatchSelect),
    LiveStream(LiveStream),
}

/// The state of the interface: its phase, the poll interval of the tickers
/// it builds, and the identifier that the next poller gets.
#[derive(Debug)]
pub struct TickerState {
    pub phase: TickerPhase,
    /// Seconds between two polls of a ticker built here; thirty when absent.
    pub poll_interval: Option<u64>,
    pub next_poller: u64,
}

/// What the loop that runs the interface does after a transition, in this
/// order: cancel a poller, start a poller, refresh by hand, close.
#[derive(Debug, Clone, Copy, PartialEq, Eq, Structural)]
pub struct HandleInputResponse {
    /// The interface ends.
    pub should_close: bool,
    /// The poller to cancel, before anything else is done.
    pub cancel: Option<u64>,
    /// The poller to start for the live stream of the new phase.
    pub spawn: Option<u64>,
    /// The ticker of the live stream is to be refreshed by hand.
    pub refresh: bool,
}

/// The colours of a drawn phase.
#[derive(Debug, Clone, Copy, PartialEq, Eq, Structural)]
pub enum Palette {
    WhiteOnGreen,
    WhiteOnBlack,
    WhiteOnBlue,
}

/// The text of a phase and how to colour it.
#[derive(Debug)]
pub struct RenderedText {
    pub text: String,
    pub palette: Palette,
}

/// The match that match selection offers for the remote source.
pub open spec fn default_match_id() -> Seq<char> {
    "1442214"@
}

/// The pollers that a phase owns: the one of a live stream, else none.
pub open spec fn owned_pollers(p: TickerPhase) -> Set<u64> {
    match p {
        TickerPhase::LiveStream(ls) => set![ls.poller],
        _ => Set::empty(),
    }
}

/// The poller of a phase, if it is a live stream.
pub open spec fn poller_of(p: TickerPhase) -> Option<u64> {
    match p {
        TickerPhase::LiveStream(ls) => Some(ls.poller),
        _ => None,
    }
}

/// The pollers running once the loop has carried out `r`, when `running`
/// ran before: the cancelled one stops, then the started one runs.
pub open spec fn running_after(running: Set<u64>, r: HandleInputResponse) -> Set<u64> {
    let kept = match r.cancel {
        Some(id) => running.remove(id),
        None => running,
    };
    match r.spawn {
        Some(id) => kept.insert(id),
        None => kept,
    }
}

/// The identifier after `n`.
pub open spec fn next_id(n: u64) -> u64 {
    if n < u64::MAX {
        (n + 1) as u64
    } else {
        0
    }
}

/// A response that asks for nothing.
pub open spec fn is_quiet(r: HandleInputResponse) -> bool {
    r == (HandleInputResponse { should_close: false, cancel: None, spawn: None, refresh: false })
}

/// Whether the match selection with template `template` can choose a match.
pub open spec fn is_selectable(template: Source) -> bool {
    !(template is _SomeApi)
}

/// Whether `chosen` is the match that selection chooses from `template`: the
/// template itself where it names its data, else the offered match.
pub open spec fn is_selection_of(chosen: Source, template: Source) -> bool {
    match template {
        Source::Cricinfo { match_id: None } => chosen matches Source::Cricinfo {
            match_id: Some(id),
        } && id@ == default_match_id(),
        Source::_SomeApi { .. } => false,
        _ => chosen == template,
    }
}

/// Whether a state is sound: a live stream follows a source with concrete
/// data to fetch.
pub open spec fn is_sound(s: TickerState) -> bool {
    match s.phase {
        TickerPhase::LiveStream(ls) => has_target(ls.wicketick.source),
        _ => true,
    }
}

/// Whether `new` and `r` come from `old` by entering a live stream on
/// `source`: a fresh ticker, a fresh poller, and the poller of `old`, if any,
/// cancelled first.
pub open spec fn is_live_entry(
    old: TickerState,
    source: Source,
    new: TickerState,
    r: HandleInputResponse,
) -> bool {
    &&& new.phase matches TickerPhase::LiveStream(ls) && is_fresh_ticker(
        ls.wicketick,
        source,
        interval_or_default(old.poll_interval),
    ) && ls.configuration == TickerConfiguration::MinimalTicker && ls.poller == old.next_poller
    &&& new.poll_interval == old.poll_interval
    &&& new.next_poller == next_id(old.next_poller)
    &&& r == (HandleInputResponse {
        should_close: false,
        cancel: poller_of(old.phase),
        spawn: Some(old.next_poller),
        refresh: false,
    })
}

/// The transition on one key press, `None` standing for no key this tick.
/// `q` closes from any phase and cancels the poller of a live stream; `1`
/// moves from source selection to match selection, and from match selection
/// into a live stream; `r` asks a live stream for a manual refresh. Any other
/// key leaves everything as it is.
pub open spec fn input_step(
    old: TickerState,
    key: Option<char>,
    new: TickerState,
    r: HandleInputResponse,
) -> bool {
    if key == Some('q') {
        &&& new == old
        &&& r == (HandleInputResponse {
            should_close: true,
            cancel: poller_of(old.phase),
            spawn: None,
            refresh: false,
        })
    } else {
        match old.phase {
            TickerPhase::SourceSelect(_) => if key == Some('1') {
                &&& new == (TickerState {
                    phase: TickerPhase::MatchSelect(
                        MatchSelect { source: Source::Cricinfo { match_id: None } },
                    ),
                    ..old
                })
                &&& is_quiet(r)
            } else {
                new == old && is_quiet(r)
            },
            TickerPhase::MatchSelect(m) => if key == Some('1') && is_selectable(m.source) {
                new.phase matches TickerPhase::LiveStream(ls) && is_selection_of(
                    ls.wicketick.source,
                    m.source,
                ) && is_live_entry(old, ls.wicketick.source, new, r)
            } else {
                new == old && is_quiet(r)
            },
            TickerPhase::LiveStream(_) => if key == Some('r') {
                &&& new == old
                &&& r == (HandleInputResponse {
                    should_close: false,
                    cancel: None,
                    spawn: None,
                    refresh: true,
                })
            } else {
                new == old && is_quiet(r)
            },
        }
    }
}

/// Each transition keeps the pollers that run in step with the phase: once
/// the loop has carried out the response, the pollers running are exactly the
/// one the new phase owns, or none when the interface closes; and a phase
/// owns one poller at most.
pub proof fn lemma_one_poller_at_a_time(
    old: TickerState,
    key: Option<char>,
    new: TickerState,
    r: HandleInputResponse,
)
    requires
        input_step(old, key, new, r),
    ensures
        running_after(owned_pollers(old.phase), r) == (if r.should_close {
            Set::<u64>::empty()
        } else {
            owned_pollers(new.phase)
        }),
        owned_pollers(new.phase).len() <= 1,
{
    lemma_owned_pollers_len(new.phase);
    if key == Some('q') {
        assert(running_after(owned_pollers(old.phase), r) =~= Set::<u64>::empty());
    } else {
        assert(running_after(owned_pollers(old.phase), r) =~= owned_pollers(new.phase));
    }
}

proof fn lemma_owned_pollers_len(p: TickerPhase)
    ensures
        owned_pollers(p).len() == (if p is LiveStream {
            1nat
        } else {
            0nat
        }),
{
    if let TickerPhase::LiveStream(ls) = p {
        assert(owned_pollers(p) == Set::<u64>::empty().insert(ls.poller));
    }
}

/// From source selection, the select-source key leads to match selection and
/// starts nothing.
pub proof fn lemma_source_select_advances(old: TickerState, new: TickerState, r: HandleInputResponse)
    requires
        old.phase is SourceSelect,
        input_step(old, Some('1'), new, r),
    ensures
        new.phase is MatchSelect,
        is_quiet(r),
{
}

/// From match selection with a concrete match supplied, the select-match key
/// leads to a live stream of a fresh ticker on that match, with the state's
/// poll interval, and starts exactly one poller: the one the stream owns.
pub proof fn lemma_match_select_starts_one_poller(
    old: TickerState,
    new: TickerState,
    r: HandleInputResponse,
)
    requires
        old.phase matches TickerPhase::MatchSelect(m) && has_target(m.source),
        input_step(old, Some('1'), new, r),
    ensures
        new.phase matches TickerPhase::LiveStream(ls) && old.phase matches TickerPhase::MatchSelect(
            m,
        ) && is_fresh_ticker(ls.wicketick, m.source, interval_or_default(old.poll_interval))
            && ls.poller == old.next_poller,
        r == (HandleInputResponse {
            should_close: false,
            cancel: None,
            spawn: Some(old.next_poller),
            refresh: false,
        }),
        running_after(Set::<u64>::empty(), r) == owned_pollers(new.phase),
        owned_pollers(new.phase).len() == 1,
{
    lemma_owned_pollers_len(new.phase);
    assert(running_after(Set::<u64>::empty(), r) =~= owned_pollers(new.phase));
}

/// From match selection on the remote scoreboard with no match supplied, the
/// select-match key follows the offered match, and starts exactly one poller.
pub proof fn lemma_match_select_offers_default_match(
    old: TickerState,
    new: TickerState,
    r: HandleInputResponse,
)
    requires
        old.phase matches TickerPhase::MatchSelect(m) && m.source matches Source::Cricinfo {
            match_id: None,
        },
        input_step(old, Some('1'), new, r),
    ensures
        new.phase matches TickerPhase::LiveStream(ls) && ls.wicketick.source matches Source::Cricinfo {
            match_id: Some(id),
        } && id@ == default_match_id() && is_fresh_ticker(
            ls.wicketick,
            ls.wicketick.source,
            interval_or_default(old.poll_interval),
        ),
        r.spawn == Some(old.next_poller),
        r.cancel is None,
        !r.should_close,
        running_after(Set::<u64>::empty(), r) == owned_pollers(new.phase),
        owned_pollers(new.phase).len() == 1,
{
    lemma_owned_pollers_len(new.phase);
    assert(running_after(Set::<u64>::empty(), r) =~= owned_pollers(new.phase));
}

/// Quitting a live stream cancels its poller, and no poller runs after.
pub proof fn lemma_quit_cancels_poller(old: TickerState, new: TickerState, r: HandleInputResponse)
    requires
        old.phase is LiveStream,
        input_step(old, Some('q'), new, r),
    ensures
        r.should_close,
        r.cancel == poller_of(old.phase),
        r.cancel is Some,
        r.spawn is None,
        running_after(owned_pollers(old.phase), r) == Set::<u64>::empty(),
{
    assert(running_after(owned_pollers(old.phase), r) =~= Set::<u64>::empty());
}

/// Choosing a new match while a live stream runs cancels the poller of that
/// stream before the new one starts: exactly one poller runs after, the new
/// stream's.
pub proof fn lemma_reselection_cancels_previous(
    old: TickerState,
    source: Source,
    new: TickerState,
    r: HandleInputResponse,
)
    requires
        old.phase is LiveStream,
        is_live_entry(old, source, new, r),
    ensures
        r.cancel == poller_of(old.phase),
        r.cancel is Some,
        running_after(owned_pollers(old.phase), r) == owned_pollers(new.phase),
        owned_pollers(new.phase).len() == 1,
{
    lemma_owned_pollers_len(new.phase);
    assert(running_after(owned_pollers(old.phase), r) =~= owned_pollers(new.phase));
}

/// The refresh key in a live stream asks for a manual refresh and starts or
/// cancels no poller: the same pollers run after.
pub proof fn lemma_manual_refresh_spawns_nothing(
    old: TickerState,
    new: TickerState,
    r: HandleInputResponse,
)
    requires
        old.phase is LiveStream,
        input_step(old, Some('r'), new, r),
    ensures
        r.refresh,
        r.spawn is None,
        r.cancel is None,
        new == old,
        running_after(owned_pollers(old.phase), r) == owned_pollers(new.phase),
{
}

/// The colours of source and match selection.
pub open spec fn selection_palette() -> Palette {
    Palette::WhiteOnGreen
}

/// The text of source selection.
pub open spec fn source_select_text() -> Seq<char> {
    "1. CricInfo\n"@
}

/// The text of match selection from `template`.
pub open spec fn match_select_text(template: Source) -> Seq<char> {
    match template {
        Source::Cricinfo { .. } => "1. pakistan-vs-bangladesh-2nd-test-1442214"@,
        Source::LocalCricinfo { filename } => "1. "@ + filename@,
        Source::_SomeApi { .. } => "Match select not implemented for "@ + source_label(template),
    }
}

/// The text of a live stream: the score, the batters and the bowlers once a
/// snapshot has arrived, a placeholder before.
pub open spec fn live_text(ls: LiveStream) -> Seq<char> {
    match ls.configuration {
        TickerConfiguration::MinimalTicker => match ls.wicketick.summary {
            Some(s) => summary_text(s) + "          "@ + pair_text(
                batter_slot_text(s.active_players.batter_one),
                batter_slot_text(s.active_players.batter_two),
            ) + "     "@ + pair_text(
                bowler_slot_text(s.active_players.bowler_one),
                bowler_slot_text(s.active_players.bowler_two),
            ),
            None => "Loading..."@,
        },
        TickerConfiguration::_RelaxedTicker(_) => "Relaxed ticker not implemented"@,
    }
}

/// The colours of a live stream.
pub open spec fn live_palette(ls: LiveStream) -> Palette {
    match ls.configuration {
        TickerConfiguration::MinimalTicker => Palette::WhiteOnBlack,
        TickerConfiguration::_RelaxedTicker(_) => Palette::WhiteOnBlue,
    }
}

/// The text of a phase.
pub open spec fn phase_text(p: TickerPhase) -> Seq<char> {
    match p {
        TickerPhase::SourceSelect(_) => source_select_text(),
        TickerPhase::MatchSelect(m) => match_select_text(m.source),
        TickerPhase::LiveStream(ls) => live_text(ls),
    }
}

/// The colours of a phase.
pub open spec fn phase_palette(p: TickerPhase) -> Palette {
    match p {
        TickerPhase::LiveStream(ls) => live_palette(ls),
        _ => selection_palette(),
    }
}

/// A live stream once the snapshot `pending`, if any, is merged into its
/// ticker: the snapshot replaces the ticker's one.
pub open spec fn merged(ls: LiveStream, pending: Option<SimpleSummary>) -> LiveStream {
    match pending {
        Some(s) => LiveStream { wicketick: WickeTick { summary: Some(s), ..ls.wicketick }, ..ls },
        None => ls,
    }
}

impl SourceSelect {
    /// Source selection.
    pub fn new() -> (r: Self) {
        SourceSelect {  }
    }

    /// The list of sources to choose from.
    pub fn draw(&self) -> (r: RenderedText)
        ensures
            r.text@ == source_select_text(),
            r.palette == selection_palette(),
    {
        RenderedText { text: String::from_str("1. CricInfo\n"), palette: Palette::WhiteOnGreen }
    }
}

impl MatchSelect {
    /// Match selection from the template `source`.
    pub fn new(source: Source) -> (r: Self)
        ensures
            r.source == source,
    {
        Self { source }
    }

    /// The list of matches to choose from.
    pub fn draw(&self) -> (r: RenderedText)
        ensures
            r.text@ == match_select_text(self.source),
            r.palette == selection_palette(),
    {
        let text = match &self.source {
            Source::Cricinfo { .. } => String::from_str("1. pakistan-vs-bangladesh-2nd-test-1442214"),
            Source::LocalCricinfo { filename } => {
                let mut text = String::from_str("1. ");
                text.append(filename.as_str());
                text
            },
            Source::_SomeApi { .. } => {
                let mut text = String::from_str("Match select not implemented for ");
                text.append(self.source.display().as_str());
                text
            },
        };
        RenderedText { text, palette: Palette::WhiteOnGreen }
    }
}

impl LiveStream {
    /// A live stream of `wicketick`, fed by the poller `poller`, laid out on
    /// one line.
    pub fn new(wicketick: WickeTick, poller: u64) -> (r: Self)
        ensures
            r.wicketick == wicketick,
            r.configuration == TickerConfiguration::MinimalTicker,
            r.poller == poller,
    {
        LiveStream { wicketick, configuration: TickerConfiguration::MinimalTicker, poller }
    }

    /// Reads the update slot, and merges the snapshot found there, if any,
    /// into the ticker.
    pub fn consume_update(&mut self, slot: &mut UpdateSlot)
        ensures
            *final(self) == merged(*old(self), old(slot)@),
            final(slot)@ == after_take(old(slot)@).1,
    {
        if let Some(summary) = slot.take() {
            self.wicketick.summary = Some(summary);
        }
    }

    /// The score on one line, or a placeholder until the first snapshot.
    pub fn draw(&self) -> (r: RenderedText)
        ensures
            r.text@ == live_text(*self),
            r.palette == live_palette(*self),
    {
        match self.configuration {
            TickerConfiguration::MinimalTicker => {
                let text = match &self.wicketick.summary {
                    Some(summary) => {
                        let mut text = summary.display();
                        text.append("          ");
                        text.append(summary.active_players.display_batters().as_str());
                        text.append("     ");
                        text.append(summary.active_players.display_bowlers().as_str());
                        text
                    },
                    None => String::from_str("Loading..."),
                };
                RenderedText { text, palette: Palette::WhiteOnBlack }
            },
            TickerConfiguration::_RelaxedTicker(_) => RenderedText {
                text: String::from_str("Relaxed ticker not implemented"),
                palette: Palette::WhiteOnBlue,
            },
        }
    }
}

/// The sources that the command line can name.
#[derive(Debug, Clone)]
pub enum CliSources {
    /// The remote scoreboard, with the match to follow if it is known.
    Cricinfo { match_id: Option<String> },
    /// A snapshot kept in a local file.
    LocalCricinfo { filename: String },
}

/// The state before anything is chosen, building tickers that poll every
/// `interval` seconds.
pub open spec fn start_state(interval: u64) -> TickerState {
    TickerState {
        phase: TickerPhase::SourceSelect(SourceSelect {  }),
        poll_interval: Some(interval),
        next_poller: 0,
    }
}

/// The message of the error for a local file that does not exist.
pub open spec fn missing_file_message() -> Seq<char> {
    "file does not exist"@
}

fn enter_live(poll_interval: Option<u64>, next_poller: u64, cancel: Option<u64>, source: Source) -> (r: (
    TickerState,
    HandleInputResponse,
))
    ensures
        r.0.phase matches TickerPhase::LiveStream(ls) && is_fresh_ticker(
            ls.wicketick,
            source,
            interval_or_default(poll_interval),
        ) && ls.configuration == TickerConfiguration::MinimalTicker && ls.poller == next_poller,
        r.0.poll_interval == poll_interval,
        r.0.next_poller == next_id(next_poller),
        r.1 == (HandleInputResponse {
            should_close: false,
            cancel,
            spawn: Some(next_poller),
            refresh: false,
        }),
{
    let wicketick = WickeTick::new(source, poll_interval);
    let next = if next_poller < u64::MAX {
        next_poller + 1
    } else {
        0
    };
    (
        TickerState {
            phase: TickerPhase::LiveStream(LiveStream::new(wicketick, next_poller)),
            poll_interval,
            next_poller: next,
        },
        HandleInputResponse { should_close: false, cancel, spawn: Some(next_poller), refresh: false },
    )
}

impl TickerState {
    /// Source selection, building tickers that poll every `poll_interval`
    /// seconds, thirty when absent.
    pub fn new(poll_interval: Option<u64>) -> (r: Self)
        ensures
            r.phase is SourceSelect,
            r.poll_interval == poll_interval,
            r.next_poller == 0,
    {
        TickerState { phase: TickerPhase::SourceSelect(SourceSelect::new()), poll_interval, next_poller: 0 }
    }

    /// The poller that the current phase owns, if it is a live stream.
    pub fn poller(&self) -> (r: Option<u64>)
        ensures
            r == poller_of(self.phase),
    {
        match &self.phase {
            TickerPhase::LiveStream(ls) => Some(ls.poller),
            _ => None,
        }
    }

    /// Enters a live stream of `source` from any phase, a live stream
    /// included: the poller of the phase left, if any, is to be cancelled,
    /// and a fresh one started for the new stream.
    pub fn select(self, source: Source) -> (r: (TickerState, HandleInputResponse))
        requires
            has_target(source),
        ensures
            is_live_entry(self, source, r.0, r.1),
            is_sound(r.0),
    {
        let cancel = self.poller();
        enter_live(self.poll_interval, self.next_poller, cancel, source)
    }

    /// Handles one key press, `None` standing for no key this tick.
    pub fn handle_input(self, key: Option<char>) -> (r: (TickerState, HandleInputResponse))
        ensures
            input_step(self, key, r.0, r.1),
            is_sound(self) ==> is_sound(r.0),
    {
        let quiet = HandleInputResponse {
            should_close: false,
            cancel: None,
            spawn: None,
            refresh: false,
        };
        match key {
            Some('q') => {
                let cancel = self.poller();
                (self, HandleInputResponse { should_close: true, cancel, spawn: None, refresh: false })
            },
            Some('1') => {
                let poll_interval = self.poll_interval;
                let next_poller = self.next_poller;
                match self.phase {
                    TickerPhase::SourceSelect(_) => (
                        TickerState {
                            phase: TickerPhase::MatchSelect(
                                MatchSelect::new(Source::Cricinfo { match_id: None }),
                            ),
                            poll_interval,
                            next_poller,
                        },
                        quiet,
                    ),
                    TickerPhase::MatchSelect(m) => {
                        let chosen = match m.source {
                            Source::Cricinfo { match_id: None } => Source::Cricinfo {
                                match_id: Some(String::from_str("1442214")),
                            },
                            Source::_SomeApi { base_url, api_token } => {
                                let phase = TickerPhase::MatchSelect(
                                    MatchSelect { source: Source::_SomeApi { base_url, api_token } },
                                );
                                return (TickerState { phase, poll_interval, next_poller }, quiet);
                            },
                            other => other,
                        };
                        enter_live(poll_interval, next_poller, None, chosen)
                    },
                    TickerPhase::LiveStream(ls) => (
                        TickerState { phase: TickerPhase::LiveStream(ls), poll_interval, next_poller },
                        quiet,
                    ),
                }
            },
            Some('r') => {
                let refresh = match &self.phase {
                    TickerPhase::LiveStream(_) => true,
                    _ => false,
                };
                if refresh {
                    (self, HandleInputResponse { should_close: false, cancel: None, spawn: None, refresh: true })
                } else {
                    (self, quiet)
                }
            },
            _ => (self, quiet),
        }
    }

    /// Merges the waiting snapshot, if any, into the ticker of a live stream;
    /// the other phases have nothing to merge and leave the slot alone.
    pub fn update(&mut self, slot: &mut UpdateSlot)
        ensures
            match old(self).phase {
                TickerPhase::LiveStream(ls) => {
                    &&& *final(self) == (TickerState {
                        phase: TickerPhase::LiveStream(merged(ls, old(slot)@)),
                        ..*old(self)
                    })
                    &&& final(slot)@ == after_take(old(slot)@).1
                },
                _ => *final(self) == *old(self) && *final(slot) == *old(slot),
            },
    {
        match &mut self.phase {
            TickerPhase::LiveStream(ls) => ls.consume_update(slot),
            _ => {},
        }
    }

    /// The text of the current phase; nothing is fetched.
    pub fn draw(&self) -> (r: RenderedText)
        ensures
            r.text@ == phase_text(self.phase),
            r.palette == phase_palette(self.phase),
    {
        match &self.phase {
            TickerPhase::SourceSelect(p) => p.draw(),
            TickerPhase::MatchSelect(p) => p.draw(),
            TickerPhase::LiveStream(p) => p.draw(),
        }
    }
}

/// The state to start from, with what the command line names: source
/// selection when it names no source, match selection when it names the
/// remote scoreboard without a match, else a live stream of what it names,
/// with its poller to start. A local file that does not exist is an error.
pub fn phase_from_args(source: Option<CliSources>, time_interval: u64, file_exists: bool) -> (r:
    Result<(TickerState, HandleInputResponse), Error>)
    ensures
        match source {
            None => r matches Ok((s, resp)) && s == start_state(time_interval) && is_quiet(resp),
            Some(CliSources::Cricinfo { match_id: None }) => r matches Ok((s, resp)) && s == (
            TickerState {
                phase: TickerPhase::MatchSelect(
                    MatchSelect { source: Source::Cricinfo { match_id: None } },
                ),
                ..start_state(time_interval)
            }) && is_quiet(resp),
            Some(CliSources::Cricinfo { match_id: Some(id) }) => r matches Ok((s, resp))
                && is_live_entry(
                start_state(time_interval),
                Source::Cricinfo { match_id: Some(id) },
                s,
                resp,
            ),
            Some(CliSources::LocalCricinfo { filename }) => if file_exists {
                r matches Ok((s, resp)) && is_live_entry(
                    start_state(time_interval),
                    Source::LocalCricinfo { filename },
                    s,
                    resp,
                )
            } else {
                r matches Err(e) && is_todo(e, missing_file_message())
            },
        },
        r matches Ok((s, _)) ==> is_sound(s),
{
    let start = TickerState::new(Some(time_interval));
    let quiet = HandleInputResponse { should_close: false, cancel: None, spawn: None, refresh: false };
    match source {
        None => Ok((start, quiet)),
        Some(CliSources::Cricinfo { match_id: None }) => Ok((
            TickerState {
                phase: TickerPhase::MatchSelect(
                    MatchSelect::new(Source::Cricinfo { match_id: None }),
                ),
                poll_interval: Some(time_interval),
                next_poller: 0,
            },
            quiet,
        )),
        Some(CliSources::Cricinfo { match_id: Some(id) }) => Ok(
            start.select(Source::Cricinfo { match_id: Some(id) }),
        ),
        Some(CliSources::LocalCricinfo { filename }) => {
            if file_exists {
                Ok(start.select(Source::LocalCricinfo { filename }))
            } else {
                Err(Error::Todo(String::from_str("file does not exist")))
            }
        },
    }
}

} // verus!
