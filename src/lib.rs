//! A live cricket score ticker: the score model, the overs notation, the
//! phases of the terminal interface and the hand-off of fresh snapshots from a
//! background poller to the render loop.

pub mod decimal;
pub mod error;
pub mod overs;
pub mod summary;
pub mod ticker;
pub mod channel;
pub mod poller;
pub mod phase;
pub mod cricinfo;

pub use error::Error;
pub use overs::Overs;
pub use phase::{
    phase_from_args, CliSources, HandleInputResponse, LiveStream, MatchSelect, Palette,
    RenderedText, SourceSelect, TickerConfiguration, TickerPhase, TickerState,
};
pub use summary::{ActivePlayers, Batter, Bowler, Innings, SimpleSummary};
pub use ticker::{FetchTarget, Source, WickeTick, DEFAULT_POLL_INTERVAL_SECS};
