//! The source that a ticker follows, and the ticker itself: the last snapshot
//! of that source and when it was fetched.

use vstd::prelude::*;

use crate::error::{is_todo, Error};
use crate::summary::SimpleSummary;

verus! {

/// tokio's clock reading, carried as it is: a ticker only stores it.
#[verifier::external_type_specification]
#[verifier::external_body]
pub struct ExInstant(tokio::time::Instant);

/// What `str`'s `Debug` writes for a string: the string quoted, with the
/// characters that need it escaped.
pub uninterp spec fn debug_text(s: Seq<char>) -> Seq<char>;

/// Relies on the `Debug` impl of `str`, which writes the string quoted and
/// escaped; the text depends on the string alone.
#[verifier::external_body]
fn debug_quoted(s: &str) -> (r: String)
    ensures
        r@ == debug_text(s@),
{
    format!("{:?}", s)
}

/// The poll interval, in seconds, of a ticker that was given none.
pub const DEFAULT_POLL_INTERVAL_SECS: u64 = 30;

/// Where the data of a ticker comes from.
#[derive(Debug, Clone)]
pub enum Source {
    /// A match of the remote scoreboard, by its identifier. The identifier is
    /// absent only while the match is still to be chosen.
    Cricinfo { match_id: Option<String> },
    /// A snapshot kept in a local file.
    LocalCricinfo { filename: String },
    /// A generic scoring API, not served yet.
    _SomeApi { base_url: String, api_token: String },
}

/// The data to fetch for one snapshot.
#[derive(Debug, Clone)]
pub enum FetchTarget {
    /// The remote summary of the match with this identifier.
    Remote { match_id: String },
    /// The snapshot in this local file.
    Local { filename: String },
}

/// Whether the source names concrete data to fetch.
pub open spec fn has_target(s: Source) -> bool {
    match s {
        Source::Cricinfo { match_id } => match_id is Some,
        Source::LocalCricinfo { .. } => true,
        Source::_SomeApi { .. } => false,
    }
}

/// Whether `t` is the data that the source `s` names.
pub open spec fn is_target_of(t: FetchTarget, s: Source) -> bool {
    match (t, s) {
        (FetchTarget::Remote { match_id }, Source::Cricinfo { match_id: Some(id) }) => match_id@
            == id@,
        (FetchTarget::Local { filename }, Source::LocalCricinfo { filename: f }) => filename@
            == f@,
        _ => false,
    }
}

/// The message of the error for a source whose match is still to be chosen.
pub open spec fn no_match_id_message() -> Seq<char> {
    "no match id"@
}

/// The message of the error for a source that is not served.
pub open spec fn not_implemented_message() -> Seq<char> {
    "not implemented"@
}

/// Whether `e` is the error for asking the source `s`, which names no data,
/// for data: `no match id` for a remote source whose match is still to be
/// chosen, `not implemented` for a source that is not served.
pub open spec fn is_unsupported(s: Source, e: Error) -> bool {
    match s {
        Source::Cricinfo { .. } => is_todo(e, no_match_id_message()),
        _ => is_todo(e, not_implemented_message()),
    }
}

/// The label of a source, given its identifier or file already quoted.
pub open spec fn source_label_with(s: Source, quoted: Seq<char>) -> Seq<char> {
    match s {
        Source::Cricinfo { match_id: Some(_) } => "CricInfo(match_id:Some("@ + quoted + "))"@,
        Source::Cricinfo { match_id: None } => "CricInfo(match_id:None)"@,
        Source::LocalCricinfo { .. } => "LocalCricinfo(filename:"@ + quoted + ")"@,
        Source::_SomeApi { .. } => "_SomeApi"@,
    }
}

/// The text that a source's label quotes: its identifier or its file.
pub open spec fn quoted_field(s: Source) -> Seq<char> {
    match s {
        Source::Cricinfo { match_id: Some(id) } => id@,
        Source::LocalCricinfo { filename } => filename@,
        _ => Seq::<char>::empty(),
    }
}

/// The label of a source, with its identifier or file written as `Debug`
/// writes it.
pub open spec fn source_label(s: Source) -> Seq<char> {
    source_label_with(s, debug_text(quoted_field(s)))
}

impl Source {
    /// The label of the source, as in `CricInfo(match_id:Some("1442214"))`.
    pub fn display(&self) -> (r: String)
        ensures
            r@ == source_label(*self),
    {
        let quoted = match self {
            Source::Cricinfo { match_id: Some(id) } => debug_quoted(id.as_str()),
            Source::LocalCricinfo { filename } => debug_quoted(filename.as_str()),
            _ => String::new(),
        };
        self.display_quoted(quoted.as_str())
    }

    /// The label of the source, with `quoted` standing for its identifier or
    /// file: `CricInfo(match_id:Some(<quoted>))`, `CricInfo(match_id:None)`,
    /// `LocalCricinfo(filename:<quoted>)` or `_SomeApi`.
    pub fn display_quoted(&self, quoted: &str) -> (r: String)
        ensures
            r@ == source_label_with(*self, quoted@),
    {
        match self {
            Source::Cricinfo { match_id: Some(_) } => {
                let mut text = String::from_str("CricInfo(match_id:Some(");
                text.append(quoted);
                text.append("))");
                text
            },
            Source::Cricinfo { match_id: None } => String::from_str("CricInfo(match_id:None)"),
            Source::LocalCricinfo { .. } => {
                let mut text = String::from_str("LocalCricinfo(filename:");
                text.append(quoted);
                text.append(")");
                text
            },
            Source::_SomeApi { .. } => String::from_str("_SomeApi"),
        }
    }

    /// The data to fetch from this source. A remote source whose match is
    /// still to be chosen, and a source that is not served, name none: asking
    /// them for data is an unsupported operation.
    pub fn fetch_target(&self) -> (r: Result<FetchTarget, Error>)
        ensures
            r is Ok <==> has_target(*self),
            match r {
                Ok(t) => is_target_of(t, *self),
                Err(e) => is_unsupported(*self, e),
            },
    {
        match self {
            Source::Cricinfo { match_id: Some(id) } => Ok(FetchTarget::Remote { match_id: id.clone() }),
            Source::Cricinfo { match_id: None } => Err(Error::Todo(String::from_str("no match id"))),
            Source::LocalCricinfo { filename } => Ok(FetchTarget::Local { filename: filename.clone() }),
            Source::_SomeApi { .. } => Err(Error::Todo(String::from_str("not implemented"))),
        }
    }
}

/// A ticker: the source it follows, the last snapshot fetched from it, when
/// that snapshot was fetched by hand, and how often it is polled.
#[derive(Debug, Clone)]
pub struct WickeTick {
    pub source: Source,
    pub summary: Option<SimpleSummary>,
    pub last_refresh: Option<tokio::time::Instant>,
    /// Seconds between two polls.
    pub poll_interval: Option<u64>,
}

/// The poll interval that a ticker built with `poll_interval` gets.
pub open spec fn interval_or_default(poll_interval: Option<u64>) -> u64 {
    match poll_interval {
        Some(t) => t,
        None => DEFAULT_POLL_INTERVAL_SECS,
    }
}

/// Whether `t` is a ticker that has fetched nothing yet, following `source`
/// every `interval` seconds.
pub open spec fn is_fresh_ticker(t: WickeTick, source: Source, interval: u64) -> bool {
    &&& t.source == source
    &&& t.summary is None
    &&& t.last_refresh is None
    &&& t.poll_interval == Some(interval)
}

/// The ticker after a manual refresh that fetched `summary` at `now`: the
/// snapshot is replaced and the refresh stamped with `now`, the rest is kept.
pub open spec fn is_refreshed(
    old: WickeTick,
    new: WickeTick,
    summary: SimpleSummary,
    now: tokio::time::Instant,
) -> bool {
    &&& new.source == old.source
    &&& new.summary == Some(summary)
    &&& new.last_refresh == Some(now)
    &&& new.poll_interval == old.poll_interval
}

impl WickeTick {
    /// A ticker that has fetched nothing yet; with no interval given it polls
    /// every thirty seconds.
    pub fn new(source: Source, poll_interval: Option<u64>) -> (r: Self)
        ensures
            is_fresh_ticker(r, source, interval_or_default(poll_interval)),
    {
        let poll_t = match poll_interval {
            Some(t) => t,
            None => DEFAULT_POLL_INTERVAL_SECS,
        };
        Self { source, summary: None, last_refresh: None, poll_interval: Some(poll_t) }
    }

    /// Takes in the outcome of the fetch of a manual refresh, made at `now`
    /// on the data that `refetch` names. A ticker whose source names no data
    /// cannot be refreshed: the unsupported operation is reported and the
    /// ticker left as it was. Otherwise a snapshot replaces the current one
    /// and the refresh is stamped with `now`; a failed fetch leaves the ticker
    /// as it was and its error is handed back.
    pub fn refresh(&mut self, fetched: Result<SimpleSummary, Error>, now: tokio::time::Instant) -> (r:
        Result<(), Error>)
        ensures
            if !has_target(old(self).source) {
                &&& r matches Err(e) && is_unsupported(old(self).source, e)
                &&& *final(self) == *old(self)
            } else {
                match fetched {
                    Ok(s) => r is Ok && is_refreshed(*old(self), *final(self), s, now),
                    Err(e) => r == Err::<(), Error>(e) && *final(self) == *old(self),
                }
            },
    {
        if let Err(e) = self.source.fetch_target() {
            return Err(e);
        }
        match fetched {
            Ok(summary) => {
                self.last_refresh = Some(now);
                self.summary = Some(summary);
                Ok(())
            },
            Err(e) => Err(e),
        }
    }

    /// The data to fetch for this ticker, for the poller and for a manual
    /// refresh alike. The ticker itself is left alone: the poller hands each
    /// snapshot back through the update channel.
    pub fn refetch(&self) -> (r: Result<FetchTarget, Error>)
        ensures
            r is Ok <==> has_target(self.source),
            match r {
                Ok(t) => is_target_of(t, self.source),
                Err(e) => is_unsupported(self.source, e),
            },
    {
        self.source.fetch_target()
    }
}

} // verus!
