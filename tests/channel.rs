use wicketick::channel::UpdateSlot;
use wicketick::poller::Poller;
use wicketick::{Error, Innings, SimpleSummary, Source, WickeTick};

fn snapshot(runs: u32) -> SimpleSummary {
    let mut s = SimpleSummary::new();
    s.current_innings = Innings { runs, wickets: 0, overs: "1".to_string(), target: None };
    s
}

#[test]
fn latest_snapshot_wins() {
    let mut slot = UpdateSlot::new();
    slot.send(snapshot(1));
    slot.send(snapshot(2));
    let read = slot.take().unwrap();
    assert_eq!(read.current_innings.runs, 2);
    assert!(slot.take().is_none());
}

#[test]
fn empty_slot_reads_nothing() {
    let mut slot = UpdateSlot::new();
    assert!(slot.take().is_none());
    slot.send(snapshot(5));
    assert_eq!(slot.take().unwrap().current_innings.runs, 5);
    assert!(slot.take().is_none());
}

#[test]
fn poller_marks_each_published_snapshot() {
    let ticker = WickeTick::new(Source::Cricinfo { match_id: Some("1".to_string()) }, Some(12));
    let mut poller = Poller::new(&ticker);
    assert_eq!((poller.loop_count, poller.interval), (0, 12));
    let step = poller.step(Ok(snapshot(10)));
    assert_eq!(step.sleep, 12);
    assert!(step.failure.is_none());
    assert_eq!(step.publish.unwrap().display(), "10-0 1 (Ticks: 0)");
    let step = poller.step(Ok(snapshot(11)));
    assert_eq!(step.publish.unwrap().debug_string, "(Ticks: 1)");
    assert_eq!(poller.loop_count, 2);
}

#[test]
fn poller_reports_failures_and_carries_on() {
    let ticker = WickeTick::new(Source::Cricinfo { match_id: Some("1".to_string()) }, None);
    let mut poller = Poller::new(&ticker);
    assert_eq!(poller.interval, 30);
    let step = poller.step(Err(Error::SerdeError { message: "bad".to_string() }));
    assert!(step.publish.is_none());
    assert!(matches!(step.failure, Some(Error::SerdeError { .. })));
    assert_eq!(step.sleep, 30);
    assert_eq!(poller.loop_count, 0);
    let step = poller.step(Ok(snapshot(3)));
    assert_eq!(step.publish.unwrap().debug_string, "(Ticks: 0)");
}

#[test]
fn poller_count_stops_at_its_largest_value() {
    let mut poller = Poller { loop_count: u64::MAX, interval: 1 };
    let step = poller.step(Ok(snapshot(3)));
    assert_eq!(step.publish.unwrap().debug_string, "(Ticks: 18446744073709551615)");
    assert_eq!(poller.loop_count, u64::MAX);
}
