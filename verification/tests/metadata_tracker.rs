use gensokyo_radio::metadata::{MetadataAction, MetadataTracker, REFRESH_QUEUE_CAPACITY};
use icy_metadata::error::{EmptyMetadataError, MetadataParseError};
use icy_metadata::IcyMetadata;

fn parsed(block: &str) -> Result<IcyMetadata, MetadataParseError> {
    Ok(block.parse::<IcyMetadata>().unwrap())
}

#[test]
fn refresh_queue_holds_ten() {
    assert_eq!(REFRESH_QUEUE_CAPACITY, 10);
}

#[test]
fn new_tracker_has_seen_nothing() {
    assert_eq!(MetadataTracker::new().last(), "");
}

#[test]
fn observe_reports_a_change_once() {
    let mut tracker = MetadataTracker::new();
    assert!(tracker.observe(String::from("first")));
    assert_eq!(tracker.last(), "first");
    assert!(!tracker.observe(String::from("first")));
    assert_eq!(tracker.last(), "first");
    assert!(tracker.observe(String::from("second")));
    assert_eq!(tracker.last(), "second");
    assert!(tracker.observe(String::from("first")));
}

#[test]
fn observe_of_empty_text_on_a_new_tracker_is_no_change() {
    let mut tracker = MetadataTracker::new();
    assert!(!tracker.observe(String::new()));
    assert_eq!(tracker.last(), "");
}

#[test]
fn first_metadata_asks_for_a_refresh() {
    let mut tracker = MetadataTracker::new();
    let block = parsed("StreamTitle='Artist - Song';");
    assert_eq!(tracker.on_metadata_read(&block), MetadataAction::Refresh);
    assert_eq!(tracker.last(), format!("{:?}", block.unwrap()));
    assert!(tracker.last().contains("Artist - Song"));
}

#[test]
fn parsed_metadata_never_leaves_an_empty_text() {
    for block in ["StreamTitle='';", "StreamTitle='A';", "x=y;", "StreamUrl='';StreamTitle='';"] {
        let mut tracker = MetadataTracker::new();
        assert_eq!(tracker.on_metadata_read(&parsed(block)), MetadataAction::Refresh);
        assert!(!tracker.last().is_empty());
        assert!(tracker.last().starts_with("IcyMetadata"));
    }
}

#[test]
fn repeated_metadata_is_kept() {
    let mut tracker = MetadataTracker::new();
    assert_eq!(tracker.on_metadata_read(&parsed("StreamTitle='A';")), MetadataAction::Refresh);
    assert_eq!(tracker.on_metadata_read(&parsed("StreamTitle='A';")), MetadataAction::Keep);
    assert_eq!(tracker.on_metadata_read(&parsed("StreamTitle='A';")), MetadataAction::Keep);
}

#[test]
fn new_title_asks_for_a_refresh_again() {
    let mut tracker = MetadataTracker::new();
    assert_eq!(tracker.on_metadata_read(&parsed("StreamTitle='A';")), MetadataAction::Refresh);
    assert_eq!(tracker.on_metadata_read(&parsed("StreamTitle='B';")), MetadataAction::Refresh);
    assert_eq!(tracker.on_metadata_read(&parsed("StreamTitle='B';")), MetadataAction::Keep);
    assert_eq!(
        tracker.on_metadata_read(&parsed("StreamTitle='B';StreamUrl='http://x/';")),
        MetadataAction::Refresh
    );
}

#[test]
fn failed_block_is_reported_and_changes_nothing() {
    let mut tracker = MetadataTracker::new();
    assert_eq!(tracker.on_metadata_read(&parsed("StreamTitle='A';")), MetadataAction::Refresh);
    let before = String::from(tracker.last());
    let failed = Err(MetadataParseError::Empty(EmptyMetadataError(String::from("junk"))));
    assert_eq!(tracker.on_metadata_read(&failed), MetadataAction::ReportFailure);
    assert_eq!(tracker.last(), before);
    assert_eq!(tracker.on_metadata_read(&parsed("StreamTitle='A';")), MetadataAction::Keep);
}

#[test]
fn failed_block_on_a_new_tracker() {
    let mut tracker = MetadataTracker::new();
    let failed = Err(MetadataParseError::Empty(EmptyMetadataError(String::new())));
    assert_eq!(tracker.on_metadata_read(&failed), MetadataAction::ReportFailure);
    assert_eq!(tracker.last(), "");
}
