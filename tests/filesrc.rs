use originalbuffer::filesrc::{FileSrc, FillStep};
use originalbuffer::flow::GstFlowReturn;
use std::path::PathBuf;

#[test]
fn file_uri_sets_location() {
    let mut s = FileSrc::new();
    assert!(s.set_uri(&Some("file:///tmp/some%20file.mp4".to_string())));
    assert_eq!(s.location, Some(PathBuf::from("/tmp/some file.mp4")));
    assert_eq!(s.get_uri(), Some("file:///tmp/some%20file.mp4".to_string()));
}

#[test]
fn bad_uris_clear_location() {
    let mut s = FileSrc::new();
    assert!(s.set_uri(&Some("file:///a".to_string())));
    assert!(!s.set_uri(&Some("not a uri".to_string())));
    assert_eq!(s.location, None);
    assert!(s.set_uri(&Some("file:///a".to_string())));
    assert!(!s.set_uri(&Some("http://example.com/a".to_string())));
    assert_eq!(s.location, None);
    assert_eq!(s.get_uri(), None);
}

#[test]
fn none_clears_location() {
    let mut s = FileSrc::new();
    s.set_uri(&Some("file:///a".to_string()));
    assert!(s.set_uri(&None));
    assert_eq!(s.location, None);
}

#[test]
fn start_stop_and_positions() {
    let mut s = FileSrc::new();
    assert!(s.is_seekable());
    assert!(!s.start());
    s.set_uri(&Some("file:///a".to_string()));
    assert!(s.start());
    assert_eq!(s.fill_step(0), FillStep::Read);
    assert_eq!(s.fill_step(10), FillStep::Seek(10));
    s.seeked(10);
    assert_eq!(s.read_done(4), Ok(4));
    assert_eq!(s.position, 14);
    assert_eq!(s.fill_step(14), FillStep::Read);
    assert!(s.stop());
    assert_eq!(s.position, 0);
}

#[test]
fn read_past_end_of_offsets_is_error() {
    let mut s = FileSrc::new();
    s.seeked(u64::MAX - 1);
    assert_eq!(s.read_done(2), Err(GstFlowReturn::Error));
    assert_eq!(s.position, u64::MAX - 1);
    assert_eq!(s.read_done(1), Ok(1));
    assert_eq!(s.position, u64::MAX);
}

#[test]
fn start_stop_keep_location() {
    let mut s = FileSrc::new();
    s.set_uri(&Some("file:///data/in.bin".to_string()));
    let loc = Some(PathBuf::from("/data/in.bin"));
    s.start();
    s.seeked(3);
    let _ = s.read_done(2);
    s.stop();
    assert_eq!(s.location, loc);
}
