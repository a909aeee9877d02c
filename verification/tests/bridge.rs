use http_bridge::download::HttpReader;
use http_bridge::error::{Error, TRANSPORT_FAILURE_CODE};
use http_bridge::upload::{HttpWriter, SnitchFlag};

#[test]
fn status_failures_keep_their_code() {
    let e = Error::from_status(Some(403), String::from("http status: 403"));
    assert_eq!(e.code, 403);
    assert_eq!(e.message, "http status: 403");
}

#[test]
fn transport_failures_get_the_sentinel_code() {
    let e = Error::from_status(None, String::from("dns error"));
    assert_eq!(e.code, TRANSPORT_FAILURE_CODE);
    assert_eq!(e.code, 499);
    assert_eq!(e.message, "dns error");
}

#[test]
fn upload_begins_when_the_worker_reports_readiness() {
    let bridge = HttpWriter::new(Ok(())).expect("readiness signal must yield a bridge");
    assert!(bridge.finish(Ok(())).is_ok());
}

#[test]
fn upload_construction_fails_on_early_failure() {
    let early = Error::new(499, String::from("unresolvable host"));
    let outcome = HttpWriter::new(Err(early));
    match outcome {
        Ok(_) => panic!("an early failure must not yield a bridge"),
        Err(e) => {
            assert_eq!(e.code, 499);
            assert_eq!(e.message, "unresolvable host");
        }
    }
}

#[test]
fn finalize_surfaces_a_late_rejection() {
    let bridge = HttpWriter::new(Ok(())).expect("readiness signal must yield a bridge");
    let rejected = Error::new(403, String::from("http status: 403"));
    match bridge.finish(Err(rejected)) {
        Ok(()) => panic!("a rejected upload must surface at finalize"),
        Err(e) => {
            assert_eq!(e.code, 403);
            assert_eq!(e.message, "http status: 403");
        }
    }
}

#[test]
fn empty_upload_finalizes_cleanly() {
    // No write between construction and finalization.
    let bridge = HttpWriter::new(Ok(())).expect("readiness signal must yield a bridge");
    assert!(bridge.finish(Ok(())).is_ok());
}

#[test]
fn snitch_fires_on_first_read_only() {
    let mut flag = SnitchFlag::new();
    assert!(flag.on_read());
    assert!(!flag.on_read());
    assert!(!flag.on_read());
}

#[test]
fn download_reports_declared_length() {
    let r = HttpReader::new(200, String::new(), Some(b"42")).expect("success status");
    assert_eq!(r.len(), Some(42));
}

#[test]
fn download_without_header_reports_none() {
    let r = HttpReader::new(200, String::new(), None).expect("success status");
    assert_eq!(r.len(), None);
}

#[test]
fn download_with_malformed_header_reports_none() {
    let r = HttpReader::new(200, String::new(), Some(b"later")).expect("success status");
    assert_eq!(r.len(), None);
}

#[test]
fn download_length_is_stable_across_calls() {
    let r = HttpReader::new(206, String::new(), Some(b"7")).expect("success status");
    assert_eq!(r.len(), Some(7));
    assert_eq!(r.len(), Some(7));
}

#[test]
fn download_fails_on_non_success_status() {
    match HttpReader::new(404, String::from("http status: 404"), Some(b"42")) {
        Ok(_) => panic!("a non-success status must not yield a reader"),
        Err(e) => {
            assert_eq!(e.code, 404);
            assert_eq!(e.message, "http status: 404");
        }
    }
}

#[test]
fn download_success_range_is_the_2xx_block() {
    assert!(HttpReader::new(200, String::new(), None).is_ok());
    assert!(HttpReader::new(299, String::new(), None).is_ok());
    assert!(HttpReader::new(199, String::new(), None).is_err());
    assert!(HttpReader::new(300, String::new(), None).is_err());
}
