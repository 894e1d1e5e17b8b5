use peeps_core::image::FetchEvent;
use peeps_core::image::FetchStep;
use peeps_core::image::fetch_start;
use peeps_core::image::fetch_step;
use peeps_core::image::status_indicates_success;
use peeps_core::updating::update_available;

#[test]
fn status_check_bounds() {
    assert!(status_indicates_success(200));
    assert!(status_indicates_success(204));
    assert!(status_indicates_success(299));
    assert!(!status_indicates_success(199));
    assert!(!status_indicates_success(300));
    assert!(!status_indicates_success(404));
    assert!(!status_indicates_success(500));
}

#[test]
fn pipeline_disk_hit_webp_success() {
    let s = fetch_start();
    assert_eq!(s, FetchStep::ReadDisk);
    let (s, persist) = fetch_step(s, FetchEvent::DiskHit);
    assert_eq!(s, FetchStep::GuessFormat);
    assert!(!persist);
    let (s, _) = fetch_step(s, FetchEvent::FormatWebp);
    assert_eq!(s, FetchStep::DecodeWebp);
    let (s, _) = fetch_step(s, FetchEvent::DecodeOk);
    assert_eq!(s, FetchStep::Done { ok: true });
}

#[test]
fn pipeline_network_success_persists_bytes() {
    let (s, _) = fetch_step(fetch_start(), FetchEvent::DiskMiss);
    assert_eq!(s, FetchStep::Network);
    let (s, persist) = fetch_step(s, FetchEvent::NetResponse { status: 200 });
    assert_eq!(s, FetchStep::GuessFormat);
    assert!(persist);
    let (s, _) = fetch_step(s, FetchEvent::FormatOther);
    assert_eq!(s, FetchStep::DecodePrimary);
    let (s, _) = fetch_step(s, FetchEvent::DecodeOk);
    assert_eq!(s, FetchStep::Done { ok: true });
}

#[test]
fn pipeline_bad_status_fails_without_persisting() {
    let (s, _) = fetch_step(fetch_start(), FetchEvent::DiskMiss);
    let (s, persist) = fetch_step(s, FetchEvent::NetResponse { status: 404 });
    assert_eq!(s, FetchStep::Done { ok: false });
    assert!(!persist);
}

#[test]
fn pipeline_failures_end_the_job() {
    let (s, _) = fetch_step(fetch_start(), FetchEvent::DiskMiss);
    let (s, _) = fetch_step(s, FetchEvent::NetFailed);
    assert_eq!(s, FetchStep::Done { ok: false });

    let (s, _) = fetch_step(fetch_start(), FetchEvent::DiskHit);
    let (s, _) = fetch_step(s, FetchEvent::FormatUnknown);
    assert_eq!(s, FetchStep::Done { ok: false });

    let (s, _) = fetch_step(fetch_start(), FetchEvent::DiskHit);
    let (s, _) = fetch_step(s, FetchEvent::FormatWebp);
    let (s, _) = fetch_step(s, FetchEvent::DecodeFailed);
    assert_eq!(s, FetchStep::Done { ok: false });
}

#[test]
fn update_tag_against_running_version() {
    assert_eq!(update_available("v1.2.3", "1.2.3"), Some(false));
    assert_eq!(update_available("v1.2.4", "1.2.3"), Some(true));
    assert_eq!(update_available("v1.10.0", "1.2.3"), Some(true));
    assert_eq!(update_available("1.2.3", "1.2.3"), None);
    assert_eq!(update_available("", "1.2.3"), None);
    assert_eq!(update_available("v", ""), Some(false));
}

#[test]
fn default_page_is_peeps() {
    let p: peeps_core::data::Page = Default::default();
    assert_eq!(p, peeps_core::data::Page::Peeps);
}
