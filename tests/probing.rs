use link_probe::dispatch::{plan_probes, Tally};
use link_probe::probe::{is_success, probe_outcome};
use link_probe::resolve::{resolve, Origin};

fn refs(v: &[&str]) -> Vec<String> {
    v.iter().map(|r| r.to_string()).collect()
}

#[test]
fn resolution_drops_the_origin_path() {
    assert_eq!(
        resolve("https://example.com/page", "/img/a.png").unwrap(),
        "https://example.com/img/a.png".to_string()
    );
}

#[test]
fn reference_without_slash_is_appended_verbatim() {
    assert_eq!(resolve("http://h.test/a/b?x=1", "c.png").unwrap(), "http://h.testc.png".to_string());
}

#[test]
fn origin_with_port_keeps_only_the_host() {
    assert_eq!(resolve("http://h.test:8080/", "/p").unwrap(), "http://h.test/p".to_string());
}

#[test]
fn unparsable_origin_is_an_error() {
    assert!(resolve("not a url", "/a.png").is_err());
    assert!(resolve("", "/a.png").is_err());
    assert!(Origin::parse("/relative/path").is_err());
}

#[test]
fn origin_without_host_is_an_error() {
    assert!(resolve("mailto:someone@example.com", "/a.png").is_err());
    assert!(Origin::parse("data:text/plain,hi").is_err());
}

#[test]
fn empty_references_are_skipped() {
    let urls = plan_probes("https://example.com/x", &refs(&["", "/a.png", ""])).unwrap();
    assert_eq!(urls, vec!["https://example.com/a.png".to_string()]);
}

#[test]
fn plan_keeps_document_order() {
    let urls = plan_probes("https://a.test", &refs(&["/x.png", "", "/y.jpg"])).unwrap();
    assert_eq!(urls, vec!["https://a.test/x.png".to_string(), "https://a.test/y.jpg".to_string()]);
    assert!(plan_probes("https://a.test", &Vec::new()).unwrap().is_empty());
}

#[test]
fn plan_fails_before_probing_on_a_bad_origin() {
    assert!(plan_probes("::", &refs(&["/x.png"])).is_err());
}

#[test]
fn success_range_is_2xx() {
    assert!(!is_success(199));
    assert!(is_success(200));
    assert!(is_success(299));
    assert!(!is_success(300));
    assert!(!is_success(404));
}

#[test]
fn successful_probe_reads_its_headers() {
    let o = probe_outcome(
        "https://a.test/x.png".to_string(),
        Some(200),
        Some("X-iinfo: 1A2B C".to_string()),
        Some("image/png".to_string()),
        1500,
    );
    assert!(o.success);
    assert_eq!(o.url, "https://a.test/x.png".to_string());
    assert_eq!(o.status, Some(200));
    assert_eq!(o.elapsed_micros, 1500);
    assert_eq!(o.content_type, Some("image/png".to_string()));
    let info = o.cache_info.unwrap();
    assert_eq!(info.req_and_resp_id, Some("1A2B".to_string()));
    assert_eq!(info.cache_status, Some("C".to_string()));
}

#[test]
fn failed_status_ignores_headers() {
    let o = probe_outcome(
        "https://a.test/x.png".to_string(),
        Some(404),
        Some("X-iinfo: 1A2B C".to_string()),
        Some("text/html".to_string()),
        10,
    );
    assert!(!o.success);
    assert!(o.cache_info.is_none());
    assert!(o.content_type.is_none());
}

#[test]
fn transport_failure_is_a_failed_outcome() {
    let o = probe_outcome("https://a.test/y".to_string(), None, None, None, 7);
    assert!(!o.success);
    assert_eq!(o.status, None);
}

#[test]
fn malformed_cache_header_is_absent() {
    let o = probe_outcome("u".to_string(), Some(204), Some("garbage".to_string()), None, 0);
    assert!(o.success);
    assert!(o.cache_info.is_none());
}

#[test]
fn every_dispatched_probe_completes_once() {
    let mut t = Tally::new(4);
    assert_eq!(t.pending(), 4);
    assert!(!t.is_done());
    for (i, status) in [Some(500), None, Some(200), Some(301)].into_iter().enumerate() {
        let o = probe_outcome(format!("u{}", i), status, None, None, 0);
        t.record(&o);
    }
    assert!(t.is_done());
    assert_eq!(t.succeeded, 1);
    assert_eq!(t.failed, 3);
    assert_eq!(t.dispatched, 4);
}

#[test]
fn empty_batch_is_done_at_once() {
    assert!(Tally::new(0).is_done());
}

#[test]
fn two_resources_served_with_200_give_two_successes() {
    let urls = plan_probes("https://a.test", &refs(&["/x.png", "", "/y.jpg"])).unwrap();
    let mut t = Tally::new(urls.len());
    for u in urls.iter().rev() {
        let o = probe_outcome(u.clone(), Some(200), None, None, 0);
        t.record(&o);
    }
    assert!(t.is_done());
    assert_eq!(t.succeeded, 2);
    assert_eq!(t.failed, 0);
}
