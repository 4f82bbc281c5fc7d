use xivloader::download::{Download, DownloadError, DownloadStep, FetchReply, MAX_REDIRECTS};

fn redirect(to: &str) -> FetchReply {
    FetchReply::Status {
        code: 302,
        reason: "Found".to_string(),
        location: Some(Ok(to.to_string())),
    }
}

fn ok() -> FetchReply {
    FetchReply::Status { code: 200, reason: "OK".to_string(), location: None }
}

#[test]
fn redirects_below_bound_then_success_completes() {
    let (mut d, first) = Download::start("https://cdn/a.zip".to_string());
    assert!(matches!(first, DownloadStep::Fetch(ref u) if u == "https://cdn/a.zip"));
    for n in 0..(MAX_REDIRECTS - 1) {
        match d.next(redirect(&format!("https://cdn/hop{}", n))) {
            DownloadStep::Fetch(u) => assert_eq!(u, format!("https://cdn/hop{}", n)),
            _ => panic!("redirect {} was not followed", n),
        }
    }
    assert_eq!(d.redirects, MAX_REDIRECTS - 1);
    assert!(matches!(d.next(ok()), DownloadStep::Save));
}

#[test]
fn redirects_at_bound_fail() {
    let (mut d, _) = Download::start("https://cdn/a.zip".to_string());
    let mut last = None;
    for n in 0..MAX_REDIRECTS {
        last = Some(d.next(redirect(&format!("https://cdn/hop{}", n))));
        if n + 1 < MAX_REDIRECTS {
            assert!(matches!(last, Some(DownloadStep::Fetch(_))));
        }
    }
    match last {
        Some(DownloadStep::Failed(e)) => {
            assert!(matches!(e, DownloadError::TooManyRedirects(ref u) if u == "https://cdn/a.zip"));
            assert_eq!(e.message(), "Too many redirects while downloading from https://cdn/a.zip");
        }
        _ => panic!("expected too many redirects"),
    }
}

#[test]
fn rejection_fails_without_using_a_retry() {
    let (mut d, _) = Download::start("https://cdn/a.zip".to_string());
    d.next(redirect("https://cdn/b.zip"));
    let step = d.next(FetchReply::Status {
        code: 404,
        reason: "Not Found".to_string(),
        location: None,
    });
    assert_eq!(d.redirects, 1);
    match step {
        DownloadStep::Failed(e) => assert_eq!(e.message(), "Download failed with status: 404 Not Found"),
        _ => panic!("expected a failure"),
    }
}

#[test]
fn redirect_without_location_is_a_bad_status() {
    let (mut d, _) = Download::start("u".to_string());
    let step = d.next(FetchReply::Status { code: 301, reason: "Moved Permanently".to_string(), location: None });
    assert_eq!(d.redirects, 0);
    match step {
        DownloadStep::Failed(e) => assert_eq!(e.message(), "Download failed with status: 301 Moved Permanently"),
        _ => panic!("expected a failure"),
    }
}

#[test]
fn transport_and_location_errors() {
    let (mut d, _) = Download::start("u".to_string());
    match d.next(FetchReply::TransportFailed("timed out".to_string())) {
        DownloadStep::Failed(e) => assert_eq!(e.message(), "Failed to download file: timed out"),
        _ => panic!("expected a failure"),
    }
    let (mut d, _) = Download::start("u".to_string());
    match d.next(FetchReply::Status { code: 302, reason: "Found".to_string(), location: Some(Err("bad".to_string())) }) {
        DownloadStep::Failed(e) => assert_eq!(e.message(), "Invalid redirect URL: bad"),
        _ => panic!("expected a failure"),
    }
}
