use xivloader::login::{extract_sid, extract_stored, landing_url, login_form_body, submission_url};

#[test]
fn stored_value_from_landing_page() {
    let page = "<html>\n\t<input type=\"hidden\" name=\"_STORED_\" value=\"abc123\">\n</html>";
    assert_eq!(extract_stored(page).as_deref(), Some("abc123"));
    assert_eq!(
        extract_stored("<input name=\"_STORED_\" value=\"abc123\">").as_deref(),
        Some("abc123")
    );
}

#[test]
fn stored_value_takes_first_occurrence() {
    let page = "<input name=\"_STORED_\" value=\"one\">\n<input name=\"_STORED_\" value=\"two\">";
    assert_eq!(extract_stored(page).as_deref(), Some("one"));
}

#[test]
fn stored_value_needs_one_line() {
    let page = "<input\nname=\"_STORED_\" value=\"abc\">";
    assert_eq!(extract_stored(page), None);
}

#[test]
fn stored_value_may_be_empty_but_must_be_closed() {
    assert_eq!(extract_stored("<input name=\"_STORED_\" value=\"\">").as_deref(), Some(""));
    assert_eq!(extract_stored("<input name=\"_STORED_\" value=\"abc"), None);
    assert_eq!(extract_stored("<input name=\"_STORED_\" value=\"a\nb\">").as_deref(), Some("a\nb"));
}

#[test]
fn session_id_from_reply() {
    let reply = "window.external.user(\"login=auth,ok,sid,XYZ-TOKEN,terms,1,region,3\");";
    assert_eq!(extract_sid(reply).as_deref(), Some("XYZ-TOKEN"));
    assert_eq!(extract_sid("...sid,XYZ-TOKEN,terms...").as_deref(), Some("XYZ-TOKEN"));
}

#[test]
fn session_id_runs_to_last_terms_on_line() {
    assert_eq!(extract_sid("sid,a,terms,b,terms").as_deref(), Some("a,terms,b"));
    assert_eq!(extract_sid("sid,a,terms\n,terms").as_deref(), Some("a"));
    assert_eq!(extract_sid("sid,,terms").as_deref(), Some(""));
    assert_eq!(extract_sid("sid,terms"), None);
}

#[test]
fn neither_pattern_fails_both() {
    let body = "<html>nothing to see</html>";
    assert_eq!(extract_stored(body), None);
    assert_eq!(extract_sid(body), None);
    assert_eq!(extract_stored(""), None);
    assert_eq!(extract_sid(""), None);
}

#[test]
fn login_addresses() {
    assert_eq!(
        landing_url(false),
        "https://ffxiv-login.square-enix.com/oauth/ffxivarr/login/top?lng=en&rgn=3&isft=0&issteam=0"
    );
    assert_eq!(
        landing_url(true),
        "https://ffxiv-login.square-enix.com/oauth/ffxivarr/login/top?lng=en&rgn=3&isft=0&issteam=1"
    );
    assert_eq!(
        submission_url(),
        "https://ffxiv-login.square-enix.com/oauth/ffxivarr/login/login.send"
    );
}

#[test]
fn login_form_is_url_encoded() {
    assert_eq!(
        login_form_body("abc123", "user", "p@ss word", &None),
        "_STORED_=abc123&sqexid=user&password=p%40ss+word&otppw="
    );
    assert_eq!(
        login_form_body("x/y", "me", "pw", &Some("123456".to_string())),
        "_STORED_=x%2Fy&sqexid=me&password=pw&otppw=123456"
    );
}
