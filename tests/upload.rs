use kybe_paste::pastebins::pastebin_com::{starts_with, PastebinCom};
use kybe_paste::pastebins::{PasteBin, Response, UploadError};

fn body(s: &str) -> Response {
    Response::Body(s.to_string())
}

#[test]
fn request_has_the_three_fields() {
    let p = PastebinCom::new("my-key");
    let r = p.upload_request("hello\nworld");
    assert_eq!(r.url, "https://pastebin.com/api/api_post.php");
    assert_eq!(
        r.form,
        vec![
            ("api_dev_key".to_string(), "my-key".to_string()),
            ("api_option".to_string(), "paste".to_string()),
            ("api_paste_code".to_string(), "hello\nworld".to_string()),
        ]
    );
}

#[test]
fn key_is_sent_verbatim() {
    let p = PastebinCom::new("  spaced key ");
    let r = p.upload_request("");
    assert_eq!(r.form[0].1, "  spaced key ");
    assert_eq!(r.form[2].1, "");
}

#[test]
fn success_body_is_the_url() {
    let p = PastebinCom::new("k");
    let r = p.upload_outcome(body("https://pastebin.com/abc123"));
    assert_eq!(r.unwrap(), "https://pastebin.com/abc123");
}

#[test]
fn bad_api_request_is_an_application_error() {
    let p = PastebinCom::new("k");
    let r = p.upload_outcome(body("Bad API request, invalid api_dev_key"));
    match r {
        Err(UploadError::Api(text)) => assert_eq!(text, "Bad API request, invalid api_dev_key"),
        other => panic!("unexpected outcome {:?}", other),
    }
}

#[test]
fn application_error_message_holds_the_text() {
    let p = PastebinCom::new("k");
    let e = p.upload_outcome(body("Bad API request, invalid api_dev_key")).unwrap_err();
    let m = e.message();
    assert!(m.contains("Bad API request, invalid api_dev_key"));
    assert_eq!(m, "pastebin error: Bad API request, invalid api_dev_key");
}

#[test]
fn transport_failures_are_distinct() {
    let p = PastebinCom::new("k");
    let sent = p.upload_outcome(Response::SendFailed("connection refused".to_string()));
    match sent {
        Err(UploadError::Send(c)) => assert_eq!(c, "connection refused"),
        other => panic!("unexpected outcome {:?}", other),
    }
    let read = p.upload_outcome(Response::ReadFailed("timed out".to_string()));
    match read {
        Err(UploadError::Read(c)) => assert_eq!(c, "timed out"),
        other => panic!("unexpected outcome {:?}", other),
    }
}

#[test]
fn transport_error_messages() {
    assert_eq!(
        UploadError::Send("refused".to_string()).message(),
        "failed to send request to pastebin: refused"
    );
    assert_eq!(
        UploadError::Read("timeout".to_string()).message(),
        "failed to read pastebin response: timeout"
    );
}

#[test]
fn other_bodies_are_returned_unchanged() {
    let p = PastebinCom::new("k");
    assert_eq!(p.upload_outcome(body("")).unwrap(), "");
    assert_eq!(p.upload_outcome(body("Bad API")).unwrap(), "Bad API");
    assert_eq!(p.upload_outcome(body(" Bad API request")).unwrap(), " Bad API request");
    assert_eq!(p.upload_outcome(body("bad api request")).unwrap(), "bad api request");
}

#[test]
fn bare_prefix_is_an_error() {
    let p = PastebinCom::new("k");
    assert!(matches!(p.upload_outcome(body("Bad API request")), Err(UploadError::Api(_))));
}

#[test]
fn prefix_check() {
    assert!(starts_with("abc", ""));
    assert!(starts_with("abc", "ab"));
    assert!(starts_with("abc", "abc"));
    assert!(!starts_with("abc", "abcd"));
    assert!(!starts_with("abc", "b"));
    assert!(starts_with("äöü-x", "äö"));
    assert!(!starts_with("", "a"));
}
