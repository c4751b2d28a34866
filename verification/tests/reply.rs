use yahoo_finance::yahoo::reply::{body_text, check_status, decoded, received};
use yahoo_finance::YahooError;

fn no_reply() -> reqwest::Error {
    reqwest::Client::new().get("no address").build().unwrap_err()
}

fn no_json() -> serde_json::Error {
    serde_json::from_str::<u8>("{").unwrap_err()
}

#[test]
fn a_status_of_the_two_hundreds_passes() {
    for status in [200, 201, 204, 299] {
        assert!(check_status("https://a/", status).is_ok());
        assert_eq!(received("https://a/", Ok((status, "reply"))).unwrap(), "reply");
    }
}

#[test]
fn any_other_status_fails_the_call() {
    for status in [0, 100, 199, 300, 301, 404, 500, 503, u16::MAX] {
        match check_status("https://a/b?c=d", status) {
            Err(YahooError::CallFailed { url, status: reported }) => {
                assert_eq!(url, "https://a/b?c=d");
                assert_eq!(reported, status);
            }
            other => panic!("expected CallFailed, got {:?}", other),
        }
        match received("https://a/b?c=d", Ok((status, "reply"))) {
            Err(YahooError::CallFailed { url, status: reported }) => {
                assert_eq!(url, "https://a/b?c=d");
                assert_eq!(reported, status);
            }
            other => panic!("expected CallFailed, got {:?}", other),
        }
    }
}

#[test]
fn a_request_without_a_reply_has_failed() {
    let cause = no_reply().to_string();
    match received::<u8>("https://a/", Err(no_reply())) {
        Err(YahooError::RequestFailed { source }) => assert_eq!(source.to_string(), cause),
        other => panic!("expected RequestFailed, got {:?}", other),
    }
}

#[test]
fn a_body_is_handed_on_or_its_failure_reported() {
    assert_eq!(body_text("https://a/", Ok("<html>".to_string())).unwrap(), "<html>");
    let cause = no_reply().to_string();
    match body_text("https://a/", Err(no_reply())) {
        Err(YahooError::UnexpectedErrorRead { url, source }) => {
            assert_eq!(url, "https://a/");
            assert_eq!(source.to_string(), cause);
        }
        other => panic!("expected UnexpectedErrorRead, got {:?}", other),
    }
}

#[test]
fn a_value_is_handed_on_or_bad_data_reported() {
    assert_eq!(decoded(serde_json::from_str::<Vec<u8>>("[1, 2]")).unwrap(), vec![1, 2]);
    let cause = no_json().to_string();
    match decoded::<u8>(Err(no_json())) {
        Err(YahooError::BadData { source }) => assert_eq!(source.to_string(), cause),
        other => panic!("expected BadData, got {:?}", other),
    }
}
