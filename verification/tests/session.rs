use json_fetcher::endpoints::{
    cat_api_url, dog_api_url, endpoint_url, http_bin_url, ENDPOINT_COUNT,
};
use json_fetcher::errors::FetchError;
use json_fetcher::fetch::fetch_json;
use json_fetcher::session::Session;

#[test]
fn endpoints_are_fixed() {
    assert_eq!(dog_api_url(), "https://dog.ceo/api/breeds/list/all");
    assert_eq!(cat_api_url(), "https://cat-fact.herokuapp.com/facts");
    assert_eq!(http_bin_url(), "https://httpbin.org/get");
    assert_eq!(ENDPOINT_COUNT, 3);
}

#[test]
fn endpoint_order_is_dog_cat_httpbin() {
    assert_eq!(endpoint_url(0), "https://dog.ceo/api/breeds/list/all");
    assert_eq!(endpoint_url(1), "https://cat-fact.herokuapp.com/facts");
    assert_eq!(endpoint_url(2), "https://httpbin.org/get");
}

#[test]
fn full_run_in_order() {
    let bodies = [
        "{\"message\":{\"akita\":[]},\"status\":\"success\"}",
        "[{\"text\":\"Cats purr.\"}]",
        "{\"url\":\"https://httpbin.org/get\"}",
    ];
    let mut session = Session::new();
    let mut contacted: Vec<String> = Vec::new();
    let mut step: usize = 0;
    while let Some(url) = session.pending_url() {
        contacted.push(url.to_string());
        session.record(fetch_json(Ok(bodies[step].to_string())));
        step += 1;
    }
    assert_eq!(
        contacted,
        vec![
            "https://dog.ceo/api/breeds/list/all".to_string(),
            "https://cat-fact.herokuapp.com/facts".to_string(),
            "https://httpbin.org/get".to_string(),
        ]
    );
    assert!(!session.is_failed());
    assert_eq!(session.fetched_count(), 3);
    let values = session.finish().unwrap();
    assert_eq!(values.len(), 3);
    for (value, body) in values.iter().zip(bodies.iter()) {
        let reference: serde_json::Value = serde_json::from_str(body).unwrap();
        assert_eq!(value, &reference);
    }
}

#[test]
fn dog_failure_halts_run() {
    let mut session = Session::new();
    let first = session.pending_url();
    assert_eq!(first, Some("https://dog.ceo/api/breeds/list/all"));
    session.record(fetch_json(Err("dns failure".to_string())));
    assert!(session.is_failed());
    assert_eq!(session.fetched_count(), 0);
    assert_eq!(session.pending_url(), None);
    match session.finish() {
        Ok(_) => panic!("a failed run must not yield values"),
        Err(e) => {
            assert!(e.is_transport());
            assert_eq!(e.describe(), "dns failure");
        }
    }
}

#[test]
fn mid_run_parse_failure_halts_run() {
    let mut session = Session::new();
    assert!(session.pending_url().is_some());
    session.record(fetch_json(Ok("{\"status\":\"success\"}".to_string())));
    assert_eq!(session.pending_url(), Some("https://cat-fact.herokuapp.com/facts"));
    session.record(fetch_json(Ok("<html>service down</html>".to_string())));
    assert!(session.is_failed());
    assert_eq!(session.fetched_count(), 1);
    assert_eq!(session.pending_url(), None);
    match session.finish() {
        Ok(_) => panic!("a failed run must not yield values"),
        Err(e) => assert!(e.is_parse()),
    }
}

#[test]
fn recorded_error_is_kept_as_given() {
    let mut session = Session::new();
    assert!(session.pending_url().is_some());
    session.record(Err(FetchError::Parse { message: "expected value".to_string() }));
    match session.finish() {
        Ok(_) => panic!("a failed run must not yield values"),
        Err(e) => {
            assert!(e.is_parse());
            assert_eq!(e.describe(), "expected value");
        }
    }
}
