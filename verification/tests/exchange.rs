use fetch_bridge::exchange::{begin, step, Action, Event, Phase};
use fetch_bridge::request::{FetchRequest, BROWSER_USER_AGENT};
use reqwest::header::USER_AGENT;

const UA: &str = "Mozilla/5.0 (Windows NT 10.0; Win64; x64) AppleWebKit/537.36 (KHTML, like Gecko) Chrome/91.0.4472.124 Safari/537.36";

/// A failure of the client that needs no network: the URL does not parse.
fn malformed(url: &str) -> reqwest::Error {
    match reqwest::Client::new().get(url).build() {
        Ok(_) => panic!("the client took {url:?} for a URL"),
        Err(error) => error,
    }
}

/// Runs a fetch to its end on events that are already known.
fn finish(url: &str, events: Vec<Event>) -> Result<String, String> {
    let (mut phase, mut action) = begin(url.to_string());
    for event in events {
        let (p, a) = step(phase, event).expect("the fetch awaited this event");
        phase = p;
        action = a;
    }
    match action {
        Action::Return(result) => {
            assert!(phase == Phase::Resolved || phase == Phase::Failed);
            assert_eq!(phase == Phase::Resolved, result.is_ok());
            result
        }
        other => panic!("the fetch has not returned: {other:?}"),
    }
}

#[test]
fn user_agent_is_the_browsers() {
    assert_eq!(BROWSER_USER_AGENT, UA);
    assert_eq!(BROWSER_USER_AGENT.len(), 115);
}

#[test]
fn request_targets_the_url_as_given() {
    let request = FetchRequest::new("https://example.test/ok".to_string());
    assert_eq!(request.url, "https://example.test/ok");
    let odd = FetchRequest::new("  not a url ".to_string());
    assert_eq!(odd.url, "  not a url ");
}

#[test]
fn request_carries_exactly_the_user_agent() {
    let request = FetchRequest::new("https://example.test/ok".to_string());
    assert_eq!(request.headers.len(), 1);
    assert_eq!(request.headers.keys_len(), 1);
    let value = request.headers.get(USER_AGENT).expect("User-Agent is set");
    assert_eq!(value.as_bytes(), UA.as_bytes());
    assert_eq!(request.headers.get("user-agent").unwrap().to_str().unwrap(), UA);
    assert!(request.headers.get("accept").is_none());
    assert!(request.headers.get("cookie").is_none());
    assert!(request.headers.get("referer").is_none());
}

#[test]
fn request_is_accepted_by_the_client() {
    let request = FetchRequest::new("https://example.test/ok".to_string());
    let built = reqwest::Client::new()
        .get(request.url)
        .headers(request.headers)
        .build()
        .expect("a well-formed URL builds");
    assert_eq!(built.method().as_str(), "GET");
    assert_eq!(built.url().as_str(), "https://example.test/ok");
    assert_eq!(built.headers().get(USER_AGENT).unwrap().as_bytes(), UA.as_bytes());
    assert_eq!(built.headers().len(), 1);
}

#[test]
fn begin_sends_the_request_for_its_url() {
    let (phase, action) = begin("https://example.test/ok".to_string());
    assert_eq!(phase, Phase::Sending);
    assert_eq!(action, Action::Get(FetchRequest::new("https://example.test/ok".to_string())));
    match action {
        Action::Get(request) => {
            assert_eq!(request.url, "https://example.test/ok");
            assert_eq!(request.headers.get(USER_AGENT).unwrap().as_bytes(), UA.as_bytes());
        }
        other => panic!("expected a request, got {other:?}"),
    }
}

#[test]
fn response_is_followed_by_reading_the_body() {
    let stepped = step(Phase::Sending, Event::Responded { status: 200 });
    assert_eq!(stepped, Some((Phase::Reading, Action::ReadBody)));
}

#[test]
fn ok_response_returns_its_body() {
    let result = finish(
        "https://example.test/ok",
        vec![Event::Responded { status: 200 }, Event::BodyRead { text: "hello".to_string() }],
    );
    assert_eq!(result, Ok("hello".to_string()));
}

#[test]
fn status_is_not_looked_at() {
    for status in [100u16, 204, 301, 404, 418, 500, 503, 999, 0, u16::MAX] {
        assert_eq!(
            step(Phase::Sending, Event::Responded { status }),
            Some((Phase::Reading, Action::ReadBody))
        );
        let result = finish(
            "https://example.test/missing",
            vec![Event::Responded { status }, Event::BodyRead { text: "not found".to_string() }],
        );
        assert_eq!(result, Ok("not found".to_string()));
    }
}

#[test]
fn body_is_returned_untouched() {
    for body in ["", "  padded \r\n", "{\"odds\": [1.5, 2.25]}", "<html>\u{e9}\u{4e2d}</html>\n\n"] {
        let stepped = step(Phase::Reading, Event::BodyRead { text: body.to_string() });
        assert_eq!(stepped, Some((Phase::Resolved, Action::Return(Ok(body.to_string())))));
    }
}

#[test]
fn send_failure_returns_its_reason() {
    let stepped = step(Phase::Sending, Event::SendFailed { reason: "connection refused".to_string() });
    assert_eq!(
        stepped,
        Some((Phase::Failed, Action::Return(Err("connection refused".to_string()))))
    );
}

#[test]
fn body_failure_returns_its_reason() {
    let result = finish(
        "https://example.test/garbled",
        vec![
            Event::Responded { status: 200 },
            Event::BodyFailed { reason: "error decoding response body".to_string() },
        ],
    );
    assert_eq!(result, Err("error decoding response body".to_string()));
}

#[test]
fn events_out_of_turn_are_refused() {
    let text = || "x".to_string();
    assert_eq!(step(Phase::Sending, Event::BodyRead { text: text() }), None);
    assert_eq!(step(Phase::Sending, Event::BodyFailed { reason: text() }), None);
    assert_eq!(step(Phase::Reading, Event::Responded { status: 200 }), None);
    assert_eq!(step(Phase::Reading, Event::SendFailed { reason: text() }), None);
}

#[test]
fn a_settled_fetch_takes_nothing_more() {
    for phase in [Phase::Resolved, Phase::Failed] {
        assert_eq!(step(phase, Event::Responded { status: 200 }), None);
        assert_eq!(step(phase, Event::SendFailed { reason: "again".to_string() }), None);
        assert_eq!(step(phase, Event::BodyRead { text: "again".to_string() }), None);
        assert_eq!(step(phase, Event::BodyFailed { reason: "again".to_string() }), None);
    }
}

#[test]
fn send_outcome_becomes_an_event() {
    assert_eq!(Event::from_send(Ok(200)), Event::Responded { status: 200 });
    assert_eq!(Event::from_send(Ok(404)), Event::Responded { status: 404 });
    let error = malformed("not a url");
    let described = error.to_string();
    assert_eq!(Event::from_send(Err(error)), Event::SendFailed { reason: described });
}

#[test]
fn body_outcome_becomes_an_event() {
    assert_eq!(
        Event::from_body(Ok(" hello\n".to_string())),
        Event::BodyRead { text: " hello\n".to_string() }
    );
    assert_eq!(Event::from_body(Ok(String::new())), Event::BodyRead { text: String::new() });
    let error = malformed("::::");
    let described = error.to_string();
    assert!(!described.is_empty());
    assert_eq!(Event::from_body(Err(error)), Event::BodyFailed { reason: described });
}

#[test]
fn malformed_url_fails_with_a_description() {
    let error = malformed("not a url");
    let described = error.to_string();
    assert!(described.starts_with("builder error"));
    let result = finish("not a url", vec![Event::from_send(Err(error))]);
    match result {
        Ok(body) => panic!("a malformed URL returned a body: {body:?}"),
        Err(reason) => {
            assert!(!reason.is_empty());
            assert_eq!(reason, described);
        }
    }
}

#[test]
fn unreachable_host_fails_with_a_description() {
    let request = FetchRequest::new("http://127.0.0.1:1/down".to_string());
    let client = reqwest::blocking::Client::builder()
        .no_proxy()
        .timeout(std::time::Duration::from_secs(5))
        .build()
        .expect("a client without TLS settings builds");
    let sent = client.get(request.url).headers(request.headers).send();
    let outcome = match sent {
        Ok(response) => Ok(response.status().as_u16()),
        Err(error) => Err(error),
    };
    assert!(outcome.is_err());
    let result = finish("http://127.0.0.1:1/down", vec![Event::from_send(outcome)]);
    match result {
        Ok(body) => panic!("an unreachable host returned a body: {body:?}"),
        Err(reason) => {
            assert!(!reason.is_empty());
            assert!(reason.starts_with("error sending request"));
        }
    }
}

#[test]
fn two_fetches_do_not_mix() {
    let (first, first_action) = begin("https://example.test/one".to_string());
    let (second, second_action) = begin("https://example.test/two".to_string());
    match (first_action, second_action) {
        (Action::Get(a), Action::Get(b)) => {
            assert_eq!(a.url, "https://example.test/one");
            assert_eq!(b.url, "https://example.test/two");
        }
        other => panic!("expected two requests, got {other:?}"),
    }
    let (second, _) = step(second, Event::Responded { status: 200 }).unwrap();
    let (first, _) = step(first, Event::Responded { status: 500 }).unwrap();
    let (second, second_action) = step(second, Event::BodyRead { text: "two".to_string() }).unwrap();
    let (first, first_action) = step(first, Event::BodyRead { text: "one".to_string() }).unwrap();
    assert_eq!(first, Phase::Resolved);
    assert_eq!(second, Phase::Resolved);
    assert_eq!(first_action, Action::Return(Ok("one".to_string())));
    assert_eq!(second_action, Action::Return(Ok("two".to_string())));
}

#[test]
fn one_failure_leaves_the_next_fetch_alone() {
    let failed = finish("https://example.test/down", vec![Event::SendFailed { reason: "down".to_string() }]);
    assert_eq!(failed, Err("down".to_string()));
    let ok = finish(
        "https://example.test/ok",
        vec![Event::Responded { status: 200 }, Event::BodyRead { text: "hello".to_string() }],
    );
    assert_eq!(ok, Ok("hello".to_string()));
}
