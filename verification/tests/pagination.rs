use coinbase_rs::error::{CBError, DecodeError};
use coinbase_rs::json::Json;
use coinbase_rs::pagination::{
    answer, classify, query_of, read_answer, read_page, read_reply, request_for, Page, Pager,
    Reply, Step, StreamState, PACING_DELAY_MS,
};
use coinbase_rs::private::Balance;
use coinbase_rs::request::{Builder, Method};
use coinbase_rs::uri::Uri;

fn pager(page_size: Option<usize>) -> Pager {
    Pager::paginate(Builder::new(), "https://api.example.com", "/v2/things", Vec::new(), page_size, "items")
}

fn page(items: &[&str], next: Option<&str>) -> Reply<String> {
    Reply::Page(Page {
        items: items.iter().map(|s| s.to_string()).collect(),
        next_cursor: next.map(|s| s.to_string()),
    })
}

#[test]
fn two_pages_are_yielded_in_order_and_then_the_stream_ends() {
    let mut pager = pager(None);
    let first = pager.next_request().unwrap().unwrap();
    assert_eq!(first.uri().as_str(), "https://api.example.com/v2/things");
    let body = br#"{"items": ["A","B"], "pagination": {"next_starting_after": "X"}}"#;
    let items = pager.on_body::<String>(body).unwrap().unwrap();
    assert_eq!(items, vec!["A".to_string(), "B".to_string()]);
    let second = pager.next_request().unwrap().unwrap();
    assert_eq!(second.uri().as_str(), "https://api.example.com/v2/things?starting_after=X");
    let body = br#"{"items": ["C"], "pagination": {"next_starting_after": null}}"#;
    let items = pager.on_body::<String>(body).unwrap().unwrap();
    assert_eq!(items, vec!["C".to_string()]);
    assert!(pager.next_request().is_none());
    assert!(matches!(pager.next_step(), Step::Done));
    assert!(pager.state().is_exhausted());
}

#[test]
fn a_walk_yields_one_element_for_each_page() {
    let mut state = StreamState::new();
    let mut yielded = Vec::new();
    let mut requests = 0;
    let mut replies = vec![
        page(&["a"], Some("1")),
        page(&[], Some("2")),
        page(&["b", "c"], Some("3")),
        page(&["d"], None),
        page(&["never"], Some("4")),
    ]
    .into_iter();
    while let Step::Fetch { .. } = state.next_step() {
        requests += 1;
        yielded.push(state.advance(replies.next().unwrap()).unwrap());
    }
    assert_eq!(requests, 4);
    assert_eq!(yielded.len(), 4);
    let items: Vec<Vec<String>> = yielded.into_iter().map(|y| y.unwrap()).collect();
    assert_eq!(items[0], vec!["a".to_string()]);
    assert!(items[1].is_empty());
    assert_eq!(items[2], vec!["b".to_string(), "c".to_string()]);
    assert_eq!(items[3], vec!["d".to_string()]);
    assert!(state.is_exhausted());
    assert_eq!(state.pending_cursor(), None);
}

#[test]
fn a_single_last_page_ends_the_walk() {
    let mut state = StreamState::new();
    assert!(!state.is_exhausted());
    let items = state.advance(page(&["only"], None)).unwrap().unwrap();
    assert_eq!(items, vec!["only".to_string()]);
    assert!(state.is_exhausted());
}

#[test]
fn a_refusal_is_yielded_once_and_ends_the_walk() {
    let mut pager = pager(None);
    pager.next_request().unwrap().unwrap();
    let body = br#"{"errors":[{"id":"not_found","message":"Not found"}]}"#;
    let element = pager.on_body::<String>(body).unwrap();
    match element {
        Err(CBError::RemoteError(refusal)) => {
            assert_eq!(refusal.errors.len(), 1);
            assert_eq!(refusal.errors[0].id, "not_found");
            assert_eq!(refusal.errors[0].message, "Not found");
        }
        other => panic!("{:?}", other),
    }
    assert!(pager.next_request().is_none());
    assert!(matches!(pager.next_step(), Step::Done));
    assert!(pager.on_body::<String>(body).is_none());
}

#[test]
fn a_refusal_after_a_page_ends_the_walk() {
    let mut state = StreamState::new();
    assert!(state.advance(page(&["a"], Some("1"))).unwrap().is_ok());
    let refusal = br#"{"errors":[{"id":"rate_limit_exceeded","message":"Slow down"}]}"#;
    let element = state.advance(read_reply::<String>(refusal, "items")).unwrap();
    assert!(matches!(element, Err(CBError::RemoteError(_))));
    assert!(state.is_exhausted());
    assert_eq!(state.pending_cursor(), None);
    assert!(state.advance(page(&["b"], None)).is_none());
}

#[test]
fn a_truncated_body_is_malformed() {
    let mut pager = pager(None);
    pager.next_request().unwrap().unwrap();
    let element = pager.on_body::<String>(br#"{"items": ["A","B"], "pagina"#).unwrap();
    match element {
        Err(CBError::MalformedResponse(DecodeError::Syntax(complaint))) => {
            assert!(complaint.contains("EOF"), "{}", complaint);
            assert!(complaint.contains("line 1"), "{}", complaint);
        }
        other => panic!("{:?}", other),
    }
    assert!(pager.next_request().is_none());
}

#[test]
fn a_truncated_answer_is_malformed() {
    let answer = read_answer::<Balance>(br#"{"amount":"9.1238","curr"#);
    assert!(matches!(answer, Err(CBError::MalformedResponse(DecodeError::Syntax(_)))));
    let answer = read_answer::<Balance>(b"");
    assert!(matches!(answer, Err(CBError::MalformedResponse(DecodeError::Syntax(_)))));
}

#[test]
fn a_body_of_another_shape_is_malformed() {
    let mut state = StreamState::new();
    let element = state.advance(read_reply::<String>(br#"{"items": "A"}"#, "items")).unwrap();
    assert!(matches!(element, Err(CBError::MalformedResponse(DecodeError::Shape))));
    assert!(state.is_exhausted());
    let reply = read_reply::<String>(b"[]", "items");
    assert!(matches!(reply, Reply::Malformed(DecodeError::Shape)));
    let reply = read_reply::<String>(br#"{"items": [1], "pagination": {}}"#, "items");
    assert!(matches!(reply, Reply::Malformed(DecodeError::Shape)));
    let reply = read_reply::<String>(br#"{"items": [], "pagination": []}"#, "items");
    assert!(matches!(reply, Reply::Malformed(DecodeError::Shape)));
    let reply = read_reply::<String>(br#"{"items": []}"#, "items");
    assert!(matches!(reply, Reply::Malformed(DecodeError::Shape)));
    let reply =
        read_reply::<String>(br#"{"items": [], "pagination": {"next_starting_after": 5}}"#, "items");
    assert!(matches!(reply, Reply::Malformed(DecodeError::Shape)));
}

#[test]
fn the_shape_of_a_page_is_tried_before_the_shape_of_a_refusal() {
    let both = br#"{"errors":[{"id":"x","message":"y"}],"items":["A"],"pagination":{}}"#;
    assert!(matches!(read_reply::<String>(both, "items"), Reply::Page(_)));
    let refusal = br#"{"errors":[{"id":"x","message":"y"}],"items":"A","pagination":{}}"#;
    assert!(matches!(read_reply::<String>(refusal, "items"), Reply::Refused(_)));
    let both = br#"{"errors":[{"id":"x","message":"y"}],"amount":"1","currency":"EUR"}"#;
    assert!(read_answer::<Balance>(both).is_ok());
    let refusal = br#"{"errors":[{"id":"x","message":"y"}],"amount":"1"}"#;
    assert!(matches!(read_answer::<Balance>(refusal), Err(CBError::RemoteError(_))));
    assert!(matches!(
        read_answer::<Balance>(b"{}"),
        Err(CBError::MalformedResponse(DecodeError::Shape))
    ));
}

#[test]
fn a_lost_reply_ends_the_walk() {
    let mut state = StreamState::new();
    let element = state.advance::<String>(Reply::Lost("connection reset".to_string())).unwrap();
    assert!(matches!(element, Err(CBError::Transport(cause)) if cause == "connection reset"));
    assert!(state.is_exhausted());
    assert!(matches!(state.next_step(), Step::Done));
}

#[test]
fn each_fetch_waits_and_carries_the_cursor() {
    let mut state = StreamState::new();
    match state.next_step() {
        Step::Fetch { cursor, delay_ms } => {
            assert_eq!(cursor, None);
            assert_eq!(delay_ms, 350);
            assert_eq!(delay_ms, PACING_DELAY_MS);
        }
        Step::Done => panic!("over before it began"),
    }
    state.advance(page(&["a"], Some("c1"))).unwrap().unwrap();
    assert_eq!(state.pending_cursor(), Some("c1"));
    match state.next_step() {
        Step::Fetch { cursor, delay_ms } => {
            assert_eq!(cursor, Some("c1".to_string()));
            assert_eq!(delay_ms, 350);
        }
        Step::Done => panic!("over too early"),
    }
}

#[test]
fn page_requests_carry_limit_and_cursor() {
    let mut pager = pager(Some(100));
    let first = pager.next_request().unwrap().unwrap();
    assert_eq!(first.uri().as_str(), "https://api.example.com/v2/things?limit=100");
    assert_eq!(first.method(), Method::Get);
    pager.on_reply(page(&["a"], Some("d16ec1ba b/1"))).unwrap().unwrap();
    let second = pager.next_request().unwrap().unwrap();
    assert_eq!(
        second.uri().as_str(),
        "https://api.example.com/v2/things?limit=100&starting_after=d16ec1ba%20b%2F1"
    );
    assert_eq!(second.uri().path_and_query(), Some("/v2/things?limit=100&starting_after=d16ec1ba%20b%2F1"));
}

#[test]
fn a_page_request_that_cannot_be_built_ends_the_walk() {
    let mut pager = Pager::paginate(
        Builder::new_with_auth("k", "no key"),
        "https://api.example.com",
        "/v2/things",
        Vec::new(),
        None,
        "items",
    );
    assert!(matches!(pager.next_request(), Some(Err(CBError::KeyLoad))));
    assert!(pager.next_request().is_none());
    let mut pager =
        Pager::paginate(Builder::new(), "https://api.example.com", "/v2/{a:2}", Vec::new(), None, "items");
    assert!(matches!(pager.next_request(), Some(Err(CBError::MissingAuthority))));
    assert!(pager.state().is_exhausted());
    let mut pager = Pager::paginate(Builder::new(), "http://exa mple", "/v2", Vec::new(), None, "items");
    assert!(matches!(pager.next_request(), Some(Err(CBError::MissingAuthority))));
    assert!(pager.next_request().is_none());
}

#[test]
fn query_holds_limit_then_cursor() {
    assert!(query_of(None, None).is_empty());
    assert_eq!(query_of(Some(25), None), vec![("limit".to_string(), "25".to_string())]);
    assert_eq!(
        query_of(None, Some("x")),
        vec![("starting_after".to_string(), "x".to_string())]
    );
    assert_eq!(
        query_of(Some(100), Some("x")),
        vec![
            ("limit".to_string(), "100".to_string()),
            ("starting_after".to_string(), "x".to_string())
        ]
    );
}

#[test]
fn pages_of_records_keep_the_order_of_the_service() {
    let body = br#"{"pagination":{"next_starting_after":"n","limit":2,"order":"desc"},
        "data":[{"amount":"2","currency":"B"},{"amount":"1","currency":"A"},{"amount":"2","currency":"B"}]}"#;
    let tree = Json::parse(body).unwrap();
    let page = read_page::<Balance>(&tree, "data").unwrap();
    assert_eq!(page.next_cursor, Some("n".to_string()));
    let currencies: Vec<&str> = page.items.iter().map(|b| b.currency.as_str()).collect();
    assert_eq!(currencies, vec!["B", "A", "B"]);
    assert!(read_page::<Balance>(&tree, "items").is_none());
}

#[test]
fn classify_takes_the_outcome_of_parsing() {
    let reply = classify::<String>(Err("bad".to_string()), "items");
    assert!(matches!(reply, Reply::Malformed(DecodeError::Syntax(c)) if c == "bad"));
    let tree = Json::parse(br#"{"items":["A"],"pagination":{"next_starting_after":"X"}}"#);
    match classify::<String>(tree, "items") {
        Reply::Page(page) => {
            assert_eq!(page.items, vec!["A".to_string()]);
            assert_eq!(page.next_cursor, Some("X".to_string()));
        }
        other => panic!("{:?}", other),
    }
    let result = answer::<Balance>(Err("bad".to_string()));
    assert!(matches!(result, Err(CBError::MalformedResponse(DecodeError::Syntax(c))) if c == "bad"));
}

#[test]
fn request_for_needs_an_address() {
    assert!(matches!(request_for(Builder::new(), None), Err(CBError::MissingAuthority)));
    let uri = Uri::parse("https://h/p").unwrap();
    let request = request_for(Builder::new().method(Method::Put), Some(uri)).unwrap();
    assert_eq!(request.uri().as_str(), "https://h/p");
    assert_eq!(request.method(), Method::Put);
}

#[test]
fn walk_yields_what_the_replies_hold_until_the_last_page() {
    let mut state = StreamState::new();
    let elements = state.walk(vec![
        page(&["a", "b"], Some("1")),
        page(&["c"], None),
        page(&["late"], None),
    ]);
    assert_eq!(elements.len(), 2);
    assert_eq!(elements[0].as_ref().unwrap(), &vec!["a".to_string(), "b".to_string()]);
    assert_eq!(elements[1].as_ref().unwrap(), &vec!["c".to_string()]);
    assert!(state.is_exhausted());
    assert!(state.walk(vec![page(&["later"], Some("2"))]).is_empty());
}

#[test]
fn walk_stops_at_a_refusal() {
    let mut state = StreamState::new();
    let refusal = read_reply::<String>(br#"{"errors":[{"id":"x","message":"y"}]}"#, "items");
    let elements = state.walk(vec![page(&["a"], Some("1")), refusal, page(&["b"], None)]);
    assert_eq!(elements.len(), 2);
    assert!(elements[0].is_ok());
    assert!(matches!(&elements[1], Err(CBError::RemoteError(r)) if r.errors[0].id == "x"));
    assert!(state.is_exhausted());
}

#[test]
fn walk_without_a_last_page_stays_open() {
    let mut state = StreamState::new();
    let elements = state.walk(vec![page(&["a"], Some("1")), page(&["b"], Some("2"))]);
    assert_eq!(elements.len(), 2);
    assert!(!state.is_exhausted());
    assert_eq!(state.pending_cursor(), Some("2"));
    assert!(state.walk(Vec::<Reply<String>>::new()).is_empty());
    assert_eq!(state.pending_cursor(), Some("2"));
}
