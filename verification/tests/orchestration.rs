use fetchmixes::crawl::{Action, Crawl, Phase};
use fetchmixes::data::{CloudcastSummary, Pictures};
use fetchmixes::db::Store;
use fetchmixes::error::{AuthError, DataError, Failure, StoreError};
use fetchmixes::instant::Timestamp;
use fetchmixes::json::parse;
use fetchmixes::session::Cookie;

const PROFILE: &str = "https://www.mixcloud.com/alice";

fn cookies() -> Vec<Cookie> {
    vec![Cookie { name: "csrftoken".to_string(), value: "t0k3n".to_string() }]
}

fn lookup(id: &str) -> serde_json::Value {
    parse(&format!(r#"{{"data":{{"userLookup":{{"id":"{}"}}}}}}"#, id)).expect("well formed")
}

fn uploads(first: usize, size: usize, has_next_page: bool) -> serde_json::Value {
    let edges: Vec<String> = (first..first + size)
        .map(|k| {
            format!(
                r#"{{"node":{{"id":"c{}","audioLength":60,"name":"n","description":"d","publishDate":"2019-05-01T12:00:00Z"}},"cursor":"cursor-{}"}}"#,
                k, k
            )
        })
        .collect();
    parse(&format!(
        r#"{{"data":{{"user":{{"uploads":{{"edges":[{}],"pageInfo":{{"endCursor":"e","hasNextPage":{}}}}}}}}}}}"#,
        edges.join(","),
        has_next_page
    ))
    .expect("well formed")
}

fn summaries(n: usize) -> Vec<CloudcastSummary> {
    (0..n)
        .map(|k| CloudcastSummary {
            url: format!("https://www.mixcloud.com/alice/{}/", k),
            pictures: Pictures { extra_large: format!("https://img/{}.jpg", k) },
            created_time: Timestamp { secs: 1_556_712_000, nanos: 0 },
            updated_time: Timestamp { secs: 1_556_712_000, nanos: 0 },
        })
        .collect()
}

fn fetching() -> Crawl {
    Crawl::new().profile_received(PROFILE, &cookies()).creator_received(&lookup("42")).begin_pages(20)
}

#[test]
fn crawl_runs_from_start_to_persisted() {
    let crawl = Crawl::new();
    assert_eq!(crawl.phase(), Phase::Unauthenticated);
    assert_eq!(crawl.next_action(), Action::FetchProfile);
    assert!(crawl.headers().is_none());

    let crawl = crawl.profile_received(PROFILE, &cookies());
    assert_eq!(crawl.phase(), Phase::SessionEstablished);
    assert_eq!(crawl.next_action(), Action::LookUpCreator);
    let headers = crawl.headers().expect("a session has headers");
    assert_eq!(headers[0].value, "t0k3n");
    assert_eq!(headers[1].value, PROFILE);
    assert_eq!(headers[2].value, "csrftoken=t0k3n");

    let crawl = crawl.creator_received(&lookup("42"));
    assert_eq!(crawl.phase(), Phase::CreatorResolved);
    assert_eq!(crawl.next_action(), Action::BeginPages);
    assert!(crawl.uploads_query().is_none());

    let crawl = crawl.begin_pages(20);
    assert_eq!(crawl.phase(), Phase::PagesFetching);
    assert_eq!(crawl.next_action(), Action::FetchPage);
    let query = crawl.uploads_query().expect("the walk is under way");
    assert_eq!(query.first, 20);
    assert_eq!(query.order_by, "LATEST");
    assert_eq!(query.after_cursor, None);
    assert_eq!(query.user_id, "42");

    let crawl = crawl.page_received(&uploads(0, 20, true));
    assert_eq!(crawl.next_action(), Action::FetchPage);
    let query = crawl.uploads_query().expect("the walk is under way");
    assert_eq!(query.after_cursor, Some("cursor-19".to_string()));
    let crawl = crawl.page_received(&uploads(20, 20, true)).page_received(&uploads(40, 7, false));
    assert_eq!(crawl.phase(), Phase::PagesFetching);
    assert_eq!(crawl.next_action(), Action::Persist);
    assert!(crawl.uploads_query().is_none());
    assert_eq!(crawl.casts().expect("the walk's sets").len(), 47);

    let mut store = Store::new();
    let crawl = crawl.persist(&mut store, "alice", &summaries(47));
    assert_eq!(crawl.phase(), Phase::Persisted);
    assert_eq!(crawl.next_action(), Action::Stop);
    assert_eq!(crawl.dj_id(), Some(1));
    assert_eq!(crawl.failure(), None);
    assert_eq!(store.djs().len(), 1);
    assert_eq!(store.djs()[0].mixcloud_id, "42");
    assert_eq!(store.djs()[0].username, "alice");
    assert_eq!(store.sets().len(), 47);
    assert_eq!(store.sets()[46].dj_id, 1);
}

#[test]
fn crawling_twice_keeps_the_row_count() {
    let mut store = Store::new();
    for _ in 0..2 {
        let crawl = fetching().page_received(&uploads(0, 3, false)).persist(&mut store, "alice", &summaries(3));
        assert_eq!(crawl.phase(), Phase::Persisted);
        assert_eq!(crawl.dj_id(), Some(1));
        assert_eq!(store.sets().len(), 3);
        assert_eq!(store.djs().len(), 1);
    }
}

#[test]
fn missing_cookie_aborts() {
    let crawl = Crawl::new().profile_received(PROFILE, &Vec::new());
    assert_eq!(crawl.phase(), Phase::Aborted);
    assert_eq!(crawl.failure(), Some(Failure::Auth(AuthError::MissingCsrfCookie)));
    assert_eq!(crawl.next_action(), Action::Stop);
}

#[test]
fn unknown_creator_aborts() {
    let answer = parse(r#"{"data":{"userLookup":null}}"#).expect("well formed");
    let crawl = Crawl::new().profile_received(PROFILE, &cookies()).creator_received(&answer);
    assert_eq!(crawl.failure(), Some(Failure::Data(DataError::Shape)));
}

#[test]
fn malformed_page_aborts_and_discards() {
    let broken = parse(r#"{"data":{"user":{"uploads":{"edges":[{"cursor":"x"}],"pageInfo":{"endCursor":"e","hasNextPage":false}}}}}"#)
        .expect("well formed");
    let crawl = fetching().page_received(&uploads(0, 20, true)).page_received(&broken);
    assert_eq!(crawl.phase(), Phase::Aborted);
    assert_eq!(crawl.failure(), Some(Failure::Data(DataError::Shape)));
    assert!(crawl.casts().is_none());
    let mut store = Store::new();
    let crawl = crawl.persist(&mut store, "alice", &summaries(3));
    assert_eq!(crawl.phase(), Phase::Aborted);
    assert!(store.djs().is_empty());
    assert!(store.sets().is_empty());
}

#[test]
fn network_failure_aborts_any_running_crawl() {
    assert_eq!(Crawl::new().fail(Failure::Network).failure(), Some(Failure::Network));
    let crawl = fetching().page_received(&uploads(0, 20, true)).fail(Failure::Network);
    assert_eq!(crawl.phase(), Phase::Aborted);
    assert_eq!(crawl.failure(), Some(Failure::Network));
    let crawl = crawl.fail(Failure::Store(StoreError::Engine));
    assert_eq!(crawl.failure(), Some(Failure::Network));
}

#[test]
fn engine_failure_aborts_before_the_write() {
    let crawl = fetching().page_received(&uploads(0, 1, false));
    assert_eq!(crawl.next_action(), Action::Persist);
    let crawl = crawl.fail(Failure::Store(StoreError::Engine));
    assert_eq!(crawl.phase(), Phase::Aborted);
    assert_eq!(crawl.failure(), Some(Failure::Store(StoreError::Engine)));
}

#[test]
fn refused_write_aborts_and_leaves_the_store() {
    let full = vec![fetchmixes::db::Dj { id: i64::MAX, mixcloud_id: "1".to_string(), username: "x".to_string() }];
    let mut store = Store::open(full, Vec::new()).expect("one row has distinct keys");
    let crawl = fetching().page_received(&uploads(0, 1, false)).persist(&mut store, "alice", &summaries(1));
    assert_eq!(crawl.failure(), Some(Failure::Store(StoreError::Full)));
    assert_eq!(store.djs().len(), 1);
    assert!(store.sets().is_empty());
}

#[test]
fn persisted_crawl_stays_persisted() {
    let mut store = Store::new();
    let crawl = fetching().page_received(&uploads(0, 0, true)).persist(&mut store, "alice", &[]);
    assert_eq!(crawl.phase(), Phase::Persisted);
    let crawl = crawl.fail(Failure::Network);
    assert_eq!(crawl.phase(), Phase::Persisted);
    let crawl = crawl.profile_received(PROFILE, &Vec::new()).page_received(&uploads(0, 1, false));
    assert_eq!(crawl.phase(), Phase::Persisted);
    assert_eq!(crawl.dj_id(), Some(1));
}

#[test]
fn reports_out_of_turn_are_ignored() {
    let crawl = Crawl::new().creator_received(&lookup("42")).begin_pages(20).page_received(&uploads(0, 1, false));
    assert_eq!(crawl.phase(), Phase::Unauthenticated);
    let mut store = Store::new();
    let crawl = crawl.persist(&mut store, "alice", &summaries(2));
    assert_eq!(crawl.phase(), Phase::Unauthenticated);
    assert!(store.sets().is_empty());

    let crawl = fetching().page_received(&uploads(0, 1, true)).persist(&mut store, "alice", &summaries(2));
    assert_eq!(crawl.phase(), Phase::PagesFetching);
    assert!(store.sets().is_empty());
    assert!(store.djs().is_empty());
    let crawl = crawl.profile_received("https://elsewhere/", &Vec::new()).begin_pages(5);
    assert_eq!(crawl.uploads_query().expect("the walk goes on").first, 20);
}
