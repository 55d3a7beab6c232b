use fetchmixes::decode::{
    cloudcast_count, decode_cloudcast, decode_listing, decode_page, decode_page_info,
    decode_query_response, decode_response_page_info, decode_stream_info, decode_summary,
    decode_upload, decode_uploads_data, user_lookup_id, user_uploads_deser,
};
use fetchmixes::error::DataError;
use fetchmixes::instant::Timestamp;
use fetchmixes::json::parse;

fn doc(text: &str) -> serde_json::Value {
    parse(text).expect("the test's JSON is well formed")
}

fn node(id: &str, extra: &str) -> String {
    format!(
        r#"{{"id":"{}","audioLength":3600,"name":"Set {}","description":"","publishDate":"2019-05-01T12:00:00Z"{}}}"#,
        id, id, extra
    )
}

fn response(edges: &[String], has_next_page: bool) -> String {
    format!(
        r#"{{"data":{{"user":{{"uploads":{{"edges":[{}],"pageInfo":{{"endCursor":"end","hasNextPage":{}}}}}}}}}}}"#,
        edges.join(","),
        has_next_page
    )
}

fn edge(id: &str) -> String {
    format!(r#"{{"node":{},"cursor":"cursor-{}"}}"#, node(id, ""), id)
}

#[test]
fn cloudcast_without_stream_info_decodes() {
    let cast = decode_cloudcast(&doc(&node("c1", ""))).expect("streamInfo may be left out");
    assert!(cast.stream_info.is_none());
    assert_eq!(cast.id, "c1");
    assert_eq!(cast.audio_length, 3600);
    assert_eq!(cast.name, "Set c1");
    assert_eq!(cast.description, "");
    assert_eq!(cast.publish_date, Timestamp { secs: 1_556_712_000, nanos: 0 });
}

#[test]
fn null_stream_info_is_absent() {
    let cast = decode_cloudcast(&doc(&node("c1", r#","streamInfo":null"#))).expect("streamInfo may be null");
    assert!(cast.stream_info.is_none());
}

#[test]
fn stream_info_is_decoded_whole() {
    let extra = r#","streamInfo":{"dashUrl":"https://d/1.mpd","hlsUrl":"https://h/1.m3u8","url":"https://s/1.m4a","uuid":"u-1"}"#;
    let cast = decode_cloudcast(&doc(&node("c1", extra))).expect("the node is complete");
    let info = cast.stream_info.expect("streamInfo was sent");
    assert_eq!(info.dash_url, Some("https://d/1.mpd".to_string()));
    assert_eq!(info.hls_url, Some("https://h/1.m3u8".to_string()));
    assert_eq!(info.url, "https://s/1.m4a");
    assert_eq!(info.uuid, "u-1");
}

#[test]
fn omitted_url_differs_from_empty_url() {
    let info = decode_stream_info(&doc(r#"{"hlsUrl":"","dashUrl":null,"url":"u","uuid":"x"}"#))
        .expect("both playlist addresses are optional");
    assert_eq!(info.dash_url, None);
    assert_eq!(info.hls_url, Some(String::new()));
    let info = decode_stream_info(&doc(r#"{"url":"","uuid":"x"}"#)).expect("url may be empty");
    assert_eq!(info.dash_url, None);
    assert_eq!(info.hls_url, None);
    assert_eq!(info.url, "");
}

#[test]
fn stream_info_needs_url_and_uuid() {
    assert!(matches!(decode_stream_info(&doc(r#"{"uuid":"x"}"#)), Err(DataError::Shape)));
    assert!(matches!(decode_stream_info(&doc(r#"{"url":"u"}"#)), Err(DataError::Shape)));
    assert!(matches!(decode_stream_info(&doc(r#"{"url":null,"uuid":"x"}"#)), Err(DataError::Shape)));
    assert!(matches!(decode_stream_info(&doc(r#"{"url":"u","uuid":"x","hlsUrl":3}"#)), Err(DataError::Shape)));
    assert!(matches!(decode_stream_info(&doc(r#"["u","x"]"#)), Err(DataError::Shape)));
    assert!(matches!(decode_stream_info(&doc("null")), Err(DataError::Shape)));
}

#[test]
fn broken_stream_info_refuses_the_set() {
    let extra = r#","streamInfo":{"url":"https://s/1.m4a"}"#;
    assert!(matches!(decode_cloudcast(&doc(&node("c1", extra))), Err(DataError::Shape)));
    let extra = r#","streamInfo":"none""#;
    assert!(matches!(decode_cloudcast(&doc(&node("c1", extra))), Err(DataError::Shape)));
}

#[test]
fn cloudcast_fields_are_mandatory() {
    for missing in ["id", "audioLength", "name", "description", "publishDate"] {
        let mut value = doc(&node("c1", ""));
        value.as_object_mut().expect("a node is an object").remove(missing);
        assert!(matches!(decode_cloudcast(&value), Err(DataError::Shape)), "without {}", missing);
    }
}

#[test]
fn audio_length_must_fit() {
    let with = |n: &str| {
        format!(r#"{{"id":"c","audioLength":{},"name":"","description":"","publishDate":"2019-05-01T12:00:00Z"}}"#, n)
    };
    assert_eq!(decode_cloudcast(&doc(&with("0"))).expect("0 fits").audio_length, 0);
    assert_eq!(decode_cloudcast(&doc(&with("4294967295"))).expect("u32::MAX fits").audio_length, u32::MAX);
    assert!(matches!(decode_cloudcast(&doc(&with("4294967296"))), Err(DataError::Shape)));
    assert!(matches!(decode_cloudcast(&doc(&with("-1"))), Err(DataError::Shape)));
    assert!(matches!(decode_cloudcast(&doc(&with("3600.0"))), Err(DataError::Shape)));
    assert!(matches!(decode_cloudcast(&doc(&with("\"3600\""))), Err(DataError::Shape)));
}

#[test]
fn publish_date_is_read_as_an_instant() {
    let with = |date: &str| {
        format!(r#"{{"id":"c","audioLength":1,"name":"","description":"","publishDate":{}}}"#, date)
    };
    let at = |date: &str| decode_cloudcast(&doc(&with(date))).map(|c| c.publish_date);
    assert_eq!(at("\"1970-01-01T00:00:00Z\"").ok(), Some(Timestamp { secs: 0, nanos: 0 }));
    assert_eq!(at("\"2019-05-01T14:00:00+02:00\"").ok(), Some(Timestamp { secs: 1_556_712_000, nanos: 0 }));
    assert_eq!(
        at("\"2019-05-01T12:00:00.250Z\"").ok(),
        Some(Timestamp { secs: 1_556_712_000, nanos: 250_000_000 })
    );
    assert_eq!(at("\"1969-12-31T23:59:59Z\"").ok(), Some(Timestamp { secs: -1, nanos: 0 }));
    assert!(matches!(at("\"yesterday\""), Err(DataError::Shape)));
    assert!(matches!(at("\"2019-05-01\""), Err(DataError::Shape)));
    assert!(matches!(at("1556712000"), Err(DataError::Shape)));
}

#[test]
fn upload_is_a_node_and_its_cursor() {
    let upload = decode_upload(&doc(&edge("c7"))).expect("the edge is complete");
    assert_eq!(upload.cursor, "cursor-c7");
    assert_eq!(upload.cloudcast.id, "c7");
    assert!(matches!(decode_upload(&doc(&format!(r#"{{"node":{}}}"#, node("c7", "")))), Err(DataError::Shape)));
    assert!(matches!(decode_upload(&doc(r#"{"cursor":"c"}"#)), Err(DataError::Shape)));
    assert!(matches!(decode_upload(&doc(r#"{"node":{},"cursor":"c"}"#)), Err(DataError::Shape)));
}

#[test]
fn user_uploads_are_the_edges() {
    let text = format!(r#"{{"uploads":{{"edges":[{},{}]}}}}"#, edge("a"), edge("b"));
    let uploads = user_uploads_deser(&doc(&text)).expect("both edges are complete");
    assert_eq!(uploads.len(), 2);
    assert_eq!(uploads[0].cloudcast.id, "a");
    assert_eq!(uploads[1].cursor, "cursor-b");
    let none = user_uploads_deser(&doc(r#"{"uploads":{"edges":[]}}"#)).expect("an empty page is a page");
    assert!(none.is_empty());
}

#[test]
fn one_broken_edge_refuses_the_page() {
    let text = format!(r#"{{"uploads":{{"edges":[{},{{"cursor":"x"}},{}]}}}}"#, edge("a"), edge("b"));
    assert!(matches!(user_uploads_deser(&doc(&text)), Err(DataError::Shape)));
    assert!(matches!(user_uploads_deser(&doc(r#"{"uploads":{"edges":{}}}"#)), Err(DataError::Shape)));
    assert!(matches!(user_uploads_deser(&doc(r#"{"uploads":{}}"#)), Err(DataError::Shape)));
    assert!(matches!(user_uploads_deser(&doc(r#"{}"#)), Err(DataError::Shape)));
}

#[test]
fn uploads_data_and_envelope() {
    let text = format!(r#"{{"user":{{"uploads":{{"edges":[{}]}}}}}}"#, edge("a"));
    let data = decode_uploads_data(&doc(&text)).expect("the edge is complete");
    assert_eq!(data.uploads.len(), 1);
    assert!(matches!(decode_uploads_data(&doc(r#"{"user":null}"#)), Err(DataError::Shape)));

    let whole = decode_query_response(&doc(&response(&[edge("a"), edge("b")], true))).expect("a whole response");
    assert_eq!(whole.data.uploads.len(), 2);
    assert_eq!(whole.data.uploads[1].cloudcast.name, "Set b");
    assert!(matches!(decode_query_response(&doc(r#"{"errors":[]}"#)), Err(DataError::Shape)));
}

#[test]
fn page_info_has_cursor_and_flag() {
    let info = decode_page_info(&doc(r#"{"endCursor":"abc","hasNextPage":true}"#)).expect("both fields are there");
    assert_eq!(info.end_cursor, "abc");
    assert!(info.has_next_page);
    let info = decode_page_info(&doc(r#"{"endCursor":"","hasNextPage":false}"#)).expect("both fields are there");
    assert_eq!(info.end_cursor, "");
    assert!(!info.has_next_page);
    assert!(matches!(decode_page_info(&doc(r#"{"endCursor":"abc"}"#)), Err(DataError::Shape)));
    assert!(matches!(decode_page_info(&doc(r#"{"hasNextPage":true}"#)), Err(DataError::Shape)));
    assert!(matches!(decode_page_info(&doc(r#"{"endCursor":null,"hasNextPage":true}"#)), Err(DataError::Shape)));
    assert!(matches!(decode_page_info(&doc(r#"{"endCursor":"abc","hasNextPage":"yes"}"#)), Err(DataError::Shape)));
    assert!(matches!(decode_page_info(&doc("null")), Err(DataError::Shape)));
}

#[test]
fn page_is_edges_and_page_info() {
    let value = doc(&response(&[edge("a"), edge("b")], true));
    let info = decode_response_page_info(&value).expect("pageInfo is there");
    assert_eq!(info.end_cursor, "end");
    assert!(info.has_next_page);
    let page = decode_page(&value).expect("a whole response");
    assert_eq!(page.uploads.len(), 2);
    assert_eq!(page.uploads[0].cursor, "cursor-a");
    assert!(page.page_info.has_next_page);

    let no_info = format!(r#"{{"data":{{"user":{{"uploads":{{"edges":[{}]}}}}}}}}"#, edge("a"));
    assert!(matches!(decode_response_page_info(&doc(&no_info)), Err(DataError::Shape)));
    assert!(matches!(decode_page(&doc(&no_info)), Err(DataError::Shape)));
    let no_edges = r#"{"data":{"user":{"uploads":{"pageInfo":{"endCursor":"e","hasNextPage":false}}}}}"#;
    assert!(decode_response_page_info(&doc(no_edges)).is_ok());
    assert!(matches!(decode_page(&doc(no_edges)), Err(DataError::Shape)));
}

#[test]
fn summary_fields_are_mandatory() {
    let full = r#"{"url":"https://www.mixcloud.com/a/one/","pictures":{"extra_large":"https://img/1.jpg","small":"s"},"created_time":"2019-05-01T12:00:00Z","updated_time":"2019-05-02T12:00:00Z","name":"one"}"#;
    let summary = decode_summary(&doc(full)).expect("the summary is complete");
    assert_eq!(summary.url, "https://www.mixcloud.com/a/one/");
    assert_eq!(summary.pictures.extra_large, "https://img/1.jpg");
    assert_eq!(summary.created_time, Timestamp { secs: 1_556_712_000, nanos: 0 });
    assert_eq!(summary.updated_time, Timestamp { secs: 1_556_798_400, nanos: 0 });
    for missing in ["url", "pictures", "created_time", "updated_time"] {
        let mut value = doc(full);
        value.as_object_mut().expect("a summary is an object").remove(missing);
        assert!(matches!(decode_summary(&value), Err(DataError::Shape)), "without {}", missing);
    }
    let no_cover = r#"{"url":"u","pictures":{"small":"s"},"created_time":"2019-05-01T12:00:00Z","updated_time":"2019-05-02T12:00:00Z"}"#;
    assert!(matches!(decode_summary(&doc(no_cover)), Err(DataError::Shape)));
}

#[test]
fn one_broken_summary_refuses_the_listing() {
    let one = |url: &str| {
        format!(r#"{{"url":"{}","pictures":{{"extra_large":"c"}},"created_time":"2019-05-01T12:00:00Z","updated_time":"2019-05-01T12:00:00Z"}}"#, url)
    };
    let listing = decode_listing(&doc(&format!(r#"{{"data":[{},{}],"paging":{{}}}}"#, one("a"), one("b"))))
        .expect("both summaries are complete");
    assert_eq!(listing.sets.len(), 2);
    assert_eq!(listing.sets[1].url, "b");
    assert_eq!(listing.next, None);
    let broken = format!(r#"{{"data":[{},{{"url":"x"}}]}}"#, one("a"));
    assert!(matches!(decode_listing(&doc(&broken)), Err(DataError::Shape)));
    assert!(matches!(decode_listing(&doc(r#"{"data":{}}"#)), Err(DataError::Shape)));
    assert!(matches!(decode_listing(&doc(r#"{}"#)), Err(DataError::Shape)));
    assert!(decode_listing(&doc(r#"{"data":[]}"#)).expect("an empty listing").sets.is_empty());
}

#[test]
fn listing_names_the_next_page() {
    let listing = decode_listing(&doc(r#"{"data":[],"paging":{"next":"https://api.mixcloud.com/a/cloudcasts/?offset=20"}}"#))
        .expect("a listing with a next page");
    assert_eq!(listing.next, Some("https://api.mixcloud.com/a/cloudcasts/?offset=20".to_string()));
    let last = decode_listing(&doc(r#"{"data":[],"paging":{"next":null,"previous":"p"}}"#)).expect("a last page");
    assert_eq!(last.next, None);
    assert!(matches!(decode_listing(&doc(r#"{"data":[],"paging":{"next":20}}"#)), Err(DataError::Shape)));
}

#[test]
fn cloudcast_count_is_an_integer() {
    assert_eq!(cloudcast_count(&doc(r#"{"cloudcast_count":47,"name":"x"}"#)), Ok(47));
    assert_eq!(cloudcast_count(&doc(r#"{"cloudcast_count":0}"#)), Ok(0));
    assert_eq!(cloudcast_count(&doc(r#"{"cloudcast_count":-2}"#)), Ok(-2));
    assert_eq!(cloudcast_count(&doc(r#"{"cloudcast_count":9223372036854775807}"#)), Ok(i64::MAX));
    assert_eq!(cloudcast_count(&doc(r#"{"cloudcast_count":9223372036854775808}"#)), Err(DataError::Shape));
    assert_eq!(cloudcast_count(&doc(r#"{"cloudcast_count":47.5}"#)), Err(DataError::Shape));
    assert_eq!(cloudcast_count(&doc(r#"{"cloudcast_count":"47"}"#)), Err(DataError::Shape));
    assert_eq!(cloudcast_count(&doc(r#"{}"#)), Err(DataError::Shape));
}

#[test]
fn user_lookup_id_is_a_string() {
    assert_eq!(user_lookup_id(&doc(r#"{"data":{"userLookup":{"id":"VXNlcjo0Mg=="}}}"#)), Ok("VXNlcjo0Mg==".to_string()));
    assert_eq!(user_lookup_id(&doc(r#"{"data":{"userLookup":{"id":42}}}"#)), Err(DataError::Shape));
    assert_eq!(user_lookup_id(&doc(r#"{"data":{"userLookup":null}}"#)), Err(DataError::Shape));
    assert_eq!(user_lookup_id(&doc(r#"{"data":{}}"#)), Err(DataError::Shape));
    assert_eq!(user_lookup_id(&doc(r#"[]"#)), Err(DataError::Shape));
}

#[test]
fn text_that_is_not_json_is_a_syntax_error() {
    assert!(matches!(parse("{\"data\":"), Err(DataError::Syntax)));
    assert!(matches!(parse(""), Err(DataError::Syntax)));
    assert!(matches!(parse("<html></html>"), Err(DataError::Syntax)));
    assert!(matches!(parse("{} {}"), Err(DataError::Syntax)));
    assert_eq!(parse("{\"a\": [1, 2]}").ok(), serde_json::from_str("{\"a\":[1,2]}").ok());
}
