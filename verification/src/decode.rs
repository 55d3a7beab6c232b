//! The response decoder: from a JSON document to the typed records, with a
//! field that the platform may omit kept apart from one it sent empty.
//!
//! Each decoder has a specification over the document alone. A record is
//! either decoded whole or refused: there is no partial result.

use vstd::prelude::*;
use crate::data::{Cloudcast, CloudcastSummary, Listing, PageInfo, Pictures, QueryResponse};
use crate::data::{ListingView, StreamInfo};
use crate::data::{Upload, UserUploadsData};
use crate::data::{CloudcastSummaryView, CloudcastView, PageInfoView, StreamInfoView, UploadView};
use crate::data::{summary_views, text_view, upload_views};
use crate::error::DataError;
use crate::instant::{Timestamp, instant_parsed, parse_instant};
use crate::json::{Json, JsonNumber, json_model, member_of};
use crate::json::{as_flag, as_items, as_signed, as_text, as_unsigned, is_null, member};
use crate::pager::{Page, PageView};

verus! {

/// A member that must be a string.
pub open spec fn required_text(j: Json, key: Seq<char>) -> Option<Seq<char>> {
    match member_of(j, key) {
        Some(Json::Text(t)) => Some(t),
        _ => None,
    }
}

/// A member that may be left out or `null`, and must be a string otherwise.
/// The outer `None` is the refusal; `Some(None)` is the absent field.
pub open spec fn optional_text(j: Json, key: Seq<char>) -> Option<Option<Seq<char>>> {
    match member_of(j, key) {
        None => Some(None),
        Some(Json::Null) => Some(None),
        Some(Json::Text(t)) => Some(Some(t)),
        _ => None,
    }
}

/// A member that must be an integer from 0 to `u32::MAX`.
pub open spec fn required_u32(j: Json, key: Seq<char>) -> Option<u32> {
    match member_of(j, key) {
        Some(Json::Number(JsonNumber::Int(i))) => if 0 <= i <= u32::MAX {
            Some(i as u32)
        } else {
            None
        },
        _ => None,
    }
}

/// A member that must be a boolean.
pub open spec fn required_flag(j: Json, key: Seq<char>) -> Option<bool> {
    match member_of(j, key) {
        Some(Json::Bool(b)) => Some(b),
        _ => None,
    }
}

/// A member that must be a string holding a timestamp.
pub open spec fn required_instant(j: Json, key: Seq<char>) -> Option<Timestamp> {
    match required_text(j, key) {
        Some(t) => instant_parsed(t),
        None => None,
    }
}

/// The stream info that a document describes.
pub open spec fn stream_info_of(j: Json) -> Option<StreamInfoView> {
    match (
        optional_text(j, "dashUrl"@),
        optional_text(j, "hlsUrl"@),
        required_text(j, "url"@),
        required_text(j, "uuid"@),
    ) {
        (Some(dash_url), Some(hls_url), Some(url), Some(uuid)) => Some(
            StreamInfoView { dash_url, hls_url, url, uuid },
        ),
        _ => None,
    }
}

/// The `streamInfo` member of a set: absent where it is left out or `null`,
/// and a whole stream info otherwise.
pub open spec fn optional_stream_info(j: Json) -> Option<Option<StreamInfoView>> {
    match member_of(j, "streamInfo"@) {
        None => Some(None),
        Some(Json::Null) => Some(None),
        Some(inner) => match stream_info_of(inner) {
            Some(s) => Some(Some(s)),
            None => None,
        },
    }
}

/// The set that a document describes.
pub open spec fn cloudcast_of(j: Json) -> Option<CloudcastView> {
    match (
        required_text(j, "id"@),
        required_u32(j, "audioLength"@),
        required_text(j, "name"@),
        required_text(j, "description"@),
        optional_stream_info(j),
        required_instant(j, "publishDate"@),
    ) {
        (
            Some(id),
            Some(audio_length),
            Some(name),
            Some(description),
            Some(stream_info),
            Some(publish_date),
        ) => Some(
            CloudcastView { id, audio_length, name, description, stream_info, publish_date },
        ),
        _ => None,
    }
}

/// The edge that a document describes: a set under `node`, and its cursor.
pub open spec fn upload_of(j: Json) -> Option<UploadView> {
    match (member_of(j, "node"@), required_text(j, "cursor"@)) {
        (Some(node), Some(cursor)) => match cloudcast_of(node) {
            Some(cloudcast) => Some(UploadView { cloudcast, cursor }),
            None => None,
        },
        _ => None,
    }
}

/// The edges that a list of documents describes: all of them, in order, or
/// none at all where one of them is refused.
pub open spec fn uploads_of(items: Seq<Json>) -> Option<Seq<UploadView>> {
    if forall|i: int| 0 <= i < items.len() ==> upload_of(#[trigger] items[i]) is Some {
        Some(Seq::new(items.len(), |i: int| upload_of(items[i])->0))
    } else {
        None
    }
}

/// The connection under a document's `uploads` member.
pub open spec fn connection_of(j: Json) -> Option<Json> {
    member_of(j, "uploads"@)
}

/// The edges of a user document: the array at `uploads.edges`.
pub open spec fn user_uploads_of(j: Json) -> Option<Seq<UploadView>> {
    match connection_of(j) {
        Some(connection) => match member_of(connection, "edges"@) {
            Some(Json::Array(items)) => uploads_of(items),
            _ => None,
        },
        None => None,
    }
}

/// The edges of a response's data: those of its `user` member.
pub open spec fn uploads_data_of(j: Json) -> Option<Seq<UploadView>> {
    match member_of(j, "user"@) {
        Some(user) => user_uploads_of(user),
        None => None,
    }
}

/// The edges of a whole response: those of its `data` member.
pub open spec fn query_response_of(j: Json) -> Option<Seq<UploadView>> {
    match member_of(j, "data"@) {
        Some(data) => uploads_data_of(data),
        None => None,
    }
}

/// The page info that a document describes.
pub open spec fn page_info_of(j: Json) -> Option<PageInfoView> {
    match (required_text(j, "endCursor"@), required_flag(j, "hasNextPage"@)) {
        (Some(end_cursor), Some(has_next_page)) => Some(PageInfoView { end_cursor, has_next_page }),
        _ => None,
    }
}

/// The page info of a whole response: the one at
/// `data.user.uploads.pageInfo`.
pub open spec fn response_page_info_of(j: Json) -> Option<PageInfoView> {
    match member_of(j, "data"@) {
        Some(data) => match member_of(data, "user"@) {
            Some(user) => match connection_of(user) {
                Some(connection) => match member_of(connection, "pageInfo"@) {
                    Some(info) => page_info_of(info),
                    None => None,
                },
                None => None,
            },
            None => None,
        },
        None => None,
    }
}

/// The page that a whole response describes: its edges and its page info.
pub open spec fn page_of(j: Json) -> Option<PageView> {
    match (query_response_of(j), response_page_info_of(j)) {
        (Some(edges), Some(page_info)) => Some(PageView { edges, page_info }),
        _ => None,
    }
}

/// The summary that a document of the REST-style listing describes.
pub open spec fn summary_of(j: Json) -> Option<CloudcastSummaryView> {
    match (
        required_text(j, "url"@),
        member_of(j, "pictures"@),
        required_instant(j, "created_time"@),
        required_instant(j, "updated_time"@),
    ) {
        (Some(url), Some(pictures), Some(created_time), Some(updated_time)) => match required_text(
            pictures,
            "extra_large"@,
        ) {
            Some(cover_url) => Some(
                CloudcastSummaryView { url, cover_url, created_time, updated_time },
            ),
            None => None,
        },
        _ => None,
    }
}

/// The summaries that a list of documents describes: all of them, in order,
/// or none at all where one of them is refused.
pub open spec fn summaries_of(items: Seq<Json>) -> Option<Seq<CloudcastSummaryView>> {
    if forall|i: int| 0 <= i < items.len() ==> summary_of(#[trigger] items[i]) is Some {
        Some(Seq::new(items.len(), |i: int| summary_of(items[i])->0))
    } else {
        None
    }
}

/// The address of the page after a listing response: the string at
/// `paging.next`, absent where either member is left out or `next` is `null`.
pub open spec fn next_link_of(j: Json) -> Option<Option<Seq<char>>> {
    match member_of(j, "paging"@) {
        None => Some(None),
        Some(paging) => optional_text(paging, "next"@),
    }
}

/// The page that a listing response describes: the summaries in the array
/// under `data`, and the address of the next page.
pub open spec fn listing_of(j: Json) -> Option<ListingView> {
    match (member_of(j, "data"@), next_link_of(j)) {
        (Some(Json::Array(items)), Some(next)) => match summaries_of(items) {
            Some(sets) => Some(ListingView { sets, next }),
            None => None,
        },
        _ => None,
    }
}

/// The number of sets that a creator's summary document announces.
pub open spec fn cloudcast_count_of(j: Json) -> Option<i64> {
    match member_of(j, "cloudcast_count"@) {
        Some(Json::Number(JsonNumber::Int(i))) => if i64::MIN <= i <= i64::MAX {
            Some(i as i64)
        } else {
            None
        },
        _ => None,
    }
}

/// The platform's id of the creator in a lookup response: the string at
/// `data.userLookup.id`.
pub open spec fn user_id_of(j: Json) -> Option<Seq<char>> {
    match member_of(j, "data"@) {
        Some(data) => match member_of(data, "userLookup"@) {
            Some(user) => required_text(user, "id"@),
            None => None,
        },
        None => None,
    }
}

/// A set whose `streamInfo` is left out or `null` decodes exactly when its
/// five mandatory fields do, and then has no stream info: the absence is
/// data, not an error.
pub proof fn lemma_absent_stream_info_is_no_error(j: Json)
    requires
        member_of(j, "streamInfo"@) is None || member_of(j, "streamInfo"@) == Some(Json::Null),
    ensures
        optional_stream_info(j) == Some(None::<StreamInfoView>),
        cloudcast_of(j) is Some <==> required_text(j, "id"@) is Some && required_u32(
            j,
            "audioLength"@,
        ) is Some && required_text(j, "name"@) is Some && required_text(j, "description"@) is Some
            && required_instant(j, "publishDate"@) is Some,
        cloudcast_of(j) matches Some(c) ==> c.stream_info is None,
{
}

/// An optional string that is left out or `null` decodes as absent, and one
/// that is sent decodes as sent, the empty string included: the two are
/// never confused.
pub proof fn lemma_absent_text_differs_from_empty(j: Json, key: Seq<char>)
    ensures
        member_of(j, key) is None ==> optional_text(j, key) == Some(None::<Seq<char>>),
        member_of(j, key) == Some(Json::Null) ==> optional_text(j, key) == Some(None::<Seq<char>>),
        forall|t: Seq<char>|
            member_of(j, key) == Some(Json::Text(t)) ==> optional_text(j, key) == Some(Some(t)),
{
}

fn text_field(v: &serde_json::Value, key: &str) -> (r: Option<String>)
    ensures
        text_view(r) == required_text(json_model(*v), key@),
{
    match member(v, key) {
        Some(c) => match as_text(c) {
            Some(s) => Some(s.to_owned()),
            None => None,
        },
        None => None,
    }
}

fn optional_text_field(v: &serde_json::Value, key: &str) -> (r: Option<Option<String>>)
    ensures
        match r {
            Some(t) => optional_text(json_model(*v), key@) == Some(text_view(t)),
            None => optional_text(json_model(*v), key@) is None,
        },
{
    match member(v, key) {
        None => Some(None),
        Some(c) => {
            if is_null(c) {
                Some(None)
            } else {
                match as_text(c) {
                    Some(s) => Some(Some(s.to_owned())),
                    None => None,
                }
            }
        },
    }
}

fn u32_field(v: &serde_json::Value, key: &str) -> (r: Option<u32>)
    ensures
        r == required_u32(json_model(*v), key@),
{
    match member(v, key) {
        Some(c) => match as_unsigned(c) {
            Some(n) => if n <= u32::MAX as u64 {
                Some(n as u32)
            } else {
                None
            },
            None => None,
        },
        None => None,
    }
}

fn flag_field(v: &serde_json::Value, key: &str) -> (r: Option<bool>)
    ensures
        r == required_flag(json_model(*v), key@),
{
    match member(v, key) {
        Some(c) => as_flag(c),
        None => None,
    }
}

fn instant_field(v: &serde_json::Value, key: &str) -> (r: Option<Timestamp>)
    ensures
        r == required_instant(json_model(*v), key@),
{
    match member(v, key) {
        Some(c) => match as_text(c) {
            Some(s) => parse_instant(s),
            None => None,
        },
        None => None,
    }
}

/// Decodes a stream info.
pub fn decode_stream_info(v: &serde_json::Value) -> (r: Result<StreamInfo, DataError>)
    ensures
        match stream_info_of(json_model(*v)) {
            Some(s) => r matches Ok(x) && x@ == s,
            None => r matches Err(e) && e == DataError::Shape,
        },
{
    let dash_url = optional_text_field(v, "dashUrl");
    let hls_url = optional_text_field(v, "hlsUrl");
    let url = text_field(v, "url");
    let uuid = text_field(v, "uuid");
    match (dash_url, hls_url, url, uuid) {
        (Some(dash_url), Some(hls_url), Some(url), Some(uuid)) => Ok(
            StreamInfo { dash_url, hls_url, url, uuid },
        ),
        _ => Err(DataError::Shape),
    }
}

/// Decodes a set. A `streamInfo` that is left out or `null` gives a set
/// without stream info; one that is there must decode whole.
pub fn decode_cloudcast(v: &serde_json::Value) -> (r: Result<Cloudcast, DataError>)
    ensures
        match cloudcast_of(json_model(*v)) {
            Some(c) => r matches Ok(x) && x@ == c,
            None => r matches Err(e) && e == DataError::Shape,
        },
{
    let id = text_field(v, "id");
    let audio_length = u32_field(v, "audioLength");
    let name = text_field(v, "name");
    let description = text_field(v, "description");
    let stream_info = match member(v, "streamInfo") {
        None => Some(None),
        Some(inner) => {
            if is_null(inner) {
                Some(None)
            } else {
                match decode_stream_info(inner) {
                    Ok(s) => Some(Some(s)),
                    Err(_) => None,
                }
            }
        },
    };
    let publish_date = instant_field(v, "publishDate");
    match (id, audio_length, name, description, stream_info, publish_date) {
        (
            Some(id),
            Some(audio_length),
            Some(name),
            Some(description),
            Some(stream_info),
            Some(publish_date),
        ) => Ok(Cloudcast { id, audio_length, name, description, stream_info, publish_date }),
        _ => Err(DataError::Shape),
    }
}

/// Decodes one edge of the uploads connection.
pub fn decode_upload(v: &serde_json::Value) -> (r: Result<Upload, DataError>)
    ensures
        match upload_of(json_model(*v)) {
            Some(u) => r matches Ok(x) && x@ == u,
            None => r matches Err(e) && e == DataError::Shape,
        },
{
    let cursor = text_field(v, "cursor");
    match (member(v, "node"), cursor) {
        (Some(node), Some(cursor)) => match decode_cloudcast(node) {
            Ok(cloudcast) => Ok(Upload { cloudcast, cursor }),
            Err(e) => Err(e),
        },
        _ => Err(DataError::Shape),
    }
}

/// The documents that a list of values holds, in order.
pub open spec fn models_of(items: Seq<serde_json::Value>) -> Seq<Json> {
    Seq::new(items.len(), |i: int| json_model(items[i]))
}

/// Decodes a list of edges. One edge that is refused refuses the list.
pub fn decode_uploads(items: &Vec<serde_json::Value>) -> (r: Result<Vec<Upload>, DataError>)
    ensures
        match uploads_of(models_of(items@)) {
            Some(us) => r matches Ok(x) && upload_views(x@) == us,
            None => r matches Err(e) && e == DataError::Shape,
        },
{
    let ghost models = models_of(items@);
    let n = items.len();
    let mut out: Vec<Upload> = Vec::new();
    let mut i: usize = 0;
    while i < n
        invariant
            i <= n,
            n == items@.len(),
            models == models_of(items@),
            out@.len() == i,
            forall|j: int| 0 <= j < i ==> upload_of(#[trigger] models[j]) == Some(out@[j]@),
        decreases n - i,
    {
        match decode_upload(&items[i]) {
            Ok(u) => {
                assert(models[i as int] == json_model(items@[i as int]));
                out.push(u);
            },
            Err(e) => {
                assert(upload_of(models[i as int]) is None);
                return Err(e);
            },
        }
        i += 1;
    }
    assert(upload_views(out@) =~= uploads_of(models)->0);
    Ok(out)
}

/// Decodes the edges of a user document: the array at `uploads.edges`.
pub fn user_uploads_deser(v: &serde_json::Value) -> (r: Result<Vec<Upload>, DataError>)
    ensures
        match user_uploads_of(json_model(*v)) {
            Some(us) => r matches Ok(x) && upload_views(x@) == us,
            None => r matches Err(e) && e == DataError::Shape,
        },
{
    match member(v, "uploads") {
        Some(connection) => match member(connection, "edges") {
            Some(edges) => match as_items(edges) {
                Some(items) => {
                    assert(models_of(items@) =~= json_model(*edges)->Array_0);
                    decode_uploads(items)
                },
                None => Err(DataError::Shape),
            },
            None => Err(DataError::Shape),
        },
        None => Err(DataError::Shape),
    }
}

/// Decodes the data of an uploads response: the edges of its `user` member.
pub fn decode_uploads_data(v: &serde_json::Value) -> (r: Result<UserUploadsData, DataError>)
    ensures
        match uploads_data_of(json_model(*v)) {
            Some(us) => r matches Ok(x) && x@ == us,
            None => r matches Err(e) && e == DataError::Shape,
        },
{
    match member(v, "user") {
        Some(user) => match user_uploads_deser(user) {
            Ok(uploads) => Ok(UserUploadsData { uploads }),
            Err(e) => Err(e),
        },
        None => Err(DataError::Shape),
    }
}

/// Decodes a whole uploads response: the data under its `data` member.
pub fn decode_query_response(v: &serde_json::Value) -> (r: Result<
    QueryResponse<UserUploadsData>,
    DataError,
>)
    ensures
        match query_response_of(json_model(*v)) {
            Some(us) => r matches Ok(x) && x.data@ == us,
            None => r matches Err(e) && e == DataError::Shape,
        },
{
    match member(v, "data") {
        Some(data) => match decode_uploads_data(data) {
            Ok(data) => Ok(QueryResponse { data }),
            Err(e) => Err(e),
        },
        None => Err(DataError::Shape),
    }
}

/// Decodes a page info.
pub fn decode_page_info(v: &serde_json::Value) -> (r: Result<PageInfo, DataError>)
    ensures
        match page_info_of(json_model(*v)) {
            Some(p) => r matches Ok(x) && x@ == p,
            None => r matches Err(e) && e == DataError::Shape,
        },
{
    let end_cursor = text_field(v, "endCursor");
    let has_next_page = flag_field(v, "hasNextPage");
    match (end_cursor, has_next_page) {
        (Some(end_cursor), Some(has_next_page)) => Ok(PageInfo { end_cursor, has_next_page }),
        _ => Err(DataError::Shape),
    }
}

/// Decodes the page info of a whole uploads response.
pub fn decode_response_page_info(v: &serde_json::Value) -> (r: Result<PageInfo, DataError>)
    ensures
        match response_page_info_of(json_model(*v)) {
            Some(p) => r matches Ok(x) && x@ == p,
            None => r matches Err(e) && e == DataError::Shape,
        },
{
    let data = match member(v, "data") {
        Some(data) => data,
        None => {
            return Err(DataError::Shape);
        },
    };
    let user = match member(data, "user") {
        Some(user) => user,
        None => {
            return Err(DataError::Shape);
        },
    };
    let connection = match member(user, "uploads") {
        Some(connection) => connection,
        None => {
            return Err(DataError::Shape);
        },
    };
    match member(connection, "pageInfo") {
        Some(info) => decode_page_info(info),
        None => Err(DataError::Shape),
    }
}

/// Decodes a whole uploads response into the page that the pagination driver
/// takes: the edges and the page info. A response that fails in either part
/// is refused as a whole.
pub fn decode_page(v: &serde_json::Value) -> (r: Result<Page, DataError>)
    ensures
        match page_of(json_model(*v)) {
            Some(p) => r matches Ok(x) && x@ == p,
            None => r matches Err(e) && e == DataError::Shape,
        },
{
    match decode_query_response(v) {
        Ok(response) => match decode_response_page_info(v) {
            Ok(page_info) => Ok(Page { uploads: response.data.uploads, page_info }),
            Err(e) => Err(e),
        },
        Err(e) => Err(e),
    }
}

/// Decodes one summary of the REST-style listing. Every field is mandatory.
pub fn decode_summary(v: &serde_json::Value) -> (r: Result<CloudcastSummary, DataError>)
    ensures
        match summary_of(json_model(*v)) {
            Some(c) => r matches Ok(x) && x@ == c,
            None => r matches Err(e) && e == DataError::Shape,
        },
{
    let url = text_field(v, "url");
    let extra_large = match member(v, "pictures") {
        Some(pictures) => text_field(pictures, "extra_large"),
        None => None,
    };
    let created_time = instant_field(v, "created_time");
    let updated_time = instant_field(v, "updated_time");
    match (url, extra_large, created_time, updated_time) {
        (Some(url), Some(extra_large), Some(created_time), Some(updated_time)) => Ok(
            CloudcastSummary { url, pictures: Pictures { extra_large }, created_time, updated_time },
        ),
        _ => Err(DataError::Shape),
    }
}

/// Decodes a list of summaries. One summary that is refused refuses the list.
pub fn decode_summaries(items: &Vec<serde_json::Value>) -> (r: Result<
    Vec<CloudcastSummary>,
    DataError,
>)
    ensures
        match summaries_of(models_of(items@)) {
            Some(cs) => r matches Ok(x) && summary_views(x@) == cs,
            None => r matches Err(e) && e == DataError::Shape,
        },
{
    let ghost models = models_of(items@);
    let n = items.len();
    let mut out: Vec<CloudcastSummary> = Vec::new();
    let mut i: usize = 0;
    while i < n
        invariant
            i <= n,
            n == items@.len(),
            models == models_of(items@),
            out@.len() == i,
            forall|j: int| 0 <= j < i ==> summary_of(#[trigger] models[j]) == Some(out@[j]@),
        decreases n - i,
    {
        match decode_summary(&items[i]) {
            Ok(c) => {
                assert(models[i as int] == json_model(items@[i as int]));
                out.push(c);
            },
            Err(e) => {
                assert(summary_of(models[i as int]) is None);
                return Err(e);
            },
        }
        i += 1;
    }
    assert(summary_views(out@) =~= summaries_of(models)->0);
    Ok(out)
}

/// Decodes one page of the REST-style listing. One summary that is refused
/// refuses the whole page.
pub fn decode_listing(v: &serde_json::Value) -> (r: Result<Listing, DataError>)
    ensures
        match listing_of(json_model(*v)) {
            Some(l) => r matches Ok(x) && x@ == l,
            None => r matches Err(e) && e == DataError::Shape,
        },
{
    let next = match member(v, "paging") {
        None => Some(None),
        Some(paging) => optional_text_field(paging, "next"),
    };
    match (member(v, "data"), next) {
        (Some(data), Some(next)) => match as_items(data) {
            Some(items) => {
                assert(models_of(items@) =~= json_model(*data)->Array_0);
                match decode_summaries(items) {
                    Ok(sets) => Ok(Listing { sets, next }),
                    Err(e) => Err(e),
                }
            },
            None => Err(DataError::Shape),
        },
        _ => Err(DataError::Shape),
    }
}

/// Reads the number of sets that a creator's summary document announces.
pub fn cloudcast_count(v: &serde_json::Value) -> (r: Result<i64, DataError>)
    ensures
        match cloudcast_count_of(json_model(*v)) {
            Some(n) => r == Ok::<i64, DataError>(n),
            None => r == Err::<i64, DataError>(DataError::Shape),
        },
{
    match member(v, "cloudcast_count") {
        Some(c) => match as_signed(c) {
            Some(n) => Ok(n),
            None => Err(DataError::Shape),
        },
        None => Err(DataError::Shape),
    }
}

/// Reads the platform's id of the creator from a lookup response.
pub fn user_lookup_id(v: &serde_json::Value) -> (r: Result<String, DataError>)
    ensures
        match user_id_of(json_model(*v)) {
            Some(id) => r matches Ok(x) && x@ == id,
            None => r matches Err(e) && e == DataError::Shape,
        },
{
    match member(v, "data") {
        Some(data) => match member(data, "userLookup") {
            Some(user) => match text_field(user, "id") {
                Some(id) => Ok(id),
                None => Err(DataError::Shape),
            },
            None => Err(DataError::Shape),
        },
        None => Err(DataError::Shape),
    }
}

} // verus!
