//! The typed records that the platform's responses decode into.

use vstd::prelude::*;
use crate::instant::Timestamp;

verus! {

/// Where a set can be streamed from. The DASH and HLS addresses are optional
/// upstream, and an omitted one stays `None`.
#[derive(Debug)]
pub struct StreamInfo {
    pub dash_url: Option<String>,
    pub hls_url: Option<String>,
    pub url: String,
    pub uuid: String,
}

pub struct StreamInfoView {
    pub dash_url: Option<Seq<char>>,
    pub hls_url: Option<Seq<char>>,
    pub url: Seq<char>,
    pub uuid: Seq<char>,
}

/// The view of an optional string.
pub open spec fn text_view(s: Option<String>) -> Option<Seq<char>> {
    match s {
        Some(t) => Some(t@),
        None => None,
    }
}

impl View for StreamInfo {
    type V = StreamInfoView;

    open spec fn view(&self) -> StreamInfoView {
        StreamInfoView {
            dash_url: text_view(self.dash_url),
            hls_url: text_view(self.hls_url),
            url: self.url@,
            uuid: self.uuid@,
        }
    }
}

/// One audio set as the GraphQL endpoint describes it.
#[derive(Debug)]
pub struct Cloudcast {
    pub id: String,
    pub audio_length: u32,
    pub name: String,
    pub description: String,
    /// `None` where the platform withholds the stream from the requester's region.
    pub stream_info: Option<StreamInfo>,
    pub publish_date: Timestamp,
}

pub struct CloudcastView {
    pub id: Seq<char>,
    pub audio_length: u32,
    pub name: Seq<char>,
    pub description: Seq<char>,
    pub stream_info: Option<StreamInfoView>,
    pub publish_date: Timestamp,
}

impl View for Cloudcast {
    type V = CloudcastView;

    open spec fn view(&self) -> CloudcastView {
        CloudcastView {
            id: self.id@,
            audio_length: self.audio_length,
            name: self.name@,
            description: self.description@,
            stream_info: match self.stream_info {
                Some(s) => Some(s@),
                None => None,
            },
            publish_date: self.publish_date,
        }
    }
}

/// One edge of the uploads connection: a set, and the cursor that names its
/// position in the listing.
#[derive(Debug)]
pub struct Upload {
    pub cloudcast: Cloudcast,
    pub cursor: String,
}

pub struct UploadView {
    pub cloudcast: CloudcastView,
    pub cursor: Seq<char>,
}

impl View for Upload {
    type V = UploadView;

    open spec fn view(&self) -> UploadView {
        UploadView { cloudcast: self.cloudcast@, cursor: self.cursor@ }
    }
}

/// The views of a list of edges, in order.
pub open spec fn upload_views(uploads: Seq<Upload>) -> Seq<UploadView> {
    Seq::new(uploads.len(), |i: int| uploads[i]@)
}

/// The views of a list of sets, in order.
pub open spec fn cloudcast_views(casts: Seq<Cloudcast>) -> Seq<CloudcastView> {
    Seq::new(casts.len(), |i: int| casts[i]@)
}

/// The sets that a list of edges carries, in order.
pub open spec fn nodes_of(uploads: Seq<UploadView>) -> Seq<CloudcastView> {
    Seq::new(uploads.len(), |i: int| uploads[i].cloudcast)
}

/// The `data` member of an uploads response: the edges of one page.
#[derive(Debug)]
pub struct UserUploadsData {
    pub uploads: Vec<Upload>,
}

impl View for UserUploadsData {
    type V = Seq<UploadView>;

    open spec fn view(&self) -> Seq<UploadView> {
        upload_views(self.uploads@)
    }
}

/// The envelope of a GraphQL response.
#[derive(Debug)]
pub struct QueryResponse<D> {
    pub data: D,
}

/// Whether the listing goes on after a page, and the server's own end cursor.
#[derive(Debug)]
pub struct PageInfo {
    pub end_cursor: String,
    pub has_next_page: bool,
}

pub struct PageInfoView {
    pub end_cursor: Seq<char>,
    pub has_next_page: bool,
}

impl View for PageInfo {
    type V = PageInfoView;

    open spec fn view(&self) -> PageInfoView {
        PageInfoView { end_cursor: self.end_cursor@, has_next_page: self.has_next_page }
    }
}

/// The cover images of a set.
#[derive(Debug)]
pub struct Pictures {
    pub extra_large: String,
}

/// One audio set as the REST-style endpoint lists it: what the store keeps.
#[derive(Debug)]
pub struct CloudcastSummary {
    pub url: String,
    pub pictures: Pictures,
    pub created_time: Timestamp,
    pub updated_time: Timestamp,
}

pub struct CloudcastSummaryView {
    pub url: Seq<char>,
    pub cover_url: Seq<char>,
    pub created_time: Timestamp,
    pub updated_time: Timestamp,
}

impl View for CloudcastSummary {
    type V = CloudcastSummaryView;

    open spec fn view(&self) -> CloudcastSummaryView {
        CloudcastSummaryView {
            url: self.url@,
            cover_url: self.pictures.extra_large@,
            created_time: self.created_time,
            updated_time: self.updated_time,
        }
    }
}

/// The views of a list of summaries, in order.
pub open spec fn summary_views(sets: Seq<CloudcastSummary>) -> Seq<CloudcastSummaryView> {
    Seq::new(sets.len(), |i: int| sets[i]@)
}

/// One page of the REST-style listing: its summaries, and the address of the
/// page after it where there is one.
#[derive(Debug)]
pub struct Listing {
    pub sets: Vec<CloudcastSummary>,
    pub next: Option<String>,
}

pub struct ListingView {
    pub sets: Seq<CloudcastSummaryView>,
    pub next: Option<Seq<char>>,
}

impl View for Listing {
    type V = ListingView;

    open spec fn view(&self) -> ListingView {
        ListingView { sets: summary_views(self.sets@), next: text_view(self.next) }
    }
}

} // verus!
