//! The pagination driver: which page to ask for next, what to keep of each
//! page, and when the walk is over.
//!
//! The driver never talks to the network. The caller asks it for the next
//! request, performs it, and hands the decoded page back.

use vstd::prelude::*;
use crate::data::{Cloudcast, CloudcastView, PageInfo, PageInfoView, Upload, UploadView};
use crate::data::{cloudcast_views, nodes_of, text_view, upload_views};

verus! {

/// One decoded page of the uploads listing.
#[derive(Debug)]
pub struct Page {
    pub uploads: Vec<Upload>,
    pub page_info: PageInfo,
}

pub struct PageView {
    pub edges: Seq<UploadView>,
    pub page_info: PageInfoView,
}

impl View for Page {
    type V = PageView;

    open spec fn view(&self) -> PageView {
        PageView { edges: upload_views(self.uploads@), page_info: self.page_info@ }
    }
}

/// The views of a list of pages, in order.
pub open spec fn page_views(pages: Seq<Page>) -> Seq<PageView> {
    Seq::new(pages.len(), |i: int| pages[i]@)
}

/// The variables of the next request: the page size, and the cursor after
/// which the page starts (`None` for the first page).
#[derive(Debug)]
pub struct PageRequest {
    pub first: u32,
    pub after_cursor: Option<String>,
}

/// The state of a walk through the listing.
#[derive(Debug)]
pub struct Pager {
    page_size: u32,
    cursor: Option<String>,
    casts: Vec<Cloudcast>,
    finished: bool,
}

pub struct PagerView {
    pub page_size: u32,
    pub cursor: Option<Seq<char>>,
    pub casts: Seq<CloudcastView>,
    pub finished: bool,
}

/// A page ends the walk when the server reports no next page, or when it
/// holds no edge at all.
pub open spec fn is_last(page: PageView) -> bool {
    !page.page_info.has_next_page || page.edges.len() == 0
}

/// The state of a walk before its first request.
pub open spec fn start_of_walk(page_size: u32) -> PagerView {
    PagerView { page_size, cursor: None, casts: Seq::empty(), finished: false }
}

/// The state after a page has come in: its sets are appended in order, the
/// cursor moves to the page's last edge (and stays where the page has none),
/// and the walk ends on a last page. A finished walk takes no more pages.
pub open spec fn after_page(s: PagerView, page: PageView) -> PagerView {
    if s.finished {
        s
    } else {
        PagerView {
            page_size: s.page_size,
            cursor: if page.edges.len() > 0 {
                Some(page.edges.last().cursor)
            } else {
                s.cursor
            },
            casts: s.casts + nodes_of(page.edges),
            finished: is_last(page),
        }
    }
}

/// The sets of a run of pages, in the order received.
pub open spec fn all_nodes(pages: Seq<PageView>) -> Seq<CloudcastView>
    decreases pages.len(),
{
    if pages.len() == 0 {
        Seq::empty()
    } else {
        all_nodes(pages.drop_last()) + nodes_of(pages.last().edges)
    }
}

/// The number of edges in a run of pages.
pub open spec fn total_edges(pages: Seq<PageView>) -> nat
    decreases pages.len(),
{
    if pages.len() == 0 {
        0
    } else {
        total_edges(pages.drop_last()) + pages.last().edges.len()
    }
}

/// A walk gathers one set for every edge of every page it took in.
pub proof fn lemma_walk_gathers_every_edge(pages: Seq<PageView>)
    ensures
        all_nodes(pages).len() == total_edges(pages),
    decreases pages.len(),
{
    if pages.len() > 0 {
        lemma_walk_gathers_every_edge(pages.drop_last());
    }
}

/// A page without edges ends the walk in any state, whatever the server says
/// about a next page, and leaves the cursor and the gathered sets as they
/// were: the driver cannot ask for the same empty page again.
pub proof fn lemma_empty_page_ends_walk(s: PagerView, page: PageView)
    requires
        page.edges.len() == 0,
    ensures
        after_page(s, page).finished,
        after_page(s, page).cursor == s.cursor,
        after_page(s, page).casts == s.casts,
{
    assert(s.casts + nodes_of(page.edges) =~= s.casts);
}

/// What a completed walk produced.
#[derive(Debug)]
pub struct Walk {
    /// The sets of all pages, in the order received.
    pub casts: Vec<Cloudcast>,
    /// How many requests the walk took.
    pub requests: usize,
}

impl View for Pager {
    type V = PagerView;

    closed spec fn view(&self) -> PagerView {
        PagerView {
            page_size: self.page_size,
            cursor: text_view(self.cursor),
            casts: cloudcast_views(self.casts@),
            finished: self.finished,
        }
    }
}

impl Pager {
    /// A walk that has not asked for anything yet.
    pub fn new(page_size: u32) -> (p: Pager)
        ensures
            p@ == start_of_walk(page_size),
    {
        let p = Pager { page_size, cursor: None, casts: Vec::new(), finished: false };
        assert(cloudcast_views(p.casts@) =~= Seq::empty());
        p
    }

    /// Whether the walk is over.
    pub fn finished(&self) -> (b: bool)
        ensures
            b == self@.finished,
    {
        self.finished
    }

    /// The request to issue next, or `None` once the walk is over.
    pub fn next_request(&self) -> (r: Option<PageRequest>)
        ensures
            self@.finished <==> r is None,
            r matches Some(q) ==> q.first == self@.page_size && text_view(q.after_cursor)
                == self@.cursor,
    {
        if self.finished {
            None
        } else {
            let after_cursor = match &self.cursor {
                Some(c) => Some(c.clone()),
                None => None,
            };
            Some(PageRequest { first: self.page_size, after_cursor })
        }
    }

    /// Takes in the page that answered the last request.
    pub fn accept(&mut self, page: Page)
        ensures
            final(self)@ == after_page(old(self)@, page@),
    {
        if self.finished {
            return ;
        }
        let Page { uploads, page_info } = page;
        let ghost edges = upload_views(uploads@);
        let ghost before = self@;
        let n = uploads.len();
        for upload in it: uploads.into_iter()
            invariant
                it.seq() == uploads@,
                n == uploads@.len(),
                edges == upload_views(uploads@),
                self.page_size == before.page_size,
                !self.finished,
                cloudcast_views(self.casts@) == before.casts + nodes_of(edges).take(
                    it.index() as int,
                ),
                text_view(self.cursor) == if it.index() > 0 {
                    Some(edges[it.index() - 1].cursor)
                } else {
                    before.cursor
                },
        {
            let ghost i = it.index() as int;
            assert(edges[i] == upload@);
            let ghost prev = self.casts@;
            let Upload { cloudcast, cursor } = upload;
            assert(cloudcast_views(prev.push(cloudcast)) =~= cloudcast_views(prev).push(
                edges[i].cloudcast,
            ));
            self.casts.push(cloudcast);
            self.cursor = Some(cursor);
            assert(nodes_of(edges).take(i + 1) =~= nodes_of(edges).take(i).push(
                edges[i].cloudcast,
            ));
            assert(cloudcast_views(self.casts@) =~= before.casts + nodes_of(edges).take(i + 1));
        }
        assert(nodes_of(edges).take(n as int) =~= nodes_of(edges));
        self.finished = !page_info.has_next_page || n == 0;
    }

    /// The sets gathered so far, in the order received.
    pub fn casts(&self) -> (r: &Vec<Cloudcast>)
        ensures
            cloudcast_views(r@) == self@.casts,
    {
        &self.casts
    }

    /// Ends the walk and hands out what it gathered.
    pub fn into_casts(self) -> (r: Vec<Cloudcast>)
        ensures
            cloudcast_views(r@) == self@.casts,
    {
        self.casts
    }
}

/// Walks through a prepared run of responses, as the driver would against a
/// server that answers the n-th request with the n-th page. The walk takes
/// pages up to and including the first last page and ignores what follows it.
/// If the responses run out before a last page, the walk has failed and
/// nothing is kept.
pub fn walk_pages(page_size: u32, pages: Vec<Page>) -> (r: Option<Walk>)
    ensures
        match r {
            Some(w) => {
                &&& 1 <= w.requests <= pages@.len()
                &&& is_last(pages@[w.requests - 1]@)
                &&& forall|j: int| 0 <= j < w.requests - 1 ==> !#[trigger] is_last(pages@[j]@)
                &&& cloudcast_views(w.casts@) == all_nodes(
                    page_views(pages@).take(w.requests as int),
                )
            },
            None => forall|j: int| 0 <= j < pages@.len() ==> !#[trigger] is_last(pages@[j]@),
        },
{
    let mut pager = Pager::new(page_size);
    let mut requests: usize = 0;
    let ghost views = page_views(pages@);
    let n = pages.len();
    assert(views.take(0) =~= Seq::empty());
    for page in it: pages.into_iter()
        invariant
            it.seq() == pages@,
            n == pages@.len(),
            views == page_views(pages@),
            requests == it.index(),
            !pager@.finished,
            pager@.casts == all_nodes(views.take(it.index() as int)),
            forall|j: int| 0 <= j < it.index() ==> !#[trigger] is_last(pages@[j]@),
    {
        let ghost i = it.index() as int;
        assert(views[i] == page@);
        assert(views.take(i + 1).drop_last() =~= views.take(i));
        pager.accept(page);
        requests += 1;
        if pager.finished() {
            return Some(Walk { casts: pager.into_casts(), requests });
        }
    }
    None
}

} // verus!
