//! The walk through the REST-style listing, which names each next page by
//! its address.

use vstd::prelude::*;
use crate::data::{CloudcastSummary, CloudcastSummaryView, Listing, ListingView};
use crate::data::{summary_views, text_view};

verus! {

/// The state of a walk through the listing: the address to get next, and the
/// summaries gathered so far.
#[derive(Debug)]
pub struct ListingWalk {
    next: Option<String>,
    sets: Vec<CloudcastSummary>,
}

pub struct ListingWalkView {
    /// The address of the page to get next; `None` once the walk is over.
    pub next: Option<Seq<char>>,
    pub sets: Seq<CloudcastSummaryView>,
}

impl View for ListingWalk {
    type V = ListingWalkView;

    closed spec fn view(&self) -> ListingWalkView {
        ListingWalkView { next: text_view(self.next), sets: summary_views(self.sets@) }
    }
}

/// The state after a page has come in: its summaries are appended in order,
/// and the walk goes on to the page that this one names. A page that names
/// none, or holds no summary, ends the walk. A finished walk takes no more
/// pages.
pub open spec fn after_listing(s: ListingWalkView, page: ListingView) -> ListingWalkView {
    if s.next is None {
        s
    } else {
        ListingWalkView {
            next: if page.sets.len() == 0 {
                None
            } else {
                page.next
            },
            sets: s.sets + page.sets,
        }
    }
}

impl ListingWalk {
    /// A walk that starts at the given address.
    pub fn new(first_page: String) -> (w: ListingWalk)
        ensures
            w@ == (ListingWalkView { next: Some(first_page@), sets: Seq::empty() }),
    {
        let w = ListingWalk { next: Some(first_page), sets: Vec::new() };
        assert(summary_views(w.sets@) =~= Seq::empty());
        w
    }

    /// The address to get next, or `None` once the walk is over.
    pub fn next_page(&self) -> (r: Option<String>)
        ensures
            text_view(r) == self@.next,
    {
        match &self.next {
            Some(url) => Some(url.clone()),
            None => None,
        }
    }

    /// Takes in the page that was got from the address that was due.
    pub fn accept(&mut self, page: Listing)
        ensures
            final(self)@ == after_listing(old(self)@, page@),
    {
        if self.next.is_none() {
            return ;
        }
        let Listing { sets, next } = page;
        let ghost before = self.sets@;
        let ghost added = sets@;
        let n = sets.len();
        let mut sets = sets;
        self.sets.append(&mut sets);
        assert(summary_views(before + added) =~= summary_views(before) + summary_views(added));
        self.next = if n == 0 {
            None
        } else {
            next
        };
    }

    /// Ends the walk and hands out what it gathered.
    pub fn into_sets(self) -> (r: Vec<CloudcastSummary>)
        ensures
            summary_views(r@) == self@.sets,
    {
        self.sets
    }
}

} // verus!
