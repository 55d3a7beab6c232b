//! The crawl orchestrator: a state machine from an unauthenticated start to
//! a persisted store, by way of the session, the creator's id and the walk
//! through the uploads listing.
//!
//! The machine performs no request and no write to disk. The caller asks for
//! the next action, carries it out, and reports what came back; any failure
//! ends the crawl. The store is touched in one step only, the last.

use vstd::prelude::*;
use crate::data::{Cloudcast, CloudcastSummary, CloudcastSummaryView, summary_views};
use crate::data::{cloudcast_views, text_view};
use crate::db::{Store, StoreView, persist, persisted};
use crate::decode::{decode_page, page_of, user_id_of, user_lookup_id};
use crate::error::{AuthError, DataError, Failure};
use crate::json::{Json, json_model};
use crate::pager::{Pager, PagerView, after_page, start_of_walk};
use crate::session::{Cookie, CookieView, Header, Session, SessionView};
use crate::session::{cookie_views, csrf_token_of, get_csrf_token, graphql_headers, header_views};
use crate::session::session_headers;

verus! {

/// The order in which the uploads listing is asked for.
pub const ORDER_BY: &'static str = "LATEST";

/// Where a crawl stands.
#[derive(Clone, Copy, Debug, PartialEq, Eq, Structural)]
pub enum Phase {
    Unauthenticated,
    SessionEstablished,
    CreatorResolved,
    PagesFetching,
    Persisted,
    Aborted,
}

/// What the caller has to do next.
#[derive(Clone, Copy, Debug, PartialEq, Eq, Structural)]
pub enum Action {
    /// Get the profile page and report the cookies of the response.
    FetchProfile,
    /// Post the creator lookup query and report the response.
    LookUpCreator,
    /// Start the walk through the uploads listing.
    BeginPages,
    /// Post the uploads query and report the response.
    FetchPage,
    /// Hand over the store and the sets to write.
    Persist,
    /// Nothing: the crawl is over.
    Stop,
}

/// The variables of one uploads query.
#[derive(Debug)]
pub struct UploadsQuery {
    pub first: u32,
    pub order_by: String,
    pub after_cursor: Option<String>,
    pub user_id: String,
}

pub struct UploadsQueryView {
    pub first: u32,
    pub order_by: Seq<char>,
    pub after_cursor: Option<Seq<char>>,
    pub user_id: Seq<char>,
}

impl View for UploadsQuery {
    type V = UploadsQueryView;

    open spec fn view(&self) -> UploadsQueryView {
        UploadsQueryView {
            first: self.first,
            order_by: self.order_by@,
            after_cursor: text_view(self.after_cursor),
            user_id: self.user_id@,
        }
    }
}

#[derive(Debug)]
enum State {
    Unauthenticated,
    SessionEstablished { session: Session },
    CreatorResolved { session: Session, creator_id: String },
    PagesFetching { session: Session, creator_id: String, pager: Pager },
    Persisted { dj_id: i64 },
    Aborted { reason: Failure },
}

/// A crawl and what it has learned so far.
#[derive(Debug)]
pub struct Crawl {
    state: State,
}

pub enum CrawlView {
    Unauthenticated,
    SessionEstablished { session: SessionView },
    CreatorResolved { session: SessionView, creator_id: Seq<char> },
    PagesFetching { session: SessionView, creator_id: Seq<char>, pager: PagerView },
    Persisted { dj_id: i64 },
    Aborted { reason: Failure },
}

impl View for Crawl {
    type V = CrawlView;

    closed spec fn view(&self) -> CrawlView {
        match self.state {
            State::Unauthenticated => CrawlView::Unauthenticated,
            State::SessionEstablished { session } => CrawlView::SessionEstablished {
                session: session@,
            },
            State::CreatorResolved { session, creator_id } => CrawlView::CreatorResolved {
                session: session@,
                creator_id: creator_id@,
            },
            State::PagesFetching { session, creator_id, pager } => CrawlView::PagesFetching {
                session: session@,
                creator_id: creator_id@,
                pager: pager@,
            },
            State::Persisted { dj_id } => CrawlView::Persisted { dj_id },
            State::Aborted { reason } => CrawlView::Aborted { reason },
        }
    }
}

/// The phase of a state.
pub open spec fn phase_of(s: CrawlView) -> Phase {
    match s {
        CrawlView::Unauthenticated => Phase::Unauthenticated,
        CrawlView::SessionEstablished { .. } => Phase::SessionEstablished,
        CrawlView::CreatorResolved { .. } => Phase::CreatorResolved,
        CrawlView::PagesFetching { .. } => Phase::PagesFetching,
        CrawlView::Persisted { .. } => Phase::Persisted,
        CrawlView::Aborted { .. } => Phase::Aborted,
    }
}

/// How far a phase is along the way; an aborted crawl is off the way.
pub open spec fn rank(p: Phase) -> int {
    match p {
        Phase::Unauthenticated => 0,
        Phase::SessionEstablished => 1,
        Phase::CreatorResolved => 2,
        Phase::PagesFetching => 3,
        Phase::Persisted => 4,
        Phase::Aborted => 5,
    }
}

/// A crawl that is over: persisted or aborted.
pub open spec fn is_terminal(s: CrawlView) -> bool {
    s is Persisted || s is Aborted
}

/// The only moves a crawl makes: a finished crawl stays as it is; any other
/// stays in its phase, goes on to the next, or is aborted.
pub open spec fn moves_forward(before: CrawlView, after: CrawlView) -> bool {
    if is_terminal(before) {
        after == before
    } else {
        after is Aborted || rank(phase_of(after)) == rank(phase_of(before)) || rank(
            phase_of(after),
        ) == rank(phase_of(before)) + 1
    }
}

/// The action that is due in a state.
pub open spec fn action_of(s: CrawlView) -> Action {
    match s {
        CrawlView::Unauthenticated => Action::FetchProfile,
        CrawlView::SessionEstablished { .. } => Action::LookUpCreator,
        CrawlView::CreatorResolved { .. } => Action::BeginPages,
        CrawlView::PagesFetching { pager, .. } => if pager.finished {
            Action::Persist
        } else {
            Action::FetchPage
        },
        CrawlView::Persisted { .. } => Action::Stop,
        CrawlView::Aborted { .. } => Action::Stop,
    }
}

/// The session of a state that has one.
pub open spec fn session_of(s: CrawlView) -> Option<SessionView> {
    match s {
        CrawlView::SessionEstablished { session } => Some(session),
        CrawlView::CreatorResolved { session, .. } => Some(session),
        CrawlView::PagesFetching { session, .. } => Some(session),
        _ => None,
    }
}

/// The uploads query that is due in a state: there is one while the walk is
/// under way.
pub open spec fn query_of(s: CrawlView) -> Option<UploadsQueryView> {
    match s {
        CrawlView::PagesFetching { creator_id, pager, .. } => if pager.finished {
            None
        } else {
            Some(
                UploadsQueryView {
                    first: pager.page_size,
                    order_by: ORDER_BY@,
                    after_cursor: pager.cursor,
                    user_id: creator_id,
                },
            )
        },
        _ => None,
    }
}

/// The state after the profile page's cookies have come in. An
/// unauthenticated crawl gets its session from the CSRF cookie and is aborted
/// without one; every other state ignores the report.
pub open spec fn after_profile(s: CrawlView, profile_url: Seq<char>, cookies: Seq<CookieView>)
    -> CrawlView {
    match s {
        CrawlView::Unauthenticated => match csrf_token_of(cookies) {
            Some(csrf_token) => CrawlView::SessionEstablished {
                session: SessionView { csrf_token, profile_url },
            },
            None => CrawlView::Aborted { reason: Failure::Auth(AuthError::MissingCsrfCookie) },
        },
        _ => s,
    }
}

/// The state after the creator lookup's response has come in.
pub open spec fn after_creator(s: CrawlView, response: Json) -> CrawlView {
    match s {
        CrawlView::SessionEstablished { session } => match user_id_of(response) {
            Some(creator_id) => CrawlView::CreatorResolved { session, creator_id },
            None => CrawlView::Aborted { reason: Failure::Data(DataError::Shape) },
        },
        _ => s,
    }
}

/// The state after the walk has been started.
pub open spec fn after_begin(s: CrawlView, page_size: u32) -> CrawlView {
    match s {
        CrawlView::CreatorResolved { session, creator_id } => CrawlView::PagesFetching {
            session,
            creator_id,
            pager: start_of_walk(page_size),
        },
        _ => s,
    }
}

/// The state after an uploads response has come in. While the walk is under
/// way the page is decoded and taken in; a response that does not decode
/// aborts the crawl, and with it all that the walk has gathered.
pub open spec fn after_response(s: CrawlView, response: Json) -> CrawlView {
    match s {
        CrawlView::PagesFetching { session, creator_id, pager } => if pager.finished {
            s
        } else {
            match page_of(response) {
                Some(page) => CrawlView::PagesFetching {
                    session,
                    creator_id,
                    pager: after_page(pager, page),
                },
                None => CrawlView::Aborted { reason: Failure::Data(DataError::Shape) },
            }
        },
        _ => s,
    }
}

/// The state and the store after the persistence step. Once the walk is over,
/// the creator and the sets are written as one change; a refused write aborts
/// the crawl and leaves the store as it was. In every other state nothing
/// happens.
pub open spec fn after_persist(
    s: CrawlView,
    store: StoreView,
    username: Seq<char>,
    sets: Seq<CloudcastSummaryView>,
) -> (CrawlView, StoreView) {
    match s {
        CrawlView::PagesFetching { creator_id, pager, .. } => if pager.finished {
            match persisted(store, username, creator_id, sets) {
                Ok((id, after)) => (CrawlView::Persisted { dj_id: id as i64 }, after),
                Err(e) => (CrawlView::Aborted { reason: Failure::Store(e) }, store),
            }
        } else {
            (s, store)
        },
        _ => (s, store),
    }
}

/// The state after a failure has been reported: a crawl that is not over is
/// aborted for that reason.
pub open spec fn after_failure(s: CrawlView, reason: Failure) -> CrawlView {
    if is_terminal(s) {
        s
    } else {
        CrawlView::Aborted { reason }
    }
}

/// Every step of a crawl moves forward: no report takes a crawl back to an
/// earlier phase, skips a phase, or changes a crawl that is over.
pub proof fn lemma_steps_move_forward(
    s: CrawlView,
    profile_url: Seq<char>,
    cookies: Seq<CookieView>,
    response: Json,
    page_size: u32,
    store: StoreView,
    username: Seq<char>,
    sets: Seq<CloudcastSummaryView>,
    reason: Failure,
)
    ensures
        moves_forward(s, after_profile(s, profile_url, cookies)),
        moves_forward(s, after_creator(s, response)),
        moves_forward(s, after_begin(s, page_size)),
        moves_forward(s, after_response(s, response)),
        moves_forward(s, after_persist(s, store, username, sets).0),
        moves_forward(s, after_failure(s, reason)),
{
}

/// The store changes in the persistence step only, and there only where the
/// crawl ends persisted.
pub proof fn lemma_only_persisted_crawl_writes(
    s: CrawlView,
    store: StoreView,
    username: Seq<char>,
    sets: Seq<CloudcastSummaryView>,
)
    ensures
        after_persist(s, store, username, sets).1 == store || (s is PagesFetching
            && after_persist(s, store, username, sets).0 is Persisted),
{
}

/// A reported failure aborts any crawl that is not over.
pub proof fn lemma_failure_aborts(s: CrawlView, reason: Failure)
    requires
        !is_terminal(s),
    ensures
        after_failure(s, reason) == (CrawlView::Aborted { reason }),
{
}

impl Crawl {
    /// A crawl that has not started.
    pub fn new() -> (c: Crawl)
        ensures
            c@ == CrawlView::Unauthenticated,
    {
        Crawl { state: State::Unauthenticated }
    }

    /// Where the crawl stands.
    pub fn phase(&self) -> (p: Phase)
        ensures
            p == phase_of(self@),
    {
        match &self.state {
            State::Unauthenticated => Phase::Unauthenticated,
            State::SessionEstablished { .. } => Phase::SessionEstablished,
            State::CreatorResolved { .. } => Phase::CreatorResolved,
            State::PagesFetching { .. } => Phase::PagesFetching,
            State::Persisted { .. } => Phase::Persisted,
            State::Aborted { .. } => Phase::Aborted,
        }
    }

    /// What the caller has to do next.
    pub fn next_action(&self) -> (a: Action)
        ensures
            a == action_of(self@),
    {
        match &self.state {
            State::Unauthenticated => Action::FetchProfile,
            State::SessionEstablished { .. } => Action::LookUpCreator,
            State::CreatorResolved { .. } => Action::BeginPages,
            State::PagesFetching { pager, .. } => if pager.finished() {
                Action::Persist
            } else {
                Action::FetchPage
            },
            State::Persisted { .. } => Action::Stop,
            State::Aborted { .. } => Action::Stop,
        }
    }

    /// Why the crawl was aborted, if it was.
    pub fn failure(&self) -> (r: Option<Failure>)
        ensures
            match self@ {
                CrawlView::Aborted { reason } => r == Some(reason),
                _ => r is None,
            },
    {
        match &self.state {
            State::Aborted { reason } => Some(*reason),
            _ => None,
        }
    }

    /// The store's id of the creator, once the crawl is persisted.
    pub fn dj_id(&self) -> (r: Option<i64>)
        ensures
            match self@ {
                CrawlView::Persisted { dj_id } => r == Some(dj_id),
                _ => r is None,
            },
    {
        match &self.state {
            State::Persisted { dj_id } => Some(*dj_id),
            _ => None,
        }
    }

    /// The headers of the session's GraphQL requests, once there is a session.
    pub fn headers(&self) -> (r: Option<Vec<Header>>)
        ensures
            match session_of(self@) {
                Some(s) => r matches Some(h) && header_views(h@) == session_headers(s),
                None => r is None,
            },
    {
        match &self.state {
            State::SessionEstablished { session } => Some(graphql_headers(session)),
            State::CreatorResolved { session, .. } => Some(graphql_headers(session)),
            State::PagesFetching { session, .. } => Some(graphql_headers(session)),
            _ => None,
        }
    }

    /// The variables of the uploads query that is due, while the walk is
    /// under way.
    pub fn uploads_query(&self) -> (r: Option<UploadsQuery>)
        ensures
            match query_of(self@) {
                Some(q) => r matches Some(x) && x@ == q,
                None => r is None,
            },
    {
        match &self.state {
            State::PagesFetching { creator_id, pager, .. } => match pager.next_request() {
                Some(request) => Some(
                    UploadsQuery {
                        first: request.first,
                        order_by: ORDER_BY.to_owned(),
                        after_cursor: request.after_cursor,
                        user_id: creator_id.clone(),
                    },
                ),
                None => None,
            },
            _ => None,
        }
    }

    /// The sets that the walk has gathered, while there is a walk.
    pub fn casts(&self) -> (r: Option<&Vec<Cloudcast>>)
        ensures
            match self@ {
                CrawlView::PagesFetching { pager, .. } => r matches Some(c) && cloudcast_views(c@)
                    == pager.casts,
                _ => r is None,
            },
    {
        match &self.state {
            State::PagesFetching { pager, .. } => Some(pager.casts()),
            _ => None,
        }
    }

    /// Reports the cookies that came with the profile page.
    pub fn profile_received(self, profile_url: &str, cookies: &Vec<Cookie>) -> (next: Crawl)
        ensures
            next@ == after_profile(self@, profile_url@, cookie_views(cookies@)),
    {
        match self.state {
            State::Unauthenticated => match get_csrf_token(cookies) {
                Ok(csrf_token) => Crawl {
                    state: State::SessionEstablished {
                        session: Session { csrf_token, profile_url: profile_url.to_owned() },
                    },
                },
                Err(e) => Crawl { state: State::Aborted { reason: Failure::Auth(e) } },
            },
            other => Crawl { state: other },
        }
    }

    /// Reports the response to the creator lookup.
    pub fn creator_received(self, response: &serde_json::Value) -> (next: Crawl)
        ensures
            next@ == after_creator(self@, json_model(*response)),
    {
        match self.state {
            State::SessionEstablished { session } => match user_lookup_id(response) {
                Ok(creator_id) => Crawl { state: State::CreatorResolved { session, creator_id } },
                Err(e) => Crawl { state: State::Aborted { reason: Failure::Data(e) } },
            },
            other => Crawl { state: other },
        }
    }

    /// Starts the walk through the uploads listing, with pages of the given
    /// size.
    pub fn begin_pages(self, page_size: u32) -> (next: Crawl)
        ensures
            next@ == after_begin(self@, page_size),
    {
        match self.state {
            State::CreatorResolved { session, creator_id } => Crawl {
                state: State::PagesFetching { session, creator_id, pager: Pager::new(page_size) },
            },
            other => Crawl { state: other },
        }
    }

    /// Reports the response to the uploads query that was due.
    pub fn page_received(self, response: &serde_json::Value) -> (next: Crawl)
        ensures
            next@ == after_response(self@, json_model(*response)),
    {
        match self.state {
            State::PagesFetching { session, creator_id, mut pager } => {
                if pager.finished() {
                    Crawl { state: State::PagesFetching { session, creator_id, pager } }
                } else {
                    match decode_page(response) {
                        Ok(page) => {
                            pager.accept(page);
                            Crawl { state: State::PagesFetching { session, creator_id, pager } }
                        },
                        Err(e) => Crawl { state: State::Aborted { reason: Failure::Data(e) } },
                    }
                }
            },
            other => Crawl { state: other },
        }
    }

    /// The persistence step: writes the creator, under the given username and
    /// the platform id that the lookup gave, and the given sets.
    pub fn persist(self, store: &mut Store, username: &str, sets: &[CloudcastSummary]) -> (next:
        Crawl)
        ensures
            (next@, final(store)@) == after_persist(
                self@,
                old(store)@,
                username@,
                summary_views(sets@),
            ),
    {
        match self.state {
            State::PagesFetching { session, creator_id, pager } => {
                if pager.finished() {
                    match persist(store, username, creator_id.as_str(), sets) {
                        Ok(dj_id) => Crawl { state: State::Persisted { dj_id } },
                        Err(e) => Crawl { state: State::Aborted { reason: Failure::Store(e) } },
                    }
                } else {
                    Crawl { state: State::PagesFetching { session, creator_id, pager } }
                }
            },
            other => Crawl { state: other },
        }
    }

    /// Reports a failure of the action that was due.
    pub fn fail(self, reason: Failure) -> (next: Crawl)
        ensures
            next@ == after_failure(self@, reason),
    {
        match self.state {
            State::Persisted { dj_id } => Crawl { state: State::Persisted { dj_id } },
            State::Aborted { reason: first } => Crawl { state: State::Aborted { reason: first } },
            _ => Crawl { state: State::Aborted { reason } },
        }
    }
}

} // verus!
