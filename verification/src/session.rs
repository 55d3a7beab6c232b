//! The session: the CSRF token that the platform hands out as a cookie, and
//! the headers that carry it on later requests.

use vstd::prelude::*;
use crate::error::AuthError;

verus! {

/// The name of the cookie that holds the CSRF token.
pub const CSRF_COOKIE: &'static str = "csrftoken";

/// A cookie of a response.
#[derive(Debug)]
pub struct Cookie {
    pub name: String,
    pub value: String,
}

pub struct CookieView {
    pub name: Seq<char>,
    pub value: Seq<char>,
}

impl View for Cookie {
    type V = CookieView;

    open spec fn view(&self) -> CookieView {
        CookieView { name: self.name@, value: self.value@ }
    }
}

/// The views of a list of cookies, in order.
pub open spec fn cookie_views(cookies: Seq<Cookie>) -> Seq<CookieView> {
    Seq::new(cookies.len(), |i: int| cookies[i]@)
}

/// The value of the first cookie named `csrftoken`, if there is one.
pub open spec fn csrf_token_of(cookies: Seq<CookieView>) -> Option<Seq<char>>
    decreases cookies.len(),
{
    if cookies.len() == 0 {
        None
    } else if cookies[0].name == CSRF_COOKIE@ {
        Some(cookies[0].value)
    } else {
        csrf_token_of(cookies.drop_first())
    }
}

/// Picks the CSRF token out of the cookies that came with the profile page.
/// Without such a cookie there is no session.
pub fn get_csrf_token(cookies: &Vec<Cookie>) -> (r: Result<String, AuthError>)
    ensures
        match csrf_token_of(cookie_views(cookies@)) {
            Some(token) => r matches Ok(t) && t@ == token,
            None => r matches Err(e) && e == AuthError::MissingCsrfCookie,
        },
{
    let name = CSRF_COOKIE.to_owned();
    let ghost all = cookie_views(cookies@);
    let n = cookies.len();
    let mut i: usize = 0;
    assert(all.skip(0) =~= all);
    while i < n
        invariant
            i <= n,
            n == cookies@.len(),
            all == cookie_views(cookies@),
            name@ == CSRF_COOKIE@,
            csrf_token_of(all) == csrf_token_of(all.skip(i as int)),
        decreases n - i,
    {
        assert(all.skip(i as int)[0] == cookies@[i as int]@);
        if cookies[i].name == name {
            return Ok(cookies[i].value.clone());
        }
        assert(all.skip(i as int).drop_first() =~= all.skip(i + 1));
        i += 1;
    }
    Err(AuthError::MissingCsrfCookie)
}

/// An established session: the token, and the profile page it was issued for.
#[derive(Debug)]
pub struct Session {
    pub csrf_token: String,
    pub profile_url: String,
}

pub struct SessionView {
    pub csrf_token: Seq<char>,
    pub profile_url: Seq<char>,
}

impl View for Session {
    type V = SessionView;

    open spec fn view(&self) -> SessionView {
        SessionView { csrf_token: self.csrf_token@, profile_url: self.profile_url@ }
    }
}

/// A request header.
#[derive(Debug)]
pub struct Header {
    pub name: String,
    pub value: String,
}

pub struct HeaderView {
    pub name: Seq<char>,
    pub value: Seq<char>,
}

impl View for Header {
    type V = HeaderView;

    open spec fn view(&self) -> HeaderView {
        HeaderView { name: self.name@, value: self.value@ }
    }
}

/// The views of a list of headers, in order.
pub open spec fn header_views(headers: Seq<Header>) -> Seq<HeaderView> {
    Seq::new(headers.len(), |i: int| headers[i]@)
}

/// The headers that a GraphQL request of a session carries: the token, the
/// profile page as referer, and the token again as a cookie.
pub open spec fn session_headers(s: SessionView) -> Seq<HeaderView> {
    seq![
        HeaderView { name: "X-CSRFToken"@, value: s.csrf_token },
        HeaderView { name: "Referer"@, value: s.profile_url },
        HeaderView { name: "Cookie"@, value: "csrftoken="@ + s.csrf_token },
    ]
}

/// Builds the headers of a session's GraphQL requests.
pub fn graphql_headers(session: &Session) -> (r: Vec<Header>)
    ensures
        header_views(r@) == session_headers(session@),
{
    let mut cookie = "csrftoken=".to_owned();
    cookie.append(session.csrf_token.as_str());
    let mut r: Vec<Header> = Vec::new();
    r.push(Header { name: "X-CSRFToken".to_owned(), value: session.csrf_token.clone() });
    r.push(Header { name: "Referer".to_owned(), value: session.profile_url.clone() });
    r.push(Header { name: "Cookie".to_owned(), value: cookie });
    assert(header_views(r@) =~= session_headers(session@));
    r
}

} // verus!
