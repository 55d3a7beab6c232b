//! The addresses a crawl talks to, built from the platform's base addresses
//! and the creator's username.

use vstd::prelude::*;
use crate::error::UrlError;

verus! {

/// `url::Url`, carried as an opaque value: what it holds is read through
/// `url_text` only.
#[verifier::external_type_specification]
#[verifier::external_body]
pub struct ExUrl(url::Url);

/// `url::ParseError`, carried as an opaque value and never looked into.
#[verifier::external_type_specification]
#[verifier::external_body]
pub struct ExUrlParseError(url::ParseError);

/// The serialization of a URL: what `Url::as_str` returns.
pub uninterp spec fn url_text(u: url::Url) -> Seq<char>;

/// The serialization of the URL that `Url::parse` reads from a text, if it
/// reads one.
pub uninterp spec fn url_parsed(text: Seq<char>) -> Option<Seq<char>>;

/// The serialization of the URL that `Url::join` resolves a reference to,
/// against the base with the given serialization, if it resolves.
pub uninterp spec fn url_joined(base: Seq<char>, reference: Seq<char>) -> Option<Seq<char>>;

/// `Url::parse`: succeeds exactly on the texts that `url_parsed` reads, and
/// the URL then has that serialization.
#[verifier::external_body]
fn parse_url(text: &str) -> (r: Result<url::Url, url::ParseError>)
    ensures
        match r {
            Ok(u) => url_parsed(text@) == Some(url_text(u)),
            Err(_) => url_parsed(text@) is None,
        },
{
    url::Url::parse(text)
}

/// `Url::join`: resolves a reference against a base. The outcome depends on
/// the base's serialization and the reference alone.
#[verifier::external_body]
fn join_url(base: &url::Url, reference: &str) -> (r: Result<url::Url, url::ParseError>)
    ensures
        match r {
            Ok(u) => url_joined(url_text(*base), reference@) == Some(url_text(u)),
            Err(_) => url_joined(url_text(*base), reference@) is None,
        },
{
    base.join(reference)
}

/// `Url::as_str`, copied into a `String`.
#[verifier::external_body]
fn url_string(u: &url::Url) -> (s: String)
    ensures
        s@ == url_text(*u),
{
    u.as_str().to_owned()
}

/// The platform's site, under which a creator's profile page lives.
pub const FRONTEND_BASE: &'static str = "https://www.mixcloud.com/";

/// The platform's REST-style API, under which a creator's summary lives.
pub const API_BASE: &'static str = "https://api.mixcloud.com/";

/// The platform's GraphQL endpoint.
pub const GRAPHQL_ENDPOINT: &'static str = "https://www.mixcloud.com/graphql";

/// What a reference resolves to against a base, by the outcome of parsing
/// the base and of joining the reference to it.
pub open spec fn resolved(base: Seq<char>, reference: Seq<char>) -> Result<Seq<char>, UrlError> {
    match url_parsed(base) {
        None => Err(UrlError::Base),
        Some(b) => match url_joined(b, reference) {
            None => Err(UrlError::Reference),
            Some(u) => Ok(u),
        },
    }
}

/// Resolves a reference against a base address.
pub fn resolve(base: &str, reference: &str) -> (r: Result<String, UrlError>)
    ensures
        match resolved(base@, reference@) {
            Ok(u) => r matches Ok(s) && s@ == u,
            Err(e) => r matches Err(x) && x == e,
        },
{
    match parse_url(base) {
        Err(_) => Err(UrlError::Base),
        Ok(b) => match join_url(&b, reference) {
            Err(_) => Err(UrlError::Reference),
            Ok(u) => Ok(url_string(&u)),
        },
    }
}

/// The three addresses of a crawl.
#[derive(Debug)]
pub struct Endpoints {
    /// The creator's profile page, which hands out the session cookie.
    pub profile_page: String,
    /// The creator's summary in the REST-style API.
    pub api_page: String,
    /// The first page of the creator's sets in the REST-style API.
    pub listing_page: String,
    /// The GraphQL endpoint.
    pub graphql: String,
}

pub struct EndpointsView {
    pub profile_page: Seq<char>,
    pub api_page: Seq<char>,
    pub listing_page: Seq<char>,
    pub graphql: Seq<char>,
}

impl View for Endpoints {
    type V = EndpointsView;

    open spec fn view(&self) -> EndpointsView {
        EndpointsView {
            profile_page: self.profile_page@,
            api_page: self.api_page@,
            listing_page: self.listing_page@,
            graphql: self.graphql@,
        }
    }
}

/// The path under which the REST-style API lists a creator's sets, after the
/// username.
pub const LISTING_PATH: &'static str = "/cloudcasts/";

/// The addresses for a username: the username resolved against the site and
/// against the API, the username with the listing path resolved against the
/// API, and the GraphQL endpoint as parsed. The first address that fails
/// decides the error.
pub open spec fn endpoints_of(username: Seq<char>) -> Result<EndpointsView, UrlError> {
    match resolved(FRONTEND_BASE@, username) {
        Err(e) => Err(e),
        Ok(profile_page) => match resolved(API_BASE@, username) {
            Err(e) => Err(e),
            Ok(api_page) => match resolved(API_BASE@, username + LISTING_PATH@) {
                Err(e) => Err(e),
                Ok(listing_page) => match url_parsed(GRAPHQL_ENDPOINT@) {
                    None => Err(UrlError::Base),
                    Some(graphql) => Ok(
                        EndpointsView { profile_page, api_page, listing_page, graphql },
                    ),
                },
            },
        },
    }
}

/// Builds the addresses of a crawl of the creator with the given username.
pub fn endpoints(username: &str) -> (r: Result<Endpoints, UrlError>)
    ensures
        match endpoints_of(username@) {
            Ok(e) => r matches Ok(x) && x@ == e,
            Err(e) => r matches Err(x) && x == e,
        },
{
    let profile_page = match resolve(FRONTEND_BASE, username) {
        Ok(u) => u,
        Err(e) => {
            return Err(e);
        },
    };
    let api_page = match resolve(API_BASE, username) {
        Ok(u) => u,
        Err(e) => {
            return Err(e);
        },
    };
    let mut listing = username.to_owned();
    listing.append(LISTING_PATH);
    let listing_page = match resolve(API_BASE, listing.as_str()) {
        Ok(u) => u,
        Err(e) => {
            return Err(e);
        },
    };
    match parse_url(GRAPHQL_ENDPOINT) {
        Ok(u) => Ok(Endpoints { profile_page, api_page, listing_page, graphql: url_string(&u) }),
        Err(_) => Err(UrlError::Base),
    }
}

} // verus!
