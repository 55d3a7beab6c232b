use fetchmixes::endpoints::{endpoints, resolve, API_BASE, FRONTEND_BASE, GRAPHQL_ENDPOINT};
use fetchmixes::error::{AuthError, UrlError};
use fetchmixes::session::{get_csrf_token, graphql_headers, Cookie, Session, CSRF_COOKIE};

fn cookie(name: &str, value: &str) -> Cookie {
    Cookie { name: name.to_string(), value: value.to_string() }
}

#[test]
fn csrf_token_is_the_cookie_value() {
    let cookies = vec![cookie("sessionid", "s1"), cookie("csrftoken", "t0k3n"), cookie("lang", "en")];
    assert_eq!(get_csrf_token(&cookies), Ok("t0k3n".to_string()));
    assert_eq!(CSRF_COOKIE, "csrftoken");
}

#[test]
fn first_csrf_cookie_wins() {
    let cookies = vec![cookie("csrftoken", "first"), cookie("csrftoken", "second")];
    assert_eq!(get_csrf_token(&cookies), Ok("first".to_string()));
}

#[test]
fn missing_csrf_cookie_is_an_auth_error() {
    assert_eq!(get_csrf_token(&Vec::new()), Err(AuthError::MissingCsrfCookie));
    let cookies = vec![cookie("sessionid", "s1"), cookie("CSRFTOKEN", "x"), cookie("csrftoken2", "y")];
    assert_eq!(get_csrf_token(&cookies), Err(AuthError::MissingCsrfCookie));
}

#[test]
fn empty_token_is_still_a_token() {
    assert_eq!(get_csrf_token(&vec![cookie("csrftoken", "")]), Ok(String::new()));
}

#[test]
fn session_headers_carry_the_token() {
    let session = Session {
        csrf_token: "t0k3n".to_string(),
        profile_url: "https://www.mixcloud.com/Grundfunk".to_string(),
    };
    let headers = graphql_headers(&session);
    let pairs: Vec<(&str, &str)> = headers.iter().map(|h| (h.name.as_str(), h.value.as_str())).collect();
    assert_eq!(
        pairs,
        vec![
            ("X-CSRFToken", "t0k3n"),
            ("Referer", "https://www.mixcloud.com/Grundfunk"),
            ("Cookie", "csrftoken=t0k3n"),
        ]
    );
}

#[test]
fn endpoints_of_a_username() {
    let e = endpoints("Grundfunk").expect("a plain username resolves");
    assert_eq!(e.profile_page, "https://www.mixcloud.com/Grundfunk");
    assert_eq!(e.api_page, "https://api.mixcloud.com/Grundfunk");
    assert_eq!(e.listing_page, "https://api.mixcloud.com/Grundfunk/cloudcasts/");
    assert_eq!(e.graphql, "https://www.mixcloud.com/graphql");
    assert_eq!(FRONTEND_BASE, "https://www.mixcloud.com/");
    assert_eq!(API_BASE, "https://api.mixcloud.com/");
    assert_eq!(GRAPHQL_ENDPOINT, "https://www.mixcloud.com/graphql");
}

#[test]
fn username_is_resolved_as_a_reference() {
    let e = endpoints("some dj").expect("a space is escaped");
    assert_eq!(e.profile_page, "https://www.mixcloud.com/some%20dj");
    assert_eq!(resolve("https://www.mixcloud.com/a/b", "c"), Ok("https://www.mixcloud.com/a/c".to_string()));
    assert_eq!(resolve("https://www.mixcloud.com/a/", "../c"), Ok("https://www.mixcloud.com/c".to_string()));
    assert_eq!(resolve("https://www.mixcloud.com/", ""), Ok("https://www.mixcloud.com/".to_string()));
}

#[test]
fn base_must_be_absolute() {
    assert_eq!(resolve("www.mixcloud.com", "Grundfunk"), Err(UrlError::Base));
    assert_eq!(resolve("", "Grundfunk"), Err(UrlError::Base));
}

#[test]
fn reference_must_resolve() {
    assert_eq!(resolve("https://www.mixcloud.com/", "https://"), Err(UrlError::Reference));
    assert!(matches!(endpoints("https://"), Err(UrlError::Reference)));
}
