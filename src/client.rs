use vstd::prelude::*;
use vstd::string::StringExecFns;
use crate::cookies::{CookieSet, Pairs, pairs_view};
use crate::error::PinterestError;
use crate::PINTEREST_BASE_URL;

verus! {

/// The user agent sent when the caller names none.
pub const DEFAULT_USER_AGENT: &'static str = "Mozilla/5.0 (X11; Linux x86_64) AppleWebKit/537.36 (KHTML, like Gecko) Chrome/91.0.4472.114 Safari/537.36";

/// The cookie that holds the CSRF token.
pub const CSRF_COOKIE: &'static str = "csrftoken";

/// The user agent chosen for an optional one.
pub open spec fn user_agent_of(user_agent: Option<Seq<char>>) -> Seq<char> {
    match user_agent {
        Some(u) => u,
        None => DEFAULT_USER_AGENT@,
    }
}

/// The default headers of an authenticated client, in order.
pub open spec fn request_headers(crf_token: Seq<char>, user_agent: Option<Seq<char>>) -> Pairs {
    seq![
        ("User-Agent"@, user_agent_of(user_agent)),
        ("X-CSRFToken"@, crf_token),
        ("Referer"@, PINTEREST_BASE_URL@),
        ("X-Requested-With"@, "XMLHttpRequest"@),
        ("Accept"@, "application/json"@),
        ("Content-Type"@, "application/x-www-form-urlencoded; charset=UTF-8"@),
    ]
}

/// A cookie as it is handed to a cookie jar: `name=value;`.
pub open spec fn cookie_text(name: Seq<char>, value: Seq<char>) -> Seq<char> {
    name + "="@ + value + ";"@
}

/// A character that an HTTP header value may hold: a tab, or any character
/// from the space on but DEL.
pub open spec fn header_char(c: char) -> bool {
    (c as u32 >= 32 && c as u32 != 127) || c as u32 == 9
}

/// Text that can stand as an HTTP header value.
pub open spec fn is_header_value(s: Seq<char>) -> bool {
    forall|i: int| 0 <= i < s.len() ==> header_char(#[trigger] s[i])
}

/// A CSRF token that authenticated requests can carry: not empty, and fit
/// for a header value.
pub open spec fn usable_token(t: Seq<char>) -> bool {
    t.len() > 0 && is_header_value(t)
}

/// An optional user agent that is absent or fit for a header value.
pub open spec fn user_agent_ok(user_agent: Option<Seq<char>>) -> bool {
    match user_agent {
        Some(u) => is_header_value(u),
        None => true,
    }
}

/// Whether `s` can stand as an HTTP header value.
pub fn header_value_ok(s: &str) -> (r: bool)
    ensures
        r == is_header_value(s@),
{
    let n = s.unicode_len();
    let mut i: usize = 0;
    while i < n
        invariant
            n == s@.len(),
            0 <= i <= n,
            forall|j: int| 0 <= j < i ==> header_char(#[trigger] s@[j]),
        decreases n - i,
    {
        let c = s.get_char(i);
        let v = c as u32;
        if !((v >= 32 && v != 127) || v == 9) {
            return false;
        }
        i = i + 1;
    }
    true
}

/// Optional strings as character sequences.
pub open spec fn opt_view(s: Option<String>) -> Option<Seq<char>> {
    match s {
        Some(t) => Some(t@),
        None => None,
    }
}

/// Builds the default headers of an authenticated client: the user agent (the
/// given one or `DEFAULT_USER_AGENT`), the CSRF token, the referer and the
/// headers that mark requests as the site's own JSON calls. The token and the
/// user agent must be fit for header values.
pub fn build_request_headers(crf_token: String, user_agent: Option<String>) -> (r: Vec<(String, String)>)
    requires
        is_header_value(crf_token@),
        user_agent_ok(opt_view(user_agent)),
    ensures
        pairs_view(r@) == request_headers(crf_token@, opt_view(user_agent)),
{
    let agent = match user_agent {
        Some(u) => u,
        None => String::from_str(DEFAULT_USER_AGENT),
    };
    let mut r: Vec<(String, String)> = Vec::new();
    r.push((String::from_str("User-Agent"), agent));
    r.push((String::from_str("X-CSRFToken"), crf_token));
    r.push((String::from_str("Referer"), String::from_str(PINTEREST_BASE_URL)));
    r.push((String::from_str("X-Requested-With"), String::from_str("XMLHttpRequest")));
    r.push((String::from_str("Accept"), String::from_str("application/json")));
    r.push((String::from_str("Content-Type"), String::from_str("application/x-www-form-urlencoded; charset=UTF-8")));
    assert(pairs_view(r@) =~= request_headers(crf_token@, opt_view(user_agent)));
    r
}

/// Writes one cookie as `name=value;`.
pub fn cookie_string(name: &str, value: &str) -> (r: String)
    ensures
        r@ == cookie_text(name@, value@),
{
    let mut r = name.to_owned();
    r.append("=");
    r.append(value);
    r.append(";");
    r
}

/// What an HTTP client needs to make authenticated requests: the CSRF token,
/// the user agent, the cookies to load into a jar for `origin`, and the
/// default headers.
pub struct AuthenticatedClientState {
    pub crf_token: String,
    pub user_agent: Option<String>,
    pub origin: String,
    pub cookie_strings: Vec<String>,
    pub headers: Vec<(String, String)>,
}

/// Turns the cookies of a login into an authenticated client state; fails
/// with `MissingCrfToken` when the CSRF token cookie is absent, empty, or not
/// fit for a header value. A given user agent must be fit for a header value.
pub fn apply(cookies: &CookieSet, user_agent: Option<String>) -> (r: Result<AuthenticatedClientState, PinterestError>)
    requires
        cookies.wf(),
        user_agent_ok(opt_view(user_agent)),
    ensures
        r is Err <==> !cookies@.contains_key(CSRF_COOKIE@) || !usable_token(cookies@[CSRF_COOKIE@]),
        r matches Err(e) ==> e is MissingCrfToken,
        r matches Ok(st) ==> {
            &&& st.crf_token@ == cookies@[CSRF_COOKIE@]
            &&& opt_view(st.user_agent) == opt_view(user_agent)
            &&& st.origin@ == PINTEREST_BASE_URL@
            &&& st.cookie_strings@.len() == cookies.pairs().len()
            &&& forall|i: int| 0 <= i < cookies.pairs().len() ==> #[trigger] st.cookie_strings@[i]@
                == cookie_text(cookies.pairs()[i].0, cookies.pairs()[i].1)
            &&& pairs_view(st.headers@) == request_headers(cookies@[CSRF_COOKIE@], opt_view(user_agent))
        },
{
    let token = match cookies.get(CSRF_COOKIE) {
        Some(t) => t.clone(),
        None => return Err(PinterestError::MissingCrfToken),
    };
    if token.as_str().unicode_len() == 0 || !header_value_ok(token.as_str()) {
        return Err(PinterestError::MissingCrfToken);
    }
    let entries = cookies.entries();
    let mut cookie_strings: Vec<String> = Vec::new();
    let mut i: usize = 0;
    while i < entries.len()
        invariant
            pairs_view(entries@) == cookies.pairs(),
            0 <= i <= entries@.len(),
            cookie_strings@.len() == i,
            forall|j: int| 0 <= j < i ==> #[trigger] cookie_strings@[j]@ == cookie_text(
                cookies.pairs()[j].0,
                cookies.pairs()[j].1,
            ),
        decreases entries.len() - i,
    {
        let s = cookie_string(entries[i].0.as_str(), entries[i].1.as_str());
        proof {
            assert(cookies.pairs()[i as int] == (entries@[i as int].0@, entries@[i as int].1@));
        }
        cookie_strings.push(s);
        i = i + 1;
    }
    let agent = match &user_agent {
        Some(u) => Some(u.clone()),
        None => None,
    };
    let headers = build_request_headers(token.clone(), agent);
    Ok(AuthenticatedClientState {
        crf_token: token,
        user_agent,
        origin: String::from_str(PINTEREST_BASE_URL),
        cookie_strings,
        headers,
    })
}

} // verus!
