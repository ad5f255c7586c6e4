//! Browser-driven login to Pinterest: a verified login protocol, the
//! decisions of the default login bot, the cookie set it harvests, and the
//! authenticated client state derived from that cookie set.
use vstd::prelude::*;

pub mod client;
pub mod config;
pub mod cookies;
pub mod credentials;
pub mod error;
pub mod login;
pub mod login_bot;

verus! {

/// The page on which the login form is shown.
pub const PINTEREST_LOGIN_URL: &'static str = "https://pinterest.com/login";

/// The origin that authenticated requests go to.
pub const PINTEREST_BASE_URL: &'static str = "https://www.pinterest.com";

} // verus!
