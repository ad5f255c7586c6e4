use vstd::prelude::*;
use crate::error::PinterestLoginError;
use crate::PINTEREST_LOGIN_URL;

verus! {

/// The input that takes the email.
pub const EMAIL_SELECTOR: &'static str = "input#email";

/// The input that takes the password.
pub const PASSWORD_SELECTOR: &'static str = "input#password";

/// The control that submits the form.
pub const SUBMIT_SELECTOR: &'static str = "button[type='submit']";

/// The login bot for Pinterest's own form: an email and a password typed into
/// the form's inputs.
pub struct DefaultBrowserLoginBot<'a> {
    pub email: &'a str,
    pub password: &'a str,
}

impl<'a> DefaultBrowserLoginBot<'a> {
    /// Creates a login bot that types `email` and `password` into the form.
    pub fn new(email: &'a str, password: &'a str) -> (r: Self)
        ensures
            r.email@ == email@,
            r.password@ == password@,
    {
        DefaultBrowserLoginBot { email, password }
    }
}

/// Whether the URL reached after submitting the form shows a rejected login:
/// there is none, or it is still the login page.
pub open spec fn login_rejected(url: Option<&str>, login_url: Seq<char>) -> bool {
    match url {
        None => true,
        Some(u) => u@ == login_url,
    }
}

/// Decides the outcome of a login from the URL observed after the form was
/// submitted and the navigation settled.
pub fn check_login_url(url: Option<&str>, login_url: &str) -> (r: Result<(), PinterestLoginError>)
    ensures
        login_rejected(url, login_url@) ==> r == Err::<(), PinterestLoginError>(PinterestLoginError::AuthenticationError),
        !login_rejected(url, login_url@) ==> r is Ok,
{
    match url {
        None => Err(PinterestLoginError::AuthenticationError),
        Some(u) => {
            if u.to_owned() == login_url.to_owned() {
                Err(PinterestLoginError::AuthenticationError)
            } else {
                Ok(())
            }
        }
    }
}

} // verus!
