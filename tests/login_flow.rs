use pinterest_login::config::{build_browser_config, config_from_build, DefaultBrowserConfigBuilder};
use pinterest_login::cookies::CookieSet;
use pinterest_login::error::PinterestLoginError;
use pinterest_login::login::{LoginAttempt, Stage, StepOutcome};
use pinterest_login::login_bot::{check_login_url, DefaultBrowserLoginBot};
use pinterest_login::PINTEREST_LOGIN_URL;
use std::time::Duration;

/// A stand-in for a browser session and a site: it can be told to fail at
/// one step, and it decides the login from the URL it lands on.
struct FakeSite {
    fail_at: Option<Stage>,
    url_after_submit: Option<String>,
    cookies: Vec<(String, String)>,
    cancels: usize,
    performed: Vec<Stage>,
}

impl FakeSite {
    fn new(fail_at: Option<Stage>, url_after_submit: Option<&str>) -> Self {
        FakeSite {
            fail_at,
            url_after_submit: url_after_submit.map(|s| s.to_string()),
            cookies: vec![
                ("csrftoken".to_string(), "abc123".to_string()),
                ("sessionid".to_string(), "xyz".to_string()),
            ],
            cancels: 0,
            performed: Vec::new(),
        }
    }

    fn perform(&mut self, stage: Stage) -> StepOutcome {
        self.performed.push(stage);
        if stage == Stage::CancelDrain {
            self.cancels += 1;
            return StepOutcome::Done;
        }
        if self.fail_at == Some(stage) {
            return StepOutcome::Failed(PinterestLoginError::CdpError(format!("{:?} failed", stage)));
        }
        match stage {
            Stage::CheckLogin => match check_login_url(self.url_after_submit.as_deref(), PINTEREST_LOGIN_URL) {
                Ok(()) => StepOutcome::Done,
                Err(e) => StepOutcome::Failed(e),
            },
            Stage::ReadCookies => StepOutcome::Cookies(CookieSet::from_pairs(self.cookies.clone())),
            _ => StepOutcome::Done,
        }
    }
}

fn drive(site: &mut FakeSite) -> Result<CookieSet, PinterestLoginError> {
    let mut attempt = LoginAttempt::new();
    while attempt.stage != Stage::Finished {
        let outcome = site.perform(attempt.stage);
        attempt.advance(outcome);
    }
    attempt.finish().unwrap()
}

#[test]
fn valid_credentials_give_cookies_with_token() {
    let mut site = FakeSite::new(None, Some("https://www.pinterest.com/"));
    let cookies = drive(&mut site).unwrap();
    assert!(cookies.len() > 0);
    assert_eq!(cookies.get("csrftoken").unwrap(), "abc123");
    assert_eq!(site.cancels, 1);
    assert_eq!(
        site.performed,
        vec![
            Stage::Launch,
            Stage::SpawnDrain,
            Stage::OpenPage,
            Stage::FillForm,
            Stage::SubmitForm,
            Stage::CheckLogin,
            Stage::ReadCookies,
            Stage::CancelDrain,
        ]
    );
}

#[test]
fn invalid_credentials_fail_authentication() {
    let mut site = FakeSite::new(None, Some(PINTEREST_LOGIN_URL));
    let r = drive(&mut site);
    assert_eq!(r.err(), Some(PinterestLoginError::AuthenticationError));
    assert!(!site.performed.contains(&Stage::ReadCookies));
    assert_eq!(site.cancels, 1);
}

#[test]
fn no_url_after_submit_fails_authentication() {
    let mut site = FakeSite::new(None, None);
    let r = drive(&mut site);
    assert_eq!(r.err(), Some(PinterestLoginError::AuthenticationError));
    assert_eq!(site.cancels, 1);
}

#[test]
fn drain_cancelled_once_on_every_branch() {
    for stage in [
        Stage::OpenPage,
        Stage::FillForm,
        Stage::SubmitForm,
        Stage::CheckLogin,
        Stage::ReadCookies,
    ] {
        let mut site = FakeSite::new(Some(stage), Some("https://www.pinterest.com/"));
        let r = drive(&mut site);
        assert_eq!(r.err(), Some(PinterestLoginError::CdpError(format!("{:?} failed", stage))));
        assert_eq!(site.cancels, 1);
        assert_eq!(*site.performed.last().unwrap(), Stage::CancelDrain);
        assert_eq!(site.performed[site.performed.len() - 2], stage);
    }
}

#[test]
fn launch_failure_cancels_nothing() {
    let mut site = FakeSite::new(Some(Stage::Launch), None);
    let r = drive(&mut site);
    assert!(matches!(r, Err(PinterestLoginError::CdpError(_))));
    assert_eq!(site.cancels, 0);
    assert_eq!(site.performed, vec![Stage::Launch]);
}

#[test]
fn unfinished_attempt_has_no_result() {
    let mut attempt = LoginAttempt::new();
    attempt.advance(StepOutcome::Done);
    assert_eq!(attempt.stage, Stage::SpawnDrain);
    assert!(attempt.finish().is_none());
}

#[test]
fn no_cookies_reported_gives_empty_set() {
    let mut attempt = LoginAttempt::new();
    for _ in 0..8 {
        attempt.advance(StepOutcome::Done);
    }
    assert_eq!(attempt.stage, Stage::Finished);
    assert_eq!(attempt.finish().unwrap().unwrap().len(), 0);
}

#[test]
fn check_login_url_decisions() {
    assert_eq!(check_login_url(None, PINTEREST_LOGIN_URL), Err(PinterestLoginError::AuthenticationError));
    assert_eq!(
        check_login_url(Some("https://pinterest.com/login"), PINTEREST_LOGIN_URL),
        Err(PinterestLoginError::AuthenticationError)
    );
    assert_eq!(check_login_url(Some("https://www.pinterest.com/"), PINTEREST_LOGIN_URL), Ok(()));
    assert_eq!(check_login_url(Some(""), PINTEREST_LOGIN_URL), Ok(()));
}

#[test]
fn default_bot_keeps_credentials() {
    let bot = DefaultBrowserLoginBot::new("me@example.com", "pw");
    assert_eq!(bot.email, "me@example.com");
    assert_eq!(bot.password, "pw");
}

#[test]
fn config_builder_keeps_settings() {
    let b = DefaultBrowserConfigBuilder::new(true, Some(Duration::from_secs(8)), None);
    assert!(b.headless);
    assert_eq!(b.request_timeout, Some(Duration::from_secs(8)));
    assert_eq!(b.launch_timeout, None);
}

#[test]
fn config_build_fails_only_as_config_error() {
    match build_browser_config(false, Some(Duration::from_secs(2)), Some(Duration::from_secs(4))) {
        Ok(_) => {}
        Err(e) => assert!(matches!(e, PinterestLoginError::BrowserConfigBuildError(_))),
    }
}

#[test]
fn driver_refusal_keeps_message() {
    let r = config_from_build(Err("Could not auto detect a chrome executable".to_string()));
    assert_eq!(
        r.err(),
        Some(PinterestLoginError::BrowserConfigBuildError("Could not auto detect a chrome executable".to_string()))
    );
}

#[test]
fn default_builder_config_matches_settings() {
    let b = DefaultBrowserConfigBuilder::new(true, None, Some(Duration::from_secs(4)));
    match b.build_browser_config() {
        Ok(_) => {}
        Err(e) => assert!(matches!(e, PinterestLoginError::BrowserConfigBuildError(_))),
    }
}
