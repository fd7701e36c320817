//! The session driver: one end-to-end harvesting run against a browser
//! supplied through the [`BrowserProvider`] capability trait.
//!
//! The driver acquires a session, opens a page, optionally registers the
//! interception policy, navigates, waits for a readiness selector, and
//! only then reads back the clearance cookie and the session's
//! user-agent string.  Every collaborator failure is surfaced as one
//! [`SessionError`] kind; nothing is retried, and the first step that
//! fails determines the error.

use vstd::prelude::*;
use crate::policy::InterceptionPolicy;

verus! {

/// The artifacts harvested by one session run: the clearance token, if
/// the page set the clearance cookie, and the user-agent string the
/// session reported.  Immutable after construction; the caller owns it.
#[derive(Clone, Debug)]
pub struct Params {
    pub token: Option<String>,
    pub user_agent: Option<String>,
}

/// Why a session run failed.  Every collaborator failure maps to exactly
/// one of these kinds; all are terminal for the current run.
#[derive(Clone, Copy, Debug, PartialEq, Eq, Structural)]
pub enum SessionError {
    SessionLaunchFailed,
    NavigationFailed,
    ElementWaitTimedOut,
    CookieReadFailed,
    VersionReadFailed,
    InterceptionSetupFailed,
}

/// One named cookie, as a browser session reports it.
#[derive(Clone, Debug)]
pub struct Cookie {
    pub name: String,
    pub value: String,
}

/// A collaborator step that did not complete.  The driver never inspects
/// the fault beyond its occurrence: each step maps to its own
/// [`SessionError`] kind.
#[derive(Clone, Copy, Debug)]
pub struct ProviderFault {}

/// The name of the cookie that carries the clearance token.
pub open spec fn clearance_cookie_name() -> Seq<char> {
    "cf_clearance"@
}

/// The token harvested from a cookie list: the value of the first cookie
/// named `cf_clearance`, or nothing when no cookie carries that name.
pub open spec fn spec_token_of(cookies: Seq<Cookie>) -> Option<String>
    decreases cookies.len(),
{
    if cookies.len() == 0 {
        None
    } else if cookies[0].name@ == clearance_cookie_name() {
        Some(cookies[0].value)
    } else {
        spec_token_of(cookies.skip(1))
    }
}

/// Find the clearance token in a cookie list: the value of the first
/// cookie named `cf_clearance`, or `None` when no cookie matches.
pub fn find_clearance_token(cookies: &Vec<Cookie>) -> (token: Option<String>)
    ensures
        token == spec_token_of(cookies@),
{
    let needle: String = "cf_clearance".to_owned();
    let mut i: usize = 0;
    assert(cookies@.skip(0) =~= cookies@);
    while i < cookies.len()
        invariant
            0 <= i <= cookies.len(),
            needle@ == clearance_cookie_name(),
            spec_token_of(cookies@) == spec_token_of(cookies@.skip(i as int)),
        decreases cookies.len() - i,
    {
        if cookies[i].name == needle {
            return Some(cookies[i].value.clone());
        }
        assert(cookies@.skip(i as int).skip(1) =~= cookies@.skip(i as int + 1));
        i = i + 1;
    }
    assert(cookies@.skip(cookies@.len() as int).len() == 0);
    None
}

/// Copy a cookie list value for value.
pub fn copy_cookies(cookies: &Vec<Cookie>) -> (r: Vec<Cookie>)
    ensures
        r@ == cookies@,
{
    let mut r: Vec<Cookie> = Vec::new();
    let mut i: usize = 0;
    while i < cookies.len()
        invariant
            0 <= i <= cookies.len(),
            r@ =~= cookies@.take(i as int),
        decreases cookies.len() - i,
    {
        let c = Cookie { name: cookies[i].name.clone(), value: cookies[i].value.clone() };
        assert(c == cookies@[i as int]);
        r.push(c);
        assert(r@ =~= cookies@.take(i as int + 1));
        i = i + 1;
    }
    assert(cookies@.take(cookies@.len() as int) =~= cookies@);
    r
}

/// Assemble the harvested artifacts from a cookie list and the reported
/// user-agent string.
pub fn assemble_params(cookies: &Vec<Cookie>, user_agent: String) -> (p: Params)
    ensures
        p.token == spec_token_of(cookies@),
        p.user_agent == Some(user_agent),
{
    Params { token: find_clearance_token(cookies), user_agent: Some(user_agent) }
}

/// The capabilities the driver needs from a browser session: launch,
/// page opening, interception setup, navigation, a readiness wait, and
/// the two read-backs.
///
/// A provider exposes a model of the session it stands for: the cookie
/// list and user-agent string it reports once the page has loaded,
/// whether each step of the run comes off, and whether each read-back
/// has been attempted.  The step predicates and the reported data are
/// fixed attributes of the session — every method leaves them as they
/// were — so the driver's own contract can name the outcome of a whole
/// run up front.  Only the two attempt flags change, and only when the
/// corresponding read-back is performed.
///
/// No method promises success outright: whether a step comes off is the
/// provider's affair.  Each contract states what holds of the provider
/// and the result on every outcome.
pub trait BrowserProvider: Sized {
    /// The cookie list the session reports when read after a successful
    /// load.
    spec fn cookies(&self) -> Seq<Cookie>;

    /// The user-agent string the session reports.
    spec fn user_agent(&self) -> Seq<char>;

    /// Whether launching the session comes off.
    spec fn launch_succeeds(&self) -> bool;

    /// Whether opening the page comes off.
    spec fn page_open_succeeds(&self) -> bool;

    /// Whether registering a policy and enabling fetch-stage
    /// interception comes off.
    spec fn interception_setup_succeeds(&self) -> bool;

    /// Whether navigating to the target location comes off.
    spec fn navigation_succeeds(&self) -> bool;

    /// Whether the readiness selector ever appears in the page.
    spec fn element_appears(&self) -> bool;

    /// Whether reading the cookies back comes off.
    spec fn cookie_read_succeeds(&self) -> bool;

    /// Whether reading the user-agent back comes off.
    spec fn version_read_succeeds(&self) -> bool;

    /// Whether a cookie read-back has been attempted on this provider.
    spec fn cookie_read_attempted(&self) -> bool;

    /// Whether a user-agent read-back has been attempted on this provider.
    spec fn version_read_attempted(&self) -> bool;

    /// Launch the browser session.
    fn launch(&mut self) -> (r: Result<(), ProviderFault>)
        ensures
            final(self).cookies() == old(self).cookies(),
            final(self).user_agent() == old(self).user_agent(),
            final(self).launch_succeeds() == old(self).launch_succeeds(),
            final(self).page_open_succeeds() == old(self).page_open_succeeds(),
            final(self).interception_setup_succeeds() == old(self).interception_setup_succeeds(),
            final(self).navigation_succeeds() == old(self).navigation_succeeds(),
            final(self).element_appears() == old(self).element_appears(),
            final(self).cookie_read_succeeds() == old(self).cookie_read_succeeds(),
            final(self).version_read_succeeds() == old(self).version_read_succeeds(),
            final(self).cookie_read_attempted() == old(self).cookie_read_attempted(),
            final(self).version_read_attempted() == old(self).version_read_attempted(),
            r is Ok <==> old(self).launch_succeeds(),
    ;

    /// Open the page the run will use.
    fn new_page(&mut self) -> (r: Result<(), ProviderFault>)
        ensures
            final(self).cookies() == old(self).cookies(),
            final(self).user_agent() == old(self).user_agent(),
            final(self).launch_succeeds() == old(self).launch_succeeds(),
            final(self).page_open_succeeds() == old(self).page_open_succeeds(),
            final(self).interception_setup_succeeds() == old(self).interception_setup_succeeds(),
            final(self).navigation_succeeds() == old(self).navigation_succeeds(),
            final(self).element_appears() == old(self).element_appears(),
            final(self).cookie_read_succeeds() == old(self).cookie_read_succeeds(),
            final(self).version_read_succeeds() == old(self).version_read_succeeds(),
            final(self).cookie_read_attempted() == old(self).cookie_read_attempted(),
            final(self).version_read_attempted() == old(self).version_read_attempted(),
            r is Ok <==> old(self).page_open_succeeds(),
    ;

    /// Register the interception policy and enable fetch-stage
    /// interception.
    fn enable_interception(&mut self, policy: &InterceptionPolicy) -> (r: Result<
        (),
        ProviderFault,
    >)
        ensures
            final(self).cookies() == old(self).cookies(),
            final(self).user_agent() == old(self).user_agent(),
            final(self).launch_succeeds() == old(self).launch_succeeds(),
            final(self).page_open_succeeds() == old(self).page_open_succeeds(),
            final(self).interception_setup_succeeds() == old(self).interception_setup_succeeds(),
            final(self).navigation_succeeds() == old(self).navigation_succeeds(),
            final(self).element_appears() == old(self).element_appears(),
            final(self).cookie_read_succeeds() == old(self).cookie_read_succeeds(),
            final(self).version_read_succeeds() == old(self).version_read_succeeds(),
            final(self).cookie_read_attempted() == old(self).cookie_read_attempted(),
            final(self).version_read_attempted() == old(self).version_read_attempted(),
            r is Ok <==> old(self).interception_setup_succeeds(),
    ;

    /// Direct the page to the target location.
    fn navigate_to(&mut self, location: &str) -> (r: Result<(), ProviderFault>)
        ensures
            final(self).cookies() == old(self).cookies(),
            final(self).user_agent() == old(self).user_agent(),
            final(self).launch_succeeds() == old(self).launch_succeeds(),
            final(self).page_open_succeeds() == old(self).page_open_succeeds(),
            final(self).interception_setup_succeeds() == old(self).interception_setup_succeeds(),
            final(self).navigation_succeeds() == old(self).navigation_succeeds(),
            final(self).element_appears() == old(self).element_appears(),
            final(self).cookie_read_succeeds() == old(self).cookie_read_succeeds(),
            final(self).version_read_succeeds() == old(self).version_read_succeeds(),
            final(self).cookie_read_attempted() == old(self).cookie_read_attempted(),
            final(self).version_read_attempted() == old(self).version_read_attempted(),
            r is Ok <==> old(self).navigation_succeeds(),
    ;

    /// Block until the readiness selector is observed in the page, or
    /// the wait gives up.
    fn wait_for_element(&mut self, selector: &str) -> (r: Result<(), ProviderFault>)
        ensures
            final(self).cookies() == old(self).cookies(),
            final(self).user_agent() == old(self).user_agent(),
            final(self).launch_succeeds() == old(self).launch_succeeds(),
            final(self).page_open_succeeds() == old(self).page_open_succeeds(),
            final(self).interception_setup_succeeds() == old(self).interception_setup_succeeds(),
            final(self).navigation_succeeds() == old(self).navigation_succeeds(),
            final(self).element_appears() == old(self).element_appears(),
            final(self).cookie_read_succeeds() == old(self).cookie_read_succeeds(),
            final(self).version_read_succeeds() == old(self).version_read_succeeds(),
            final(self).cookie_read_attempted() == old(self).cookie_read_attempted(),
            final(self).version_read_attempted() == old(self).version_read_attempted(),
            r is Ok <==> old(self).element_appears(),
    ;

    /// Read back the page's cookies.  On success the result is exactly
    /// the provider's cookie list.
    fn read_cookies(&mut self) -> (r: Result<Vec<Cookie>, ProviderFault>)
        ensures
            final(self).cookies() == old(self).cookies(),
            final(self).user_agent() == old(self).user_agent(),
            final(self).launch_succeeds() == old(self).launch_succeeds(),
            final(self).page_open_succeeds() == old(self).page_open_succeeds(),
            final(self).interception_setup_succeeds() == old(self).interception_setup_succeeds(),
            final(self).navigation_succeeds() == old(self).navigation_succeeds(),
            final(self).element_appears() == old(self).element_appears(),
            final(self).cookie_read_succeeds() == old(self).cookie_read_succeeds(),
            final(self).version_read_succeeds() == old(self).version_read_succeeds(),
            final(self).cookie_read_attempted(),
            final(self).version_read_attempted() == old(self).version_read_attempted(),
            r is Ok <==> old(self).cookie_read_succeeds(),
            r matches Ok(cs) ==> cs@ == old(self).cookies(),
    ;

    /// Read back the session's user-agent string.  On success the result
    /// is exactly the provider's user-agent string.
    fn read_user_agent(&mut self) -> (r: Result<String, ProviderFault>)
        ensures
            final(self).cookies() == old(self).cookies(),
            final(self).user_agent() == old(self).user_agent(),
            final(self).launch_succeeds() == old(self).launch_succeeds(),
            final(self).page_open_succeeds() == old(self).page_open_succeeds(),
            final(self).interception_setup_succeeds() == old(self).interception_setup_succeeds(),
            final(self).navigation_succeeds() == old(self).navigation_succeeds(),
            final(self).element_appears() == old(self).element_appears(),
            final(self).cookie_read_succeeds() == old(self).cookie_read_succeeds(),
            final(self).version_read_succeeds() == old(self).version_read_succeeds(),
            final(self).version_read_attempted(),
            final(self).cookie_read_attempted() == old(self).cookie_read_attempted(),
            r is Ok <==> old(self).version_read_succeeds(),
            r matches Ok(ua) ==> ua@ == old(self).user_agent(),
    ;
}

/// The session model a provider exposes — its reported data and its
/// step predicates — is unchanged between two provider states.  Every
/// [`BrowserProvider`] method preserves it clause by clause; the driver
/// states the preservation of a whole run through this predicate.
pub open spec fn same_session_model<P: BrowserProvider>(a: P, b: P) -> bool {
    &&& b.cookies() == a.cookies()
    &&& b.user_agent() == a.user_agent()
    &&& b.launch_succeeds() == a.launch_succeeds()
    &&& b.page_open_succeeds() == a.page_open_succeeds()
    &&& b.interception_setup_succeeds() == a.interception_setup_succeeds()
    &&& b.navigation_succeeds() == a.navigation_succeeds()
    &&& b.element_appears() == a.element_appears()
    &&& b.cookie_read_succeeds() == a.cookie_read_succeeds()
    &&& b.version_read_succeeds() == a.version_read_succeeds()
}

/// The outcome one harvesting run owes for a given session: the first
/// step that fails names the error, and the run succeeds exactly when
/// every step comes off.  Interception setup takes part only when a
/// policy is supplied.
pub open spec fn spec_session_outcome<P: BrowserProvider>(p: P, with_policy: bool) -> Option<
    SessionError,
> {
    if !p.launch_succeeds() || !p.page_open_succeeds() {
        Some(SessionError::SessionLaunchFailed)
    } else if with_policy && !p.interception_setup_succeeds() {
        Some(SessionError::InterceptionSetupFailed)
    } else if !p.navigation_succeeds() {
        Some(SessionError::NavigationFailed)
    } else if !p.element_appears() {
        Some(SessionError::ElementWaitTimedOut)
    } else if !p.cookie_read_succeeds() {
        Some(SessionError::CookieReadFailed)
    } else if !p.version_read_succeeds() {
        Some(SessionError::VersionReadFailed)
    } else {
        None
    }
}

/// One end-to-end harvesting run: acquire a session and a page, register
/// the policy if one was supplied, navigate, wait for the readiness
/// selector, then read back the clearance cookie and the user-agent
/// string.
///
/// The result is pinned by [`spec_session_outcome`]: the run succeeds
/// exactly when every step of the session comes off, and otherwise
/// returns the error of the first step that fails.  On success the
/// returned token is exactly the clearance token of the provider's
/// cookie list and the user-agent is exactly the provider's, and both
/// read-backs were attempted.  On any failure before the readiness wait
/// has succeeded — launch, page, interception setup, navigation, the
/// wait itself — no read-back is ever attempted.
pub fn run_session<P: BrowserProvider>(
    provider: &mut P,
    location: &str,
    readiness_selector: &str,
    policy: Option<&InterceptionPolicy>,
) -> (r: Result<Params, SessionError>)
    ensures
        same_session_model(*old(provider), *final(provider)),
        r is Ok <==> spec_session_outcome(*old(provider), policy is Some) is None,
        r matches Err(e) ==> Some(e) == spec_session_outcome(*old(provider), policy is Some),
        r matches Ok(p) ==> {
            &&& p.token == spec_token_of(old(provider).cookies())
            &&& p.user_agent matches Some(ua) && ua@ == old(provider).user_agent()
            &&& final(provider).cookie_read_attempted()
            &&& final(provider).version_read_attempted()
        },
        r matches Err(e) && (e is SessionLaunchFailed || e is InterceptionSetupFailed
            || e is NavigationFailed || e is ElementWaitTimedOut) ==> {
            &&& final(provider).cookie_read_attempted() == old(provider).cookie_read_attempted()
            &&& final(provider).version_read_attempted() == old(provider).version_read_attempted()
        },
        r matches Err(e) && e is CookieReadFailed ==> final(provider).cookie_read_attempted()
            && final(provider).version_read_attempted() == old(provider).version_read_attempted(),
        r matches Err(e) && e is VersionReadFailed ==> final(provider).cookie_read_attempted()
            && final(provider).version_read_attempted(),
{
    match provider.launch() {
        Ok(u) => u,
        Err(_) => {
            return Err(SessionError::SessionLaunchFailed);
        },
    };
    match provider.new_page() {
        Ok(u) => u,
        Err(_) => {
            return Err(SessionError::SessionLaunchFailed);
        },
    };
    match policy {
        Some(p) => {
            match provider.enable_interception(p) {
                Ok(u) => u,
                Err(_) => {
                    return Err(SessionError::InterceptionSetupFailed);
                },
            };
        },
        None => {},
    }
    match provider.navigate_to(location) {
        Ok(u) => u,
        Err(_) => {
            return Err(SessionError::NavigationFailed);
        },
    };
    match provider.wait_for_element(readiness_selector) {
        Ok(u) => u,
        Err(_) => {
            return Err(SessionError::ElementWaitTimedOut);
        },
    };
    let cookies = match provider.read_cookies() {
        Ok(cs) => cs,
        Err(_) => {
            return Err(SessionError::CookieReadFailed);
        },
    };
    let user_agent = match provider.read_user_agent() {
        Ok(ua) => ua,
        Err(_) => {
            return Err(SessionError::VersionReadFailed);
        },
    };
    Ok(assemble_params(&cookies, user_agent))
}

/// Harvest the clearance token and user-agent from `url` without request
/// interception, waiting for `element_selector` before reading anything
/// back.  The result is pinned by [`spec_session_outcome`] without a
/// policy, so interception setup can never be the failure.
pub fn get_params<P: BrowserProvider>(
    provider: &mut P,
    url: &str,
    element_selector: &str,
) -> (r: Result<Params, SessionError>)
    ensures
        same_session_model(*old(provider), *final(provider)),
        r is Ok <==> spec_session_outcome(*old(provider), false) is None,
        r matches Err(e) ==> Some(e) == spec_session_outcome(*old(provider), false),
        r matches Ok(p) ==> {
            &&& p.token == spec_token_of(old(provider).cookies())
            &&& p.user_agent matches Some(ua) && ua@ == old(provider).user_agent()
            &&& final(provider).cookie_read_attempted()
            &&& final(provider).version_read_attempted()
        },
        r matches Err(e) && (e is SessionLaunchFailed || e is NavigationFailed
            || e is ElementWaitTimedOut) ==> {
            &&& final(provider).cookie_read_attempted() == old(provider).cookie_read_attempted()
            &&& final(provider).version_read_attempted() == old(provider).version_read_attempted()
        },
        r matches Err(e) && e is CookieReadFailed ==> final(provider).cookie_read_attempted()
            && final(provider).version_read_attempted() == old(provider).version_read_attempted(),
        r matches Err(e) && e is VersionReadFailed ==> final(provider).cookie_read_attempted()
            && final(provider).version_read_attempted(),
        r matches Err(e) ==> !(e is InterceptionSetupFailed),
{
    run_session(provider, url, element_selector, None)
}

/// Harvest the clearance token and user-agent from `url` with the
/// request-interception policy registered before navigation, so that
/// every resource the page requests during the run is classified by the
/// policy.  The result is pinned by [`spec_session_outcome`] with a
/// policy.
pub fn get_params_with_interceptor<P: BrowserProvider>(
    provider: &mut P,
    url: &str,
    element_selector: &str,
    policy: &InterceptionPolicy,
) -> (r: Result<Params, SessionError>)
    ensures
        same_session_model(*old(provider), *final(provider)),
        r is Ok <==> spec_session_outcome(*old(provider), true) is None,
        r matches Err(e) ==> Some(e) == spec_session_outcome(*old(provider), true),
        r matches Ok(p) ==> {
            &&& p.token == spec_token_of(old(provider).cookies())
            &&& p.user_agent matches Some(ua) && ua@ == old(provider).user_agent()
            &&& final(provider).cookie_read_attempted()
            &&& final(provider).version_read_attempted()
        },
        r matches Err(e) && (e is SessionLaunchFailed || e is InterceptionSetupFailed
            || e is NavigationFailed || e is ElementWaitTimedOut) ==> {
            &&& final(provider).cookie_read_attempted() == old(provider).cookie_read_attempted()
            &&& final(provider).version_read_attempted() == old(provider).version_read_attempted()
        },
        r matches Err(e) && e is CookieReadFailed ==> final(provider).cookie_read_attempted()
            && final(provider).version_read_attempted() == old(provider).version_read_attempted(),
        r matches Err(e) && e is VersionReadFailed ==> final(provider).cookie_read_attempted()
            && final(provider).version_read_attempted(),
{
    run_session(provider, url, element_selector, Some(policy))
}

} // verus!
