//! A scripted, in-memory browser session: a verified
//! [`BrowserProvider`](crate::session::BrowserProvider) whose behaviour
//! is fixed up front by its fields, so the session driver can be
//! exercised end to end without a real browser.
//!
//! The script says which cookies the page holds once loaded, which
//! user-agent string the session reports, whether the readiness selector
//! ever appears, and which steps fail.  If an interception policy is
//! registered before navigation, the scripted page load classifies every
//! scripted request through it and records the decisions, so a caller
//! can inspect what the policy let through.

use vstd::prelude::*;
use crate::policy::InterceptDecision;
use crate::policy::InterceptedRequest;
use crate::policy::InterceptionPolicy;
use crate::policy::decide_all;
use crate::session::BrowserProvider;
use crate::session::Cookie;
use crate::session::ProviderFault;
use crate::session::copy_cookies;

verus! {

/// A browser session whose whole behaviour is scripted by its fields.
pub struct ScriptedBrowser {
    /// The cookies the scripted page holds once loaded.
    pub cookies: Vec<Cookie>,
    /// The user-agent string the scripted session reports.
    pub user_agent: String,
    /// Whether the readiness selector ever appears on the scripted page.
    pub element_present: bool,
    /// Which steps fail in this script.
    pub fail_launch: bool,
    pub fail_new_page: bool,
    pub fail_interception: bool,
    pub fail_navigation: bool,
    pub fail_cookie_read: bool,
    pub fail_version_read: bool,
    /// The requests the scripted page issues while it loads.
    pub traffic: Vec<InterceptedRequest>,
    /// The policy registered through `enable_interception`, if any.
    pub registered_policy: Option<InterceptionPolicy>,
    /// The decisions taken for the scripted traffic during navigation;
    /// empty unless a policy was registered before the page was loaded.
    pub decisions: Vec<InterceptDecision>,
    /// Whether each read-back was attempted.
    pub cookie_read_done: bool,
    pub version_read_done: bool,
}

impl ScriptedBrowser {
    /// A script in which every step succeeds, the loaded page holds
    /// `cookies`, the session reports `user_agent`, and the readiness
    /// selector appears exactly when `element_present` says so.
    pub fn new(cookies: Vec<Cookie>, user_agent: String, element_present: bool) -> (b:
        ScriptedBrowser)
        ensures
            b.cookies == cookies,
            b.user_agent == user_agent,
            b.element_present == element_present,
            !b.fail_launch,
            !b.fail_new_page,
            !b.fail_interception,
            !b.fail_navigation,
            !b.fail_cookie_read,
            !b.fail_version_read,
            b.traffic@.len() == 0,
            b.registered_policy is None,
            b.decisions@.len() == 0,
            !b.cookie_read_done,
            !b.version_read_done,
    {
        ScriptedBrowser {
            cookies,
            user_agent,
            element_present,
            fail_launch: false,
            fail_new_page: false,
            fail_interception: false,
            fail_navigation: false,
            fail_cookie_read: false,
            fail_version_read: false,
            traffic: Vec::new(),
            registered_policy: None,
            decisions: Vec::new(),
            cookie_read_done: false,
            version_read_done: false,
        }
    }
}

impl BrowserProvider for ScriptedBrowser {
    open spec fn cookies(&self) -> Seq<Cookie> {
        self.cookies@
    }

    open spec fn user_agent(&self) -> Seq<char> {
        self.user_agent@
    }

    open spec fn launch_succeeds(&self) -> bool {
        !self.fail_launch
    }

    open spec fn page_open_succeeds(&self) -> bool {
        !self.fail_new_page
    }

    open spec fn interception_setup_succeeds(&self) -> bool {
        !self.fail_interception
    }

    open spec fn navigation_succeeds(&self) -> bool {
        !self.fail_navigation
    }

    open spec fn element_appears(&self) -> bool {
        self.element_present
    }

    open spec fn cookie_read_succeeds(&self) -> bool {
        !self.fail_cookie_read
    }

    open spec fn version_read_succeeds(&self) -> bool {
        !self.fail_version_read
    }

    open spec fn cookie_read_attempted(&self) -> bool {
        self.cookie_read_done
    }

    open spec fn version_read_attempted(&self) -> bool {
        self.version_read_done
    }

    fn launch(&mut self) -> (r: Result<(), ProviderFault>) {
        if self.fail_launch {
            Err(ProviderFault {})
        } else {
            Ok(())
        }
    }

    fn new_page(&mut self) -> (r: Result<(), ProviderFault>) {
        if self.fail_new_page {
            Err(ProviderFault {})
        } else {
            Ok(())
        }
    }

    fn enable_interception(&mut self, policy: &InterceptionPolicy) -> (r: Result<
        (),
        ProviderFault,
    >) {
        if self.fail_interception {
            Err(ProviderFault {})
        } else {
            self.registered_policy = Some(*policy);
            Ok(())
        }
    }

    fn navigate_to(&mut self, location: &str) -> (r: Result<(), ProviderFault>) {
        if self.fail_navigation {
            Err(ProviderFault {})
        } else {
            match self.registered_policy {
                Some(pol) => {
                    let ds = decide_all(&pol, &self.traffic);
                    self.decisions = ds;
                },
                None => {},
            }
            Ok(())
        }
    }

    fn wait_for_element(&mut self, selector: &str) -> (r: Result<(), ProviderFault>) {
        if self.element_present {
            Ok(())
        } else {
            Err(ProviderFault {})
        }
    }

    fn read_cookies(&mut self) -> (r: Result<Vec<Cookie>, ProviderFault>) {
        self.cookie_read_done = true;
        if self.fail_cookie_read {
            Err(ProviderFault {})
        } else {
            Ok(copy_cookies(&self.cookies))
        }
    }

    fn read_user_agent(&mut self) -> (r: Result<String, ProviderFault>) {
        self.version_read_done = true;
        if self.fail_version_read {
            Err(ProviderFault {})
        } else {
            Ok(self.user_agent.clone())
        }
    }
}

} // verus!
