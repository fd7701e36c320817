use clearance::policy::InterceptDecision;
use clearance::policy::InterceptedRequest;
use clearance::policy::InterceptionPolicy;
use clearance::policy::ResourceType;
use clearance::scripted::ScriptedBrowser;
use clearance::session::Cookie;
use clearance::session::SessionError;
use clearance::session::find_clearance_token;
use clearance::get_params;
use clearance::get_params_with_interceptor;
use clearance::run_session;

fn cookie(name: &str, value: &str) -> Cookie {
    Cookie { name: name.to_string(), value: value.to_string() }
}

fn req(resource_type: ResourceType, id: &str) -> InterceptedRequest {
    InterceptedRequest { resource_type, request_id: id.to_string() }
}

fn cleared_session() -> ScriptedBrowser {
    ScriptedBrowser::new(
        vec![
            cookie("session_id", "abc123"),
            cookie("cf_clearance", "clearance-token-123"),
        ],
        "Mozilla/5.0 (X11; Linux x86_64) ExampleBrowser/1.0".to_string(),
        true,
    )
}

#[test]
fn cf_params() {
    let mut browser = cleared_session();
    let result =
        get_params(&mut browser, "https://nowsecure.nl/#relax", "p.lead").expect("Failed to get params");

    assert!(result.token.is_some(), "Token is empty");
    assert!(result.user_agent.is_some(), "Token is empty");
}

#[test]
fn cf_params_interceptor() {
    let mut browser = cleared_session();
    let interceptor = InterceptionPolicy::new();

    let result =
        get_params_with_interceptor(&mut browser, "https://nowsecure.nl/#relax", "p.lead", &interceptor)
            .expect("Failed to get params");

    assert!(result.token.is_some(), "Token is empty");
    assert!(result.user_agent.is_some(), "Token is empty");
}

#[test]
fn run_without_policy_reports_user_agent_and_may_lack_token() {
    // No cookie named cf_clearance is set: the token is absent, while the
    // user-agent string is still reported and non-empty.
    let mut browser = ScriptedBrowser::new(
        vec![cookie("session_id", "abc123")],
        "Mozilla/5.0 (X11; Linux x86_64) ExampleBrowser/1.0".to_string(),
        true,
    );
    let result = run_session(&mut browser, "https://example-protected-site/", "p.lead", None)
        .expect("session should succeed");
    assert!(result.token.is_none());
    let ua = result.user_agent.expect("user agent should be reported");
    assert!(!ua.is_empty());
}

#[test]
fn run_with_policy_blocks_all_non_allowed_traffic() {
    let mut browser = cleared_session();
    browser.traffic = vec![
        req(ResourceType::Document, "r1"),
        req(ResourceType::Image, "r2"),
        req(ResourceType::Script, "r3"),
        req(ResourceType::Stylesheet, "r4"),
        req(ResourceType::Font, "r5"),
        req(ResourceType::Xhr, "r6"),
    ];
    let policy = InterceptionPolicy::new();
    let result = run_session(
        &mut browser,
        "https://example-protected-site/",
        "p.lead",
        Some(&policy),
    )
    .expect("session should succeed");
    assert!(result.user_agent.is_some());

    // Every request the scripted page issued received exactly one
    // decision, and nothing outside the allow-set was let through.
    assert_eq!(browser.decisions.len(), browser.traffic.len());
    for (r, d) in browser.traffic.iter().zip(browser.decisions.iter()) {
        let allowed = matches!(
            r.resource_type,
            ResourceType::Document | ResourceType::Script | ResourceType::Xhr
        );
        if allowed {
            assert_eq!(*d, InterceptDecision::Allow);
        } else {
            assert!(matches!(d, InterceptDecision::Deny { .. }));
        }
    }
}

#[test]
fn missing_readiness_selector_times_out_without_reading_back() {
    let mut browser = cleared_session();
    browser.element_present = false;
    let err = run_session(&mut browser, "https://example-protected-site/", "p.lead", None)
        .expect_err("session should fail");
    assert_eq!(err, SessionError::ElementWaitTimedOut);
    assert!(!browser.cookie_read_done);
    assert!(!browser.version_read_done);
}

#[test]
fn launch_failure_is_reported() {
    let mut browser = cleared_session();
    browser.fail_launch = true;
    let err = get_params(&mut browser, "https://example-protected-site/", "p.lead")
        .expect_err("session should fail");
    assert_eq!(err, SessionError::SessionLaunchFailed);
}

#[test]
fn page_open_failure_is_reported_as_launch_failure() {
    let mut browser = cleared_session();
    browser.fail_new_page = true;
    let err = get_params(&mut browser, "https://example-protected-site/", "p.lead")
        .expect_err("session should fail");
    assert_eq!(err, SessionError::SessionLaunchFailed);
}

#[test]
fn navigation_failure_is_reported() {
    let mut browser = cleared_session();
    browser.fail_navigation = true;
    let err = get_params(&mut browser, "https://example-protected-site/", "p.lead")
        .expect_err("session should fail");
    assert_eq!(err, SessionError::NavigationFailed);
}

#[test]
fn cookie_read_failure_is_reported() {
    let mut browser = cleared_session();
    browser.fail_cookie_read = true;
    let err = get_params(&mut browser, "https://example-protected-site/", "p.lead")
        .expect_err("session should fail");
    assert_eq!(err, SessionError::CookieReadFailed);
    assert!(!browser.version_read_done);
}

#[test]
fn version_read_failure_is_reported() {
    let mut browser = cleared_session();
    browser.fail_version_read = true;
    let err = get_params(&mut browser, "https://example-protected-site/", "p.lead")
        .expect_err("session should fail");
    assert_eq!(err, SessionError::VersionReadFailed);
}

#[test]
fn interception_setup_failure_is_reported() {
    let mut browser = cleared_session();
    browser.fail_interception = true;
    let policy = InterceptionPolicy::new();
    let err = get_params_with_interceptor(
        &mut browser,
        "https://example-protected-site/",
        "p.lead",
        &policy,
    )
    .expect_err("session should fail");
    assert_eq!(err, SessionError::InterceptionSetupFailed);
}

#[test]
fn interception_failure_is_irrelevant_without_policy() {
    // Without a policy the interception channel is never touched, so a
    // script that would fail interception setup still succeeds.
    let mut browser = cleared_session();
    browser.fail_interception = true;
    let result = get_params(&mut browser, "https://example-protected-site/", "p.lead")
        .expect("session should succeed");
    assert!(result.token.is_some());
}

#[test]
fn token_is_value_of_first_matching_cookie() {
    let cookies = vec![
        cookie("other", "x"),
        cookie("cf_clearance", "first-token"),
        cookie("cf_clearance", "second-token"),
    ];
    assert_eq!(find_clearance_token(&cookies), Some("first-token".to_string()));
}

#[test]
fn token_is_absent_when_no_cookie_matches() {
    let cookies = vec![cookie("other", "x"), cookie("session_id", "y")];
    assert_eq!(find_clearance_token(&cookies), None);
    assert_eq!(find_clearance_token(&Vec::new()), None);
}
