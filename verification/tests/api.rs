use act4g::api::{
    check_suite_web_url, device_code_request, is_unauthorized, link_has_next_page,
    mark_notification_read_request, next_notifications_page, notification_detail_request,
    notification_detail_url, notification_web_url, notifications_page_request,
    parse_notification_detail, proxy_url, system_proxy_url, token_poll_request, user_request,
    ApiError, HttpMethod, NotifRepo, NotifSubject, Notification, NotificationListing, PageStep,
};

fn notification(kind: &str, url: &str, latest_comment_url: Option<&str>) -> Notification {
    Notification {
        id: "1".to_string(),
        repository: NotifRepo {
            full_name: "octocat/hello-world".to_string(),
            html_url: "https://github.com/octocat/hello-world".to_string(),
        },
        subject: NotifSubject {
            title: "Hello".to_string(),
            kind: kind.to_string(),
            url: Some(url.to_string()),
            latest_comment_url: latest_comment_url.map(str::to_owned),
        },
        reason: "comment".to_string(),
        updated_at: "2026-09-02T00:00:00Z".to_string(),
        unread: true,
    }
}

fn pairs(v: &[(String, String)]) -> Vec<(&str, &str)> {
    v.iter().map(|(a, b)| (a.as_str(), b.as_str())).collect()
}

#[test]
fn detects_next_page_in_link_header() {
    assert!(link_has_next_page(
        "<https://api.github.com/notifications?page=2>; rel=\"next\", <https://api.github.com/notifications?page=4>; rel=\"last\""
    ));
    assert!(!link_has_next_page(
        "<https://api.github.com/notifications?page=1>; rel=\"prev\""
    ));
}

#[test]
fn prefers_latest_comment_for_notification_detail() {
    let notification = notification(
        "PullRequest",
        "https://api.github.com/repos/octocat/hello-world/pulls/7",
        Some("https://api.github.com/repos/octocat/hello-world/issues/comments/9"),
    );

    assert_eq!(
        notification_detail_url(&notification),
        Some("https://api.github.com/repos/octocat/hello-world/issues/comments/9")
    );
}

#[test]
fn converts_supported_subject_urls_to_web_urls() {
    let pull_request = notification(
        "PullRequest",
        "https://api.github.com/repos/octocat/hello-world/pulls/7",
        None,
    );
    let check_suite = notification(
        "CheckSuite",
        "https://api.github.com/repos/octocat/hello-world/check-suites/5",
        None,
    );

    assert_eq!(
        notification_web_url(&pull_request),
        "https://github.com/octocat/hello-world/pull/7"
    );
    assert_eq!(
        notification_web_url(&check_suite),
        "https://github.com/octocat/hello-world"
    );
    assert_eq!(
        check_suite_web_url(
            "https://api.github.com/repos/octocat/hello-world/check-suites/5",
            "abc123"
        ),
        Some("https://github.com/octocat/hello-world/commit/abc123/checks".to_string())
    );
}

#[test]
fn web_url_for_commits_issues_and_discussions() {
    let commit = notification(
        "Commit",
        "https://api.github.com/repos/octocat/hello-world/commits/abc",
        None,
    );
    assert_eq!(
        notification_web_url(&commit),
        "https://github.com/octocat/hello-world/commit/abc"
    );
    let issue = notification(
        "Issue",
        "https://api.github.com/repos/octocat/hello-world/issues/3",
        None,
    );
    assert_eq!(
        notification_web_url(&issue),
        "https://github.com/octocat/hello-world/issues/3"
    );
    let discussion = notification(
        "Discussion",
        "https://api.github.com/repos/octocat/hello-world/discussions/4",
        None,
    );
    assert_eq!(
        notification_web_url(&discussion),
        "https://github.com/octocat/hello-world/discussions/4"
    );
}

#[test]
fn web_url_falls_back_to_repository() {
    let mut n = notification("Issue", "https://example.com/repos/x/y/issues/1", None);
    assert_eq!(notification_web_url(&n), "https://github.com/octocat/hello-world");
    n.subject.url = None;
    assert_eq!(notification_web_url(&n), "https://github.com/octocat/hello-world");
    let release = notification(
        "Release",
        "https://api.github.com/repos/octocat/hello-world/releases/1",
        None,
    );
    assert_eq!(notification_web_url(&release), "https://github.com/octocat/hello-world");
}

#[test]
fn detail_url_without_comment_uses_subject() {
    let n = notification("Issue", "https://api.github.com/repos/a/b/issues/1", None);
    assert_eq!(
        notification_detail_url(&n),
        Some("https://api.github.com/repos/a/b/issues/1")
    );
    let mut none = n.clone();
    none.subject.url = None;
    assert_eq!(notification_detail_url(&none), None);
}

#[test]
fn check_suite_url_needs_prefix_and_marker() {
    assert_eq!(check_suite_web_url("https://api.github.com/repos/a/b/pulls/5", "x"), None);
    assert_eq!(check_suite_web_url("https://example.com/repos/a/b/check-suites/5", "x"), None);
}

#[test]
fn unauthorized_status_is_recognized() {
    assert!(is_unauthorized(Some(401)));
    assert!(!is_unauthorized(Some(403)));
    assert!(!is_unauthorized(None));
}

#[test]
fn device_code_request_needs_client_id() {
    assert_eq!(device_code_request("").unwrap_err(), ApiError::MissingClientId);
    let req = device_code_request("abc").unwrap();
    assert_eq!(req.method, HttpMethod::Post);
    assert_eq!(req.url, "https://github.com/login/device/code");
    assert_eq!(pairs(&req.headers), vec![("Accept", "application/json")]);
    assert_eq!(
        pairs(&req.form),
        vec![("client_id", "abc"), ("scope", "notifications read:user repo")]
    );
    assert!(req.query.is_empty());
}

#[test]
fn token_poll_request_carries_device_code() {
    let req = token_poll_request("cid", "dev123");
    assert_eq!(req.url, "https://github.com/login/oauth/access_token");
    assert_eq!(
        pairs(&req.form),
        vec![
            ("client_id", "cid"),
            ("device_code", "dev123"),
            ("grant_type", "urn:ietf:params:oauth:grant-type:device_code"),
        ]
    );
}

#[test]
fn api_requests_carry_token_headers() {
    let req = user_request("tok");
    assert_eq!(req.method, HttpMethod::Get);
    assert_eq!(req.url, "https://api.github.com/user");
    assert_eq!(
        pairs(&req.headers),
        vec![
            ("Authorization", "Bearer tok"),
            ("User-Agent", "act4g/0.1"),
            ("Accept", "application/vnd.github+json"),
            ("X-GitHub-Api-Version", "2022-11-28"),
        ]
    );
    let page = notifications_page_request("tok", 12);
    assert_eq!(page.url, "https://api.github.com/notifications");
    assert_eq!(
        pairs(&page.query),
        vec![("all", "true"), ("per_page", "50"), ("page", "12")]
    );
    let mark = mark_notification_read_request("tok", "77");
    assert_eq!(mark.method, HttpMethod::Patch);
    assert_eq!(mark.url, "https://api.github.com/notifications/threads/77");
}

#[test]
fn detail_request_rejects_foreign_urls() {
    assert_eq!(
        notification_detail_request("t", "https://evil.example/x").unwrap_err(),
        ApiError::UnsupportedNotificationUrl
    );
    let ok = notification_detail_request("t", "https://api.github.com/repos/a/b/issues/1").unwrap();
    assert_eq!(ok.url, "https://api.github.com/repos/a/b/issues/1");
    assert_eq!(
        ApiError::UnsupportedNotificationUrl.message(),
        "GitHub returned an unsupported notification URL"
    );
    assert_eq!(
        ApiError::MissingClientId.message(),
        "GitHub OAuth client ID is not configured"
    );
}

#[test]
fn pages_advance_only_with_next_link() {
    assert_eq!(next_notifications_page(1, Some("<u>; rel=\"next\"")), Some(2));
    assert_eq!(next_notifications_page(3, Some("<u>; rel=\"last\"")), None);
    assert_eq!(next_notifications_page(3, None), None);
}

#[test]
fn detail_document_fields_are_read() {
    let body = r#"{"html_url":"https://github.com/a/b/issues/1","body":"hello","state":"open",
        "user":{"login":"octo"},"comments":3,"created_at":"2024-01-01T00:00:00Z","updated_at":"2024-01-02T00:00:00Z"}"#;
    let d = parse_notification_detail("https://api.github.com/repos/a/b/issues/1", body).unwrap();
    assert_eq!(d.html_url.as_deref(), Some("https://github.com/a/b/issues/1"));
    assert_eq!(d.body.as_deref(), Some("hello"));
    assert_eq!(d.state.as_deref(), Some("open"));
    assert_eq!(d.author.as_deref(), Some("octo"));
    assert_eq!(d.comments, Some(3));
    assert_eq!(d.created_at.as_deref(), Some("2024-01-01T00:00:00Z"));
    assert_eq!(d.updated_at.as_deref(), Some("2024-01-02T00:00:00Z"));
}

#[test]
fn detail_document_fallbacks() {
    let body = r#"{"head_sha":"abc","body":"  \n ","status":"completed","author":{"login":"bot"},"comments":-1}"#;
    let d = parse_notification_detail(
        "https://api.github.com/repos/o/r/check-suites/9",
        body,
    )
    .unwrap();
    assert_eq!(d.html_url.as_deref(), Some("https://github.com/o/r/commit/abc/checks"));
    assert_eq!(d.body, None);
    assert_eq!(d.state.as_deref(), Some("completed"));
    assert_eq!(d.author.as_deref(), Some("bot"));
    assert_eq!(d.comments, None);
    assert_eq!(d.created_at, None);
}

#[test]
fn author_falls_back_only_when_user_login_is_absent() {
    let url = "https://api.github.com/repos/a/b/issues/1";
    let d = parse_notification_detail(url, r#"{"user":{"login":null},"author":{"login":"bob"}}"#).unwrap();
    assert_eq!(d.author, None);
    let d = parse_notification_detail(url, r#"{"user":{"id":1},"author":{"login":"bob"}}"#).unwrap();
    assert_eq!(d.author.as_deref(), Some("bob"));
    let d = parse_notification_detail(url, r#"{"user":null,"author":{"login":"bob"}}"#).unwrap();
    assert_eq!(d.author.as_deref(), Some("bob"));
    let d = parse_notification_detail(url, r#"{"user":{"login":"ann"},"author":{"login":"bob"}}"#).unwrap();
    assert_eq!(d.author.as_deref(), Some("ann"));
}

#[test]
fn detail_document_must_be_json() {
    let err = parse_notification_detail("https://api.github.com/x", "not json").unwrap_err();
    assert!(matches!(err, ApiError::MalformedJson(_)));
    assert!(err.message().starts_with("parse notification detail: "));
    assert!(err.message().len() > "parse notification detail: ".len());
    let d = parse_notification_detail("https://api.github.com/x", "[1,2]").unwrap();
    assert_eq!(d.html_url, None);
    assert_eq!(d.body, None);
}

#[test]
fn system_proxy_formatting() {
    assert_eq!(
        system_proxy_url(Some("10.0.0.1".to_string()), 8080),
        Some("http://10.0.0.1:8080".to_string())
    );
    assert_eq!(
        system_proxy_url(Some("::1".to_string()), 3128),
        Some("http://[::1]:3128".to_string())
    );
    assert_eq!(
        system_proxy_url(Some("[::1]".to_string()), 3128),
        Some("http://[::1]:3128".to_string())
    );
    assert_eq!(system_proxy_url(Some(String::new()), 80), None);
    assert_eq!(system_proxy_url(Some("h".to_string()), 0), None);
    assert_eq!(system_proxy_url(Some("h".to_string()), 65536), None);
    assert_eq!(system_proxy_url(None, 80), None);
}

#[test]
fn system_proxy_wins_over_configured() {
    assert_eq!(
        proxy_url(Some("http://a:1".to_string()), Some("http://b:2".to_string())),
        Some("http://a:1".to_string())
    );
    assert_eq!(proxy_url(None, Some("http://b:2".to_string())), Some("http://b:2".to_string()));
    assert_eq!(proxy_url(None, None), None);
}

fn with_id(id: &str) -> Notification {
    let mut n = notification("Issue", "https://api.github.com/repos/o/r/issues/1", None);
    n.id = id.to_string();
    n
}

fn ids(ns: &[Notification]) -> Vec<&str> {
    ns.iter().map(|n| n.id.as_str()).collect()
}

fn requested_page(listing: &NotificationListing) -> Option<String> {
    listing.page_request("tok").map(|req| {
        assert_eq!(req.url, "https://api.github.com/notifications");
        assert_eq!(req.headers[0], ("Authorization".to_string(), "Bearer tok".to_string()));
        req.query[2].1.clone()
    })
}

const NEXT: &str = "<https://api.github.com/notifications?page=2>; rel=\"next\"";

#[test]
fn listing_joins_pages_in_order() {
    let mut listing = NotificationListing::new();
    assert_eq!(requested_page(&listing).as_deref(), Some("1"));
    match listing.page_answered(Ok(vec![with_id("a")]), Some(NEXT)) {
        PageStep::Fetch(page) => assert_eq!(page, 2),
        _ => panic!("expected a request for page 2"),
    }
    assert_eq!(requested_page(&listing).as_deref(), Some("2"));
    match listing.page_answered(Ok(vec![with_id("b"), with_id("c")]), Some(NEXT)) {
        PageStep::Fetch(page) => assert_eq!(page, 3),
        _ => panic!("expected a request for page 3"),
    }
    assert_eq!(requested_page(&listing).as_deref(), Some("3"));
    let last = "<https://api.github.com/notifications?page=2>; rel=\"prev\"";
    match listing.page_answered(Ok(vec![with_id("d")]), Some(last)) {
        PageStep::Done(all) => assert_eq!(ids(&all), vec!["a", "b", "c", "d"]),
        _ => panic!("expected the joined pages"),
    }
    assert_eq!(requested_page(&listing), None);
    assert_eq!(listing.next_page(), None);
}

#[test]
fn listing_without_link_ends_after_first_page() {
    let mut listing = NotificationListing::new();
    match listing.page_answered(Ok(vec![with_id("x"), with_id("y")]), None) {
        PageStep::Done(all) => assert_eq!(ids(&all), vec!["x", "y"]),
        _ => panic!("expected the single page"),
    }
    assert!(listing.page_request("tok").is_none());
}

#[test]
fn listing_failure_drops_earlier_pages() {
    let mut listing = NotificationListing::new();
    match listing.page_answered(Ok(vec![with_id("a")]), Some(NEXT)) {
        PageStep::Fetch(page) => assert_eq!(page, 2),
        _ => panic!("expected a request for page 2"),
    }
    match listing.page_answered(Err(Some(401)), None) {
        PageStep::Failed(status) => {
            assert_eq!(status, Some(401));
            assert!(is_unauthorized(status));
        }
        _ => panic!("expected the failure"),
    }
    assert!(listing.page_request("tok").is_none());
    assert_eq!(listing.next_page(), None);
}

#[test]
fn listing_failure_without_status() {
    let mut listing = NotificationListing::new();
    match listing.page_answered(Err(None), Some(NEXT)) {
        PageStep::Failed(status) => assert!(status.is_none() && !is_unauthorized(status)),
        _ => panic!("expected the failure"),
    }
    assert!(listing.page_request("tok").is_none());
}
