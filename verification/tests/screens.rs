use act4g::api::{DeviceCodeResponse, GitHubUser, NotifRepo, NotifSubject, Notification, NotificationDetail, TokenResponse};
use act4g::credentials::{clear_token, keystore_remove_outcome, keystore_save_outcome, load_token, save_token};
use act4g::screens::auth::auth_progress_message;
use act4g::screens::detail::{description_text, format_timestamp, meta_rows, reason_label as detail_reason, type_style};
use act4g::screens::home::{
    account_label, avatar, badge_background, filter_notifications, format_date, home_banner,
    home_content, notif_type_style, reason_label, search_field_text, search_focused, HomeContent,
};
use act4g::screens::{
    device_authorization_url, next_poll_interval, AuthPhase, DetailLoad, HomeLoad, PollStep,
    Router, Screen,
};

fn notif(id: &str, title: &str, repo: &str, kind: &str) -> Notification {
    Notification {
        id: id.to_string(),
        repository: NotifRepo {
            full_name: repo.to_string(),
            html_url: format!("https://github.com/{repo}"),
        },
        subject: NotifSubject {
            title: title.to_string(),
            kind: kind.to_string(),
            url: Some(format!("https://api.github.com/repos/{repo}/issues/{id}")),
            latest_comment_url: None,
        },
        reason: "mention".to_string(),
        updated_at: "2026-09-02T10:11:12Z".to_string(),
        unread: true,
    }
}

fn user(login: &str) -> GitHubUser {
    GitHubUser { login: login.to_string(), name: None, avatar_url: String::new() }
}

fn signed_in() -> Router {
    let mut r = Router::new(Some("tok".to_string()));
    let id = r.home_request_id;
    let out = r.home_loaded(
        id,
        "tok",
        Ok(user("octo")),
        Ok(vec![notif("1", "Fix bug", "octo/app", "Issue"), notif("2", "Release v2", "octo/lib", "Release")]),
    );
    assert_eq!(out, HomeLoad::Applied);
    r
}

fn code() -> DeviceCodeResponse {
    DeviceCodeResponse {
        device_code: "dev".to_string(),
        user_code: "ABCD-1234".to_string(),
        verification_uri: "https://github.com/login/device".to_string(),
        expires_in: 900,
        interval: 2,
    }
}

#[test]
fn start_without_session_shows_sign_in() {
    let r = Router::new(load_token());
    assert_eq!(r.current_screen, Screen::Auth);
    assert!(!r.notifications_loading);
    assert_eq!(r.home_request_id, 0);
}

#[test]
fn start_with_session_loads_inbox() {
    let r = Router::new(Some("tok".to_string()));
    assert_eq!(r.current_screen, Screen::Home);
    assert!(r.notifications_loading);
    assert_eq!(r.home_request_id, 1);
}

#[test]
fn device_flow_signs_in() {
    let mut r = Router::new(None);
    assert!(!r.start_device_flow());
    let id = r.auth_request_id;
    let poll = r.device_code_received(id, false, &code()).unwrap();
    assert_eq!(poll.interval, 5);
    assert_eq!(poll.authorization_url, "https://github.com/login/device?act4g_code=ABCD-1234");
    match &r.auth_phase {
        AuthPhase::WaitingForUser { user_code, interval, .. } => {
            assert_eq!(user_code, "ABCD-1234");
            assert_eq!(*interval, 5);
        }
        _ => panic!("expected waiting phase"),
    }
    let pending = TokenResponse { access_token: None, error: Some("authorization_pending".to_string()) };
    assert!(matches!(r.token_received(id, false, pending), PollStep::Continue));
    let ok = TokenResponse { access_token: Some("newtok".to_string()), error: None };
    match r.token_received(id, false, ok) {
        PollStep::SignedIn { token, home_request_id } => {
            assert_eq!(token, "newtok");
            assert_eq!(home_request_id, r.home_request_id);
        }
        _ => panic!("expected sign-in"),
    }
    assert_eq!(r.current_screen, Screen::Home);
    assert_eq!(r.token.as_deref(), Some("newtok"));
    assert!(!r.polling_active);
    assert!(r.notifications_loading);
}

#[test]
fn denied_authorization_stops_flow() {
    let mut r = Router::new(None);
    r.start_device_flow();
    let id = r.auth_request_id;
    let denied = TokenResponse { access_token: None, error: Some("access_denied".to_string()) };
    assert!(matches!(r.token_received(id, false, denied), PollStep::Stop));
    match &r.auth_phase {
        AuthPhase::Error(m) => assert_eq!(m, "Auth denied: access_denied"),
        _ => panic!("expected error"),
    }
}

#[test]
fn device_flow_failures_show_messages() {
    let mut r = Router::new(None);
    r.start_device_flow();
    let id = r.auth_request_id;
    r.device_code_failed(id, false, "boom");
    match &r.auth_phase {
        AuthPhase::Error(m) => assert_eq!(m, "Failed to start auth: boom"),
        _ => panic!(),
    }
    assert!(!r.polling_active);
    r.start_device_flow();
    let id = r.auth_request_id;
    r.device_flow_client_failed(id, false, "no tls");
    match &r.auth_phase {
        AuthPhase::Error(m) => assert_eq!(m, "Client error: no tls"),
        _ => panic!(),
    }
    r.start_device_flow();
    let id = r.auth_request_id;
    r.device_code_expired(id, false);
    match &r.auth_phase {
        AuthPhase::Error(m) => {
            assert_eq!(m, "The device code expired. Start sign in again to get a new code.")
        }
        _ => panic!(),
    }
    r.dismiss_auth_error();
    assert!(matches!(r.auth_phase, AuthPhase::Idle));
}

#[test]
fn cancelled_flow_ignores_late_answers() {
    let mut r = Router::new(None);
    r.start_device_flow();
    let id = r.auth_request_id;
    assert!(r.cancel_device_flow());
    assert!(r.device_code_received(id, false, &code()).is_none());
    let ok = TokenResponse { access_token: Some("late".to_string()), error: None };
    assert!(matches!(r.token_received(id, false, ok), PollStep::Stop));
    assert!(r.token.is_none());
    assert!(matches!(r.auth_phase, AuthPhase::Idle));
    // A cancel flag set by the platform also stops the flow.
    r.start_device_flow();
    let id = r.auth_request_id;
    r.device_code_failed(id, true, "x");
    assert!(matches!(r.auth_phase, AuthPhase::RequestingCode));
}

#[test]
fn cancel_waiting_keeps_request_id() {
    let mut r = Router::new(None);
    r.start_device_flow();
    let id = r.auth_request_id;
    assert!(r.cancel_waiting());
    assert_eq!(r.auth_request_id, id);
    assert!(matches!(r.auth_phase, AuthPhase::Idle));
    assert!(!r.cancel_waiting());
}

#[test]
fn slow_down_lengthens_polling() {
    let slow = TokenResponse { access_token: None, error: Some("slow_down".to_string()) };
    assert_eq!(next_poll_interval(5, &slow), 10);
    let pending = TokenResponse { access_token: None, error: Some("authorization_pending".to_string()) };
    assert_eq!(next_poll_interval(5, &pending), 5);
}

#[test]
fn authorization_url_separator() {
    assert_eq!(device_authorization_url("https://x/y?a=1", "C"), "https://x/y?a=1&act4g_code=C");
    assert_eq!(device_authorization_url("https://x/y", "C"), "https://x/y?act4g_code=C");
}

#[test]
fn expired_session_returns_to_sign_in() {
    let mut r = Router::new(Some("tok".to_string()));
    let id = r.home_request_id;
    let out = r.home_loaded(id, "tok", Err(Some(401)), Ok(vec![]));
    assert_eq!(out, HomeLoad::SessionExpired);
    assert_eq!(r.current_screen, Screen::Auth);
    assert!(r.token.is_none());
    match &r.auth_phase {
        AuthPhase::Error(m) => assert_eq!(m, "Your GitHub session expired. Sign in again to continue."),
        _ => panic!(),
    }
}

#[test]
fn partial_failures_set_home_error() {
    let mut r = signed_in();
    let id = r.load_home_data();
    assert_eq!(r.home_loaded(id, "tok", Ok(user("octo")), Err(Some(500))), HomeLoad::Applied);
    assert_eq!(r.notifications.len(), 2);
    assert_eq!(
        r.home_error.as_deref(),
        Some("Notifications could not be refreshed. Check your connection and try again.")
    );
    assert!(!r.notifications_loading);
    let id = r.load_home_data();
    r.home_loaded(id, "tok", Err(None), Ok(vec![]));
    assert_eq!(
        r.home_error.as_deref(),
        Some("Notifications loaded, but your profile is temporarily unavailable.")
    );
    assert!(r.notifications.is_empty());
    r.home_client_failed();
    assert_eq!(
        r.home_error.as_deref(),
        Some("GitHub could not be reached. Check your connection and try again.")
    );
}

#[test]
fn stale_home_load_is_ignored() {
    let mut r = signed_in();
    let first = r.load_home_data();
    let (_, second) = r.refresh_notifications().unwrap();
    assert_ne!(first, second);
    assert_eq!(r.home_loaded(first, "tok", Ok(user("x")), Ok(vec![])), HomeLoad::Stale);
    assert_eq!(r.notifications.len(), 2);
    assert_eq!(r.home_loaded(second, "other", Ok(user("x")), Ok(vec![])), HomeLoad::Stale);
    r.sign_out();
    assert_eq!(r.home_loaded(second, "tok", Ok(user("x")), Ok(vec![])), HomeLoad::Stale);
    assert!(r.refresh_notifications().is_none());
}

#[test]
fn open_and_close_notification() {
    let mut r = signed_in();
    let n = r.notifications[0].clone();
    let load = r.open_notification(n);
    let id = match load {
        DetailLoad::Fetch { token, url, request_id } => {
            assert_eq!(token, "tok");
            assert_eq!(url, "https://api.github.com/repos/octo/app/issues/1");
            request_id
        }
        DetailLoad::Unavailable => panic!("expected fetch"),
    };
    assert_eq!(r.current_screen, Screen::Detail);
    assert!(r.notification_detail_loading);
    r.close_notification();
    assert_eq!(r.current_screen, Screen::Home);
    assert!(r.selected_notification.is_none());
    r.detail_loaded(id, None);
    assert!(r.notification_detail_error.is_none());
}

#[test]
fn detail_answers_are_applied() {
    let mut r = signed_in();
    let n = r.notifications[0].clone();
    let id = match r.open_notification(n.clone()) {
        DetailLoad::Fetch { request_id, .. } => request_id,
        _ => panic!(),
    };
    r.detail_loaded(id, None);
    assert_eq!(
        r.notification_detail_error.as_deref(),
        Some("The notification opened, but its extra details could not be loaded.")
    );
    let id = match r.open_notification(n) {
        DetailLoad::Fetch { request_id, .. } => request_id,
        _ => panic!(),
    };
    let detail = NotificationDetail {
        html_url: Some("https://github.com/octo/app/issues/1".to_string()),
        body: None,
        state: None,
        author: None,
        comments: None,
        created_at: None,
        updated_at: None,
    };
    r.detail_loaded(id, Some(detail));
    assert!(!r.notification_detail_loading);
    assert_eq!(
        r.open_selected_notification_in_github().as_deref(),
        Some("https://github.com/octo/app/issues/1")
    );
}

#[test]
fn open_notification_without_session_or_url() {
    let mut r = Router::new(None);
    let n = notif("1", "t", "a/b", "Issue");
    assert!(matches!(r.open_notification(n.clone()), DetailLoad::Unavailable));
    assert_eq!(r.notification_detail_error.as_deref(), Some("GitHub session is unavailable."));
    let mut r = signed_in();
    let mut bare = n;
    bare.subject.url = None;
    assert!(matches!(r.open_notification(bare), DetailLoad::Unavailable));
    assert_eq!(
        r.notification_detail_error.as_deref(),
        Some("GitHub did not provide details for this notification.")
    );
    assert!(!r.notification_detail_loading);
}

#[test]
fn release_waits_for_detail_page() {
    let mut r = signed_in();
    let release = r.notifications[1].clone();
    r.open_notification(release);
    assert_eq!(r.open_selected_notification_in_github(), None);
    let mut r = signed_in();
    let issue = r.notifications[0].clone();
    r.open_notification(issue);
    assert_eq!(
        r.open_selected_notification_in_github().as_deref(),
        Some("https://github.com/octo/app/issues/1")
    );
    r.close_notification();
    assert_eq!(r.open_selected_notification_in_github(), None);
}

#[test]
fn detail_screen_without_selection_falls_back() {
    let mut r = signed_in();
    r.navigate_to(Screen::Detail);
    assert!(!r.ensure_notification_selected());
    assert_eq!(r.current_screen, Screen::Home);
}

#[test]
fn sign_out_forgets_everything() {
    let mut r = signed_in();
    r.type_into_search("a");
    assert!(!r.sign_out());
    assert!(r.token.is_none());
    assert!(r.user.is_none());
    assert!(r.notifications.is_empty());
    assert_eq!(r.search_query, "");
    assert_eq!(r.current_screen, Screen::Auth);
    assert!(matches!(r.auth_phase, AuthPhase::Idle));
}

#[test]
fn search_typing_and_backspace() {
    let mut r = Router::new(None);
    r.type_into_search("ab");
    r.type_into_search("c");
    assert_eq!(r.search_query, "abc");
    r.type_into_search("\x08");
    assert_eq!(r.search_query, "ab");
    r.clear_search();
    r.type_into_search("\x08");
    assert_eq!(r.search_query, "");
}

#[test]
fn filter_matches_title_or_repo_ignoring_case() {
    let ns = vec![
        notif("1", "Fix Parser", "octo/app", "Issue"),
        notif("2", "Docs", "Rust-Lang/rust", "PullRequest"),
        notif("3", "other", "x/y", "Issue"),
    ];
    assert_eq!(filter_notifications(&ns, ""), vec![0, 1, 2]);
    assert_eq!(filter_notifications(&ns, "parser"), vec![0]);
    assert_eq!(filter_notifications(&ns, "RUST"), vec![1]);
    assert_eq!(filter_notifications(&ns, "o"), vec![0, 1, 2]);
    assert_eq!(filter_notifications(&ns, "zzz"), Vec::<usize>::new());
    // A longer query lists a subset of what its prefix lists.
    let short = filter_notifications(&ns, "r");
    let long = filter_notifications(&ns, "rust");
    assert!(long.iter().all(|i| short.contains(i)));
    assert_eq!(filter_notifications(&ns, "Fix PARSER"), filter_notifications(&ns, "fix parser"));
}

#[test]
fn home_body_states() {
    let mut r = Router::new(Some("tok".to_string()));
    assert!(matches!(home_content(&r), HomeContent::Loading));
    r.home_client_failed();
    match home_content(&r) {
        HomeContent::Failed(m) => {
            assert_eq!(m, "GitHub could not be reached. Check your connection and try again.")
        }
        _ => panic!(),
    }
    assert_eq!(home_banner(&r), None);
    let mut r = signed_in();
    assert!(matches!(home_content(&r), HomeContent::List(ref v) if v == &vec![0, 1]));
    r.type_into_search("nothing-matches");
    assert!(matches!(home_content(&r), HomeContent::Empty { searching: true }));
    r.home_client_failed();
    assert!(home_banner(&r).is_some());
    let empty = Router::new(None);
    assert!(matches!(home_content(&empty), HomeContent::Empty { searching: false }));
}

#[test]
fn top_bar_account() {
    assert_eq!(account_label(&Some(user("octo"))), "@octo");
    assert_eq!(account_label(&None), "GitHub notifications");
    let (initial, has, url) = avatar(&Some(user("octo")));
    assert_eq!(initial, "O");
    assert!(!has);
    assert_eq!(url, "");
    let mut u = user("");
    u.avatar_url = "https://a/1.png".to_string();
    let (initial, has, _) = avatar(&Some(u));
    assert_eq!(initial, "?");
    assert!(has);
    assert_eq!(avatar(&None).0, "?");
    assert_eq!(search_field_text(""), "Search notifications");
    assert_eq!(search_field_text("abc"), "abc");
    assert!(search_focused("", true));
    assert!(!search_focused("", false));
}

#[test]
fn card_styles_and_dates() {
    assert_eq!(notif_type_style("PullRequest"), (0xBC8CFF, "PR"));
    assert_eq!(notif_type_style("CheckSuite"), (0xF0883E, "CI"));
    assert_eq!(notif_type_style("Whatever"), (0x8B949E, "N"));
    assert_eq!(reason_label("assign"), "Assigned");
    assert_eq!(reason_label("unknown"), "Notification");
    assert_eq!(format_date("2026-09-02T00:00:00Z"), "09/02");
    assert_eq!(format_date("2026"), "2026");
    assert_eq!(format_date("a-b"), "a/b");
    assert_eq!(format_date("é234-06-07"), "/06/0");
    assert_eq!(badge_background(0xBC8CFF), 0xBC8CFF26);
}

#[test]
fn detail_labels_and_rows() {
    assert_eq!(type_style("PullRequest"), (0xBC8CFF, "Pull request"));
    assert_eq!(type_style("Issue"), (0x3FB950, "Issue"));
    assert_eq!(detail_reason("author"), "You authored this");
    assert_eq!(detail_reason("other"), "Repository activity");
    assert_eq!(format_timestamp("2026-09-02T10:11:12Z"), "2026-09-02 10:11:12");
    assert_eq!(format_timestamp("xZZ"), "x");
    let n = notif("1", "t", "a/b", "Issue");
    let rows = meta_rows(&n, &None);
    assert_eq!(rows.len(), 2);
    assert_eq!(rows[0], ("Reason".to_string(), "You were mentioned".to_string()));
    let d = NotificationDetail {
        html_url: None,
        body: Some("b".to_string()),
        state: Some("open".to_string()),
        author: Some("octo".to_string()),
        comments: Some(12),
        created_at: Some("2026-01-01T00:00:00Z".to_string()),
        updated_at: Some("2026-09-02T10:11:12Z".to_string()),
    };
    let rows = meta_rows(&n, &Some(d.clone()));
    let labels: Vec<&str> = rows.iter().map(|r| r.0.as_str()).collect();
    assert_eq!(labels, vec!["Reason", "Updated", "Author", "State", "Comments", "Created"]);
    assert_eq!(rows[4].1, "12");
    let mut d2 = d.clone();
    d2.updated_at = Some("2026-09-03T00:00:00Z".to_string());
    let rows = meta_rows(&n, &Some(d2));
    assert_eq!(rows.last().unwrap(), &("Detail updated".to_string(), "2026-09-03 00:00:00".to_string()));
    assert_eq!(description_text(true, &None, &Some(d.clone())), "Loading details…");
    assert_eq!(description_text(false, &Some("e".to_string()), &Some(d.clone())), "e");
    assert_eq!(description_text(false, &None, &Some(d)), "b");
    assert_eq!(description_text(false, &None, &None), "No description was provided.");
}

#[test]
fn auth_progress_messages() {
    assert_eq!(auth_progress_message(&AuthPhase::RequestingCode), Some("Requesting device code…"));
    assert_eq!(auth_progress_message(&AuthPhase::Polling), Some("Completing sign in…"));
    assert_eq!(auth_progress_message(&AuthPhase::Idle), None);
}

#[test]
fn credential_outcomes() {
    assert_eq!(load_token(), None);
    assert_eq!(
        save_token("t"),
        Err("Secure credential storage is unavailable on this platform".to_string())
    );
    assert_eq!(clear_token(), Ok(()));
    assert_eq!(keystore_save_outcome(true), Ok(()));
    assert_eq!(
        keystore_save_outcome(false),
        Err("Android Keystore rejected the credential".to_string())
    );
    assert_eq!(
        keystore_remove_outcome(false),
        Err("Failed to remove the saved credential".to_string())
    );
}
