//! The screen state machine: which screen is shown, the sign-in flow, the
//! inbox and the open notification. Each method takes the state and one
//! event (a tap, or the answer to a request the platform layer sent) to the
//! next state, and says what the platform layer must do next.

pub mod auth;
pub mod detail;
pub mod home;

use vstd::prelude::*;
use crate::api::{
    DeviceCodeResponse, DeviceCodeResponseView, GitHubUser, GitHubUserView, Notification,
    NotificationDetail, NotificationDetailView, NotificationView, TokenResponse, TokenResponseView,
    detail_url, notification_detail_url, notification_web_url, web_url,
};
use crate::text::{
    append_str, chars_of, contains, opt_view, str_contains, str_equal, string_of,
};

verus! {

broadcast use vstd::string::group_string_axioms;

/// The screen on display.
#[derive(Debug, Clone, Copy, PartialEq, Eq, Structural)]
pub enum Screen {
    Auth,
    Home,
    Detail,
}

impl Default for Screen {
    fn default() -> (r: Self)
        ensures
            r == Screen::Auth,
    {
        Screen::Auth
    }
}

/// Where the sign-in flow stands.
#[derive(Debug)]
pub enum AuthPhase {
    Idle,
    RequestingCode,
    WaitingForUser { user_code: String, verification_uri: String, device_code: String, interval: u64 },
    Polling,
    Error(String),
}

pub enum AuthPhaseView {
    Idle,
    RequestingCode,
    WaitingForUser {
        user_code: Seq<char>,
        verification_uri: Seq<char>,
        device_code: Seq<char>,
        interval: u64,
    },
    Polling,
    Error(Seq<char>),
}

impl View for AuthPhase {
    type V = AuthPhaseView;

    open spec fn view(&self) -> AuthPhaseView {
        match self {
            AuthPhase::Idle => AuthPhaseView::Idle,
            AuthPhase::RequestingCode => AuthPhaseView::RequestingCode,
            AuthPhase::WaitingForUser { user_code, verification_uri, device_code, interval } =>
                AuthPhaseView::WaitingForUser {
                user_code: user_code@,
                verification_uri: verification_uri@,
                device_code: device_code@,
                interval: *interval,
            },
            AuthPhase::Polling => AuthPhaseView::Polling,
            AuthPhase::Error(m) => AuthPhaseView::Error(m@),
        }
    }
}

/// The state of the application.
///
/// `polling_active` records whether a sign-in flow holds a cancellation
/// handle; the platform layer keeps the handle itself.
#[derive(Debug)]
pub struct Router {
    pub current_screen: Screen,
    pub auth_phase: AuthPhase,
    pub polling_active: bool,
    pub token: Option<String>,
    pub user: Option<GitHubUser>,
    pub notifications: Vec<Notification>,
    pub notifications_loading: bool,
    pub home_error: Option<String>,
    pub search_query: String,
    pub selected_notification: Option<Notification>,
    pub notification_detail: Option<NotificationDetail>,
    pub notification_detail_loading: bool,
    pub notification_detail_error: Option<String>,
    pub auth_request_id: u64,
    pub home_request_id: u64,
    pub detail_request_id: u64,
}

pub struct RouterView {
    pub current_screen: Screen,
    pub auth_phase: AuthPhaseView,
    pub polling_active: bool,
    pub token: Option<Seq<char>>,
    pub user: Option<GitHubUserView>,
    pub notifications: Seq<NotificationView>,
    pub notifications_loading: bool,
    pub home_error: Option<Seq<char>>,
    pub search_query: Seq<char>,
    pub selected_notification: Option<NotificationView>,
    pub notification_detail: Option<NotificationDetailView>,
    pub notification_detail_loading: bool,
    pub notification_detail_error: Option<Seq<char>>,
    pub auth_request_id: u64,
    pub home_request_id: u64,
    pub detail_request_id: u64,
}

pub open spec fn user_view(u: Option<GitHubUser>) -> Option<GitHubUserView> {
    match u {
        Some(x) => Some(x@),
        None => None,
    }
}

pub open spec fn notification_view(n: Option<Notification>) -> Option<NotificationView> {
    match n {
        Some(x) => Some(x@),
        None => None,
    }
}

pub open spec fn detail_view(d: Option<NotificationDetail>) -> Option<NotificationDetailView> {
    match d {
        Some(x) => Some(x@),
        None => None,
    }
}

pub open spec fn notifications_view(v: Seq<Notification>) -> Seq<NotificationView> {
    v.map_values(|n: Notification| n@)
}

impl View for Router {
    type V = RouterView;

    open spec fn view(&self) -> RouterView {
        RouterView {
            current_screen: self.current_screen,
            auth_phase: self.auth_phase@,
            polling_active: self.polling_active,
            token: opt_view(self.token),
            user: user_view(self.user),
            notifications: notifications_view(self.notifications@),
            notifications_loading: self.notifications_loading,
            home_error: opt_view(self.home_error),
            search_query: self.search_query@,
            selected_notification: notification_view(self.selected_notification),
            notification_detail: detail_view(self.notification_detail),
            notification_detail_loading: self.notification_detail_loading,
            notification_detail_error: opt_view(self.notification_detail_error),
            auth_request_id: self.auth_request_id,
            home_request_id: self.home_request_id,
            detail_request_id: self.detail_request_id,
        }
    }
}

// ---------------------------------------------------------------------------
// Messages
// ---------------------------------------------------------------------------

pub open spec fn client_error_prefix() -> Seq<char> {
    "Client error: "@
}

pub open spec fn start_error_prefix() -> Seq<char> {
    "Failed to start auth: "@
}

pub open spec fn auth_denied_prefix() -> Seq<char> {
    "Auth denied: "@
}

pub open spec fn code_expired_message() -> Seq<char> {
    "The device code expired. Start sign in again to get a new code."@
}

pub open spec fn unreachable_message() -> Seq<char> {
    "GitHub could not be reached. Check your connection and try again."@
}

pub open spec fn session_expired_message() -> Seq<char> {
    "Your GitHub session expired. Sign in again to continue."@
}

pub open spec fn refresh_failed_message() -> Seq<char> {
    "Notifications could not be refreshed. Check your connection and try again."@
}

pub open spec fn profile_unavailable_message() -> Seq<char> {
    "Notifications loaded, but your profile is temporarily unavailable."@
}

pub open spec fn session_unavailable_message() -> Seq<char> {
    "GitHub session is unavailable."@
}

pub open spec fn no_details_message() -> Seq<char> {
    "GitHub did not provide details for this notification."@
}

pub open spec fn details_failed_message() -> Seq<char> {
    "The notification opened, but its extra details could not be loaded."@
}

// ---------------------------------------------------------------------------
// Transitions, stated over the view
// ---------------------------------------------------------------------------

/// The request counter after one more request (`u64::wrapping_add(1)`).
pub open spec fn next_id(id: u64) -> u64 {
    if id == u64::MAX {
        0
    } else {
        (id + 1) as u64
    }
}

fn bump(id: u64) -> (r: u64)
    ensures
        r == next_id(id),
{
    id.wrapping_add(1)
}

/// The state right after start-up with the saved session `token`.
pub open spec fn initial(token: Option<Seq<char>>) -> RouterView {
    RouterView {
        current_screen: if token is Some {
            Screen::Home
        } else {
            Screen::Auth
        },
        auth_phase: AuthPhaseView::Idle,
        polling_active: false,
        token: token,
        user: None,
        notifications: seq![],
        notifications_loading: token is Some,
        home_error: None,
        search_query: seq![],
        selected_notification: None,
        notification_detail: None,
        notification_detail_loading: false,
        notification_detail_error: None,
        auth_request_id: 0,
        home_request_id: if token is Some {
            1
        } else {
            0
        },
        detail_request_id: 0,
    }
}

/// A home load has begun.
pub open spec fn home_load_started(s: RouterView) -> RouterView {
    RouterView {
        home_request_id: next_id(s.home_request_id),
        notifications_loading: true,
        home_error: None,
        ..s
    }
}

/// A sign-in flow has begun.
pub open spec fn device_flow_started(s: RouterView) -> RouterView {
    RouterView {
        auth_request_id: next_id(s.auth_request_id),
        auth_phase: AuthPhaseView::RequestingCode,
        polling_active: true,
        ..s
    }
}

/// An answer belongs to the running sign-in flow.
pub open spec fn auth_current(s: RouterView, request_id: u64, cancelled: bool) -> bool {
    s.auth_request_id == request_id && !cancelled
}

/// The running sign-in flow stops with `message`.
pub open spec fn auth_failed(s: RouterView, request_id: u64, cancelled: bool, message: Seq<char>) -> RouterView {
    if auth_current(s, request_id, cancelled) {
        RouterView { auth_phase: AuthPhaseView::Error(message), polling_active: false, ..s }
    } else {
        s
    }
}

/// The polling interval: the server's, but never below five seconds.
pub open spec fn poll_interval(server_interval: u64) -> u64 {
    if server_interval < 5 {
        5
    } else {
        server_interval
    }
}

/// The user is shown the code to enter.
pub open spec fn code_received(s: RouterView, request_id: u64, cancelled: bool, code: DeviceCodeResponseView) -> RouterView {
    if auth_current(s, request_id, cancelled) {
        RouterView {
            auth_phase: AuthPhaseView::WaitingForUser {
                user_code: code.user_code,
                verification_uri: code.verification_uri,
                device_code: code.device_code,
                interval: poll_interval(code.interval),
            },
            ..s
        }
    } else {
        s
    }
}

/// The authorization page with the code to enter.
pub open spec fn authorization_url(verification_uri: Seq<char>, user_code: Seq<char>) -> Seq<char> {
    verification_uri + (if contains(verification_uri, seq!['?']) {
        seq!['&']
    } else {
        seq!['?']
    }) + "act4g_code="@ + user_code
}

/// The sign-in flow after one answer to a token poll.
pub open spec fn token_answered(s: RouterView, request_id: u64, cancelled: bool, response: TokenResponseView) -> RouterView {
    if !auth_current(s, request_id, cancelled) {
        s
    } else {
        match response.access_token {
            Some(t) => home_load_started(
                RouterView {
                    token: Some(t),
                    polling_active: false,
                    current_screen: Screen::Home,
                    ..s
                },
            ),
            None => match response.error {
                Some(e) => if e == "authorization_pending"@ || e == "slow_down"@ {
                    s
                } else {
                    RouterView { auth_phase: AuthPhaseView::Error(auth_denied_prefix() + e), ..s }
                },
                None => s,
            },
        }
    }
}

/// What the polling loop does after one answer.
pub open spec fn token_step(s: RouterView, request_id: u64, cancelled: bool, response: TokenResponseView) -> PollStepView {
    if !auth_current(s, request_id, cancelled) {
        PollStepView::Stop
    } else {
        match response.access_token {
            Some(t) => PollStepView::SignedIn {
                token: t,
                home_request_id: next_id(s.home_request_id),
            },
            None => match response.error {
                Some(e) => if e == "authorization_pending"@ || e == "slow_down"@ {
                    PollStepView::Continue
                } else {
                    PollStepView::Stop
                },
                None => PollStepView::Continue,
            },
        }
    }
}

/// The status code of a failed request says the session is over.
pub open spec fn expired_by<A>(r: Result<A, Option<u16>>) -> bool {
    r matches Err(status) && status == Some(401u16)
}

/// The home load with id `request_id`, for `token`, has answered.
pub open spec fn home_answered(
    s: RouterView,
    request_id: u64,
    token: Seq<char>,
    user: Result<GitHubUserView, Option<u16>>,
    notifications: Result<Seq<NotificationView>, Option<u16>>,
) -> RouterView {
    if s.home_request_id != request_id || s.token != Some(token) {
        s
    } else if expired_by(user) || expired_by(notifications) {
        RouterView {
            token: None,
            user: None,
            notifications: seq![],
            notifications_loading: false,
            current_screen: Screen::Auth,
            auth_phase: AuthPhaseView::Error(session_expired_message()),
            ..s
        }
    } else {
        RouterView {
            user: match user {
                Ok(u) => Some(u),
                Err(_) => s.user,
            },
            notifications: match notifications {
                Ok(ns) => ns,
                Err(_) => s.notifications,
            },
            home_error: if notifications is Err {
                Some(refresh_failed_message())
            } else if user is Err {
                Some(profile_unavailable_message())
            } else {
                None
            },
            notifications_loading: false,
            ..s
        }
    }
}

/// The outcome of a home load answer.
pub open spec fn home_outcome(
    s: RouterView,
    request_id: u64,
    token: Seq<char>,
    user: Result<GitHubUserView, Option<u16>>,
    notifications: Result<Seq<NotificationView>, Option<u16>>,
) -> HomeLoad {
    if s.home_request_id != request_id || s.token != Some(token) {
        HomeLoad::Stale
    } else if expired_by(user) || expired_by(notifications) {
        HomeLoad::SessionExpired
    } else {
        HomeLoad::Applied
    }
}

/// A notification is opened.
pub open spec fn notification_opened(s: RouterView, n: NotificationView) -> RouterView {
    let base = RouterView {
        selected_notification: Some(n),
        notification_detail: None,
        notification_detail_error: None,
        notification_detail_loading: true,
        detail_request_id: next_id(s.detail_request_id),
        current_screen: Screen::Detail,
        ..s
    };
    if s.token is None {
        RouterView {
            notification_detail_loading: false,
            notification_detail_error: Some(session_unavailable_message()),
            ..base
        }
    } else if detail_url(n) is None {
        RouterView {
            notification_detail_loading: false,
            notification_detail_error: Some(no_details_message()),
            ..base
        }
    } else {
        base
    }
}

/// The detail load with id `request_id` has answered (`None` on failure).
pub open spec fn detail_answered(s: RouterView, request_id: u64, detail: Option<NotificationDetailView>) -> RouterView {
    if s.detail_request_id != request_id {
        s
    } else {
        match detail {
            Some(d) => RouterView {
                notification_detail_loading: false,
                notification_detail: Some(d),
                ..s
            },
            None => RouterView {
                notification_detail_loading: false,
                notification_detail_error: Some(details_failed_message()),
                ..s
            },
        }
    }
}

/// The open notification is closed.
pub open spec fn notification_closed(s: RouterView) -> RouterView {
    RouterView {
        detail_request_id: next_id(s.detail_request_id),
        current_screen: Screen::Home,
        selected_notification: None,
        notification_detail: None,
        notification_detail_loading: false,
        notification_detail_error: None,
        ..s
    }
}

/// The session is ended.
pub open spec fn signed_out(s: RouterView) -> RouterView {
    RouterView {
        auth_request_id: next_id(s.auth_request_id),
        polling_active: false,
        home_request_id: next_id(s.home_request_id),
        detail_request_id: next_id(s.detail_request_id),
        token: None,
        user: None,
        notifications: seq![],
        notifications_loading: false,
        home_error: None,
        search_query: seq![],
        selected_notification: None,
        notification_detail: None,
        notification_detail_loading: false,
        notification_detail_error: None,
        auth_phase: AuthPhaseView::Idle,
        current_screen: Screen::Auth,
    }
}

/// The sign-in flow is abandoned.
pub open spec fn device_flow_cancelled(s: RouterView) -> RouterView {
    RouterView {
        auth_request_id: next_id(s.auth_request_id),
        polling_active: false,
        auth_phase: AuthPhaseView::Idle,
        ..s
    }
}

/// The page to open on github.com for the open notification: the page the
/// details name, else the page derived from the notification, except for
/// releases and check suites, whose page only the details can name.
pub open spec fn github_page(s: RouterView) -> Option<Seq<char>> {
    match s.selected_notification {
        None => None,
        Some(n) => match s.notification_detail {
            Some(d) if d.html_url is Some => d.html_url,
            _ => if n.subject.kind == "Release"@ || n.subject.kind == "CheckSuite"@ {
                None
            } else {
                Some(web_url(n))
            },
        },
    }
}

/// The search text after one keyboard fragment: a backspace removes the
/// last character, anything else is appended.
pub open spec fn typed(query: Seq<char>, fragment: Seq<char>) -> Seq<char> {
    if fragment == seq!['\u{8}'] {
        if query.len() > 0 {
            query.drop_last()
        } else {
            query
        }
    } else {
        query + fragment
    }
}

// ---------------------------------------------------------------------------
// What the platform layer is told to do
// ---------------------------------------------------------------------------

/// What the polling loop does after one answer to a token poll.
#[derive(Debug)]
pub enum PollStep {
    /// Stop polling.
    Stop,
    /// Wait and poll again.
    Continue,
    /// The user signed in: save `token` and load the inbox as request
    /// `home_request_id`.
    SignedIn { token: String, home_request_id: u64 },
}

pub enum PollStepView {
    Stop,
    Continue,
    SignedIn { token: Seq<char>, home_request_id: u64 },
}

impl View for PollStep {
    type V = PollStepView;

    open spec fn view(&self) -> PollStepView {
        match self {
            PollStep::Stop => PollStepView::Stop,
            PollStep::Continue => PollStepView::Continue,
            PollStep::SignedIn { token, home_request_id } => PollStepView::SignedIn {
                token: token@,
                home_request_id: *home_request_id,
            },
        }
    }
}

/// What became of a home load answer.
#[derive(Debug, Clone, Copy, PartialEq, Eq, Structural)]
pub enum HomeLoad {
    /// The answer belongs to an older load or another session: ignored.
    Stale,
    /// The session was refused: the saved session must be removed.
    SessionExpired,
    /// The answer was applied.
    Applied,
}

/// The polling the platform layer runs once the code is shown.
#[derive(Debug)]
pub struct DevicePoll {
    pub device_code: String,
    pub interval: u64,
    pub expires_in: u64,
    pub authorization_url: String,
}

/// The detail request the platform layer sends after a notification opens.
#[derive(Debug)]
pub enum DetailLoad {
    /// Fetch `url` with `token`; the answer belongs to `request_id`.
    Fetch { token: String, url: String, request_id: u64 },
    /// Nothing to fetch; the screen already says why.
    Unavailable,
}

// ---------------------------------------------------------------------------
// Executable transitions
// ---------------------------------------------------------------------------

/// The authorization page with the code to enter, as the browser opens it.
pub fn device_authorization_url(verification_uri: &str, user_code: &str) -> (r: String)
    ensures
        r@ == authorization_url(verification_uri@, user_code@),
{
    proof {
        reveal_strlit("?");
        reveal_strlit("&");
        assert("?"@ =~= seq!['?']);
        assert("&"@ =~= seq!['&']);
    }
    let mut out = chars_of(verification_uri);
    if str_contains(verification_uri, "?") {
        append_str(&mut out, "&");
    } else {
        append_str(&mut out, "?");
    }
    append_str(&mut out, "act4g_code=");
    append_str(&mut out, user_code);
    string_of(&out)
}

/// The polling interval after an answer: five seconds longer when the
/// server asks to slow down.
pub open spec fn interval_after(interval: u64, response: TokenResponseView) -> u64 {
    if response.error == Some("slow_down"@) {
        (interval + 5) as u64
    } else {
        interval
    }
}

/// The polling interval after `response`.
pub fn next_poll_interval(interval: u64, response: &TokenResponse) -> (r: u64)
    requires
        response@.error == Some("slow_down"@) ==> interval <= u64::MAX - 5,
    ensures
        r == interval_after(interval, response@),
{
    match &response.error {
        Some(e) => if str_equal(e.as_str(), "slow_down") {
            interval + 5
        } else {
            interval
        },
        None => interval,
    }
}

impl Router {
    /// The state at start-up, given the saved session if any; with a saved
    /// session the inbox starts loading as request 1.
    pub fn new(saved_token: Option<String>) -> (r: Self)
        ensures
            r@ == initial(opt_view(saved_token)),
    {
        let has_token = saved_token.is_some();
        let mut router = Router {
            current_screen: if has_token {
                Screen::Home
            } else {
                Screen::Auth
            },
            auth_phase: AuthPhase::Idle,
            polling_active: false,
            token: saved_token,
            user: None,
            notifications: Vec::new(),
            notifications_loading: false,
            home_error: None,
            search_query: String::new(),
            selected_notification: None,
            notification_detail: None,
            notification_detail_loading: false,
            notification_detail_error: None,
            auth_request_id: 0,
            home_request_id: 0,
            detail_request_id: 0,
        };
        proof {
            assert(notifications_view(router.notifications@) =~= Seq::<NotificationView>::empty());
        }
        if has_token {
            router.load_home_data();
        }
        router
    }

    /// Shows `screen`.
    pub fn navigate_to(&mut self, screen: Screen)
        ensures
            final(self)@ == (RouterView { current_screen: screen, ..old(self)@ }),
    {
        self.current_screen = screen;
    }

    /// Begins a sign-in flow. Returns whether a flow was running, whose
    /// polling the platform layer must cancel.
    pub fn start_device_flow(&mut self) -> (cancel_previous: bool)
        ensures
            final(self)@ == device_flow_started(old(self)@),
            cancel_previous == old(self).polling_active,
    {
        let had = self.polling_active;
        self.auth_request_id = bump(self.auth_request_id);
        self.auth_phase = AuthPhase::RequestingCode;
        self.polling_active = true;
        had
    }

    fn auth_fail(&mut self, request_id: u64, cancelled: bool, message: String)
        ensures
            final(self)@ == auth_failed(old(self)@, request_id, cancelled, message@),
    {
        if self.auth_request_id == request_id && !cancelled {
            self.auth_phase = AuthPhase::Error(message);
            self.polling_active = false;
        }
    }

    /// The flow `request_id` could not create an HTTP client.
    pub fn device_flow_client_failed(&mut self, request_id: u64, cancelled: bool, error: &str)
        ensures
            final(self)@ == auth_failed(old(self)@, request_id, cancelled, client_error_prefix() + error@),
    {
        let mut m = chars_of("Client error: ");
        append_str(&mut m, error);
        self.auth_fail(request_id, cancelled, string_of(&m));
    }

    /// The flow `request_id` could not obtain a device code.
    pub fn device_code_failed(&mut self, request_id: u64, cancelled: bool, error: &str)
        ensures
            final(self)@ == auth_failed(old(self)@, request_id, cancelled, start_error_prefix() + error@),
    {
        let mut m = chars_of("Failed to start auth: ");
        append_str(&mut m, error);
        self.auth_fail(request_id, cancelled, string_of(&m));
    }

    /// The code of flow `request_id` expired before the user authorized it.
    pub fn device_code_expired(&mut self, request_id: u64, cancelled: bool)
        ensures
            final(self)@ == auth_failed(old(self)@, request_id, cancelled, code_expired_message()),
    {
        self.auth_fail(
            request_id,
            cancelled,
            "The device code expired. Start sign in again to get a new code.".to_owned(),
        );
    }

    /// The flow `request_id` obtained `code`. When the flow is still
    /// running, the user is shown the code and the polling to run is
    /// returned.
    pub fn device_code_received(&mut self, request_id: u64, cancelled: bool, code: &DeviceCodeResponse) -> (r: Option<DevicePoll>)
        ensures
            final(self)@ == code_received(old(self)@, request_id, cancelled, code@),
            r is Some == auth_current(old(self)@, request_id, cancelled),
            r matches Some(p) ==> p.device_code@ == code.device_code@ && p.interval == poll_interval(code.interval)
                && p.expires_in == code.expires_in && p.authorization_url@ == authorization_url(
                code.verification_uri@,
                code.user_code@,
            ),
    {
        if self.auth_request_id != request_id || cancelled {
            return None;
        }
        let interval = if code.interval < 5 {
            5
        } else {
            code.interval
        };
        self.auth_phase = AuthPhase::WaitingForUser {
            user_code: code.user_code.clone(),
            verification_uri: code.verification_uri.clone(),
            device_code: code.device_code.clone(),
            interval,
        };
        Some(
            DevicePoll {
                device_code: code.device_code.clone(),
                interval,
                expires_in: code.expires_in,
                authorization_url: device_authorization_url(
                    code.verification_uri.as_str(),
                    code.user_code.as_str(),
                ),
            },
        )
    }

    /// The flow `request_id` received `response` to a token poll.
    pub fn token_received(&mut self, request_id: u64, cancelled: bool, response: TokenResponse) -> (r: PollStep)
        ensures
            final(self)@ == token_answered(old(self)@, request_id, cancelled, response@),
            r@ == token_step(old(self)@, request_id, cancelled, response@),
    {
        if self.auth_request_id != request_id || cancelled {
            return PollStep::Stop;
        }
        match response.access_token {
            Some(t) => {
                self.token = Some(t.clone());
                self.polling_active = false;
                self.current_screen = Screen::Home;
                let id = self.load_home_data();
                PollStep::SignedIn { token: t, home_request_id: id }
            },
            None => match response.error {
                Some(e) => {
                    if str_equal(e.as_str(), "authorization_pending") || str_equal(
                        e.as_str(),
                        "slow_down",
                    ) {
                        PollStep::Continue
                    } else {
                        let mut m = chars_of("Auth denied: ");
                        append_str(&mut m, e.as_str());
                        self.auth_phase = AuthPhase::Error(string_of(&m));
                        PollStep::Stop
                    }
                },
                None => PollStep::Continue,
            },
        }
    }

    /// Abandons the sign-in flow. Returns whether a flow was running, whose
    /// polling the platform layer must cancel.
    pub fn cancel_device_flow(&mut self) -> (cancel_polling: bool)
        ensures
            final(self)@ == device_flow_cancelled(old(self)@),
            cancel_polling == old(self).polling_active,
    {
        self.auth_request_id = bump(self.auth_request_id);
        let had = self.polling_active;
        self.polling_active = false;
        self.auth_phase = AuthPhase::Idle;
        had
    }

    /// The Cancel button while the code is shown: the polling stops and
    /// the flow goes back to idle. Returns whether there was polling to
    /// cancel.
    pub fn cancel_waiting(&mut self) -> (cancel_polling: bool)
        ensures
            final(self)@ == (RouterView {
                polling_active: false,
                auth_phase: AuthPhaseView::Idle,
                ..old(self)@
            }),
            cancel_polling == old(self).polling_active,
    {
        let had = self.polling_active;
        self.polling_active = false;
        self.auth_phase = AuthPhase::Idle;
        had
    }

    /// The Try again button after a failed sign-in.
    pub fn dismiss_auth_error(&mut self)
        ensures
            final(self)@ == (RouterView { auth_phase: AuthPhaseView::Idle, ..old(self)@ }),
    {
        self.auth_phase = AuthPhase::Idle;
    }

    /// Begins loading the inbox; returns the id of the load.
    pub fn load_home_data(&mut self) -> (request_id: u64)
        ensures
            final(self)@ == home_load_started(old(self)@),
            request_id == final(self).home_request_id,
    {
        self.home_request_id = bump(self.home_request_id);
        self.notifications_loading = true;
        self.home_error = None;
        self.home_request_id
    }

    /// Reloads the inbox when there is a session: returns the token and the
    /// id of the load.
    pub fn refresh_notifications(&mut self) -> (r: Option<(String, u64)>)
        ensures
            old(self).token is None ==> final(self)@ == old(self)@ && r is None,
            old(self).token is Some ==> final(self)@ == home_load_started(old(self)@),
            old(self).token is Some ==> (r matches Some(p) && Some(p.0@) == opt_view(old(self).token)
                && p.1 == final(self).home_request_id),
    {
        match &self.token {
            Some(t) => {
                let t = t.clone();
                let id = self.load_home_data();
                Some((t, id))
            },
            None => None,
        }
    }

    /// The platform layer could not create an HTTP client for a home load.
    pub fn home_client_failed(&mut self)
        ensures
            final(self)@ == (RouterView {
                notifications_loading: false,
                home_error: Some(unreachable_message()),
                ..old(self)@
            }),
    {
        self.notifications_loading = false;
        self.home_error = Some(
            "GitHub could not be reached. Check your connection and try again.".to_owned(),
        );
    }

    fn token_is(&self, token: &str) -> (r: bool)
        ensures
            r == (opt_view(self.token) == Some(token@)),
    {
        match &self.token {
            Some(t) => str_equal(t.as_str(), token),
            None => false,
        }
    }

    /// The home load `request_id`, made with `token`, answered with the
    /// profile and the notifications, or the HTTP status of each failure.
    pub fn home_loaded(
        &mut self,
        request_id: u64,
        token: &str,
        user: Result<GitHubUser, Option<u16>>,
        notifications: Result<Vec<Notification>, Option<u16>>,
    ) -> (r: HomeLoad)
        ensures
            final(self)@ == home_answered(
                old(self)@,
                request_id,
                token@,
                user_result_view(user),
                notifications_result_view(notifications),
            ),
            r == home_outcome(
                old(self)@,
                request_id,
                token@,
                user_result_view(user),
                notifications_result_view(notifications),
            ),
    {
        if self.home_request_id != request_id || !self.token_is(token) {
            return HomeLoad::Stale;
        }
        let user_expired = match &user {
            Err(status) => crate::api::is_unauthorized(*status),
            Ok(_) => false,
        };
        let notifications_expired = match &notifications {
            Err(status) => crate::api::is_unauthorized(*status),
            Ok(_) => false,
        };
        if user_expired || notifications_expired {
            self.token = None;
            self.user = None;
            self.notifications.clear();
            self.notifications_loading = false;
            self.current_screen = Screen::Auth;
            self.auth_phase = AuthPhase::Error(
                "Your GitHub session expired. Sign in again to continue.".to_owned(),
            );
            proof {
                assert(notifications_view(self.notifications@) =~= Seq::<NotificationView>::empty());
            }
            return HomeLoad::SessionExpired;
        }
        let user_failed = match user {
            Ok(u) => {
                self.user = Some(u);
                false
            },
            Err(_) => true,
        };
        let notifications_failed = match notifications {
            Ok(ns) => {
                self.notifications = ns;
                false
            },
            Err(_) => true,
        };
        self.home_error = if notifications_failed {
            Some(
                "Notifications could not be refreshed. Check your connection and try again.".to_owned(),
            )
        } else if user_failed {
            Some("Notifications loaded, but your profile is temporarily unavailable.".to_owned())
        } else {
            None
        };
        self.notifications_loading = false;
        HomeLoad::Applied
    }

    /// Opens `notification` on the detail screen and says which details to
    /// fetch.
    pub fn open_notification(&mut self, notification: Notification) -> (r: DetailLoad)
        ensures
            final(self)@ == notification_opened(old(self)@, notification@),
            r is Unavailable <==> (old(self).token is None || detail_url(notification@) is None),
            r matches DetailLoad::Fetch { token, url, request_id } ==> Some(token@) == opt_view(
                old(self).token,
            ) && Some(url@) == detail_url(notification@)
                && request_id == final(self).detail_request_id,
    {
        let url = match notification_detail_url(&notification) {
            Some(u) => Some(u.to_owned()),
            None => None,
        };
        self.selected_notification = Some(notification);
        self.notification_detail = None;
        self.notification_detail_error = None;
        self.notification_detail_loading = true;
        self.detail_request_id = bump(self.detail_request_id);
        let request_id = self.detail_request_id;
        self.current_screen = Screen::Detail;
        let token = match &self.token {
            Some(t) => t.clone(),
            None => {
                self.notification_detail_loading = false;
                self.notification_detail_error = Some("GitHub session is unavailable.".to_owned());
                return DetailLoad::Unavailable;
            },
        };
        match url {
            Some(u) => DetailLoad::Fetch { token, url: u, request_id },
            None => {
                self.notification_detail_loading = false;
                self.notification_detail_error = Some(
                    "GitHub did not provide details for this notification.".to_owned(),
                );
                DetailLoad::Unavailable
            },
        }
    }

    /// The detail load `request_id` answered (`None` when it failed).
    pub fn detail_loaded(&mut self, request_id: u64, detail: Option<NotificationDetail>)
        ensures
            final(self)@ == detail_answered(old(self)@, request_id, detail_view(detail)),
    {
        if self.detail_request_id != request_id {
            return ;
        }
        self.notification_detail_loading = false;
        match detail {
            Some(d) => {
                self.notification_detail = Some(d);
            },
            None => {
                self.notification_detail_error = Some(
                    "The notification opened, but its extra details could not be loaded.".to_owned(),
                );
            },
        }
    }

    /// Closes the open notification and returns to the inbox.
    pub fn close_notification(&mut self)
        ensures
            final(self)@ == notification_closed(old(self)@),
    {
        self.detail_request_id = bump(self.detail_request_id);
        self.current_screen = Screen::Home;
        self.selected_notification = None;
        self.notification_detail = None;
        self.notification_detail_loading = false;
        self.notification_detail_error = None;
    }

    /// The detail screen needs an open notification; without one the inbox
    /// is shown instead. Returns whether there is one.
    pub fn ensure_notification_selected(&mut self) -> (r: bool)
        ensures
            r == old(self).selected_notification is Some,
            r ==> final(self)@ == old(self)@,
            !r ==> final(self)@ == (RouterView { current_screen: Screen::Home, ..old(self)@ }),
    {
        if self.selected_notification.is_none() {
            self.current_screen = Screen::Home;
            false
        } else {
            true
        }
    }

    /// The page to open on github.com for the open notification, if any.
    pub fn open_selected_notification_in_github(&self) -> (r: Option<String>)
        ensures
            opt_view(r) == github_page(self@),
    {
        let notification = match &self.selected_notification {
            Some(n) => n,
            None => {
                return None;
            },
        };
        match &self.notification_detail {
            Some(d) => match &d.html_url {
                Some(u) => {
                    return Some(u.clone());
                },
                None => {},
            },
            None => {},
        }
        let kind = notification.subject.kind.as_str();
        if str_equal(kind, "Release") || str_equal(kind, "CheckSuite") {
            None
        } else {
            Some(notification_web_url(notification))
        }
    }

    /// Ends the session: everything about it is forgotten and the sign-in
    /// screen is shown. The platform layer removes the saved session, and
    /// cancels the polling when this returns `true`.
    pub fn sign_out(&mut self) -> (cancel_polling: bool)
        ensures
            final(self)@ == signed_out(old(self)@),
            cancel_polling == old(self).polling_active,
    {
        self.auth_request_id = bump(self.auth_request_id);
        let had = self.polling_active;
        self.polling_active = false;
        self.home_request_id = bump(self.home_request_id);
        self.detail_request_id = bump(self.detail_request_id);
        self.token = None;
        self.user = None;
        self.notifications.clear();
        self.notifications_loading = false;
        self.home_error = None;
        self.search_query = String::new();
        self.selected_notification = None;
        self.notification_detail = None;
        self.notification_detail_loading = false;
        self.notification_detail_error = None;
        self.auth_phase = AuthPhase::Idle;
        self.current_screen = Screen::Auth;
        proof {
            assert(notifications_view(self.notifications@) =~= Seq::<NotificationView>::empty());
        }
        had
    }

    /// One keyboard fragment typed into the search field.
    pub fn type_into_search(&mut self, fragment: &str)
        ensures
            final(self)@ == (RouterView {
                search_query: typed(old(self).search_query@, fragment@),
                ..old(self)@
            }),
    {
        proof {
            reveal_strlit("\u{8}");
            assert("\u{8}"@ =~= seq!['\u{8}']);
        }
        let mut q = chars_of(self.search_query.as_str());
        if str_equal(fragment, "\u{8}") {
            if q.len() > 0 {
                q.pop();
            }
        } else {
            append_str(&mut q, fragment);
        }
        self.search_query = string_of(&q);
    }

    /// Clears the search field.
    pub fn clear_search(&mut self)
        ensures
            final(self)@ == (RouterView { search_query: seq![], ..old(self)@ }),
    {
        self.search_query = String::new();
    }
}

// ---------------------------------------------------------------------------
// Laws
// ---------------------------------------------------------------------------

/// A new request id never equals the one before it.
pub proof fn lemma_next_id_differs(id: u64)
    ensures
        next_id(id) != id,
{
}

/// Once the inbox is reloaded, the answer to the earlier load changes
/// nothing: only the newest load is applied.
pub proof fn law_newer_home_load_supersedes(
    s: RouterView,
    token: Seq<char>,
    user: Result<GitHubUserView, Option<u16>>,
    notifications: Result<Seq<NotificationView>, Option<u16>>,
)
    ensures
        ({
            let first = home_load_started(s);
            let second = home_load_started(first);
            home_answered(second, first.home_request_id, token, user, notifications) == second
                && home_outcome(second, first.home_request_id, token, user, notifications)
                == HomeLoad::Stale
        }),
{
}

/// After signing out, the answer to a load begun before changes nothing.
pub proof fn law_sign_out_discards_home_load(
    s: RouterView,
    token: Seq<char>,
    user: Result<GitHubUserView, Option<u16>>,
    notifications: Result<Seq<NotificationView>, Option<u16>>,
)
    ensures
        ({
            let loading = home_load_started(s);
            let out = signed_out(loading);
            home_answered(out, loading.home_request_id, token, user, notifications) == out
        }),
{
}

/// After closing a notification, the answer to its detail request changes
/// nothing.
pub proof fn law_close_discards_detail_load(s: RouterView, n: NotificationView, d: Option<NotificationDetailView>)
    ensures
        ({
            let opened = notification_opened(s, n);
            let closed = notification_closed(opened);
            detail_answered(closed, opened.detail_request_id, d) == closed
        }),
{
}

/// Closing a notification undoes opening it: the state is what closing
/// alone gives, apart from the detail request counter.
pub proof fn law_close_undoes_open(s: RouterView, n: NotificationView)
    ensures
        notification_closed(notification_opened(s, n)) == (RouterView {
            detail_request_id: next_id(next_id(s.detail_request_id)),
            ..notification_closed(s)
        }),
{
}

/// Signing out forgets everything about the session and shows the sign-in
/// screen, whatever the state was.
pub proof fn law_sign_out_forgets_session(s: RouterView)
    ensures
        ({
            let out = signed_out(s);
            &&& out.token is None
            &&& out.user is None
            &&& out.notifications.len() == 0
            &&& out.search_query.len() == 0
            &&& out.selected_notification is None
            &&& out.notification_detail is None
            &&& out.home_error is None
            &&& out.current_screen == Screen::Auth
            &&& out.auth_phase == AuthPhaseView::Idle
            &&& !out.polling_active
            &&& !out.notifications_loading
        }),
{
}

/// Abandoning a sign-in flow makes every later answer of that flow change
/// nothing.
pub proof fn law_cancelled_flow_is_ignored(
    s: RouterView,
    code: DeviceCodeResponseView,
    response: TokenResponseView,
    message: Seq<char>,
)
    ensures
        ({
            let started = device_flow_started(s);
            let id = started.auth_request_id;
            let cancelled = device_flow_cancelled(started);
            &&& code_received(cancelled, id, false, code) == cancelled
            &&& token_answered(cancelled, id, false, response) == cancelled
            &&& token_step(cancelled, id, false, response) == PollStepView::Stop
            &&& auth_failed(cancelled, id, false, message) == cancelled
        }),
{
}

/// A token for the running flow signs the user in: the token is kept, the
/// inbox is shown and starts loading, polling ends, and the load the
/// polling loop is told to start is the one the state waits for.
pub proof fn law_token_signs_in(s: RouterView, request_id: u64, response: TokenResponseView)
    requires
        auth_current(s, request_id, false),
        response.access_token is Some,
    ensures
        ({
            let after = token_answered(s, request_id, false, response);
            &&& after.token == response.access_token
            &&& after.current_screen == Screen::Home
            &&& after.notifications_loading
            &&& !after.polling_active
            &&& token_step(s, request_id, false, response) == (PollStepView::SignedIn {
                token: response.access_token.unwrap(),
                home_request_id: after.home_request_id,
            })
        }),
{
}

/// A refused session (HTTP 401) while loading the inbox ends the session:
/// the sign-in screen says the session expired.
pub proof fn law_expired_session_returns_to_sign_in(
    s: RouterView,
    token: Seq<char>,
    user: Result<GitHubUserView, Option<u16>>,
    notifications: Result<Seq<NotificationView>, Option<u16>>,
)
    requires
        s.token == Some(token),
        expired_by(user) || expired_by(notifications),
    ensures
        ({
            let after = home_answered(s, s.home_request_id, token, user, notifications);
            &&& after.token is None
            &&& after.user is None
            &&& after.notifications.len() == 0
            &&& after.current_screen == Screen::Auth
            &&& after.auth_phase == AuthPhaseView::Error(session_expired_message())
            &&& home_outcome(s, s.home_request_id, token, user, notifications) == HomeLoad::SessionExpired
        }),
{
}

/// A failed refresh keeps the notifications already shown.
pub proof fn law_failed_refresh_keeps_list(
    s: RouterView,
    token: Seq<char>,
    user: Result<GitHubUserView, Option<u16>>,
    status: Option<u16>,
)
    requires
        s.token == Some(token),
        status != Some(401u16),
        !expired_by(user),
    ensures
        ({
            let after = home_answered(s, s.home_request_id, token, user, Err(status));
            &&& after.notifications == s.notifications
            &&& after.home_error == Some(refresh_failed_message())
            &&& !after.notifications_loading
        }),
{
}

/// While the user has not yet entered the code (`authorization_pending`)
/// or the server asks to poll more slowly (`slow_down`), the running flow
/// keeps polling and nothing else changes.
pub proof fn law_pending_or_slow_down_keeps_polling(s: RouterView, request_id: u64, code: Seq<char>)
    requires
        auth_current(s, request_id, false),
        code == "authorization_pending"@ || code == "slow_down"@,
    ensures
        ({
            let response = TokenResponseView { access_token: None, error: Some(code) };
            &&& token_answered(s, request_id, false, response) == s
            &&& token_step(s, request_id, false, response) == PollStepView::Continue
        }),
{
}

/// Any other error code without a token ends the running flow: polling
/// stops and the sign-in screen says the authorization was denied, with
/// the code.
pub proof fn law_other_error_denies(s: RouterView, request_id: u64, code: Seq<char>)
    requires
        auth_current(s, request_id, false),
        code != "authorization_pending"@,
        code != "slow_down"@,
    ensures
        ({
            let response = TokenResponseView { access_token: None, error: Some(code) };
            &&& token_answered(s, request_id, false, response).auth_phase == AuthPhaseView::Error(
                "Auth denied: "@ + code,
            )
            &&& token_step(s, request_id, false, response) == PollStepView::Stop
        }),
{
}

/// The page the loaded details name is the one opened, whatever the kind
/// of the notification.
pub proof fn law_detail_page_opens(s: RouterView, u: Seq<char>)
    requires
        s.selected_notification is Some,
        s.notification_detail matches Some(d) && d.html_url == Some(u),
    ensures
        github_page(s) == Some(u),
{
}

/// Releases and check suites are opened on github.com only through the page
/// their details name; while the details are missing nothing is opened.
pub proof fn law_release_needs_detail_page(s: RouterView)
    requires
        s.selected_notification matches Some(n) && (n.subject.kind == "Release"@ || n.subject.kind
            == "CheckSuite"@),
        s.notification_detail is None || s.notification_detail.unwrap().html_url is None,
    ensures
        github_page(s) is None,
{
}

/// The polling interval never shrinks, and a slow-down request adds five
/// seconds.
pub proof fn law_poll_interval_grows(interval: u64, response: TokenResponseView)
    requires
        response.error == Some("slow_down"@) ==> interval <= u64::MAX - 5,
    ensures
        interval_after(interval, response) >= interval,
        response.error == Some("slow_down"@) ==> interval_after(interval, response) == interval + 5,
        poll_interval(interval) >= 5,
{
}

/// A backspace right after typing a character removes that character.
pub proof fn law_backspace_undoes_typing(query: Seq<char>, c: char)
    requires
        c != '\u{8}',
    ensures
        typed(typed(query, seq![c]), seq!['\u{8}']) == query,
{
    assert(seq![c] != seq!['\u{8}']) by {
        assert(seq![c][0] != seq!['\u{8}'][0]);
    }
    assert((query + seq![c]).drop_last() =~= query);
}

/// Nothing of an account is kept without its session, and details load
/// only for an open notification.
pub open spec fn consistent(s: RouterView) -> bool {
    &&& s.token is None ==> s.user is None && s.notifications.len() == 0
    &&& s.notification_detail_loading ==> s.selected_notification is Some
}

/// Every transition keeps the state consistent: no account data outlives
/// its session, and no detail load runs without an open notification.
pub proof fn law_transitions_keep_consistency(
    s: RouterView,
    saved: Option<Seq<char>>,
    screen: Screen,
    request_id: u64,
    cancelled: bool,
    message: Seq<char>,
    code: DeviceCodeResponseView,
    response: TokenResponseView,
    token: Seq<char>,
    user: Result<GitHubUserView, Option<u16>>,
    notifications: Result<Seq<NotificationView>, Option<u16>>,
    n: NotificationView,
    d: Option<NotificationDetailView>,
    fragment: Seq<char>,
)
    requires
        consistent(s),
    ensures
        consistent(initial(saved)),
        consistent(RouterView { current_screen: screen, ..s }),
        consistent(device_flow_started(s)),
        consistent(auth_failed(s, request_id, cancelled, message)),
        consistent(code_received(s, request_id, cancelled, code)),
        consistent(token_answered(s, request_id, cancelled, response)),
        consistent(device_flow_cancelled(s)),
        consistent(RouterView { polling_active: false, auth_phase: AuthPhaseView::Idle, ..s }),
        consistent(RouterView { auth_phase: AuthPhaseView::Idle, ..s }),
        consistent(home_load_started(s)),
        consistent(
            RouterView {
                notifications_loading: false,
                home_error: Some(unreachable_message()),
                ..s
            },
        ),
        consistent(home_answered(s, request_id, token, user, notifications)),
        consistent(notification_opened(s, n)),
        consistent(detail_answered(s, request_id, d)),
        consistent(notification_closed(s)),
        consistent(RouterView { current_screen: Screen::Home, ..s }),
        consistent(signed_out(s)),
        consistent(RouterView { search_query: typed(s.search_query, fragment), ..s }),
        consistent(RouterView { search_query: seq![], ..s }),
{
}

pub open spec fn user_result_view(r: Result<GitHubUser, Option<u16>>) -> Result<GitHubUserView, Option<u16>> {
    match r {
        Ok(u) => Ok(u@),
        Err(e) => Err(e),
    }
}

pub open spec fn notifications_result_view(r: Result<Vec<Notification>, Option<u16>>) -> Result<Seq<NotificationView>, Option<u16>> {
    match r {
        Ok(ns) => Ok(notifications_view(ns@)),
        Err(e) => Err(e),
    }
}

} // verus!
