//! GitHub API data, URL rules, request construction and the interpretation
//! of the notification detail document.

use vstd::prelude::*;
use crate::text::{
    append_str, chars_of, concat2, contains, opt_view, replace_all, split_once, str_contains,
    str_equal, str_replace, str_split_once, str_strip_prefix, string_of, strip_prefix,
    concat3, decimal, decimal_string, starts_with, str_starts_with, is_blank, str_is_blank,
    occurs_at,
};
use vstd::string::StringExecFns;
use crate::screens::notifications_view;

verus! {

broadcast use vstd::string::group_string_axioms;

// ---------------------------------------------------------------------------
// Data
// ---------------------------------------------------------------------------

/// The answer to a device-code request.
#[derive(Debug)]
pub struct DeviceCodeResponse {
    pub device_code: String,
    pub user_code: String,
    pub verification_uri: String,
    pub expires_in: u64,
    pub interval: u64,
}

/// The answer to one token poll.
#[derive(Debug)]
pub struct TokenResponse {
    pub access_token: Option<String>,
    pub error: Option<String>,
}

/// The signed-in account.
#[derive(Debug)]
pub struct GitHubUser {
    pub login: String,
    pub name: Option<String>,
    pub avatar_url: String,
}

/// One notification thread.
#[derive(Debug)]
pub struct Notification {
    pub id: String,
    pub repository: NotifRepo,
    pub subject: NotifSubject,
    pub reason: String,
    pub updated_at: String,
    pub unread: bool,
}

/// The repository a notification belongs to.
#[derive(Debug)]
pub struct NotifRepo {
    pub full_name: String,
    pub html_url: String,
}

/// What a notification is about.
#[derive(Debug)]
pub struct NotifSubject {
    pub title: String,
    pub kind: String,
    pub url: Option<String>,
    pub latest_comment_url: Option<String>,
}

/// Extra facts about a notification's subject.
#[derive(Debug)]
pub struct NotificationDetail {
    pub html_url: Option<String>,
    pub body: Option<String>,
    pub state: Option<String>,
    pub author: Option<String>,
    pub comments: Option<u64>,
    pub created_at: Option<String>,
    pub updated_at: Option<String>,
}

pub struct DeviceCodeResponseView {
    pub device_code: Seq<char>,
    pub user_code: Seq<char>,
    pub verification_uri: Seq<char>,
    pub expires_in: u64,
    pub interval: u64,
}

pub struct TokenResponseView {
    pub access_token: Option<Seq<char>>,
    pub error: Option<Seq<char>>,
}

pub struct GitHubUserView {
    pub login: Seq<char>,
    pub name: Option<Seq<char>>,
    pub avatar_url: Seq<char>,
}

pub struct NotifRepoView {
    pub full_name: Seq<char>,
    pub html_url: Seq<char>,
}

pub struct NotifSubjectView {
    pub title: Seq<char>,
    pub kind: Seq<char>,
    pub url: Option<Seq<char>>,
    pub latest_comment_url: Option<Seq<char>>,
}

pub struct NotificationView {
    pub id: Seq<char>,
    pub repository: NotifRepoView,
    pub subject: NotifSubjectView,
    pub reason: Seq<char>,
    pub updated_at: Seq<char>,
    pub unread: bool,
}

pub struct NotificationDetailView {
    pub html_url: Option<Seq<char>>,
    pub body: Option<Seq<char>>,
    pub state: Option<Seq<char>>,
    pub author: Option<Seq<char>>,
    pub comments: Option<u64>,
    pub created_at: Option<Seq<char>>,
    pub updated_at: Option<Seq<char>>,
}

impl View for DeviceCodeResponse {
    type V = DeviceCodeResponseView;

    open spec fn view(&self) -> DeviceCodeResponseView {
        DeviceCodeResponseView {
            device_code: self.device_code@,
            user_code: self.user_code@,
            verification_uri: self.verification_uri@,
            expires_in: self.expires_in,
            interval: self.interval,
        }
    }
}

impl View for TokenResponse {
    type V = TokenResponseView;

    open spec fn view(&self) -> TokenResponseView {
        TokenResponseView { access_token: opt_view(self.access_token), error: opt_view(self.error) }
    }
}

impl View for GitHubUser {
    type V = GitHubUserView;

    open spec fn view(&self) -> GitHubUserView {
        GitHubUserView {
            login: self.login@,
            name: opt_view(self.name),
            avatar_url: self.avatar_url@,
        }
    }
}

impl View for NotifRepo {
    type V = NotifRepoView;

    open spec fn view(&self) -> NotifRepoView {
        NotifRepoView { full_name: self.full_name@, html_url: self.html_url@ }
    }
}

impl View for NotifSubject {
    type V = NotifSubjectView;

    open spec fn view(&self) -> NotifSubjectView {
        NotifSubjectView {
            title: self.title@,
            kind: self.kind@,
            url: opt_view(self.url),
            latest_comment_url: opt_view(self.latest_comment_url),
        }
    }
}

impl View for Notification {
    type V = NotificationView;

    open spec fn view(&self) -> NotificationView {
        NotificationView {
            id: self.id@,
            repository: self.repository@,
            subject: self.subject@,
            reason: self.reason@,
            updated_at: self.updated_at@,
            unread: self.unread,
        }
    }
}

impl View for NotificationDetail {
    type V = NotificationDetailView;

    open spec fn view(&self) -> NotificationDetailView {
        NotificationDetailView {
            html_url: opt_view(self.html_url),
            body: opt_view(self.body),
            state: opt_view(self.state),
            author: opt_view(self.author),
            comments: self.comments,
            created_at: opt_view(self.created_at),
            updated_at: opt_view(self.updated_at),
        }
    }
}

/// A copy of an optional string.
pub fn clone_opt_string(o: &Option<String>) -> (r: Option<String>)
    ensures
        r == *o,
{
    match o {
        Some(s) => Some(s.clone()),
        None => None,
    }
}

impl Clone for NotifRepo {
    fn clone(&self) -> (r: Self)
        ensures
            r == *self,
    {
        NotifRepo { full_name: self.full_name.clone(), html_url: self.html_url.clone() }
    }
}

impl Clone for NotifSubject {
    fn clone(&self) -> (r: Self)
        ensures
            r == *self,
    {
        NotifSubject {
            title: self.title.clone(),
            kind: self.kind.clone(),
            url: clone_opt_string(&self.url),
            latest_comment_url: clone_opt_string(&self.latest_comment_url),
        }
    }
}

impl Clone for Notification {
    fn clone(&self) -> (r: Self)
        ensures
            r == *self,
    {
        Notification {
            id: self.id.clone(),
            repository: self.repository.clone(),
            subject: self.subject.clone(),
            reason: self.reason.clone(),
            updated_at: self.updated_at.clone(),
            unread: self.unread,
        }
    }
}

impl Clone for GitHubUser {
    fn clone(&self) -> (r: Self)
        ensures
            r == *self,
    {
        GitHubUser {
            login: self.login.clone(),
            name: clone_opt_string(&self.name),
            avatar_url: self.avatar_url.clone(),
        }
    }
}

impl Clone for NotificationDetail {
    fn clone(&self) -> (r: Self)
        ensures
            r == *self,
    {
        NotificationDetail {
            html_url: clone_opt_string(&self.html_url),
            body: clone_opt_string(&self.body),
            state: clone_opt_string(&self.state),
            author: clone_opt_string(&self.author),
            comments: self.comments,
            created_at: clone_opt_string(&self.created_at),
            updated_at: clone_opt_string(&self.updated_at),
        }
    }
}

impl Clone for DeviceCodeResponse {
    fn clone(&self) -> (r: Self)
        ensures
            r == *self,
    {
        DeviceCodeResponse {
            device_code: self.device_code.clone(),
            user_code: self.user_code.clone(),
            verification_uri: self.verification_uri.clone(),
            expires_in: self.expires_in,
            interval: self.interval,
        }
    }
}

// ---------------------------------------------------------------------------
// URL rules
// ---------------------------------------------------------------------------

pub open spec fn api_repos_prefix() -> Seq<char> {
    "https://api.github.com/repos/"@
}

pub open spec fn web_prefix() -> Seq<char> {
    "https://github.com/"@
}

/// The web page of a notification: its subject's API URL turned into the
/// matching github.com page for pull requests, commits, issues and
/// discussions, and the repository page otherwise.
pub open spec fn web_url(n: NotificationView) -> Seq<char> {
    match n.subject.url {
        None => n.repository.html_url,
        Some(api_url) => match strip_prefix(api_url, api_repos_prefix()) {
            None => n.repository.html_url,
            Some(path) => if n.subject.kind == "PullRequest"@ {
                web_prefix() + replace_all(path, "/pulls/"@, "/pull/"@)
            } else if n.subject.kind == "Commit"@ {
                web_prefix() + replace_all(path, "/commits/"@, "/commit/"@)
            } else if n.subject.kind == "Issue"@ || n.subject.kind == "Discussion"@ {
                web_prefix() + path
            } else {
                n.repository.html_url
            },
        },
    }
}

/// The API URL to read details from: the latest comment when there is one,
/// else the subject itself.
pub open spec fn detail_url(n: NotificationView) -> Option<Seq<char>> {
    match n.subject.latest_comment_url {
        Some(u) => Some(u),
        None => n.subject.url,
    }
}

/// The checks page of the commit that a check suite ran on.
pub open spec fn check_suite_url(api_url: Seq<char>, head_sha: Seq<char>) -> Option<Seq<char>> {
    match strip_prefix(api_url, api_repos_prefix()) {
        None => None,
        Some(path) => match split_once(path, "/check-suites/"@) {
            None => None,
            Some(parts) => Some(web_prefix() + parts.0 + "/commit/"@ + head_sha + "/checks"@),
        },
    }
}

/// The marker of the next page in a `Link` header.
pub open spec fn rel_next() -> Seq<char> {
    "rel=\"next\""@
}

/// The view of an optional string slice.
pub open spec fn opt_str_view(o: Option<&str>) -> Option<Seq<char>> {
    match o {
        Some(s) => Some(s@),
        None => None,
    }
}

/// The web page to open for a notification.
pub fn notification_web_url(notification: &Notification) -> (r: String)
    ensures
        r@ == web_url(notification@),
{
    let api_url = match &notification.subject.url {
        Some(u) => u,
        None => {
            return notification.repository.html_url.clone();
        },
    };
    let path = match str_strip_prefix(api_url.as_str(), "https://api.github.com/repos/") {
        Some(p) => p,
        None => {
            return notification.repository.html_url.clone();
        },
    };
    proof {
        reveal_strlit("/pulls/");
        reveal_strlit("/commits/");
    }
    let kind = notification.subject.kind.as_str();
    let path = if str_equal(kind, "PullRequest") {
        str_replace(path.as_str(), "/pulls/", "/pull/")
    } else if str_equal(kind, "Commit") {
        str_replace(path.as_str(), "/commits/", "/commit/")
    } else if str_equal(kind, "Issue") || str_equal(kind, "Discussion") {
        path
    } else {
        return notification.repository.html_url.clone();
    };
    concat2("https://github.com/", path.as_str())
}

/// The API URL that holds a notification's details, if any.
pub fn notification_detail_url(notification: &Notification) -> (r: Option<&str>)
    ensures
        opt_str_view(r) == detail_url(notification@),
{
    match &notification.subject.latest_comment_url {
        Some(u) => Some(u.as_str()),
        None => match &notification.subject.url {
            Some(u) => Some(u.as_str()),
            None => None,
        },
    }
}

/// Whether a `Link` header announces a next page.
pub fn link_has_next_page(link: &str) -> (r: bool)
    ensures
        r == contains(link@, rel_next()),
{
    str_contains(link, "rel=\"next\"")
}

/// The checks page for a check-suite API URL and the commit it ran on.
pub fn check_suite_web_url(api_url: &str, head_sha: &str) -> (r: Option<String>)
    ensures
        opt_view(r) == check_suite_url(api_url@, head_sha@),
{
    let path = match str_strip_prefix(api_url, "https://api.github.com/repos/") {
        Some(p) => p,
        None => {
            return None;
        },
    };
    let repository = match str_split_once(path.as_str(), "/check-suites/") {
        Some((before, _after)) => before,
        None => {
            return None;
        },
    };
    let mut out = chars_of("https://github.com/");
    append_str(&mut out, repository.as_str());
    append_str(&mut out, "/commit/");
    append_str(&mut out, head_sha);
    append_str(&mut out, "/checks");
    Some(string_of(&out))
}

/// Whether an HTTP status means the token was not accepted.
pub fn is_unauthorized(status: Option<u16>) -> (r: bool)
    ensures
        r == (status == Some(401u16)),
{
    match status {
        Some(code) => code == 401,
        None => false,
    }
}

// ---------------------------------------------------------------------------
// Requests
// ---------------------------------------------------------------------------

/// Why the library refuses to build a request or read a response.
#[derive(Debug, Clone, PartialEq, Eq)]
pub enum ApiError {
    /// No OAuth client ID was configured at build time.
    MissingClientId,
    /// A notification URL does not point at the GitHub API.
    UnsupportedNotificationUrl,
    /// `serde_json` did not accept a response body; it says why.
    MalformedJson(String),
}

impl ApiError {
    /// The message shown for this error.
    pub fn message(&self) -> (r: String)
        ensures
            r@ == api_error_message(*self),
    {
        match self {
            ApiError::MissingClientId => "GitHub OAuth client ID is not configured".to_owned(),
            ApiError::UnsupportedNotificationUrl => "GitHub returned an unsupported notification URL".to_owned(),
            ApiError::MalformedJson(why) => crate::text::concat2(
                "parse notification detail: ",
                why.as_str(),
            ),
        }
    }
}

pub open spec fn api_error_message(e: ApiError) -> Seq<char> {
    match e {
        ApiError::MissingClientId => "GitHub OAuth client ID is not configured"@,
        ApiError::UnsupportedNotificationUrl => "GitHub returned an unsupported notification URL"@,
        ApiError::MalformedJson(why) => "parse notification detail: "@ + why@,
    }
}

/// An HTTP method.
#[derive(Debug, Clone, Copy, PartialEq, Eq, Structural)]
pub enum HttpMethod {
    Get,
    Post,
    Patch,
}

/// A request ready to be sent: method, URL, headers, query and form fields.
#[derive(Debug)]
pub struct HttpRequest {
    pub method: HttpMethod,
    pub url: String,
    pub headers: Vec<(String, String)>,
    pub query: Vec<(String, String)>,
    pub form: Vec<(String, String)>,
}

pub struct HttpRequestView {
    pub method: HttpMethod,
    pub url: Seq<char>,
    pub headers: Seq<(Seq<char>, Seq<char>)>,
    pub query: Seq<(Seq<char>, Seq<char>)>,
    pub form: Seq<(Seq<char>, Seq<char>)>,
}

/// The view of a list of name/value pairs.
pub open spec fn pairs_view(v: Seq<(String, String)>) -> Seq<(Seq<char>, Seq<char>)> {
    v.map_values(|p: (String, String)| (p.0@, p.1@))
}

impl View for HttpRequest {
    type V = HttpRequestView;

    open spec fn view(&self) -> HttpRequestView {
        HttpRequestView {
            method: self.method,
            url: self.url@,
            headers: pairs_view(self.headers@),
            query: pairs_view(self.query@),
            form: pairs_view(self.form@),
        }
    }
}

pub open spec fn api_base() -> Seq<char> {
    "https://api.github.com"@
}

pub open spec fn device_code_endpoint() -> Seq<char> {
    "https://github.com/login/device/code"@
}

pub open spec fn token_endpoint() -> Seq<char> {
    "https://github.com/login/oauth/access_token"@
}

/// The headers of every call to the REST API.
pub open spec fn github_headers(token: Seq<char>) -> Seq<(Seq<char>, Seq<char>)> {
    seq![
        ("Authorization"@, "Bearer "@ + token),
        ("User-Agent"@, "act4g/0.1"@),
        ("Accept"@, "application/vnd.github+json"@),
        ("X-GitHub-Api-Version"@, "2022-11-28"@),
    ]
}

/// The headers of the OAuth endpoints.
pub open spec fn json_accept_headers() -> Seq<(Seq<char>, Seq<char>)> {
    seq![("Accept"@, "application/json"@)]
}

pub open spec fn device_code_request_spec(client_id: Seq<char>) -> HttpRequestView {
    HttpRequestView {
        method: HttpMethod::Post,
        url: device_code_endpoint(),
        headers: json_accept_headers(),
        query: seq![],
        form: seq![("client_id"@, client_id), ("scope"@, "notifications read:user repo"@)],
    }
}

pub open spec fn token_poll_request_spec(client_id: Seq<char>, device_code: Seq<char>) -> HttpRequestView {
    HttpRequestView {
        method: HttpMethod::Post,
        url: token_endpoint(),
        headers: json_accept_headers(),
        query: seq![],
        form: seq![
            ("client_id"@, client_id),
            ("device_code"@, device_code),
            ("grant_type"@, "urn:ietf:params:oauth:grant-type:device_code"@),
        ],
    }
}

pub open spec fn api_get(url: Seq<char>, token: Seq<char>) -> HttpRequestView {
    HttpRequestView {
        method: HttpMethod::Get,
        url: url,
        headers: github_headers(token),
        query: seq![],
        form: seq![],
    }
}

pub open spec fn notifications_page_request_spec(token: Seq<char>, page: u32) -> HttpRequestView {
    HttpRequestView {
        method: HttpMethod::Get,
        url: api_base() + "/notifications"@,
        headers: github_headers(token),
        query: seq![("all"@, "true"@), ("per_page"@, "50"@), ("page"@, decimal(page as nat))],
        form: seq![],
    }
}

pub open spec fn mark_read_request_spec(token: Seq<char>, id: Seq<char>) -> HttpRequestView {
    HttpRequestView {
        method: HttpMethod::Patch,
        url: api_base() + "/notifications/threads/"@ + id,
        headers: github_headers(token),
        query: seq![],
        form: seq![],
    }
}

fn pair(a: &str, b: &str) -> (r: (String, String))
    ensures
        r.0@ == a@,
        r.1@ == b@,
{
    (a.to_owned(), b.to_owned())
}

fn github_header_list(token: &str) -> (r: Vec<(String, String)>)
    ensures
        pairs_view(r@) == github_headers(token@),
{
    let bearer = concat2("Bearer ", token);
    let r = vec![
        (String::from_str("Authorization"), bearer),
        pair("User-Agent", "act4g/0.1"),
        pair("Accept", "application/vnd.github+json"),
        pair("X-GitHub-Api-Version", "2022-11-28"),
    ];
    assert(pairs_view(r@) =~= github_headers(token@));
    r
}

fn json_accept_header_list() -> (r: Vec<(String, String)>)
    ensures
        pairs_view(r@) == json_accept_headers(),
{
    let r = vec![pair("Accept", "application/json")];
    assert(pairs_view(r@) =~= json_accept_headers());
    r
}

/// The request that starts the device flow; refused without a client ID.
pub fn device_code_request(client_id: &str) -> (r: Result<HttpRequest, ApiError>)
    ensures
        client_id@.len() == 0 <==> r == Err::<HttpRequest, ApiError>(ApiError::MissingClientId),
        client_id@.len() > 0 ==> r is Ok,
        r matches Ok(req) ==> req@ == device_code_request_spec(client_id@),
        r matches Ok(req) ==> req.method == HttpMethod::Post,
{
    if client_id.is_empty() {
        return Err(ApiError::MissingClientId);
    }
    let form = vec![pair("client_id", client_id), pair("scope", "notifications read:user repo")];
    let empty: Vec<(String, String)> = Vec::new();
    let req = HttpRequest {
        method: HttpMethod::Post,
        url: "https://github.com/login/device/code".to_owned(),
        headers: json_accept_header_list(),
        query: empty,
        form: form,
    };
    assert(pairs_view(req.form@) =~= device_code_request_spec(client_id@).form);
    assert(pairs_view(req.query@) =~= Seq::<(Seq<char>, Seq<char>)>::empty());
    Ok(req)
}

/// The request that asks whether the user has authorized the device code.
pub fn token_poll_request(client_id: &str, device_code: &str) -> (r: HttpRequest)
    ensures
        r@ == token_poll_request_spec(client_id@, device_code@),
        r.method == HttpMethod::Post,
{
    let form = vec![
        pair("client_id", client_id),
        pair("device_code", device_code),
        pair("grant_type", "urn:ietf:params:oauth:grant-type:device_code"),
    ];
    let empty: Vec<(String, String)> = Vec::new();
    let req = HttpRequest {
        method: HttpMethod::Post,
        url: "https://github.com/login/oauth/access_token".to_owned(),
        headers: json_accept_header_list(),
        query: empty,
        form: form,
    };
    assert(pairs_view(req.form@) =~= token_poll_request_spec(client_id@, device_code@).form);
    assert(pairs_view(req.query@) =~= Seq::<(Seq<char>, Seq<char>)>::empty());
    req
}

/// The request for the signed-in user's profile.
pub fn user_request(token: &str) -> (r: HttpRequest)
    ensures
        r@ == api_get(api_base() + "/user"@, token@),
{
    let empty_q: Vec<(String, String)> = Vec::new();
    let empty_f: Vec<(String, String)> = Vec::new();
    let req = HttpRequest {
        method: HttpMethod::Get,
        url: concat2("https://api.github.com", "/user"),
        headers: github_header_list(token),
        query: empty_q,
        form: empty_f,
    };
    assert(pairs_view(req.query@) =~= Seq::<(Seq<char>, Seq<char>)>::empty());
    assert(pairs_view(req.form@) =~= Seq::<(Seq<char>, Seq<char>)>::empty());
    req
}

/// The request for one page of notifications, read and unread.
pub fn notifications_page_request(token: &str, page: u32) -> (r: HttpRequest)
    ensures
        r@ == notifications_page_request_spec(token@, page),
{
    let page_text = decimal_string(page as u64);
    let query = vec![
        pair("all", "true"),
        pair("per_page", "50"),
        (String::from_str("page"), page_text),
    ];
    let empty_f: Vec<(String, String)> = Vec::new();
    let req = HttpRequest {
        method: HttpMethod::Get,
        url: concat2("https://api.github.com", "/notifications"),
        headers: github_header_list(token),
        query: query,
        form: empty_f,
    };
    assert(pairs_view(req.query@) =~= notifications_page_request_spec(token@, page).query);
    assert(pairs_view(req.form@) =~= Seq::<(Seq<char>, Seq<char>)>::empty());
    req
}

/// The request that marks a notification thread as read.
pub fn mark_notification_read_request(token: &str, notification_id: &str) -> (r: HttpRequest)
    ensures
        r@ == mark_read_request_spec(token@, notification_id@),
{
    let empty_q: Vec<(String, String)> = Vec::new();
    let empty_f: Vec<(String, String)> = Vec::new();
    let req = HttpRequest {
        method: HttpMethod::Patch,
        url: concat3("https://api.github.com", "/notifications/threads/", notification_id),
        headers: github_header_list(token),
        query: empty_q,
        form: empty_f,
    };
    assert(pairs_view(req.query@) =~= Seq::<(Seq<char>, Seq<char>)>::empty());
    assert(pairs_view(req.form@) =~= Seq::<(Seq<char>, Seq<char>)>::empty());
    req
}

/// The request for a notification's details; refused unless the URL points
/// at the GitHub API.
pub fn notification_detail_request(token: &str, subject_url: &str) -> (r: Result<HttpRequest, ApiError>)
    ensures
        !starts_with(subject_url@, "https://api.github.com/"@) <==> r == Err::<
            HttpRequest,
            ApiError,
        >(ApiError::UnsupportedNotificationUrl),
        starts_with(subject_url@, "https://api.github.com/"@) ==> r is Ok,
        r matches Ok(req) ==> req@ == api_get(subject_url@, token@),
{
    if !str_starts_with(subject_url, "https://api.github.com/") {
        return Err(ApiError::UnsupportedNotificationUrl);
    }
    let empty_q: Vec<(String, String)> = Vec::new();
    let empty_f: Vec<(String, String)> = Vec::new();
    let req = HttpRequest {
        method: HttpMethod::Get,
        url: subject_url.to_owned(),
        headers: github_header_list(token),
        query: empty_q,
        form: empty_f,
    };
    assert(pairs_view(req.query@) =~= Seq::<(Seq<char>, Seq<char>)>::empty());
    assert(pairs_view(req.form@) =~= Seq::<(Seq<char>, Seq<char>)>::empty());
    Ok(req)
}

/// The page to fetch after `page`: the next one when the `Link` header of
/// the response announces it.
pub fn next_notifications_page(page: u32, link: Option<&str>) -> (r: Option<u32>)
    requires
        link matches Some(l) && contains(l@, rel_next()) ==> page < u32::MAX,
    ensures
        r == (match link {
            Some(l) => if contains(l@, rel_next()) {
                Some((page + 1) as u32)
            } else {
                None
            },
            None => None,
        }),
{
    match link {
        Some(l) => if link_has_next_page(l) {
            Some(page + 1)
        } else {
            None
        },
        None => None,
    }
}


// ---------------------------------------------------------------------------
// Listing every notification, page by page
// ---------------------------------------------------------------------------

/// The notifications of every page received so far, and the page to ask for
/// next (`None` once the listing has ended).
pub struct NotificationListing {
    collected: Vec<Notification>,
    next_page: Option<u32>,
}

pub struct ListingView {
    pub collected: Seq<NotificationView>,
    pub next_page: Option<u32>,
}

impl View for NotificationListing {
    type V = ListingView;

    closed spec fn view(&self) -> ListingView {
        ListingView { collected: notifications_view(self.collected@), next_page: self.next_page }
    }
}

/// What a listing does after the answer to one page.
pub enum PageStep {
    /// Ask for this page next.
    Fetch(u32),
    /// Every page has come: the notifications of all of them, in order.
    Done(Vec<Notification>),
    /// The page could not be had (with the HTTP status, when there was
    /// one); the listing ends without a result.
    Failed(Option<u16>),
}

pub enum PageStepView {
    Fetch(u32),
    Done(Seq<NotificationView>),
    Failed(Option<u16>),
}

impl View for PageStep {
    type V = PageStepView;

    open spec fn view(&self) -> PageStepView {
        match self {
            PageStep::Fetch(p) => PageStepView::Fetch(*p),
            PageStep::Done(ns) => PageStepView::Done(notifications_view(ns@)),
            PageStep::Failed(s) => PageStepView::Failed(*s),
        }
    }
}

/// A listing that has asked for nothing yet.
pub open spec fn listing_start() -> ListingView {
    ListingView { collected: seq![], next_page: Some(1) }
}

/// A listing that has ended.
pub open spec fn listing_ended() -> ListingView {
    ListingView { collected: seq![], next_page: None }
}

/// Whether an optional `Link` header announces a next page.
pub open spec fn announces_next(link: Option<Seq<char>>) -> bool {
    link matches Some(l) && contains(l, rel_next())
}

/// A listing waiting for a page, answered with that page's notifications
/// (`more` when its `Link` header announces a next page) or with a failure.
pub open spec fn listing_step(
    s: ListingView,
    answer: Result<Seq<NotificationView>, Option<u16>>,
    more: bool,
) -> (ListingView, PageStepView) {
    match answer {
        Err(status) => (listing_ended(), PageStepView::Failed(status)),
        Ok(page) => if more {
            let next = (s.next_page.unwrap() + 1) as u32;
            (ListingView { collected: s.collected + page, next_page: Some(next) }, PageStepView::Fetch(next))
        } else {
            (listing_ended(), PageStepView::Done(s.collected + page))
        },
    }
}

/// The view of a page's answer.
pub open spec fn page_answer_view(a: Result<Vec<Notification>, Option<u16>>) -> Result<Seq<NotificationView>, Option<u16>> {
    match a {
        Ok(ns) => Ok(notifications_view(ns@)),
        Err(s) => Err(s),
    }
}

impl NotificationListing {
    /// A listing that starts at the first page.
    pub fn new() -> (r: Self)
        ensures
            r@ == listing_start(),
    {
        let collected: Vec<Notification> = Vec::new();
        let r = NotificationListing { collected, next_page: Some(1) };
        assert(r@.collected =~= Seq::<NotificationView>::empty());
        r
    }

    /// The page the listing waits for, if it has not ended.
    pub fn next_page(&self) -> (r: Option<u32>)
        ensures
            r == self@.next_page,
    {
        self.next_page
    }

    /// The request for the page the listing waits for; `None` once it has
    /// ended.
    pub fn page_request(&self, token: &str) -> (r: Option<HttpRequest>)
        ensures
            self@.next_page is None <==> r is None,
            r matches Some(req) ==> req@ == notifications_page_request_spec(token@, self@.next_page.unwrap()),
    {
        match self.next_page {
            Some(page) => Some(notifications_page_request(token, page)),
            None => None,
        }
    }

    /// The answer to the page the listing waits for: its notifications and
    /// `Link` header, or the HTTP status of the failure (`None` when the
    /// request failed without one, or the body was not a list of
    /// notifications). The notifications of every page are kept in the
    /// order they came; a failure ends the listing and drops them.
    pub fn page_answered(
        &mut self,
        answer: Result<Vec<Notification>, Option<u16>>,
        link: Option<&str>,
    ) -> (r: PageStep)
        requires
            old(self)@.next_page is Some,
            answer is Ok && announces_next(opt_str_view(link)) ==> old(self)@.next_page.unwrap() < u32::MAX,
        ensures
            (final(self)@, r@) == listing_step(
                old(self)@,
                page_answer_view(answer),
                announces_next(opt_str_view(link)),
            ),
    {
        let page = match self.next_page {
            Some(p) => p,
            None => 1,
        };
        match answer {
            Err(status) => {
                self.collected = Vec::new();
                self.next_page = None;
                assert(self@.collected =~= Seq::<NotificationView>::empty());
                PageStep::Failed(status)
            },
            Ok(items) => {
                let ghost before = self.collected@;
                let mut items = items;
                let ghost page_items = items@;
                self.collected.append(&mut items);
                assert(notifications_view(self.collected@) =~= notifications_view(before)
                    + notifications_view(page_items));
                match next_notifications_page(page, link) {
                    Some(next) => {
                        self.next_page = Some(next);
                        PageStep::Fetch(next)
                    },
                    None => {
                        let mut all: Vec<Notification> = Vec::new();
                        std::mem::swap(&mut all, &mut self.collected);
                        self.next_page = None;
                        assert(self@.collected =~= Seq::<NotificationView>::empty());
                        PageStep::Done(all)
                    },
                }
            },
        }
    }
}
/// The notifications of the pages, one page after another.
pub open spec fn joined(pages: Seq<Seq<NotificationView>>) -> Seq<NotificationView>
    decreases pages.len(),
{
    if pages.len() == 0 {
        seq![]
    } else {
        pages[0] + joined(pages.drop_first())
    }
}

/// A listing fed the answers in turn while it waits for a page: the pages
/// it asked for, what it did after each answer, and where it ended. Answers
/// left over once it has ended are never asked for.
pub open spec fn listing_run(
    s: ListingView,
    answers: Seq<(Result<Seq<NotificationView>, Option<u16>>, bool)>,
) -> (Seq<u32>, Seq<PageStepView>, ListingView)
    decreases answers.len(),
{
    if answers.len() == 0 || s.next_page is None {
        (seq![], seq![], s)
    } else {
        let (s1, step) = listing_step(s, answers[0].0, answers[0].1);
        let rest = listing_run(s1, answers.drop_first());
        (seq![s.next_page.unwrap()] + rest.0, seq![step] + rest.1, rest.2)
    }
}

/// Every page answered with its notifications, each but the last
/// announcing a next page.
pub open spec fn pages_answers(pages: Seq<Seq<NotificationView>>) -> Seq<
    (Result<Seq<NotificationView>, Option<u16>>, bool),
> {
    Seq::new(pages.len(), |i: int| (Ok(pages[i]), i + 1 < pages.len()))
}

/// Pages answered with their notifications, each announcing a next page.
pub open spec fn pages_with_more(pages: Seq<Seq<NotificationView>>) -> Seq<
    (Result<Seq<NotificationView>, Option<u16>>, bool),
> {
    Seq::new(pages.len(), |i: int| (Ok(pages[i]), true))
}

proof fn lemma_run_pages(c: Seq<NotificationView>, m: u32, pages: Seq<Seq<NotificationView>>)
    requires
        pages.len() >= 1,
        m + pages.len() - 1 <= u32::MAX,
    ensures
        listing_run(ListingView { collected: c, next_page: Some(m) }, pages_answers(pages)) == (
            Seq::new(pages.len(), |i: int| (m + i) as u32),
            Seq::new(
                pages.len(),
                |i: int|
                    if i + 1 < pages.len() {
                        PageStepView::Fetch((m + i + 1) as u32)
                    } else {
                        PageStepView::Done(c + joined(pages))
                    },
            ),
            listing_ended(),
        ),
    decreases pages.len(),
{
    let s = ListingView { collected: c, next_page: Some(m) };
    let answers = pages_answers(pages);
    let k = pages.len();
    let expected_asked = Seq::new(k, |i: int| (m + i) as u32);
    let expected_steps = Seq::new(
        k,
        |i: int|
            if i + 1 < k {
                PageStepView::Fetch((m + i + 1) as u32)
            } else {
                PageStepView::Done(c + joined(pages))
            },
    );
    let (s1, step) = listing_step(s, answers[0].0, answers[0].1);
    let rest = listing_run(s1, answers.drop_first());
    if k == 1 {
        assert(joined(pages.drop_first()) =~= Seq::<NotificationView>::empty());
        assert(joined(pages) =~= pages[0]);
        assert(answers.drop_first().len() == 0);
        assert(seq![m] + rest.0 =~= expected_asked);
        assert(seq![step] + rest.1 =~= expected_steps);
    } else {
        let tail = pages.drop_first();
        assert(answers.drop_first() =~= pages_answers(tail));
        lemma_run_pages(c + pages[0], (m + 1) as u32, tail);
        assert(c + joined(pages) =~= (c + pages[0]) + joined(tail));
        assert(seq![m] + rest.0 =~= expected_asked);
        assert(seq![step] + rest.1 =~= expected_steps);
    }
}

proof fn lemma_run_failure(
    c: Seq<NotificationView>,
    m: u32,
    pages: Seq<Seq<NotificationView>>,
    status: Option<u16>,
    more: bool,
    rest: Seq<(Result<Seq<NotificationView>, Option<u16>>, bool)>,
)
    requires
        m + pages.len() <= u32::MAX,
    ensures
        listing_run(
            ListingView { collected: c, next_page: Some(m) },
            pages_with_more(pages) + seq![(Err(status), more)] + rest,
        ) == (
            Seq::new(pages.len() + 1, |i: int| (m + i) as u32),
            Seq::new(
                pages.len() + 1,
                |i: int|
                    if i < pages.len() {
                        PageStepView::Fetch((m + i + 1) as u32)
                    } else {
                        PageStepView::Failed(status)
                    },
            ),
            listing_ended(),
        ),
    decreases pages.len(),
{
    let s = ListingView { collected: c, next_page: Some(m) };
    let answers = pages_with_more(pages) + seq![(Err(status), more)] + rest;
    let k = pages.len();
    let expected_asked = Seq::new(k + 1, |i: int| (m + i) as u32);
    let expected_steps = Seq::new(
        k + 1,
        |i: int|
            if i < k {
                PageStepView::Fetch((m + i + 1) as u32)
            } else {
                PageStepView::Failed(status)
            },
    );
    let (s1, step) = listing_step(s, answers[0].0, answers[0].1);
    let after = listing_run(s1, answers.drop_first());
    if k == 0 {
        assert(answers[0] == (Err::<Seq<NotificationView>, Option<u16>>(status), more));
        assert(s1 == listing_ended());
        assert(seq![m] + after.0 =~= expected_asked);
        assert(seq![step] + after.1 =~= expected_steps);
    } else {
        let tail = pages.drop_first();
        assert(answers.drop_first() =~= pages_with_more(tail) + seq![(Err(status), more)] + rest);
        lemma_run_failure(c + pages[0], (m + 1) as u32, tail, status, more, rest);
        assert(seq![m] + after.0 =~= expected_asked);
        assert(seq![step] + after.1 =~= expected_steps);
    }
}

/// Listing every page: the pages are asked for in order from the first,
/// each once, and when every page has answered (each but the last with a
/// `Link` header that announces a next page) the result is the
/// notifications of all pages, joined in order; the listing then asks for
/// nothing more.
pub proof fn law_listing_joins_pages_in_order(pages: Seq<Seq<NotificationView>>)
    requires
        1 <= pages.len() <= u32::MAX,
    ensures
        listing_run(listing_start(), pages_answers(pages)) == (
            Seq::new(pages.len(), |i: int| (i + 1) as u32),
            Seq::new(
                pages.len(),
                |i: int|
                    if i + 1 < pages.len() {
                        PageStepView::Fetch((i + 2) as u32)
                    } else {
                        PageStepView::Done(joined(pages))
                    },
            ),
            listing_ended(),
        ),
{
    lemma_run_pages(seq![], 1, pages);
    let k = pages.len();
    assert(Seq::<NotificationView>::empty() + joined(pages) =~= joined(pages));
    assert(Seq::new(k, |i: int| (1 + i) as u32) =~= Seq::new(k, |i: int| (i + 1) as u32));
    assert(Seq::new(
        k,
        |i: int|
            if i + 1 < k {
                PageStepView::Fetch((1 + i + 1) as u32)
            } else {
                PageStepView::Done(Seq::<NotificationView>::empty() + joined(pages))
            },
    ) =~= Seq::new(
        k,
        |i: int|
            if i + 1 < k {
                PageStepView::Fetch((i + 2) as u32)
            } else {
                PageStepView::Done(joined(pages))
            },
    ));
}

/// A page that fails ends the listing: the failure is the result, with
/// its status, the notifications of the pages before it are dropped, and
/// no page after it is asked for, whatever answers would have followed.
pub proof fn law_failed_page_ends_listing(
    pages: Seq<Seq<NotificationView>>,
    status: Option<u16>,
    more: bool,
    rest: Seq<(Result<Seq<NotificationView>, Option<u16>>, bool)>,
)
    requires
        pages.len() < u32::MAX,
    ensures
        listing_run(listing_start(), pages_with_more(pages) + seq![(Err(status), more)] + rest) == (
            Seq::new(pages.len() + 1, |i: int| (i + 1) as u32),
            Seq::new(
                pages.len() + 1,
                |i: int|
                    if i < pages.len() {
                        PageStepView::Fetch((i + 2) as u32)
                    } else {
                        PageStepView::Failed(status)
                    },
            ),
            listing_ended(),
        ),
{
    lemma_run_failure(seq![], 1, pages, status, more, rest);
    let k = pages.len();
    assert(Seq::new(k + 1, |i: int| (1 + i) as u32) =~= Seq::new(k + 1, |i: int| (i + 1) as u32));
    assert(Seq::new(
        k + 1,
        |i: int|
            if i < k {
                PageStepView::Fetch((1 + i + 1) as u32)
            } else {
                PageStepView::Failed(status)
            },
    ) =~= Seq::new(
        k + 1,
        |i: int|
            if i < k {
                PageStepView::Fetch((i + 2) as u32)
            } else {
                PageStepView::Failed(status)
            },
    ));
}

// ---------------------------------------------------------------------------
// The notification detail document
// ---------------------------------------------------------------------------

/// `serde_json::Value`, a parsed JSON document, opaque to proofs.
#[verifier::external_type_specification]
#[verifier::external_body]
pub struct ExJsonValue(serde_json::Value);

/// `serde_json::Error`, why `serde_json` refused a text, opaque to proofs.
#[verifier::external_type_specification]
#[verifier::external_body]
pub struct ExJsonError(serde_json::Error);

/// The paths of object keys present in a JSON value, each mapped to the
/// string found there (`None` when the value there is not a string). The
/// empty path is always present and stands for the value itself; the path
/// `k` followed by `p` is present in an object when `p` is present in its
/// member `k`, and holds what `p` holds there. Arrays lead nowhere.
pub uninterp spec fn json_strings(v: serde_json::Value) -> Map<Seq<Seq<char>>, Option<Seq<char>>>;

/// The number leaves of a JSON value that read as a `u64`, by the same paths
/// as [`json_strings`].
pub uninterp spec fn json_naturals(v: serde_json::Value) -> Map<Seq<Seq<char>>, u64>;

/// What `serde_json` reads from a text: `None` exactly when `serde_json`
/// does not accept it (text that is not JSON, but also JSON that it
/// refuses, such as a number out of its range or nesting past its
/// recursion limit), else the present paths with their strings, and the
/// number leaves, of the document.
pub uninterp spec fn json_document(text: Seq<char>) -> Option<
    (Map<Seq<Seq<char>>, Option<Seq<char>>>, Map<Seq<Seq<char>>, u64>),
>;

/// The entry of a map of leaves at `path`, if any.
pub open spec fn leaf<V>(m: Map<Seq<Seq<char>>, V>, path: Seq<Seq<char>>) -> Option<V> {
    if m.dom().contains(path) {
        Some(m[path])
    } else {
        None
    }
}

/// The string at `path`: `None` when the path is absent or holds no string.
pub open spec fn string_at(m: Map<Seq<Seq<char>>, Option<Seq<char>>>, path: Seq<Seq<char>>) -> Option<Seq<char>> {
    if m.dom().contains(path) {
        m[path]
    } else {
        None
    }
}

/// The entries found below the object member `key`.
pub open spec fn below<V>(m: Map<Seq<Seq<char>>, V>, key: Seq<char>) -> Map<Seq<Seq<char>>, V> {
    Map::new(|p: Seq<Seq<char>>| m.dom().contains(seq![key] + p), |p: Seq<Seq<char>>| m[seq![key] + p])
}

/// Reads a text as a JSON document (`serde_json::from_str` into a `Value`).
/// Claimed: the call succeeds exactly when the text is a JSON document, and
/// the value it returns holds the paths and leaves of that document.
#[verifier::external_body]
fn parse_json(text: &str) -> (r: Result<serde_json::Value, serde_json::Error>)
    ensures
        match r {
            Ok(v) => json_document(text@) == Some((json_strings(v), json_naturals(v))),
            Err(_) => json_document(text@) is None,
        },
{
    serde_json::from_str(text)
}

/// An object member (`Value::get` with a string key). Claimed: the member
/// is present (its own empty path) and holds exactly what lies below `key`;
/// when there is none, nothing lies below `key`.
#[verifier::external_body]
fn json_get<'a>(v: &'a serde_json::Value, key: &str) -> (r: Option<&'a serde_json::Value>)
    ensures
        match r {
            Some(m) => json_strings(*m) == below(json_strings(*v), key@) && json_naturals(*m)
                == below(json_naturals(*v), key@) && json_strings(*m).dom().contains(
                Seq::empty(),
            ),
            None => below(json_strings(*v), key@) == Map::<
                Seq<Seq<char>>,
                Option<Seq<char>>,
            >::empty() && below(json_naturals(*v), key@) == Map::<Seq<Seq<char>>, u64>::empty(),
        },
{
    v.get(key)
}

/// The string a value is (`Value::as_str`). Claimed: it is the string at
/// the empty path.
#[verifier::external_body]
fn json_as_str(v: &serde_json::Value) -> (r: Option<String>)
    ensures
        opt_view(r) == string_at(json_strings(*v), Seq::empty()),
{
    v.as_str().map(str::to_owned)
}

/// The `u64` a value is (`Value::as_u64`). Claimed: it is the number leaf at
/// the empty path.
#[verifier::external_body]
fn json_as_u64(v: &serde_json::Value) -> (r: Option<u64>)
    ensures
        r == leaf(json_naturals(*v), Seq::empty()),
{
    v.as_u64()
}

proof fn lemma_below_leaf<V>(m: Map<Seq<Seq<char>>, V>, key: Seq<char>, p: Seq<Seq<char>>)
    ensures
        leaf(below(m, key), p) == leaf(m, seq![key] + p),
        below(m, key).dom().contains(p) == m.dom().contains(seq![key] + p),
{
}

/// The string member `key` of an object.
fn json_member_str(v: &serde_json::Value, key: &str) -> (r: Option<String>)
    ensures
        opt_view(r) == string_at(json_strings(*v), seq![key@]),
{
    proof {
        lemma_below_leaf(json_strings(*v), key@, Seq::empty());
        assert(seq![key@] + Seq::<Seq<char>>::empty() =~= seq![key@]);
    }
    match json_get(v, key) {
        Some(m) => json_as_str(m),
        None => None,
    }
}

/// The value at `outer.inner` of an object when that path is present: the
/// string there, or `None` when it is not a string.
fn json_nested_member(v: &serde_json::Value, outer: &str, inner: &str) -> (r: Option<Option<String>>)
    ensures
        r is Some == json_strings(*v).dom().contains(seq![outer@, inner@]),
        r matches Some(x) ==> opt_view(x) == string_at(json_strings(*v), seq![outer@, inner@]),
{
    proof {
        lemma_below_leaf(json_strings(*v), outer@, seq![inner@]);
        assert(seq![outer@] + seq![inner@] =~= seq![outer@, inner@]);
    }
    match json_get(v, outer) {
        Some(m) => {
            proof {
                lemma_below_leaf(json_strings(*m), inner@, Seq::empty());
                assert(seq![inner@] + Seq::<Seq<char>>::empty() =~= seq![inner@]);
            }
            match json_get(m, inner) {
                Some(leaf_value) => Some(json_as_str(leaf_value)),
                None => None,
            }
        },
        None => None,
    }
}

/// The `u64` member `key` of an object.
fn json_member_u64(v: &serde_json::Value, key: &str) -> (r: Option<u64>)
    ensures
        r == leaf(json_naturals(*v), seq![key@]),
{
    proof {
        lemma_below_leaf(json_naturals(*v), key@, Seq::empty());
        assert(seq![key@] + Seq::<Seq<char>>::empty() =~= seq![key@]);
    }
    match json_get(v, key) {
        Some(m) => json_as_u64(m),
        None => None,
    }
}

/// The first option when it is present, else the second.
pub open spec fn or_else<A>(a: Option<A>, b: Option<A>) -> Option<A> {
    match a {
        Some(x) => Some(x),
        None => b,
    }
}

/// The details that a subject document describes: its web page (or, for a
/// check suite, the checks page of its commit), a body that is not blank,
/// its state or status, the login of its user (or, when the document has
/// no `user.login` at all, of its author), its number of
/// comments and its timestamps.
pub open spec fn detail_from_leaves(
    subject_url: Seq<char>,
    strings: Map<Seq<Seq<char>>, Option<Seq<char>>>,
    naturals: Map<Seq<Seq<char>>, u64>,
) -> NotificationDetailView {
    NotificationDetailView {
        html_url: match string_at(strings, seq!["html_url"@]) {
            Some(u) => Some(u),
            None => match string_at(strings, seq!["head_sha"@]) {
                Some(sha) => check_suite_url(subject_url, sha),
                None => None,
            },
        },
        body: match string_at(strings, seq!["body"@]) {
            Some(b) => if is_blank(b) {
                None
            } else {
                Some(b)
            },
            None => None,
        },
        state: or_else(string_at(strings, seq!["state"@]), string_at(strings, seq!["status"@])),
        author: if strings.dom().contains(seq!["user"@, "login"@]) {
            string_at(strings, seq!["user"@, "login"@])
        } else {
            string_at(strings, seq!["author"@, "login"@])
        },
        comments: leaf(naturals, seq!["comments"@]),
        created_at: string_at(strings, seq!["created_at"@]),
        updated_at: string_at(strings, seq!["updated_at"@]),
    }
}

/// The details held by a parsed subject document.
pub fn detail_from_json(subject_url: &str, value: &serde_json::Value) -> (r: NotificationDetail)
    ensures
        r@ == detail_from_leaves(subject_url@, json_strings(*value), json_naturals(*value)),
{
    let html_url = match json_member_str(value, "html_url") {
        Some(u) => Some(u),
        None => match json_member_str(value, "head_sha") {
            Some(sha) => check_suite_web_url(subject_url, sha.as_str()),
            None => None,
        },
    };
    let body = match json_member_str(value, "body") {
        Some(b) => if str_is_blank(b.as_str()) {
            None
        } else {
            Some(b)
        },
        None => None,
    };
    let state = match json_member_str(value, "state") {
        Some(st) => Some(st),
        None => json_member_str(value, "status"),
    };
    let author = match json_nested_member(value, "user", "login") {
        Some(a) => a,
        None => match json_nested_member(value, "author", "login") {
            Some(a) => a,
            None => None,
        },
    };
    NotificationDetail {
        html_url,
        body,
        state,
        author,
        comments: json_member_u64(value, "comments"),
        created_at: json_member_str(value, "created_at"),
        updated_at: json_member_str(value, "updated_at"),
    }
}

/// Reads the details of a notification from the body of its subject's API
/// response; refused, with `serde_json`'s explanation, exactly when
/// `serde_json` does not accept the body.
pub fn parse_notification_detail(subject_url: &str, body: &str) -> (r: Result<
    NotificationDetail,
    ApiError,
>)
    ensures
        json_document(body@) is None <==> r is Err,
        r matches Err(e) ==> e is MalformedJson,
        r matches Ok(d) ==> json_document(body@) matches Some(doc) && d@ == detail_from_leaves(
            subject_url@,
            doc.0,
            doc.1,
        ),
{
    match parse_json(body) {
        Ok(value) => Ok(detail_from_json(subject_url, &value)),
        Err(e) => Err(ApiError::MalformedJson(e.to_string())),
    }
}

// ---------------------------------------------------------------------------
// Proxy selection
// ---------------------------------------------------------------------------

/// The proxy URL for the system proxy `host:port`: none without a host or
/// with a port outside `1..=65535`; an IPv6 host is put in brackets.
pub open spec fn system_proxy(host: Option<Seq<char>>, port: i32) -> Option<Seq<char>> {
    match host {
        None => None,
        Some(h) => if h.len() == 0 || !(1 <= port && port <= 65535) {
            None
        } else {
            let shown = if contains(h, seq![':']) && !starts_with(h, seq!['[']) {
                seq!['['] + h + seq![']']
            } else {
                h
            };
            Some("http://"@ + shown + seq![':'] + decimal(port as nat))
        },
    }
}

/// The proxy URL for the system proxy settings.
pub fn system_proxy_url(host: Option<String>, port: i32) -> (r: Option<String>)
    ensures
        opt_view(r) == system_proxy(opt_view(host), port),
{
    let h = match host {
        Some(h) => h,
        None => {
            return None;
        },
    };
    if h.as_str().is_empty() || !(1 <= port && port <= 65535) {
        return None;
    }
    proof {
        reveal_strlit(":");
        reveal_strlit("[");
        reveal_strlit("]");
    }
    let mut out = chars_of("http://");
    if str_contains(h.as_str(), ":") && !str_starts_with(h.as_str(), "[") {
        append_str(&mut out, "[");
        append_str(&mut out, h.as_str());
        append_str(&mut out, "]");
    } else {
        append_str(&mut out, h.as_str());
    }
    append_str(&mut out, ":");
    let digits = decimal_string(port as u64);
    append_str(&mut out, digits.as_str());
    assert((port as u64) as nat == port as nat);
    assert(":"@ =~= seq![':']);
    assert("["@ =~= seq!['[']);
    assert("]"@ =~= seq![']']);
    assert(out@ =~= system_proxy(opt_view(Some(h)), port).unwrap());
    Some(string_of(&out))
}

/// The proxy to use: the system proxy when there is one, else the proxy
/// configured at build time.
pub fn proxy_url(system_proxy: Option<String>, configured: Option<String>) -> (r: Option<String>)
    ensures
        r == or_else(system_proxy, configured),
{
    match system_proxy {
        Some(p) => Some(p),
        None => configured,
    }
}

// ---------------------------------------------------------------------------
// Laws
// ---------------------------------------------------------------------------

/// The entries of `s` separated by `c` (what `str::split` yields).
pub open spec fn split_char(s: Seq<char>, c: char) -> Seq<Seq<char>>
    decreases s.len(),
{
    if s.len() == 0 {
        seq![seq![]]
    } else {
        let rest = split_char(s.drop_first(), c);
        if s[0] == c {
            seq![seq![]] + rest
        } else {
            rest.update(0, seq![s[0]] + rest[0])
        }
    }
}

proof fn lemma_split_first(s: Seq<char>, c: char)
    ensures
        split_char(s, c).len() >= 1,
        split_char(s, c)[0].len() <= s.len(),
        split_char(s, c)[0] == s.take(split_char(s, c)[0].len() as int),
        split_char(s, c)[0].len() < s.len() ==> s[split_char(s, c)[0].len() as int] == c,
    decreases s.len(),
{
    if s.len() > 0 {
        let t = s.drop_first();
        lemma_split_first(t, c);
        if s[0] != c {
            let p0 = split_char(t, c)[0];
            assert(seq![s[0]] + p0 =~= s.take(p0.len() as int + 1));
        } else {
            assert(s.take(0) =~= Seq::<char>::empty());
        }
    } else {
        assert(s.take(0) =~= Seq::<char>::empty());
    }
}

proof fn lemma_contains_shift(x: char, t: Seq<char>, p: Seq<char>)
    requires
        p.len() > 0,
    ensures
        contains(seq![x] + t, p) <==> (occurs_at(seq![x] + t, p, 0) || contains(t, p)),
{
    let s = seq![x] + t;
    if contains(s, p) {
        let i = choose|i: int| occurs_at(s, p, i);
        if i > 0 {
            assert(t.subrange(i - 1, i - 1 + p.len()) =~= s.subrange(i, i + p.len()));
            assert(occurs_at(t, p, i - 1));
        }
    }
    if contains(t, p) {
        let i = choose|i: int| occurs_at(t, p, i);
        assert(t.subrange(i, i + p.len()) =~= s.subrange(i + 1, i + 1 + p.len()));
        assert(occurs_at(s, p, i + 1));
    }
}

proof fn lemma_split_contains(s: Seq<char>, c: char, p: Seq<char>)
    requires
        p.len() > 0,
        forall|i: int| 0 <= i < p.len() ==> p[i] != c,
    ensures
        contains(s, p) <==> exists|k: int|
            0 <= k < split_char(s, c).len() && contains(#[trigger] split_char(s, c)[k], p),
    decreases s.len(),
{
    lemma_split_first(s, c);
    if s.len() == 0 {
        if contains(s, p) {
            let i = choose|i: int| occurs_at(s, p, i);
        }
        if exists|k: int| 0 <= k < split_char(s, c).len() && contains(#[trigger] split_char(s, c)[k], p) {
            let k = choose|k: int| 0 <= k < split_char(s, c).len() && contains(#[trigger] split_char(s, c)[k], p);
            let i = choose|i: int| occurs_at(split_char(s, c)[k], p, i);
        }
    } else {
        let x = s[0];
        let t = s.drop_first();
        assert(s =~= seq![x] + t);
        lemma_split_contains(t, c, p);
        lemma_split_first(t, c);
        lemma_contains_shift(x, t, p);
        let rest = split_char(t, c);
        let parts = split_char(s, c);
        if x == c {
            assert(!occurs_at(s, p, 0)) by {
                if occurs_at(s, p, 0) {
                    assert(s.subrange(0, p.len() as int)[0] == p[0]);
                }
            }
            assert(!contains(seq![], p)) by {
                if contains(seq![], p) {
                    let i = choose|i: int| occurs_at(Seq::<char>::empty(), p, i);
                }
            }
            assert forall|k: int| 0 <= k < parts.len() && contains(#[trigger] parts[k], p) implies k >= 1
                && contains(rest[k - 1], p) by {
                if k == 0 {
                    assert(parts[0] == Seq::<char>::empty());
                } else {
                    assert(parts[k] == rest[k - 1]);
                }
            }
            if contains(t, p) {
                let k = choose|k: int| 0 <= k < rest.len() && contains(#[trigger] rest[k], p);
                assert(parts[k + 1] == rest[k]);
            }
        } else {
            let p0 = rest[0];
            lemma_contains_shift(x, p0, p);
            // An occurrence at the start of `s` lies inside the first entry.
            assert(occurs_at(s, p, 0) <==> occurs_at(seq![x] + p0, p, 0)) by {
                let q = seq![x] + p0;
                assert(q =~= s.take(q.len() as int));
                if p.len() <= q.len() {
                    assert(s.subrange(0, p.len() as int) =~= q.subrange(0, p.len() as int));
                } else if occurs_at(s, p, 0) {
                    assert(p0.len() < t.len());
                    assert(s[q.len() as int] == c);
                    assert(s.subrange(0, p.len() as int)[q.len() as int] == p[q.len() as int]);
                }
            }
            if contains(s, p) {
                if occurs_at(s, p, 0) {
                    assert(contains(parts[0], p));
                } else {
                    let k = choose|k: int| 0 <= k < rest.len() && contains(#[trigger] rest[k], p);
                    if k == 0 {
                        assert(contains(parts[0], p));
                    } else {
                        assert(parts[k] == rest[k]);
                    }
                }
            }
            if exists|k: int| 0 <= k < parts.len() && contains(#[trigger] parts[k], p) {
                let k = choose|k: int| 0 <= k < parts.len() && contains(#[trigger] parts[k], p);
                if k == 0 {
                    assert(parts[0] == seq![x] + p0);
                } else {
                    assert(parts[k] == rest[k]);
                }
            }
        }
    }
}

/// Both OAuth requests of the device flow are POSTs of a form to GitHub's
/// login endpoints: the token poll sends the client and the device code to
/// the access-token endpoint.
pub proof fn law_device_flow_posts_forms(client_id: Seq<char>, device_code: Seq<char>)
    ensures
        device_code_request_spec(client_id).method == HttpMethod::Post,
        token_poll_request_spec(client_id, device_code).method == HttpMethod::Post,
        token_poll_request_spec(client_id, device_code).url == "https://github.com/login/oauth/access_token"@,
        token_poll_request_spec(client_id, device_code).query.len() == 0,
        token_poll_request_spec(client_id, device_code).form.contains(("client_id"@, client_id)),
        token_poll_request_spec(client_id, device_code).form.contains(("device_code"@, device_code)),
{
    let f = token_poll_request_spec(client_id, device_code).form;
    assert(f[0] == ("client_id"@, client_id));
    assert(f[1] == ("device_code"@, device_code));
}

/// A `Link` header announces a next page exactly when one of its
/// comma-separated entries carries `rel="next"`.
pub proof fn law_next_page_marker_in_an_entry(link: Seq<char>)
    ensures
        contains(link, rel_next()) <==> exists|k: int|
            0 <= k < split_char(link, ',').len() && contains(#[trigger] split_char(link, ',')[k], rel_next()),
{
    reveal_strlit("rel=\"next\"");
    lemma_split_contains(link, ',', rel_next());
}

/// The page opened for a notification is its repository page or a page on
/// github.com.
pub proof fn law_web_url_stays_on_github(n: NotificationView)
    ensures
        web_url(n) == n.repository.html_url || starts_with(web_url(n), web_prefix()),
{
    let w = web_url(n);
    if w != n.repository.html_url {
        assert(w.subrange(0, web_prefix().len() as int) =~= web_prefix());
    }
}

/// The API address of an issue or discussion maps to the same path on
/// github.com.
pub proof fn law_issue_page_mirrors_api_path(n: NotificationView, path: Seq<char>)
    requires
        n.subject.kind == "Issue"@ || n.subject.kind == "Discussion"@,
        n.subject.url == Some(api_repos_prefix() + path),
    ensures
        web_url(n) == web_prefix() + path,
{
    reveal_strlit("Issue");
    reveal_strlit("Discussion");
    reveal_strlit("PullRequest");
    reveal_strlit("Commit");
    let u = api_repos_prefix() + path;
    assert(u.subrange(0, api_repos_prefix().len() as int) =~= api_repos_prefix());
    assert(u.skip(api_repos_prefix().len() as int) =~= path);
    assert(strip_prefix(u, api_repos_prefix()) == Some(path));
    assert("Issue"@.len() != "PullRequest"@.len());
    assert("Discussion"@.len() != "PullRequest"@.len());
    assert("Issue"@.len() != "Commit"@.len());
    assert("Discussion"@.len() != "Commit"@.len());
    assert(n.subject.kind != "PullRequest"@);
    assert(n.subject.kind != "Commit"@);
}

} // verus!
