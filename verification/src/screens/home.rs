//! What the inbox shows: the search filter, the body of the screen, the
//! account in the top bar and the look of each notification card.

use vstd::prelude::*;
use crate::api::{GitHubUser, GitHubUserView, Notification, NotificationView};
use crate::screens::{Router, RouterView, notifications_view};
use crate::text::{
    ascii_lowercase, chars_of, contains, contains_exec, opt_view, replace_all, str_ascii_lowercase,
    str_equal, str_replace, string_of_range,
};

verus! {

broadcast use vstd::string::group_string_axioms;

pub const BG: u32 = 0x0D1117;

pub const SUBTEXT: u32 = 0x8B949E;

pub const ACCENT: u32 = 0x58A6FF;

pub const GREEN: u32 = 0x3FB950;

pub const PURPLE: u32 = 0xBC8CFF;

pub const YELLOW: u32 = 0xF0883E;

pub const TEXT: u32 = 0xC9D1D9;

// ---------------------------------------------------------------------------
// Search
// ---------------------------------------------------------------------------

/// A notification matches a lower-cased query when its title or its
/// repository name, lower-cased, contains the query.
pub open spec fn matches_query(n: NotificationView, lowered_query: Seq<char>) -> bool {
    contains(ascii_lowercase(n.subject.title), lowered_query) || contains(
        ascii_lowercase(n.repository.full_name),
        lowered_query,
    )
}

/// The indices below `k` of the notifications matching `query`, in order.
pub open spec fn matching_below(ns: Seq<NotificationView>, query: Seq<char>, k: int) -> Seq<usize>
    decreases k,
{
    if k <= 0 {
        seq![]
    } else if matches_query(ns[k - 1], ascii_lowercase(query)) {
        matching_below(ns, query, k - 1).push((k - 1) as usize)
    } else {
        matching_below(ns, query, k - 1)
    }
}

/// The indices of the notifications matching `query`, in order: all of
/// them for an empty query, else those whose title or repository contains
/// the query, ignoring ASCII case.
pub open spec fn matching(ns: Seq<NotificationView>, query: Seq<char>) -> Seq<usize> {
    matching_below(ns, query, ns.len() as int)
}

/// Every notification matches the empty query.
pub proof fn lemma_empty_query_matches_all(ns: Seq<NotificationView>, k: int)
    requires
        0 <= k <= ns.len(),
    ensures
        matching_below(ns, seq![], k) == Seq::new(k as nat, |i: int| i as usize),
    decreases k,
{
    assert(ascii_lowercase(seq![]) =~= Seq::<char>::empty());
    if k > 0 {
        lemma_empty_query_matches_all(ns, k - 1);
        let t = ascii_lowercase(ns[k - 1].subject.title);
        assert(t.subrange(0, 0) =~= Seq::<char>::empty());
        assert(crate::text::occurs_at(t, ascii_lowercase(seq![]), 0));
        assert(matching_below(ns, seq![], k) =~= Seq::new(k as nat, |i: int| i as usize));
    } else {
        assert(matching_below(ns, seq![], k) =~= Seq::new(k as nat, |i: int| i as usize));
    }
}

/// The indices listed below `k` are exactly those of the matching
/// notifications below `k`, in increasing order.
pub proof fn lemma_matching_below(ns: Seq<NotificationView>, query: Seq<char>, k: int)
    requires
        0 <= k <= ns.len(),
        ns.len() <= usize::MAX,
    ensures
        forall|i: usize| #[trigger]
            matching_below(ns, query, k).contains(i) <==> (i < k && matches_query(
                ns[i as int],
                ascii_lowercase(query),
            )),
        forall|a: int, b: int|
            0 <= a < b < matching_below(ns, query, k).len() ==> #[trigger] matching_below(
                ns,
                query,
                k,
            )[a] < #[trigger] matching_below(ns, query, k)[b],
        forall|a: int|
            0 <= a < matching_below(ns, query, k).len() ==> #[trigger] matching_below(
                ns,
                query,
                k,
            )[a] < k,
    decreases k,
{
    if k > 0 {
        lemma_matching_below(ns, query, k - 1);
        let prev = matching_below(ns, query, k - 1);
        let last = (k - 1) as usize;
        assert(last as int == k - 1);
        if matches_query(ns[k - 1], ascii_lowercase(query)) {
            let cur = prev.push(last);
            assert(matching_below(ns, query, k) == cur);
            assert forall|i: usize| #[trigger] cur.contains(i) <==> (i < k && matches_query(
                ns[i as int],
                ascii_lowercase(query),
            )) by {
                if i == last {
                    assert(cur[cur.len() - 1] == i);
                } else {
                    if cur.contains(i) {
                        let j = choose|j: int| 0 <= j < cur.len() && cur[j] == i;
                        assert(prev[j] == i);
                        assert(prev.contains(i));
                    }
                    if prev.contains(i) {
                        let j = choose|j: int| 0 <= j < prev.len() && prev[j] == i;
                        assert(cur[j] == i);
                    }
                }
            }
            assert forall|a: int, b: int| 0 <= a < b < cur.len() implies #[trigger] cur[a]
                < #[trigger] cur[b] by {
                if b == cur.len() - 1 {
                    assert(prev[a] < k - 1);
                } else {
                    assert(prev[a] < prev[b]);
                }
            }
            assert forall|a: int| 0 <= a < cur.len() implies #[trigger] cur[a] < k by {
                if a < prev.len() {
                    assert(prev[a] < k - 1);
                }
            }
        } else {
            assert(matching_below(ns, query, k) == prev);
            assert forall|i: usize| #[trigger] prev.contains(i) <==> (i < k && matches_query(
                ns[i as int],
                ascii_lowercase(query),
            )) by {
                if i == last {
                }
            }
        }
    }
}

/// Searching ignores ASCII case: a query lists the same notifications as
/// its lower-case form.
pub proof fn law_search_ignores_case(ns: Seq<NotificationView>, query: Seq<char>)
    ensures
        matching(ns, query) == matching(ns, ascii_lowercase(query)),
{
    assert(ascii_lowercase(ascii_lowercase(query)) =~= ascii_lowercase(query));
    lemma_same_lowering(ns, query, ascii_lowercase(query), ns.len() as int);
}

proof fn lemma_same_lowering(ns: Seq<NotificationView>, q1: Seq<char>, q2: Seq<char>, k: int)
    requires
        ascii_lowercase(q1) == ascii_lowercase(q2),
    ensures
        matching_below(ns, q1, k) == matching_below(ns, q2, k),
    decreases k,
{
    if k > 0 {
        lemma_same_lowering(ns, q1, q2, k - 1);
    }
}

/// Typing more narrows the search: every notification listed for a longer
/// query is listed for the shorter one.
pub proof fn law_longer_query_narrows(ns: Seq<NotificationView>, query: Seq<char>, more: Seq<char>, i: usize)
    requires
        ns.len() <= usize::MAX,
        matching(ns, query + more).contains(i),
    ensures
        matching(ns, query).contains(i),
{
    lemma_matching_below(ns, query + more, ns.len() as int);
    lemma_matching_below(ns, query, ns.len() as int);
    let lq = ascii_lowercase(query);
    assert(ascii_lowercase(query + more) =~= lq + ascii_lowercase(more));
    let n = ns[i as int];
    let t = ascii_lowercase(n.subject.title);
    let f = ascii_lowercase(n.repository.full_name);
    let long = lq + ascii_lowercase(more);
    if contains(t, long) {
        let p = choose|p: int| crate::text::occurs_at(t, long, p);
        assert(t.subrange(p, p + lq.len()) =~= long.subrange(0, lq.len() as int));
        assert(long.subrange(0, lq.len() as int) =~= lq);
        assert(crate::text::occurs_at(t, lq, p));
    } else {
        let p = choose|p: int| crate::text::occurs_at(f, long, p);
        assert(f.subrange(p, p + lq.len()) =~= long.subrange(0, lq.len() as int));
        assert(long.subrange(0, lq.len() as int) =~= lq);
        assert(crate::text::occurs_at(f, lq, p));
    }
}

/// A notification is listed whenever its repository name, ignoring ASCII
/// case, contains the query, ignoring ASCII case.
pub proof fn law_found_by_repository_name(ns: Seq<NotificationView>, query: Seq<char>, i: int)
    requires
        ns.len() <= usize::MAX,
        0 <= i < ns.len(),
        contains(ascii_lowercase(ns[i].repository.full_name), ascii_lowercase(query)),
    ensures
        matching(ns, query).contains(i as usize),
{
    lemma_matching_below(ns, query, ns.len() as int);
}

/// A notification is listed whenever its title, ignoring ASCII case,
/// contains the query, ignoring ASCII case.
pub proof fn law_found_by_title(ns: Seq<NotificationView>, query: Seq<char>, i: int)
    requires
        ns.len() <= usize::MAX,
        0 <= i < ns.len(),
        contains(ascii_lowercase(ns[i].subject.title), ascii_lowercase(query)),
    ensures
        matching(ns, query).contains(i as usize),
{
    lemma_matching_below(ns, query, ns.len() as int);
}

/// A notification is listed only when its title or its repository name,
/// ignoring ASCII case, contains the query, ignoring ASCII case.
pub proof fn law_listed_only_when_found(ns: Seq<NotificationView>, query: Seq<char>, i: usize)
    requires
        ns.len() <= usize::MAX,
        matching(ns, query).contains(i),
    ensures
        i < ns.len(),
        contains(ascii_lowercase(ns[i as int].subject.title), ascii_lowercase(query))
            || contains(ascii_lowercase(ns[i as int].repository.full_name), ascii_lowercase(query)),
{
    lemma_matching_below(ns, query, ns.len() as int);
}

/// Two notifications whose titles and repository names are the same but
/// for ASCII case.
pub open spec fn same_but_case(n: NotificationView, m: NotificationView) -> bool {
    &&& ascii_lowercase(n.subject.title) == ascii_lowercase(m.subject.title)
    &&& ascii_lowercase(n.repository.full_name) == ascii_lowercase(m.repository.full_name)
}

/// Searching ignores the ASCII case of the notifications too: lists whose
/// titles and repository names differ only in ASCII case give the same
/// result for every query.
pub proof fn law_search_ignores_case_of_notifications(
    ns: Seq<NotificationView>,
    ms: Seq<NotificationView>,
    query: Seq<char>,
)
    requires
        ns.len() == ms.len(),
        forall|i: int| 0 <= i < ns.len() ==> #[trigger] same_but_case(ns[i], ms[i]),
    ensures
        matching(ns, query) == matching(ms, query),
{
    lemma_same_case_folding(ns, ms, query, ns.len() as int);
}

proof fn lemma_same_case_folding(ns: Seq<NotificationView>, ms: Seq<NotificationView>, query: Seq<char>, k: int)
    requires
        ns.len() == ms.len(),
        k <= ns.len(),
        forall|i: int| 0 <= i < ns.len() ==> #[trigger] same_but_case(ns[i], ms[i]),
    ensures
        matching_below(ns, query, k) == matching_below(ms, query, k),
    decreases k,
{
    if k > 0 {
        lemma_same_case_folding(ns, ms, query, k - 1);
        assert(same_but_case(ns[k - 1], ms[k - 1]));
    }
}

/// The empty query lists every notification, in order.
pub proof fn law_empty_query_lists_all(ns: Seq<NotificationView>)
    ensures
        matching(ns, seq![]) == Seq::new(ns.len(), |i: int| i as usize),
{
    lemma_empty_query_matches_all(ns, ns.len() as int);
}

/// The notifications to list for `query`, by index.
pub fn filter_notifications(notifications: &[Notification], query: &str) -> (r: Vec<usize>)
    ensures
        r@ == matching(notifications_view(notifications@), query@),
{
    let ghost ns = notifications_view(notifications@);
    let q = str_ascii_lowercase(query);
    let mut out: Vec<usize> = Vec::new();
    let mut k: usize = 0;
    while k < notifications.len()
        invariant
            ns == notifications_view(notifications@),
            q@ == ascii_lowercase(query@),
            k <= notifications@.len(),
            out@ == matching_below(ns, query@, k as int),
        decreases notifications.len() - k,
    {
        let n = &notifications[k];
        let title = str_ascii_lowercase(n.subject.title.as_str());
        let repo = str_ascii_lowercase(n.repository.full_name.as_str());
        if contains_exec(&title, &q) || contains_exec(&repo, &q) {
            out.push(k);
        }
        k = k + 1;
    }
    out
}

// ---------------------------------------------------------------------------
// The body of the screen
// ---------------------------------------------------------------------------

/// What the inbox body shows.
#[derive(Debug)]
pub enum HomeContent {
    /// The first load is running.
    Loading,
    /// Nothing could be loaded; the message says why.
    Failed(String),
    /// There is nothing to list.
    Empty { searching: bool },
    /// The notifications at these indices.
    List(Vec<usize>),
}

pub enum HomeContentView {
    Loading,
    Failed(Seq<char>),
    Empty { searching: bool },
    List(Seq<usize>),
}

impl View for HomeContent {
    type V = HomeContentView;

    open spec fn view(&self) -> HomeContentView {
        match self {
            HomeContent::Loading => HomeContentView::Loading,
            HomeContent::Failed(m) => HomeContentView::Failed(m@),
            HomeContent::Empty { searching } => HomeContentView::Empty { searching: *searching },
            HomeContent::List(v) => HomeContentView::List(v@),
        }
    }
}

/// The inbox body: a spinner during the first load, the error when nothing
/// was loaded, an empty state when no notification matches, else the list.
pub open spec fn home_body(s: RouterView) -> HomeContentView {
    if s.notifications_loading && s.notifications.len() == 0 {
        HomeContentView::Loading
    } else if s.home_error is Some && s.notifications.len() == 0 {
        HomeContentView::Failed(s.home_error.unwrap())
    } else if matching(s.notifications, s.search_query).len() == 0 {
        HomeContentView::Empty { searching: s.search_query.len() > 0 }
    } else {
        HomeContentView::List(matching(s.notifications, s.search_query))
    }
}

/// What the inbox body shows for `router`.
pub fn home_content(router: &Router) -> (r: HomeContent)
    ensures
        r@ == home_body(router@),
{
    let empty = router.notifications.len() == 0;
    if router.notifications_loading && empty {
        return HomeContent::Loading;
    }
    if empty {
        match &router.home_error {
            Some(m) => {
                return HomeContent::Failed(m.clone());
            },
            None => {},
        }
    }
    let filtered = filter_notifications(router.notifications.as_slice(), router.search_query.as_str());
    if filtered.len() == 0 {
        HomeContent::Empty { searching: !router.search_query.as_str().is_empty() }
    } else {
        HomeContent::List(filtered)
    }
}

/// The warning shown above a list that could not be refreshed.
pub fn home_banner(router: &Router) -> (r: Option<String>)
    ensures
        opt_view(r) == (if router@.notifications.len() == 0 {
            None
        } else {
            router@.home_error
        }),
{
    if router.notifications.len() == 0 {
        None
    } else {
        match &router.home_error {
            Some(m) => Some(m.clone()),
            None => None,
        }
    }
}

// ---------------------------------------------------------------------------
// Top bar
// ---------------------------------------------------------------------------

/// The account line under the title.
pub open spec fn account_text(user: Option<GitHubUserView>) -> Seq<char> {
    match user {
        Some(u) => seq!['@'] + u.login,
        None => "GitHub notifications"@,
    }
}

/// The account line under the title.
pub fn account_label(user: &Option<GitHubUser>) -> (r: String)
    ensures
        r@ == account_text(crate::screens::user_view(*user)),
{
    match user {
        Some(u) => {
            proof {
                reveal_strlit("@");
                assert("@"@ =~= seq!['@']);
            }
            crate::text::concat2("@", u.login.as_str())
        },
        None => "GitHub notifications".to_owned(),
    }
}

/// The upper-case form of a character (`char::to_uppercase`), one or more
/// characters, as Unicode defines it.
pub uninterp spec fn uppercase_of(c: char) -> Seq<char>;

/// `char::to_uppercase`. Claimed: the result is the upper-case mapping of
/// `c`, one or more characters long, as the documentation says.
#[verifier::external_body]
fn uppercase(c: char) -> (r: String)
    ensures
        r@ == uppercase_of(c),
        r@.len() >= 1,
{
    c.to_uppercase().collect()
}

/// The avatar: the initial of the login, whether there is a picture, and
/// the picture's address.
pub open spec fn avatar_spec(user: Option<GitHubUserView>) -> (Seq<char>, bool, Seq<char>) {
    match user {
        Some(u) => (
            if u.login.len() > 0 {
                uppercase_of(u.login[0])
            } else {
                seq!['?']
            },
            u.avatar_url.len() > 0,
            u.avatar_url,
        ),
        None => (seq!['?'], false, seq![]),
    }
}

/// The avatar of the account in the top bar.
pub fn avatar(user: &Option<GitHubUser>) -> (r: (String, bool, String))
    ensures
        r.0@ == avatar_spec(crate::screens::user_view(*user)).0,
        r.1 == avatar_spec(crate::screens::user_view(*user)).1,
        r.2@ == avatar_spec(crate::screens::user_view(*user)).2,
{
    proof {
        reveal_strlit("?");
        assert("?"@ =~= seq!['?']);
    }
    match user {
        Some(u) => {
            let login = chars_of(u.login.as_str());
            let initial = if login.len() > 0 {
                uppercase(login[0])
            } else {
                "?".to_owned()
            };
            (initial, !u.avatar_url.as_str().is_empty(), u.avatar_url.clone())
        },
        None => ("?".to_owned(), false, String::new()),
    }
}

/// The text in the search field: the query, or a prompt when it is empty.
pub fn search_field_text(query: &str) -> (r: String)
    ensures
        r@ == (if query@.len() == 0 {
            "Search notifications"@
        } else {
            query@
        }),
{
    if query.is_empty() {
        "Search notifications".to_owned()
    } else {
        query.to_owned()
    }
}

/// The search field is highlighted while it holds text or the keyboard has
/// sent input.
pub fn search_focused(query: &str, keyboard_dirty: bool) -> (r: bool)
    ensures
        r == (query@.len() > 0 || keyboard_dirty),
{
    !query.is_empty() || keyboard_dirty
}

// ---------------------------------------------------------------------------
// Notification cards
// ---------------------------------------------------------------------------

/// The colour and short label of a subject type on a card.
pub open spec fn card_style(kind: Seq<char>) -> (u32, Seq<char>) {
    if kind == "PullRequest"@ {
        (PURPLE, "PR"@)
    } else if kind == "Issue"@ {
        (GREEN, "#"@)
    } else if kind == "Release"@ {
        (ACCENT, "R"@)
    } else if kind == "CheckSuite"@ {
        (YELLOW, "CI"@)
    } else {
        (SUBTEXT, "N"@)
    }
}

/// The colour and short label of a subject type on a card.
pub fn notif_type_style(kind: &str) -> (r: (u32, &'static str))
    ensures
        r.0 == card_style(kind@).0,
        r.1@ == card_style(kind@).1,
{
    if str_equal(kind, "PullRequest") {
        (PURPLE, "PR")
    } else if str_equal(kind, "Issue") {
        (GREEN, "#")
    } else if str_equal(kind, "Release") {
        (ACCENT, "R")
    } else if str_equal(kind, "CheckSuite") {
        (YELLOW, "CI")
    } else {
        (SUBTEXT, "N")
    }
}

/// The short description of why a notification arrived, on a card.
pub open spec fn card_reason(reason: Seq<char>) -> Seq<char> {
    if reason == "assign"@ {
        "Assigned"@
    } else if reason == "author"@ {
        "You authored"@
    } else if reason == "comment"@ {
        "New comment"@
    } else if reason == "mention"@ {
        "You were mentioned"@
    } else if reason == "review_requested"@ {
        "Review requested"@
    } else if reason == "subscribed"@ {
        "Subscribed"@
    } else if reason == "team_mention"@ {
        "Team mention"@
    } else if reason == "ci_activity"@ {
        "CI activity"@
    } else {
        "Notification"@
    }
}

/// The short description of why a notification arrived, on a card.
pub fn reason_label(reason: &str) -> (r: &'static str)
    ensures
        r@ == card_reason(reason@),
{
    if str_equal(reason, "assign") {
        "Assigned"
    } else if str_equal(reason, "author") {
        "You authored"
    } else if str_equal(reason, "comment") {
        "New comment"
    } else if str_equal(reason, "mention") {
        "You were mentioned"
    } else if str_equal(reason, "review_requested") {
        "Review requested"
    } else if str_equal(reason, "subscribed") {
        "Subscribed"
    } else if str_equal(reason, "team_mention") {
        "Team mention"
    } else if str_equal(reason, "ci_activity") {
        "CI activity"
    } else {
        "Notification"
    }
}

/// The translucent background of a badge in `color`: the colour with an
/// alpha byte of 0x26.
pub fn badge_background(color: u32) -> (r: u32)
    requires
        color < 0x1000000,
    ensures
        r == color * 256 + 0x26,
{
    color * 256 + 0x26
}

// ---------------------------------------------------------------------------
// Dates
// ---------------------------------------------------------------------------

/// The number of bytes UTF-8 uses for `c`.
pub open spec fn utf8_width(c: char) -> int {
    if (c as u32) < 0x80 {
        1
    } else if (c as u32) < 0x800 {
        2
    } else if (c as u32) < 0x10000 {
        3
    } else {
        4
    }
}

/// The byte offset, in UTF-8, of the `k`-th character of `s`.
pub open spec fn byte_offset(s: Seq<char>, k: int) -> int
    decreases k,
{
    if k <= 0 {
        0
    } else {
        byte_offset(s, k - 1) + utf8_width(s[k - 1])
    }
}

/// Byte `b` starts a character of `s` or is its end.
pub open spec fn is_boundary(s: Seq<char>, b: int) -> bool {
    exists|k: int| 0 <= k <= s.len() && byte_offset(s, k) == b
}

/// The character index at byte boundary `b`.
pub open spec fn boundary_index(s: Seq<char>, b: int) -> int {
    choose|k: int| 0 <= k <= s.len() && byte_offset(s, k) == b
}

/// The part of `s` between bytes `lo` and `hi`, when both are character
/// boundaries (what `str::get(lo..hi)` returns).
pub open spec fn byte_range(s: Seq<char>, lo: int, hi: int) -> Option<Seq<char>> {
    if lo <= hi && is_boundary(s, lo) && is_boundary(s, hi) {
        Some(s.subrange(boundary_index(s, lo), boundary_index(s, hi)))
    } else {
        None
    }
}

proof fn lemma_offset_increases(s: Seq<char>, i: int, j: int)
    requires
        0 <= i < j,
    ensures
        byte_offset(s, i) < byte_offset(s, j),
    decreases j - i,
{
    if j - 1 > i {
        lemma_offset_increases(s, i, j - 1);
    }
}

proof fn lemma_boundary_unique(s: Seq<char>, k: int, b: int)
    requires
        0 <= k <= s.len(),
        byte_offset(s, k) == b,
    ensures
        is_boundary(s, b),
        boundary_index(s, b) == k,
{
    let c = boundary_index(s, b);
    if c < k {
        lemma_offset_increases(s, c, k);
    } else if k < c {
        lemma_offset_increases(s, k, c);
    }
}

fn char_width(c: char) -> (r: usize)
    ensures
        r == utf8_width(c),
{
    if (c as u32) < 0x80 {
        1
    } else if (c as u32) < 0x800 {
        2
    } else if (c as u32) < 0x10000 {
        3
    } else {
        4
    }
}

/// `str::get(lo..hi)`.
pub fn str_byte_range(s: &str, lo: usize, hi: usize) -> (r: Option<String>)
    ensures
        opt_view(r) == byte_range(s@, lo as int, hi as int),
{
    if lo > hi {
        return None;
    }
    let v = chars_of(s);
    let mut k: usize = 0;
    let mut off: usize = 0;
    let mut lo_at: Option<usize> = None;
    loop
        invariant
            v@ == s@,
            lo <= hi,
            k <= v@.len(),
            off == byte_offset(v@, k as int),
            off <= hi,
            match lo_at {
                Some(x) => x <= k && byte_offset(v@, x as int) == lo,
                None => forall|j: int| 0 <= j < k ==> byte_offset(v@, j) != lo,
            },
        decreases v@.len() - k,
    {
        if off == lo {
            lo_at = Some(k);
        }
        if off == hi {
            proof {
                lemma_boundary_unique(v@, k as int, hi as int);
            }
            return match lo_at {
                Some(x) => {
                    proof {
                        lemma_boundary_unique(v@, x as int, lo as int);
                    }
                    Some(string_of_range(&v, x, k))
                },
                None => {
                    proof {
                        assert forall|j: int| 0 <= j <= v@.len() implies byte_offset(v@, j) != lo by {
                            if j > k {
                                lemma_offset_increases(v@, k as int, j);
                            }
                        }
                    }
                    None
                },
            };
        }
        if k == v.len() {
            proof {
                assert forall|j: int| 0 <= j <= v@.len() implies byte_offset(v@, j) != hi by {
                    if j < k {
                        lemma_offset_increases(v@, j, k as int);
                    }
                }
            }
            return None;
        }
        let w = char_width(v[k]);
        if w > hi - off {
            proof {
                assert forall|j: int| 0 <= j <= v@.len() implies byte_offset(v@, j) != hi by {
                    if j < k {
                        lemma_offset_increases(v@, j, k as int);
                    } else if j > k + 1 {
                        lemma_offset_increases(v@, k + 1, j);
                    }
                }
            }
            return None;
        }
        off = off + w;
        k = k + 1;
    }
}

/// A card's date: bytes 5 to 10 of the timestamp (the month and day of
/// `YYYY-MM-DDTHH:MM:SSZ`), or the whole text when that range is not
/// there, with `-` written as `/`.
pub open spec fn card_date(iso: Seq<char>) -> Seq<char> {
    replace_all(
        match byte_range(iso, 5, 10) {
            Some(part) => part,
            None => iso,
        },
        "-"@,
        "/"@,
    )
}

/// A card's date.
pub fn format_date(iso: &str) -> (r: String)
    ensures
        r@ == card_date(iso@),
{
    proof {
        reveal_strlit("-");
    }
    match str_byte_range(iso, 5, 10) {
        Some(part) => str_replace(part.as_str(), "-", "/"),
        None => str_replace(iso, "-", "/"),
    }
}

} // verus!
