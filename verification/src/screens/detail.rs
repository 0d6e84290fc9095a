//! What the detail screen shows about the open notification.

use vstd::prelude::*;
use crate::api::{Notification, NotificationDetail, NotificationDetailView, NotificationView, pairs_view};
use crate::text::{decimal, decimal_string, opt_view, replace_all, str_equal, str_replace, str_trim_end_char, trim_end_char};

verus! {

broadcast use vstd::string::group_string_axioms;

pub const SUBTEXT: u32 = 0x8B949E;

pub const ACCENT: u32 = 0x58A6FF;

pub const GREEN: u32 = 0x3FB950;

pub const YELLOW: u32 = 0xF0883E;

pub const PURPLE: u32 = 0xBC8CFF;

/// The colour and label of a subject type on the detail screen.
pub open spec fn detail_style(kind: Seq<char>) -> (u32, Seq<char>) {
    if kind == "PullRequest"@ {
        (PURPLE, "Pull request"@)
    } else if kind == "Issue"@ {
        (GREEN, "Issue"@)
    } else if kind == "Release"@ {
        (ACCENT, "Release"@)
    } else if kind == "CheckSuite"@ {
        (YELLOW, "Checks"@)
    } else {
        (SUBTEXT, "Notification"@)
    }
}

/// The colour and label of a subject type on the detail screen.
pub fn type_style(kind: &str) -> (r: (u32, &'static str))
    ensures
        r.0 == detail_style(kind@).0,
        r.1@ == detail_style(kind@).1,
{
    if str_equal(kind, "PullRequest") {
        (PURPLE, "Pull request")
    } else if str_equal(kind, "Issue") {
        (GREEN, "Issue")
    } else if str_equal(kind, "Release") {
        (ACCENT, "Release")
    } else if str_equal(kind, "CheckSuite") {
        (YELLOW, "Checks")
    } else {
        (SUBTEXT, "Notification")
    }
}

/// Why a notification arrived, in words, on the detail screen.
pub open spec fn detail_reason(reason: Seq<char>) -> Seq<char> {
    if reason == "assign"@ {
        "Assigned to you"@
    } else if reason == "author"@ {
        "You authored this"@
    } else if reason == "comment"@ {
        "New comment"@
    } else if reason == "mention"@ {
        "You were mentioned"@
    } else if reason == "review_requested"@ {
        "Review requested"@
    } else if reason == "subscribed"@ {
        "Subscribed"@
    } else if reason == "team_mention"@ {
        "Team mention"@
    } else if reason == "ci_activity"@ {
        "CI activity"@
    } else {
        "Repository activity"@
    }
}

/// Why a notification arrived, in words, on the detail screen.
pub fn reason_label(reason: &str) -> (r: &'static str)
    ensures
        r@ == detail_reason(reason@),
{
    if str_equal(reason, "assign") {
        "Assigned to you"
    } else if str_equal(reason, "author") {
        "You authored this"
    } else if str_equal(reason, "comment") {
        "New comment"
    } else if str_equal(reason, "mention") {
        "You were mentioned"
    } else if str_equal(reason, "review_requested") {
        "Review requested"
    } else if str_equal(reason, "subscribed") {
        "Subscribed"
    } else if str_equal(reason, "team_mention") {
        "Team mention"
    } else if str_equal(reason, "ci_activity") {
        "CI activity"
    } else {
        "Repository activity"
    }
}

/// A timestamp as shown: `T` written as a space and the trailing `Z`s
/// removed.
pub open spec fn timestamp_text(ts: Seq<char>) -> Seq<char> {
    trim_end_char(replace_all(ts, "T"@, " "@), 'Z')
}

/// A timestamp as shown.
pub fn format_timestamp(timestamp: &str) -> (r: String)
    ensures
        r@ == timestamp_text(timestamp@),
{
    proof {
        reveal_strlit("T");
    }
    let replaced = str_replace(timestamp, "T", " ");
    str_trim_end_char(replaced.as_str(), 'Z')
}

pub open spec fn optional_row(label: Seq<char>, value: Option<Seq<char>>) -> Seq<(Seq<char>, Seq<char>)> {
    match value {
        Some(v) => seq![(label, v)],
        None => seq![],
    }
}

/// The facts listed about a notification: why it arrived and when it
/// changed, then what the details add: author, state, comment count,
/// creation time, and the detail's update time when it differs.
pub open spec fn meta_rows_spec(n: NotificationView, d: Option<NotificationDetailView>) -> Seq<(Seq<char>, Seq<char>)> {
    let base = seq![("Reason"@, detail_reason(n.reason)), ("Updated"@, timestamp_text(n.updated_at))];
    match d {
        None => base,
        Some(d) => base + optional_row("Author"@, d.author) + optional_row("State"@, d.state)
            + optional_row(
            "Comments"@,
            match d.comments {
                Some(c) => Some(decimal(c as nat)),
                None => None,
            },
        ) + optional_row(
            "Created"@,
            match d.created_at {
                Some(c) => Some(timestamp_text(c)),
                None => None,
            },
        ) + optional_row(
            "Detail updated"@,
            match d.updated_at {
                Some(u) => if u != n.updated_at {
                    Some(timestamp_text(u))
                } else {
                    None
                },
                None => None,
            },
        ),
    }
}

fn push_row(rows: &mut Vec<(String, String)>, label: &str, value: String)
    ensures
        pairs_view(final(rows)@) == pairs_view(old(rows)@).push((label@, value@)),
{
    rows.push((label.to_owned(), value));
    assert(pairs_view(rows@) =~= pairs_view(old(rows)@).push((label@, value@)));
}

/// The facts listed about a notification.
pub fn meta_rows(notification: &Notification, detail: &Option<NotificationDetail>) -> (r: Vec<(String, String)>)
    ensures
        pairs_view(r@) == meta_rows_spec(notification@, crate::screens::detail_view(*detail)),
{
    let mut rows: Vec<(String, String)> = Vec::new();
    push_row(&mut rows, "Reason", reason_label(notification.reason.as_str()).to_owned());
    push_row(&mut rows, "Updated", format_timestamp(notification.updated_at.as_str()));
    assert(pairs_view(rows@) =~= seq![
        ("Reason"@, detail_reason(notification.reason@)),
        ("Updated"@, timestamp_text(notification.updated_at@)),
    ]);
    let d = match detail {
        Some(d) => d,
        None => {
            return rows;
        },
    };
    let ghost acc0 = pairs_view(rows@);
    match &d.author {
        Some(a) => push_row(&mut rows, "Author", a.clone()),
        None => {},
    }
    let ghost acc1 = pairs_view(rows@);
    assert(acc1 =~= acc0 + optional_row("Author"@, opt_view(d.author)));
    match &d.state {
        Some(st) => push_row(&mut rows, "State", st.clone()),
        None => {},
    }
    let ghost acc2 = pairs_view(rows@);
    assert(acc2 =~= acc1 + optional_row("State"@, opt_view(d.state)));
    match d.comments {
        Some(c) => push_row(&mut rows, "Comments", decimal_string(c)),
        None => {},
    }
    let ghost acc3 = pairs_view(rows@);
    assert(acc3 =~= acc2 + optional_row(
        "Comments"@,
        match d.comments {
            Some(c) => Some(decimal(c as nat)),
            None => None,
        },
    ));
    match &d.created_at {
        Some(c) => push_row(&mut rows, "Created", format_timestamp(c.as_str())),
        None => {},
    }
    let ghost acc4 = pairs_view(rows@);
    assert(acc4 =~= acc3 + optional_row(
        "Created"@,
        match opt_view(d.created_at) {
            Some(c) => Some(timestamp_text(c)),
            None => None,
        },
    ));
    match &d.updated_at {
        Some(u) => {
            if !str_equal(u.as_str(), notification.updated_at.as_str()) {
                push_row(&mut rows, "Detail updated", format_timestamp(u.as_str()));
            }
        },
        None => {},
    }
    assert(pairs_view(rows@) =~= acc4 + optional_row(
        "Detail updated"@,
        match opt_view(d.updated_at) {
            Some(u) => if u != notification.updated_at@ {
                Some(timestamp_text(u))
            } else {
                None
            },
            None => None,
        },
    ));
    rows
}

/// The description box: a notice while loading, the error when the details
/// failed, else the body, or a notice when there is none.
pub open spec fn description_spec(loading: bool, error: Option<Seq<char>>, d: Option<NotificationDetailView>) -> Seq<char> {
    if loading {
        "Loading details…"@
    } else if error is Some {
        error.unwrap()
    } else {
        match d {
            Some(dv) if dv.body is Some => dv.body.unwrap(),
            _ => "No description was provided."@,
        }
    }
}

/// The description box.
pub fn description_text(loading: bool, error: &Option<String>, detail: &Option<NotificationDetail>) -> (r: String)
    ensures
        r@ == description_spec(loading, opt_view(*error), crate::screens::detail_view(*detail)),
{
    if loading {
        return "Loading details…".to_owned();
    }
    match error {
        Some(m) => {
            return m.clone();
        },
        None => {},
    }
    match detail {
        Some(d) => match &d.body {
            Some(b) => b.clone(),
            None => "No description was provided.".to_owned(),
        },
        None => "No description was provided.".to_owned(),
    }
}

/// The rows listed with details: the "Created" row is there exactly when
/// the details say when the subject was created, and it shows that time.
pub proof fn law_created_row_shows_creation(n: NotificationView, d: NotificationDetailView)
    ensures
        forall|k: int|
            0 <= k < meta_rows_spec(n, Some(d)).len() && (#[trigger] meta_rows_spec(n, Some(d))[k]).0
                == "Created"@ ==> (d.created_at matches Some(c) && meta_rows_spec(n, Some(d))[k].1
                == timestamp_text(c)),
        d.created_at matches Some(c) ==> meta_rows_spec(n, Some(d)).contains(
            ("Created"@, timestamp_text(c)),
        ),
{
    reveal_strlit("Reason");
    reveal_strlit("Updated");
    reveal_strlit("Author");
    reveal_strlit("State");
    reveal_strlit("Comments");
    reveal_strlit("Created");
    reveal_strlit("Detail updated");
    let rows = meta_rows_spec(n, Some(d));
    let base = seq![("Reason"@, detail_reason(n.reason)), ("Updated"@, timestamp_text(n.updated_at))];
    let a = optional_row("Author"@, d.author);
    let st = optional_row("State"@, d.state);
    let cm = optional_row(
        "Comments"@,
        match d.comments {
            Some(c) => Some(decimal(c as nat)),
            None => None,
        },
    );
    let cr = optional_row(
        "Created"@,
        match d.created_at {
            Some(c) => Some(timestamp_text(c)),
            None => None,
        },
    );
    let du = optional_row(
        "Detail updated"@,
        match d.updated_at {
            Some(u) => if u != n.updated_at {
                Some(timestamp_text(u))
            } else {
                None
            },
            None => None,
        },
    );
    let pre = base + a + st + cm;
    assert(rows == pre + cr + du);
    assert("Created"@[0] == 'C');
    assert forall|k: int| 0 <= k < pre.len() implies (#[trigger] pre[k]).0 != "Created"@ by {
        if k < 2 {
            assert(pre[k] == base[k]);
            assert(base[k].0[0] != 'C');
        } else if k < 2 + a.len() {
            assert(pre[k] == a[k - 2]);
            assert(a[k - 2].0.len() != 7);
        } else if k < 2 + a.len() + st.len() {
            assert(pre[k] == st[k - 2 - a.len()]);
            assert(st[k - 2 - a.len()].0.len() != 7);
        } else {
            assert(pre[k] == cm[k - 2 - a.len() - st.len()]);
            assert(cm[k - 2 - a.len() - st.len()].0.len() != 7);
        }
    }
    assert forall|k: int|
        0 <= k < rows.len() && (#[trigger] rows[k]).0 == "Created"@ implies (d.created_at matches Some(
            c,
        ) && rows[k].1 == timestamp_text(c)) by {
        if k < pre.len() {
            assert(rows[k] == pre[k]);
        } else if k < pre.len() + cr.len() {
            assert(rows[k] == cr[k - pre.len()]);
        } else {
            assert(rows[k] == du[k - pre.len() - cr.len()]);
            assert(du[k - pre.len() - cr.len()].0.len() != 7);
        }
    }
    if d.created_at is Some {
        assert(rows[pre.len() as int] == cr[0]);
    }
}

} // verus!
