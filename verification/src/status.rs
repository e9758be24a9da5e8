use vstd::prelude::*;
use crate::api;
use crate::api::{ApiRequest, Method};
use crate::text;

verus! {

/// `s` when it is at most `max` bytes long, else its first `max - 1` bytes
/// followed by an ellipsis.
pub open spec fn truncated(s: Seq<char>, max: nat) -> Seq<char> {
    if text::byte_len(s) > max {
        text::shortened(s, (max - 1) as nat)
    } else {
        s
    }
}

/// Whether `truncate(s, max)` has a result: cutting needs `max >= 1` and a
/// character boundary at byte `max - 1`.
pub open spec fn truncatable(s: Seq<char>, max: nat) -> bool {
    text::byte_len(s) > max ==> max >= 1 && text::byte_prefix(s, (max - 1) as nat) is Some
}

/// Law: a truncated string has at most `max` characters (it fits its dashboard
/// column), and truncating it again changes nothing.
pub proof fn law_truncated_fits_and_is_stable(s: Seq<char>, max: nat)
    requires
        truncatable(s, max),
    ensures
        truncated(s, max).len() <= max,
        truncatable(truncated(s, max), max),
        truncated(truncated(s, max), max) == truncated(s, max),
{
    if text::byte_len(s) > max {
        text::lemma_shortened(s, (max - 1) as nat);
    } else {
        text::lemma_chars_le_bytes(s);
    }
}

/// Shortens `s` to fit a dashboard column of `max` bytes.
pub fn truncate(s: String, max: usize) -> (r: String)
    requires
        truncatable(s@, max as nat),
    ensures
        r@ == truncated(s@, max as nat),
{
    let v = text::chars_vec(s.as_str());
    if text::byte_len_exceeds(&v, max) {
        text::shorten_with_ellipsis(s.as_str(), max - 1)
    } else {
        s
    }
}

/// One app row of the dashboard: two spaces, the name cut to 20 bytes and padded
/// to 20 characters, the slug cut to 12 and padded to 12, the plan padded to 8,
/// and the first 10 bytes of the creation time, separated by spaces.
pub open spec fn dashboard_row_text(name: Seq<char>, slug: Seq<char>, plan: Seq<char>, created_at: Seq<char>) -> Seq<char> {
    "  "@ + text::pad_right(truncated(name, 20), 20) + " "@ + text::pad_right(truncated(slug, 12), 12)
        + " "@ + text::pad_right(plan, 8) + " "@ + text::byte_prefix(created_at, 10)->0
}

/// Formats one app row of `app-dist status`.
pub fn dashboard_row(name: &str, slug: &str, plan: &str, created_at: &str) -> (r: String)
    requires
        truncatable(name@, 20),
        truncatable(slug@, 12),
        text::byte_prefix(created_at@, 10) is Some,
    ensures
        r@ == dashboard_row_text(name@, slug@, plan@, created_at@),
{
    let mut r = "  ".to_owned();
    let n = truncate(name.to_owned(), 20);
    text::push_padded(&mut r, n.as_str(), 20);
    r.append(" ");
    let sl = truncate(slug.to_owned(), 12);
    text::push_padded(&mut r, sl.as_str(), 12);
    r.append(" ");
    text::push_padded(&mut r, plan, 8);
    r.append(" ");
    let v = text::chars_vec(created_at);
    match text::byte_prefix_len(&v, 10) {
        Some(k) => {
            let d = text::substring(created_at, 0, k);
            r.append(d.as_str());
        },
        None => {
            proof {
                assert(false);
            }
        },
    }
    r
}

/// The latest release of an app: `GET <api_url>/api/v1/apps/<app_id>/releases?limit=1`.
pub fn latest_release_request(api_url: &str, app_id: &str) -> (r: ApiRequest)
    ensures
        r.method is Get,
        r.url@ == api_url@ + "/api/v1/apps/"@ + app_id@ + "/releases?limit=1"@,
        r.body is None,
{
    ApiRequest {
        method: Method::Get,
        url: api::endpoint_with_id(api_url, "/api/v1/apps/", app_id, "/releases?limit=1"),
        body: None,
    }
}

/// Whether the dashboard ends with the tip about the limits of the free plan:
/// exactly when the plan is `free`.
pub fn shows_free_plan_tip(plan: &str) -> (b: bool)
    ensures
        b == (plan@ == "free"@),
{
    text::str_eq(plan, "free")
}

/// What the dashboard shows in place of the app table when the account has no
/// apps: the note, then how to create one. It has nothing to add when there are apps.
pub fn no_apps_note(app_count: usize) -> (r: Option<(String, String)>)
    ensures
        r is Some <==> app_count == 0,
        r matches Some((note, hint)) ==> note@ == "No apps yet."@
            && hint@ == "Create one: app-dist app create --name \"My App\""@,
{
    if app_count == 0 {
        Some(("No apps yet.".to_owned(), "Create one: app-dist app create --name \"My App\"".to_owned()))
    } else {
        None
    }
}

/// What the dashboard shows under "Recent Releases" when none of the apps has a
/// release to list; nothing when at least one was listed.
pub fn no_releases_note(releases_listed: usize) -> (r: Option<String>)
    ensures
        r is Some <==> releases_listed == 0,
        r matches Some(note) ==> note@ == "No releases yet."@,
{
    if releases_listed == 0 {
        Some("No releases yet.".to_owned())
    } else {
        None
    }
}

/// Law: the columns of a dashboard row stand at fixed places: after two spaces,
/// characters 2 to 22 hold the name cut to 20 bytes and padded, and characters 23
/// to 35 hold the slug cut to 12 bytes (a longer slug shows as its first 11 bytes
/// and an ellipsis) and padded to 12; neither cut value is wider than its column.
pub proof fn law_dashboard_columns(name: Seq<char>, slug: Seq<char>, plan: Seq<char>, created_at: Seq<char>)
    requires
        truncatable(name, 20),
        truncatable(slug, 12),
        text::byte_prefix(created_at, 10) is Some,
    ensures
        truncated(name, 20).len() <= 20,
        truncated(slug, 12).len() <= 12,
        dashboard_row_text(name, slug, plan, created_at).subrange(2, 22) == text::pad_right(truncated(name, 20), 20),
        dashboard_row_text(name, slug, plan, created_at).subrange(23, 35) == text::pad_right(truncated(slug, 12), 12),
        text::byte_len(slug) > 12 ==> truncated(slug, 12) == text::shortened(slug, 11),
        text::byte_len(slug) <= 12 ==> truncated(slug, 12) == slug,
        plan.len() <= 8 ==> dashboard_row_text(name, slug, plan, created_at).subrange(36, 44)
            == text::pad_right(plan, 8),
        dashboard_row_text(name, slug, plan, created_at) == dashboard_row_text(name, slug, plan, created_at).take(
            dashboard_row_text(name, slug, plan, created_at).len() - text::byte_prefix(created_at, 10)->0.len(),
        ) + text::byte_prefix(created_at, 10)->0,
{
    law_truncated_fits_and_is_stable(name, 20);
    law_truncated_fits_and_is_stable(slug, 12);
    reveal_strlit("  ");
    reveal_strlit(" ");
    let n = text::pad_right(truncated(name, 20), 20);
    let s = text::pad_right(truncated(slug, 12), 12);
    assert(n.len() == 20);
    assert(s.len() == 12);
    let row = dashboard_row_text(name, slug, plan, created_at);
    let rest = " "@ + text::pad_right(plan, 8) + " "@ + text::byte_prefix(created_at, 10)->0;
    assert(row =~= "  "@ + n + " "@ + s + rest);
    assert(row.subrange(2, 22) =~= n);
    assert(row.subrange(23, 35) =~= s);
    let p = text::pad_right(plan, 8);
    let d = text::byte_prefix(created_at, 10)->0;
    assert(row =~= "  "@ + n + " "@ + s + " "@ + p + " "@ + d);
    if plan.len() <= 8 {
        assert(p.len() == 8);
        assert(row.subrange(36, 44) =~= p);
    }
    assert(row =~= row.take(row.len() - d.len()) + d);
}

} // verus!
