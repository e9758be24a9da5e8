use vstd::prelude::*;
use crate::api;
use crate::api::{ApiRequest, JsonField, Method};
use crate::text;

verus! {

/// An app id as the app listing shows it: ids longer than 36 bytes are cut to
/// their first 35 bytes and end with an ellipsis.
pub open spec fn truncated_id(id: Seq<char>) -> Seq<char> {
    if text::byte_len(id) > 36 {
        text::shortened(id, 35)
    } else {
        id
    }
}

/// A timestamp as listings show it: its first 10 bytes (the date of an ISO-8601
/// timestamp) when byte 10 is a character boundary, else the whole string.
pub open spec fn truncated_date(date: Seq<char>) -> Seq<char> {
    match text::byte_prefix(date, 10) {
        Some(p) => p,
        None => date,
    }
}

/// Law: a shortened id fits the 36-character column of the listing, and
/// shortening it again changes nothing.
pub proof fn law_truncated_id_fits_and_is_stable(id: Seq<char>)
    requires
        text::byte_len(id) > 36 ==> text::byte_prefix(id, 35) is Some,
    ensures
        truncated_id(id).len() <= 36,
        text::byte_len(truncated_id(id)) > 36 ==> text::byte_prefix(truncated_id(id), 35) is Some,
        truncated_id(truncated_id(id)) == truncated_id(id),
{
    if text::byte_len(id) > 36 {
        text::lemma_shortened(id, 35);
    } else {
        text::lemma_chars_le_bytes(id);
    }
}

/// Law: keeping the date part of a timestamp twice is the same as once.
pub proof fn law_truncated_date_is_stable(date: Seq<char>)
    ensures
        truncated_date(truncated_date(date)) == truncated_date(date),
{
    if text::byte_prefix(date, 10) is Some {
        let p = text::byte_prefix(date, 10)->0;
        text::lemma_byte_prefix_some(date, 10);
        assert(p + Seq::<char>::empty() =~= p);
        text::lemma_byte_prefix_of_concat(p, Seq::<char>::empty());
    }
}

/// Shortens an app id for the listing table.
pub fn truncate_id(id: &str) -> (r: String)
    requires
        text::byte_len(id@) > 36 ==> text::byte_prefix(id@, 35) is Some,
    ensures
        r@ == truncated_id(id@),
{
    let v = text::chars_vec(id);
    if text::byte_len_exceeds(&v, 36) {
        text::shorten_with_ellipsis(id, 35)
    } else {
        id.to_owned()
    }
}

/// Keeps the date part of a timestamp.
pub fn truncate_date(date: &str) -> (r: String)
    ensures
        r@ == truncated_date(date@),
{
    let v = text::chars_vec(date);
    match text::byte_prefix_len(&v, 10) {
        Some(k) => text::substring(date, 0, k),
        None => date.to_owned(),
    }
}

/// Subcommands of `app-dist app`.
pub enum AppCommands {
    /// Create a new app.
    Create(CreateArgs),
    /// List all your apps.
    List,
    /// Show app details.
    Info {
        /// App id or slug.
        app: String,
    },
}

/// Arguments of `app-dist app create`.
pub struct CreateArgs {
    pub name: String,
    pub bundle_id: Option<String>,
    pub homepage_url: Option<String>,
    pub support_email: Option<String>,
}

/// `(key, value)` when the value was given, else nothing.
pub open spec fn given_member(key: Seq<char>, value: Option<String>) -> Seq<(Seq<char>, Seq<char>)> {
    match value {
        Some(v) => seq![(key, v@)],
        None => Seq::empty(),
    }
}

/// The members of the body that creates an app, in order: `display_name`, then
/// each of `bundle_id`, `homepage_url` and `support_email` that was given.
pub open spec fn create_members(args: CreateArgs) -> Seq<(Seq<char>, Seq<char>)> {
    seq![("display_name"@, args.name@)] + given_member("bundle_id"@, args.bundle_id)
        + given_member("homepage_url"@, args.homepage_url) + given_member(
        "support_email"@,
        args.support_email,
    )
}

/// Appends the member `key` when its value was given.
fn push_given(body: &mut Vec<JsonField>, key: &str, value: &Option<String>)
    ensures
        final(body)@.len() == old(body)@.len() + given_member(key@, *value).len(),
        forall|i: int| 0 <= i < old(body)@.len() ==> final(body)@[i] == old(body)@[i],
        forall|i: int|
            0 <= i < given_member(key@, *value).len() ==> api::is_str_field(
                #[trigger] final(body)@[old(body)@.len() + i],
                given_member(key@, *value)[i].0,
                given_member(key@, *value)[i].1,
            ),
{
    match value {
        Some(v) => body.push(api::str_field(key, v.as_str())),
        None => {},
    }
}

/// The request that a subcommand of `app-dist app` makes: `create` posts the new
/// app to `/api/v1/apps`, `list` gets `/api/v1/apps`, `info` gets `/api/v1/apps/<app>`.
pub fn app_request(api_url: &str, cmd: &AppCommands) -> (r: ApiRequest)
    ensures
        match cmd {
            AppCommands::Create(args) => {
                &&& r.method is Post
                &&& r.url@ == api_url@ + "/api/v1/apps"@
                &&& r.body is Some
                &&& api::str_fields_are(r.body->0@, create_members(*args))
            },
            AppCommands::List => {
                &&& r.method is Get
                &&& r.url@ == api_url@ + "/api/v1/apps"@
                &&& r.body is None
            },
            AppCommands::Info { app } => {
                &&& r.method is Get
                &&& r.url@ == api_url@ + "/api/v1/apps/"@ + app@
                &&& r.body is None
            },
        },
{
    match cmd {
        AppCommands::Create(args) => {
            let mut body: Vec<JsonField> = Vec::new();
            body.push(api::str_field("display_name", args.name.as_str()));
            let ghost b0 = body@;
            push_given(&mut body, "bundle_id", &args.bundle_id);
            let ghost b1 = body@;
            push_given(&mut body, "homepage_url", &args.homepage_url);
            let ghost b2 = body@;
            push_given(&mut body, "support_email", &args.support_email);
            let ghost m = create_members(*args);
            let ghost g1 = given_member("bundle_id"@, args.bundle_id);
            let ghost g2 = given_member("homepage_url"@, args.homepage_url);
            let ghost g3 = given_member("support_email"@, args.support_email);
            assert(api::str_fields_are(body@, m)) by {
                assert forall|i: int| 0 <= i < m.len() implies api::is_str_field(
                    #[trigger] body@[i],
                    m[i].0,
                    m[i].1,
                ) by {
                    if i >= 1 + g1.len() + g2.len() {
                        let j = i - 1 - g1.len() - g2.len();
                        assert(m[i] == g3[j]);
                        assert(body@[b2.len() + j] == body@[i]);
                    } else if i >= 1 + g1.len() {
                        let j = i - 1 - g1.len();
                        assert(m[i] == g2[j]);
                        assert(b2[b1.len() + j] == b2[i]);
                        assert(body@[i] == b2[i]);
                    } else if i >= 1 {
                        let j = i - 1;
                        assert(m[i] == g1[j]);
                        assert(b1[b0.len() + j] == b1[i]);
                        assert(body@[i] == b2[i]);
                        assert(b2[i] == b1[i]);
                    } else {
                        assert(body@[0] == b2[0]);
                        assert(b2[0] == b1[0]);
                        assert(b1[0] == b0[0]);
                    }
                }
            }
            ApiRequest {
                method: Method::Post,
                url: api::endpoint(api_url, "/api/v1/apps"),
                body: Some(body),
            }
        },
        AppCommands::List => ApiRequest {
            method: Method::Get,
            url: api::endpoint(api_url, "/api/v1/apps"),
            body: None,
        },
        AppCommands::Info { app } => {
            proof {
                reveal_strlit("");
            }
            ApiRequest {
                method: Method::Get,
                url: api::endpoint_with_id(api_url, "/api/v1/apps/", app.as_str(), ""),
                body: None,
            }
        },
    }
}

/// One row of the app listing: the id cut to 36 bytes, the slug and the plan
/// padded to 36, 20 and 10 characters, and the creation date, separated by spaces.
pub open spec fn app_list_row_text(id: Seq<char>, slug: Seq<char>, plan: Seq<char>, created_at: Seq<char>) -> Seq<char> {
    text::pad_right(truncated_id(id), 36) + " "@ + text::pad_right(slug, 20) + " "@
        + text::pad_right(plan, 10) + " "@ + truncated_date(created_at)
}

/// Formats one row of `app-dist app list`.
pub fn app_list_row(id: &str, slug: &str, plan: &str, created_at: &str) -> (r: String)
    requires
        text::byte_len(id@) > 36 ==> text::byte_prefix(id@, 35) is Some,
    ensures
        r@ == app_list_row_text(id@, slug@, plan@, created_at@),
{
    let mut r = String::new();
    let tid = truncate_id(id);
    text::push_padded(&mut r, tid.as_str(), 36);
    r.append(" ");
    text::push_padded(&mut r, slug, 20);
    r.append(" ");
    text::push_padded(&mut r, plan, 10);
    r.append(" ");
    let d = truncate_date(created_at);
    r.append(d.as_str());
    r
}

/// How `app-dist app info` shows the Sparkle flag: `enabled` for 1, else `disabled`.
pub fn sparkle_label(sparkle_enabled: u8) -> (r: &'static str)
    ensures
        r@ == if sparkle_enabled == 1 {
            "enabled"@
        } else {
            "disabled"@
        },
{
    if sparkle_enabled == 1 {
        "enabled"
    } else {
        "disabled"
    }
}

/// Law: the body that creates an app names it with `display_name` first, and holds
/// each option that was given under its own key with its value: `bundle_id`,
/// `homepage_url` and `support_email`; it has one member more than the options given.
pub proof fn law_create_body_members(body: Seq<JsonField>, args: CreateArgs)
    requires
        api::str_fields_are(body, create_members(args)),
    ensures
        body.len() == 1 + (if args.bundle_id is Some { 1int } else { 0int }) + (if args.homepage_url is Some {
            1int
        } else {
            0int
        }) + (if args.support_email is Some { 1int } else { 0int }),
        api::is_str_field(body[0], "display_name"@, args.name@),
        args.bundle_id matches Some(b) ==> api::is_str_field(body[1], "bundle_id"@, b@),
        args.homepage_url matches Some(h) ==> exists|i: int|
            0 < i < body.len() && api::is_str_field(#[trigger] body[i], "homepage_url"@, h@),
        args.support_email matches Some(e) ==> api::is_str_field(body[body.len() - 1], "support_email"@, e@),
{
    let m = create_members(args);
    let g1 = given_member("bundle_id"@, args.bundle_id);
    let g2 = given_member("homepage_url"@, args.homepage_url);
    let g3 = given_member("support_email"@, args.support_email);
    assert(m == seq![("display_name"@, args.name@)] + g1 + g2 + g3);
    assert(api::is_str_field(body[0], m[0].0, m[0].1));
    if args.bundle_id is Some {
        assert(m[1] == g1[0]);
        assert(api::is_str_field(body[1], m[1].0, m[1].1));
    }
    if args.homepage_url is Some {
        let i: int = (1 + g1.len()) as int;
        assert(m[i] == g2[0]);
        assert(api::is_str_field(body[i], m[i].0, m[i].1));
    }
    if args.support_email is Some {
        let i: int = m.len() - 1;
        assert(m[i] == g3[0]);
        assert(api::is_str_field(body[i], m[i].0, m[i].1));
    }
}

} // verus!
