use vstd::prelude::*;
use crate::api;
use crate::api::{ApiRequest, JsonField, JsonValue, Method};
use crate::text;

verus! {

/// Subcommands of `app-dist testers`.
pub enum TesterCommands {
    /// Add a tester to an app.
    Add(AddArgs),
    /// List testers for an app.
    List {
        /// App id or slug.
        app: String,
    },
    /// Send download links to testers.
    Notify(NotifyArgs),
}

/// Arguments of `app-dist testers add`.
pub struct AddArgs {
    pub app: String,
    pub email: String,
}

/// Arguments of `app-dist testers notify`.
pub struct NotifyArgs {
    /// App id or slug.
    pub app: String,
    /// Specific release version (defaults to latest).
    pub release: Option<String>,
    /// Send to all testers.
    pub all_testers: bool,
    /// Specific emails (comma-separated).
    pub emails: Option<String>,
}

/// The addresses of a comma-separated list: each piece between commas, trimmed,
/// with the empty ones left out (`split(',').map(trim).filter(non-empty)`).
pub open spec fn email_list(s: Seq<char>) -> Seq<Seq<char>>
    decreases s.len(),
{
    let e = text::piece_end(s, ',');
    let t = text::trim(s.take(e as int));
    let rest = if e < s.len() {
        email_list(s.skip(e + 1 as int))
    } else {
        Seq::empty()
    };
    if t.len() > 0 {
        seq![t] + rest
    } else {
        rest
    }
}

/// Law: every address of a list is non-empty and holds no comma.
pub proof fn law_email_list_clean(s: Seq<char>)
    ensures
        forall|i: int|
            0 <= i < email_list(s).len() ==> (#[trigger] email_list(s)[i]).len() > 0
                && !email_list(s)[i].contains(','),
    decreases s.len(),
{
    let e = text::piece_end(s, ',');
    text::lemma_piece_end_bound(s, ',');
    let t = text::trim(s.take(e as int));
    let rest = if e < s.len() {
        email_list(s.skip(e + 1 as int))
    } else {
        Seq::empty()
    };
    if e < s.len() {
        law_email_list_clean(s.skip(e + 1 as int));
    }
    assert(!s.take(e as int).contains(',')) by {
        if s.take(e as int).contains(',') {
            let i = choose|i: int| 0 <= i < s.take(e as int).len() && s.take(e as int)[i] == ',';
            text::lemma_piece_end_prefix_free(s, ',', i);
        }
    }
    if t.contains(',') {
        text::lemma_trim_contains(s.take(e as int), ',');
    }
    if t.len() > 0 {
        assert forall|i: int| 0 <= i < email_list(s).len() implies (#[trigger] email_list(s)[i]).len() > 0
            && !email_list(s)[i].contains(',') by {
            if i > 0 {
                assert(email_list(s)[i] == rest[i - 1]);
            }
        }
    }
}

/// Addresses joined by commas, as they are given to `--emails`.
pub open spec fn join_commas(addresses: Seq<Seq<char>>) -> Seq<char>
    decreases addresses.len(),
{
    if addresses.len() == 0 {
        Seq::empty()
    } else if addresses.len() == 1 {
        addresses[0]
    } else {
        addresses[0].push(',') + join_commas(addresses.drop_first())
    }
}

/// An address as a list can carry it: non-empty, free of commas, and neither
/// starting nor ending with whitespace.
pub open spec fn listable_address(a: Seq<char>) -> bool {
    &&& a.len() > 0
    &&& !a.contains(',')
    &&& !text::is_whitespace(a[0])
    &&& !text::is_whitespace(a.last())
}

/// Law: addresses joined by commas split back into the same addresses.
pub proof fn law_email_list_round_trip(addresses: Seq<Seq<char>>)
    requires
        forall|i: int| 0 <= i < addresses.len() ==> listable_address(#[trigger] addresses[i]),
    ensures
        email_list(join_commas(addresses)) == addresses,
    decreases addresses.len(),
{
    let s = join_commas(addresses);
    if addresses.len() == 0 {
        assert(text::trim(Seq::<char>::empty()) == Seq::<char>::empty());
        assert(s.take(0) =~= Seq::<char>::empty());
        assert(email_list(s) =~= addresses);
    } else {
        let a0 = addresses[0];
        assert(listable_address(a0));
        assert(text::trim_start(a0) == a0);
        assert(text::trim_end(a0) == a0);
        let rest = addresses.drop_first();
        if addresses.len() == 1 {
            text::lemma_piece_end_concat(a0, Seq::empty(), ',');
            assert(a0 + Seq::<char>::empty() =~= a0);
            assert(s.take(a0.len() as int) =~= a0);
            assert(email_list(s) =~= seq![a0]);
            assert(addresses =~= seq![a0]);
        } else {
            assert forall|i: int| 0 <= i < rest.len() implies listable_address(#[trigger] rest[i]) by {
                assert(rest[i] == addresses[i + 1]);
            }
            law_email_list_round_trip(rest);
            let tail = join_commas(rest);
            assert(s =~= a0 + (seq![','] + tail));
            text::lemma_piece_end_concat(a0, seq![','] + tail, ',');
            assert((seq![','] + tail)[0] == ',');
            assert(s.take(a0.len() as int) =~= a0);
            assert(s.skip(a0.len() + 1 as int) =~= tail);
            assert(email_list(s) =~= seq![a0] + rest);
            assert(seq![a0] + rest =~= addresses);
        }
    }
}

/// Splits a comma-separated list of addresses (see `email_list`).
pub fn split_email_list(s: &str) -> (r: Vec<String>)
    ensures
        text::string_views(r@) == email_list(s@),
{
    let v = text::chars_vec(s);
    let mut out: Vec<String> = Vec::new();
    let mut a: usize = 0;
    assert(v@.skip(0) =~= v@);
    loop
        invariant
            a <= v@.len(),
            v@ == s@,
            text::string_views(out@) + email_list(v@.skip(a as int)) == email_list(s@),
        decreases v@.len() - a,
    {
        let ghost rest = v@.skip(a as int);
        let b = text::find_piece_end(&v, a, ',');
        proof {
            text::lemma_piece_end_bound(rest, ',');
        }
        assert(rest.take(text::piece_end(rest, ',') as int) =~= v@.subrange(a as int, b as int));
        let lo = text::skip_whitespace_front(&v, a, b);
        let hi = text::skip_whitespace_back(&v, lo, b);
        let ghost t = text::trim(v@.subrange(a as int, b as int));
        assert(v@.subrange(lo as int, hi as int) == t);
        let ghost tail = if b < v@.len() {
            email_list(v@.skip(b + 1))
        } else {
            Seq::<Seq<char>>::empty()
        };
        if b < v.len() {
            assert(rest.skip(text::piece_end(rest, ',') + 1 as int) =~= v@.skip(b + 1));
        }
        assert(email_list(rest) == if t.len() > 0 {
            seq![t] + tail
        } else {
            tail
        });
        let ghost before = out@;
        if lo < hi {
            let e = text::substring(s, lo, hi);
            out.push(e);
            assert(text::string_views(out@) =~= text::string_views(before).push(t));
            assert(text::string_views(out@) + tail =~= text::string_views(before) + (seq![t] + tail));
        }
        if b < v.len() {
            a = b + 1;
        } else {
            assert(tail =~= Seq::<Seq<char>>::empty());
            assert(text::string_views(before) + email_list(rest) == email_list(s@));
            if lo < hi {
                assert(text::string_views(out@) =~= text::string_views(before) + email_list(rest));
            } else {
                assert(text::string_views(out@) =~= text::string_views(before) + email_list(rest));
            }
            return out;
        }
    }
}

/// The members of the body of a `notify` request: `release` (the given release,
/// else `latest`), then, when `--emails` was given, `emails` with its addresses.
pub open spec fn notify_body_ok(body: Seq<JsonField>, args: NotifyArgs) -> bool {
    &&& body.len() == if args.emails is Some { 2int } else { 1int }
    &&& api::is_str_field(
        body[0],
        "release"@,
        match args.release {
            Some(r) => r@,
            None => "latest"@,
        },
    )
    &&& args.emails matches Some(e) ==> api::is_list_field(body[1], "emails"@, email_list(e@))
}

/// The request that a subcommand of `app-dist testers` makes: `add` posts the
/// address to `/api/v1/apps/<app>/testers`, `list` gets that path, and `notify`
/// posts to `/api/v1/apps/<app>/grants/batch`. Without `--emails`, `notify`
/// sends to every tester of the app (`--all-testers` says so explicitly).
pub fn tester_request(api_url: &str, cmd: &TesterCommands) -> (r: ApiRequest)
    ensures
        match cmd {
            TesterCommands::Add(args) => {
                &&& r.method is Post
                &&& r.url@ == api_url@ + "/api/v1/apps/"@ + args.app@ + "/testers"@
                &&& r.body is Some
                &&& api::str_fields_are(r.body->0@, seq![("email"@, args.email@)])
            },
            TesterCommands::List { app } => {
                &&& r.method is Get
                &&& r.url@ == api_url@ + "/api/v1/apps/"@ + app@ + "/testers"@
                &&& r.body is None
            },
            TesterCommands::Notify(args) => {
                &&& r.method is Post
                &&& r.url@ == api_url@ + "/api/v1/apps/"@ + args.app@ + "/grants/batch"@
                &&& r.body is Some
                &&& notify_body_ok(r.body->0@, *args)
            },
        },
{
    match cmd {
        TesterCommands::Add(args) => {
            let mut body: Vec<JsonField> = Vec::new();
            body.push(api::str_field("email", args.email.as_str()));
            assert(api::str_fields_are(body@, seq![("email"@, args.email@)]));
            ApiRequest {
                method: Method::Post,
                url: api::endpoint_with_id(api_url, "/api/v1/apps/", args.app.as_str(), "/testers"),
                body: Some(body),
            }
        },
        TesterCommands::List { app } => ApiRequest {
            method: Method::Get,
            url: api::endpoint_with_id(api_url, "/api/v1/apps/", app.as_str(), "/testers"),
            body: None,
        },
        TesterCommands::Notify(args) => {
            let release = match &args.release {
                Some(r) => r.clone(),
                None => "latest".to_owned(),
            };
            let mut body: Vec<JsonField> = Vec::new();
            body.push(api::str_field("release", release.as_str()));
            match &args.emails {
                Some(e) => {
                    let list = split_email_list(e.as_str());
                    body.push(JsonField { key: "emails".to_owned(), value: JsonValue::StrList(list) });
                },
                None => {},
            }
            ApiRequest {
                method: Method::Post,
                url: api::endpoint_with_id(api_url, "/api/v1/apps/", args.app.as_str(), "/grants/batch"),
                body: Some(body),
            }
        },
    }
}

/// One row of `app-dist testers list`: the address (`?` when missing) padded to
/// 40 characters, the grant count (0 when missing) padded to 15, and the date
/// the tester was added (`?` when missing), separated by spaces.
pub open spec fn tester_row_text(email: Option<String>, grants: Option<u64>, added: Option<String>) -> Seq<char> {
    let e = match email {
        Some(x) => x@,
        None => "?"@,
    };
    let g = match grants {
        Some(n) => n as nat,
        None => 0,
    };
    let a = match added {
        Some(x) => x@,
        None => "?"@,
    };
    text::pad_right(e, 40) + " "@ + text::pad_right(text::decimal(g), 15) + " "@
        + crate::app::truncated_date(a)
}

/// Formats one row of `app-dist testers list` from what the platform returned.
pub fn tester_row(email: &Option<String>, grants: Option<u64>, added: &Option<String>) -> (r: String)
    ensures
        r@ == tester_row_text(*email, grants, *added),
{
    let mut r = String::new();
    match email {
        Some(x) => text::push_padded(&mut r, x.as_str(), 40),
        None => text::push_padded(&mut r, "?", 40),
    }
    r.append(" ");
    let g = match grants {
        Some(n) => n,
        None => 0,
    };
    let gs = text::decimal_string(g);
    text::push_padded(&mut r, gs.as_str(), 15);
    r.append(" ");
    let d = match added {
        Some(x) => crate::app::truncate_date(x.as_str()),
        None => crate::app::truncate_date("?"),
    };
    r.append(d.as_str());
    r
}

/// Law: a `notify` request asks for the release that was given, exactly; `latest`
/// is asked for only when no release was given. Without `--emails` the body holds
/// nothing else (every tester is notified); with it, the addresses of the list follow.
pub proof fn law_notify_sends_the_given_release(body: Seq<JsonField>, args: NotifyArgs)
    requires
        notify_body_ok(body, args),
    ensures
        body.len() >= 1,
        body[0].key@ == "release"@,
        args.release matches Some(r) ==> api::is_str_field(body[0], "release"@, r@),
        args.release is None ==> api::is_str_field(body[0], "release"@, "latest"@),
        forall|r: String|
            args.release == Some(r) && api::is_str_field(body[0], "release"@, "latest"@) ==> r@ == "latest"@,
        args.emails is None ==> body.len() == 1,
        args.emails matches Some(e) ==> body.len() == 2 && api::is_list_field(body[1], "emails"@, email_list(e@)),
{
}

} // verus!
