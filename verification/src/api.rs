use vstd::prelude::*;

verus! {

/// HTTP method of a request to the platform.
pub enum Method {
    Get,
    Post,
    Put,
}

/// A JSON value in a request body.
pub enum JsonValue {
    Str(String),
    Num(u64),
    StrList(Vec<String>),
}

/// One member of a JSON object in a request body.
pub struct JsonField {
    pub key: String,
    pub value: JsonValue,
}

/// A request to the platform's API: method, full URL and, for requests that
/// carry one, the members of the JSON object sent as body.
pub struct ApiRequest {
    pub method: Method,
    pub url: String,
    pub body: Option<Vec<JsonField>>,
}

/// Whether `f` is the member `key` with the string value `value`.
pub open spec fn is_str_field(f: JsonField, key: Seq<char>, value: Seq<char>) -> bool {
    &&& f.key@ == key
    &&& f.value matches JsonValue::Str(v) && v@ == value
}

/// Whether `f` is the member `key` with the number `value`.
pub open spec fn is_num_field(f: JsonField, key: Seq<char>, value: nat) -> bool {
    &&& f.key@ == key
    &&& f.value matches JsonValue::Num(n) && n == value
}

/// Whether `f` is the member `key` with the list of strings `values`.
pub open spec fn is_list_field(f: JsonField, key: Seq<char>, values: Seq<Seq<char>>) -> bool {
    &&& f.key@ == key
    &&& f.value matches JsonValue::StrList(l) && l@.map_values(|x: String| x@) == values
}

/// `body` holds exactly the string members `members`, in order.
pub open spec fn str_fields_are(body: Seq<JsonField>, members: Seq<(Seq<char>, Seq<char>)>) -> bool {
    &&& body.len() == members.len()
    &&& forall|i: int|
        0 <= i < members.len() ==> is_str_field(#[trigger] body[i], members[i].0, members[i].1)
}

/// The string member `key` with value `value`.
pub fn str_field(key: &str, value: &str) -> (f: JsonField)
    ensures
        is_str_field(f, key@, value@),
{
    JsonField { key: key.to_owned(), value: JsonValue::Str(value.to_owned()) }
}

/// The URL of `path` on the platform at `api_url`: `<api_url><path>`.
pub fn endpoint(api_url: &str, path: &str) -> (r: String)
    ensures
        r@ == api_url@ + path@,
{
    let mut r = api_url.to_owned();
    r.append(path);
    r
}

/// The URL of `path`, then `id`, then `rest` on the platform at `api_url`.
pub fn endpoint_with_id(api_url: &str, path: &str, id: &str, rest: &str) -> (r: String)
    ensures
        r@ == api_url@ + path@ + id@ + rest@,
{
    let mut r = api_url.to_owned();
    r.append(path);
    r.append(id);
    r.append(rest);
    r
}

/// The value of the `Authorization` header for `api_key`: `Bearer <api_key>`.
pub fn bearer(api_key: &str) -> (r: String)
    ensures
        r@ == "Bearer "@ + api_key@,
{
    let mut r = "Bearer ".to_owned();
    r.append(api_key);
    r
}

/// The platform the CLI talks to unless `--api-url` or `APP_DIST_API_URL` says otherwise.
pub open spec fn default_api_url() -> Seq<char> {
    "https://api.app-dist.com"@
}

/// The base URL of the API: the given one (from `--api-url`, else from
/// `APP_DIST_API_URL`), else the default platform.
pub fn api_base_url(given: &Option<String>) -> (r: String)
    ensures
        r@ == match given {
            Some(u) => u@,
            None => default_api_url(),
        },
{
    match given {
        Some(u) => u.clone(),
        None => "https://api.app-dist.com".to_owned(),
    }
}

} // verus!
