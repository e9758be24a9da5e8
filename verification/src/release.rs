use vstd::prelude::*;
use crate::api;
use crate::api::{ApiRequest, JsonField, JsonValue, Method};
use crate::text;

verus! {

/// The key that introduces `field` in `app-dist.yml`: the field name and a colon.
pub open spec fn yaml_key(field: Seq<char>) -> Seq<char> {
    field.push(':')
}

/// What one line of `app-dist.yml` gives for `key`: when the trimmed line starts
/// with the key, the rest of it with every leading copy of the key removed,
/// trimmed, then stripped of its leading and then its trailing double quotes.
pub open spec fn yaml_line_value(line: Seq<char>, key: Seq<char>) -> Option<Seq<char>> {
    let t = text::trim(line);
    if key.is_prefix_of(t) {
        Some(
            text::strip_trailing(
                text::strip_leading(text::trim(text::strip_prefixes(t, key)), '"'),
                '"',
            ),
        )
    } else {
        None
    }
}

/// The value that the first line of `yaml` carrying `key` gives, if any line does.
/// Lines are the pieces between line feeds; a carriage return before a line feed
/// is whitespace that trimming removes, and an empty last piece never carries a
/// key, so these are the lines of `str::lines` as far as the result goes.
pub open spec fn yaml_field_value(yaml: Seq<char>, key: Seq<char>) -> Option<Seq<char>>
    decreases yaml.len(),
{
    let e = text::piece_end(yaml, '\n');
    match yaml_line_value(yaml.take(e as int), key) {
        Some(v) => Some(v),
        None => if e < yaml.len() {
            yaml_field_value(yaml.skip(e + 1 as int), key)
        } else {
            None
        },
    }
}

/// Law: the first line that carries the key decides; later lines cannot
/// override it, and a line without the key passes the search on to the rest.
pub proof fn law_yaml_first_line_wins(line: Seq<char>, rest: Seq<char>, key: Seq<char>)
    requires
        !line.contains('\n'),
    ensures
        yaml_field_value(line.push('\n') + rest, key) == match yaml_line_value(line, key) {
            Some(v) => Some(v),
            None => yaml_field_value(rest, key),
        },
{
    let s = line.push('\n') + rest;
    assert(s =~= line + (seq!['\n'] + rest));
    text::lemma_piece_end_concat(line, seq!['\n'] + rest, '\n');
    assert((seq!['\n'] + rest)[0] == '\n');
    assert(s.take(line.len() as int) =~= line);
    assert(s.skip(line.len() + 1 as int) =~= rest);
}

/// Law: a line `<field>: <value>` written into `app-dist.yml` reads back as
/// `<value>`, when the field starts with no whitespace, neither holds a line
/// feed, and the value neither starts nor ends with whitespace or a double quote.
pub proof fn law_yaml_field_round_trip(field: Seq<char>, value: Seq<char>)
    requires
        field.len() > 0 ==> !text::is_whitespace(field[0]),
        !field.contains('\n'),
        !value.contains('\n'),
        value.len() > 0 ==> !text::is_whitespace(value[0]) && !text::is_whitespace(value.last())
            && value[0] != '"' && value.last() != '"',
    ensures
        yaml_field_value(field + seq![':', ' '] + value, yaml_key(field)) == Some(value),
{
    let key = yaml_key(field);
    let line = field + seq![':', ' '] + value;
    assert(line =~= key + (seq![' '] + value));
    assert(!line.contains('\n')) by {
        if line.contains('\n') {
            let i = choose|i: int| 0 <= i < line.len() && line[i] == '\n';
            if i < field.len() {
                assert(field[i] == '\n');
            } else if i >= field.len() + 2 {
                assert(value[i - field.len() - 2] == '\n');
            }
        }
    }
    text::lemma_piece_end_concat(line, Seq::empty(), '\n');
    assert(line + Seq::<char>::empty() =~= line);
    assert(line.take(line.len() as int) =~= line);
    assert(text::trim_start(line) == line);
    let tail = seq![' '] + value;
    assert(tail.drop_first() =~= value);
    assert(!text::is_whitespace(key[0])) by {
        if field.len() > 0 {
            assert(key[0] == field[0]);
        } else {
            assert(key[0] == ':');
        }
    }
    assert(!key.is_prefix_of(tail)) by {
        if key.is_prefix_of(tail) {
            assert(key[0] == tail[0]);
        }
    }
    assert(text::trim_start(value) == value);
    assert(text::trim_end(value) == value);
    assert(text::strip_leading(value, '"') == value);
    assert(text::strip_trailing(value, '"') == value);
    if value.len() > 0 {
        assert(line.last() == value.last());
        assert(text::trim_end(line) == line);
        assert(line.skip(key.len() as int) =~= tail);
        assert(text::strip_prefixes(tail, key) == tail);
        assert(text::trim_start(tail) == text::trim_start(value));
        assert(text::trim(tail) == value);
    } else {
        assert(line.drop_last() =~= key);
        assert(text::trim_end(key) == key);
        assert(text::trim_end(line) == key);
        assert(key.skip(key.len() as int) =~= Seq::<char>::empty());
        assert(text::strip_prefixes(Seq::<char>::empty(), key) == Seq::<char>::empty());
        assert(key.is_prefix_of(key));
        assert(text::strip_prefixes(key, key) == Seq::<char>::empty());
        assert(value =~= Seq::<char>::empty());
    }
}

/// The value of `field` in the text of an `app-dist.yml` file: the first line whose
/// trimmed text starts with `field:` gives it (see `yaml_field_value`).
pub fn parse_yaml_field(yaml: &str, field: &str) -> (r: Option<String>)
    ensures
        match r {
            Some(x) => yaml_field_value(yaml@, yaml_key(field@)) == Some(x@),
            None => yaml_field_value(yaml@, yaml_key(field@)) is None,
        },
{
    let v = text::chars_vec(yaml);
    let mut key = text::chars_vec(field);
    key.push(':');
    let ghost k = yaml_key(field@);
    assert(key@ == k);
    let mut a: usize = 0;
    assert(v@.skip(0) =~= v@);
    loop
        invariant
            a <= v@.len(),
            v@ == yaml@,
            key@ == k,
            k == yaml_key(field@),
            key@.len() > 0,
            yaml_field_value(v@.skip(a as int), k) == yaml_field_value(yaml@, k),
        decreases v@.len() - a,
    {
        let b = text::find_piece_end(&v, a, '\n');
        let ghost rest = v@.skip(a as int);
        proof {
            text::lemma_piece_end_bound(rest, '\n');
        }
        assert(rest.take(text::piece_end(rest, '\n') as int) =~= v@.subrange(a as int, b as int));
        let ghost line = v@.subrange(a as int, b as int);
        let lo = text::skip_whitespace_front(&v, a, b);
        let hi = text::skip_whitespace_back(&v, lo, b);
        assert(v@.subrange(lo as int, hi as int) == text::trim(line));
        assert(yaml_field_value(rest, k) == match yaml_line_value(line, k) {
            Some(x) => Some(x),
            None => if text::piece_end(rest, '\n') < rest.len() {
                yaml_field_value(rest.skip(text::piece_end(rest, '\n') + 1 as int), k)
            } else {
                None
            },
        });
        if text::window_starts_with(&v, lo, hi, &key) {
            let p = text::skip_prefixes(&v, lo, hi, &key);
            let lo2 = text::skip_whitespace_front(&v, p, hi);
            let hi2 = text::skip_whitespace_back(&v, lo2, hi);
            let lo3 = text::skip_char_front(&v, lo2, hi2, '"');
            let hi3 = text::skip_char_back(&v, lo3, hi2, '"');
            assert(v@.subrange(lo3 as int, hi3 as int) == yaml_line_value(line, k)->0);
            return Some(text::substring(yaml, lo3, hi3));
        }
        if b < v.len() {
            assert(rest.skip(text::piece_end(rest, '\n') + 1 as int) =~= v@.skip(b + 1));
            a = b + 1;
        } else {
            return None;
        }
    }
}

/// 2 to the power `e`.
pub open spec fn two_pow(e: nat) -> nat
    decreases e,
{
    if e == 0 {
        1
    } else {
        2 * two_pow((e - 1) as nat)
    }
}

/// `n / d` rounded to the nearest integer, ties to the even one (`d > 0`).
pub open spec fn round_half_even(n: nat, d: nat) -> nat {
    let q = n / d;
    let r = n % d;
    if 2 * r < d || (2 * r == d && q % 2 == 0) {
        q
    } else {
        q + 1
    }
}

/// How many low bits of `n` an `f64` (53-bit significand) cannot hold.
pub open spec fn f64_excess_bits(n: nat) -> nat
    decreases n,
{
    if n < 0x20_0000_0000_0000 {
        0
    } else {
        1 + f64_excess_bits(n / 2)
    }
}

/// The value of `n as f64`: `n` rounded to the nearest multiple of
/// 2^`f64_excess_bits(n)`, ties to the even significand.
pub open spec fn f64_value(n: nat) -> nat {
    let p = two_pow(f64_excess_bits(n));
    round_half_even(n, p) * p
}

/// Law: below 2^53 bytes, converting the count to `f64` loses nothing.
pub proof fn law_f64_exact_below_2_pow_53(n: nat)
    requires
        n < 0x20_0000_0000_0000,
    ensures
        f64_value(n) == n,
{
    assert(f64_excess_bits(n) == 0);
    assert(two_pow(0) == 1);
    assert(n / 1 == n && n % 1 == 0);
    assert(round_half_even(n, 1) == n);
}

/// `r / 10` written with one decimal: the integer part, a point, and the tenths digit.
pub open spec fn one_decimal(r: nat) -> Seq<char> {
    text::decimal(r / 10).push('.').push(text::digit_char(r % 10))
}

/// A byte count as a human readable size: `{:.1} GB`, `{:.1} MB`, `{:.0} KB` of the
/// count divided as an `f64` by the unit, or `{} B`. Rust formats a float with a
/// given precision from its exact value, ties to even.
pub open spec fn size_text(bytes: nat) -> Seq<char> {
    if bytes >= 0x4000_0000 {
        one_decimal(round_half_even(10 * f64_value(bytes), 0x4000_0000)) + seq![' ', 'G', 'B']
    } else if bytes >= 0x10_0000 {
        one_decimal(round_half_even(10 * bytes, 0x10_0000)) + seq![' ', 'M', 'B']
    } else if bytes >= 1024 {
        text::decimal(round_half_even(bytes, 1024)) + seq![' ', 'K', 'B']
    } else {
        text::decimal(bytes) + seq![' ', 'B']
    }
}

/// `n / d` rounded to nearest, ties to even.
fn round_half_even_exec(n: u128, d: u128) -> (r: u128)
    requires
        1 <= d <= 0x1_0000_0000_0000_0000,
    ensures
        r == round_half_even(n as nat, d as nat),
        r <= n / d + 1,
{
    let q = n / d;
    let rem = n % d;
    if 2 * rem < d || (2 * rem == d && q % 2 == 0) {
        q
    } else {
        assert(q * 2 <= n) by (nonlinear_arith)
            requires
                q == n / d,
                d >= 2,
        ;
        q + 1
    }
}

/// The value of `n as f64`, exactly.
fn f64_value_exec(n: u64) -> (f: u128)
    ensures
        f == f64_value(n as nat),
        f <= n + 0x1_0000,
{
    let mut m: u64 = n;
    let mut p: u128 = 1;
    let ghost mut e: nat = 0;
    while m >= 0x20_0000_0000_0000
        invariant
            p == two_pow(e),
            m == n as nat / p as nat,
            f64_excess_bits(n as nat) == e + f64_excess_bits(m as nat),
            1 <= p,
            p * m <= n,
            p <= 0x1_0000,
        decreases m,
    {
        assert(p * 0x20_0000_0000_0000 <= n) by (nonlinear_arith)
            requires
                p * m <= n,
                m >= 0x20_0000_0000_0000,
                p >= 1,
        ;
        assert(p * 2 <= 0x1_0000) by (nonlinear_arith)
            requires
                p * 0x20_0000_0000_0000 <= n,
                n <= 0xffff_ffff_ffff_ffff,
        ;
        proof {
            vstd::arithmetic::div_mod::lemma_div_denominator(n as int, p as int, 2);
            assert(p * 2 * (m / 2) <= p * m) by (nonlinear_arith)
                requires
                    p >= 1,
            ;
        }
        m = m / 2;
        p = p * 2;
        proof {
            e = e + 1;
        }
    }
    assert(f64_excess_bits(m as nat) == 0);
    let q = round_half_even_exec(n as u128, p);
    assert(q * p <= n + p) by (nonlinear_arith)
        requires
            q <= (n as u128) / p + 1,
            p >= 1,
    ;
    q * p
}

/// Appends `r / 10` with one decimal to `s`.
fn push_one_decimal(s: &mut String, r: u64)
    ensures
        final(s)@ == old(s)@ + one_decimal(r as nat),
{
    text::push_decimal(s, r / 10);
    text::push_char(s, '.');
    text::push_char(s, text::digit_exec((r % 10) as u8));
    assert(old(s)@ + one_decimal(r as nat) =~= (old(s)@ + text::decimal((r / 10) as nat)).push(
        '.',
    ).push(text::digit_char((r % 10) as nat)));
}

/// A byte count as a human readable size, as the release summary prints it
/// (see `size_text`).
pub fn format_size(bytes: u64) -> (r: String)
    ensures
        r@ == size_text(bytes as nat),
{
    let mut s = String::new();
    let ghost e = Seq::<char>::empty();
    if bytes >= 0x4000_0000 {
        let f = f64_value_exec(bytes);
        let r = round_half_even_exec(10 * f, 0x4000_0000);
        assert(r <= 0x100_0000_0000) by (nonlinear_arith)
            requires
                r <= 10 * f / 0x4000_0000 + 1,
                f <= 0x1_0000_0000_0001_0000,
        ;
        push_one_decimal(&mut s, r as u64);
        text::push_char(&mut s, ' ');
        text::push_char(&mut s, 'G');
        text::push_char(&mut s, 'B');
    } else if bytes >= 0x10_0000 {
        let r = round_half_even_exec(10 * (bytes as u128), 0x10_0000);
        push_one_decimal(&mut s, r as u64);
        text::push_char(&mut s, ' ');
        text::push_char(&mut s, 'M');
        text::push_char(&mut s, 'B');
    } else if bytes >= 1024 {
        let r = round_half_even_exec(bytes as u128, 1024);
        text::push_decimal(&mut s, r as u64);
        text::push_char(&mut s, ' ');
        text::push_char(&mut s, 'K');
        text::push_char(&mut s, 'B');
    } else {
        text::push_decimal(&mut s, bytes);
        text::push_char(&mut s, ' ');
        text::push_char(&mut s, 'B');
    }
    assert(s@ =~= size_text(bytes as nat));
    s
}

/// Whether every character of `s` is an ASCII decimal digit.
pub open spec fn all_digits(s: Seq<char>) -> bool {
    forall|i: int| 0 <= i < s.len() ==> '0' <= #[trigger] s[i] <= '9'
}

/// The number that the decimal digits `s` denote.
pub open spec fn digits_value(s: Seq<char>) -> nat
    decreases s.len(),
{
    if s.len() == 0 {
        0
    } else {
        digits_value(s.drop_last()) * 10 + (s.last() as nat - 48) as nat
    }
}

/// What `s.parse::<u32>()` gives: an optional `+` sign, then one or more decimal
/// digits whose value fits in a `u32`; anything else is an error (`None`).
pub open spec fn parsed_u32(s: Seq<char>) -> Option<u32> {
    let d = if s.len() > 0 && s[0] == '+' {
        s.drop_first()
    } else {
        s
    };
    if d.len() > 0 && all_digits(d) && digits_value(d) <= u32::MAX {
        Some(digits_value(d) as u32)
    } else {
        None
    }
}

/// The decimal notation of `n` is digits that denote `n`.
pub proof fn lemma_decimal_digits(n: nat)
    ensures
        text::decimal(n).len() > 0,
        all_digits(text::decimal(n)),
        digits_value(text::decimal(n)) == n,
    decreases n,
{
    let d = (n % 10) as nat;
    assert(((48 + d) as char) as nat == 48 + d);
    if n >= 10 {
        lemma_decimal_digits(n / 10);
        let x = text::decimal(n / 10);
        assert(text::decimal(n).drop_last() =~= x);
        assert(text::decimal(n).last() == text::digit_char(d));
        assert(n == (n / 10) * 10 + n % 10);
        assert forall|i: int| 0 <= i < text::decimal(n).len() implies '0' <= #[trigger] text::decimal(n)[i] <= '9' by {
            if i < x.len() {
                assert(text::decimal(n)[i] == x[i]);
            }
        }
    } else {
        assert(text::decimal(n).drop_last() =~= Seq::<char>::empty());
        assert(text::decimal(n).last() == text::digit_char(d));
        assert(digits_value(Seq::<char>::empty()) == 0);
    }
}

/// Law: a build number written in decimal (as in artifact names) reads back as
/// the same number.
pub proof fn law_decimal_parses_back(n: u32)
    ensures
        parsed_u32(text::decimal(n as nat)) == Some(n),
{
    lemma_decimal_digits(n as nat);
    assert(text::decimal(n as nat)[0] != '+');
}

/// `s.parse::<u32>().ok()`.
pub fn parse_u32(s: &str) -> (r: Option<u32>)
    ensures
        r == parsed_u32(s@),
{
    let v = text::chars_vec(s);
    let start: usize = if v.len() > 0 && v[0] == '+' {
        1
    } else {
        0
    };
    let ghost d = if s@.len() > 0 && s@[0] == '+' {
        s@.drop_first()
    } else {
        s@
    };
    assert(d =~= v@.skip(start as int));
    if start == v.len() {
        return None;
    }
    let cap: u64 = 0x1_0000_0000;
    let mut acc: u64 = 0;
    let mut k: usize = start;
    assert(v@.subrange(start as int, start as int) =~= Seq::<char>::empty());
    while k < v.len()
        invariant
            start <= k <= v@.len(),
            d == v@.skip(start as int),
            d == (if s@.len() > 0 && s@[0] == '+' {
                s@.drop_first()
            } else {
                s@
            }),
            cap == 0x1_0000_0000,
            acc <= cap,
            all_digits(v@.subrange(start as int, k as int)),
            acc == if digits_value(v@.subrange(start as int, k as int)) < cap {
                digits_value(v@.subrange(start as int, k as int))
            } else {
                cap as nat
            },
        decreases v@.len() - k,
    {
        let c = v[k];
        if c < '0' || c > '9' {
            assert(d[k - start] == c);
            return None;
        }
        let ghost prev = v@.subrange(start as int, k as int);
        let ghost next = v@.subrange(start as int, k + 1);
        assert(next.drop_last() =~= prev);
        assert(next.last() == c);
        let digit = (c as u32 - 48) as u64;
        let t = acc * 10 + digit;
        acc = if t < cap {
            t
        } else {
            cap
        };
        k = k + 1;
    }
    assert(v@.subrange(start as int, v@.len() as int) =~= d);
    if acc < cap {
        Some(acc as u32)
    } else {
        None
    }
}

/// Options of `app-dist release`.
pub struct ReleaseArgs {
    pub app: Option<String>,
    pub version: Option<String>,
    pub build: Option<u32>,
    pub archive_path: Option<String>,
    pub project: Option<String>,
    pub scheme: Option<String>,
    pub out_dir: String,
    pub skip_notarize: bool,
    pub skip_sign: bool,
}

/// Why a release cannot start.
pub enum ReleaseError {
    /// No app is given anywhere and `app-dist.yml` could not be read.
    ProjectConfigUnreadable,
    /// No app is given by `--app`, `app-dist.yml` or `APP_DIST_APP`.
    MissingApp,
    /// The scheme or the project is empty after flags and `app-dist.yml`.
    MissingSchemeOrProject,
    /// Neither `--build` nor the archive gives a non-zero build number.
    MissingBuildNumber,
}

/// What a release builds and where it publishes.
pub struct ReleaseTarget {
    pub app_id: String,
    pub scheme: String,
    pub project: String,
    pub archive_path: String,
}

/// The value `app-dist.yml` gives for `field`, when the file was read.
pub open spec fn config_value(config: Option<String>, field: Seq<char>) -> Option<Seq<char>> {
    match config {
        Some(y) => yaml_field_value(y@, yaml_key(field)),
        None => None,
    }
}

/// Values of the environment variables `APP_DIST_APP`, `APP_DIST_SCHEME` and
/// `APP_DIST_PROJECT`, the last place a release looks for its settings.
pub struct ReleaseEnv {
    pub app: Option<String>,
    pub scheme: Option<String>,
    pub project: Option<String>,
}

/// A setting of a release: the flag when given, else the value of `field` in
/// `app-dist.yml`, else the environment variable, else empty.
pub open spec fn configured_value(
    flag: Option<String>,
    config: Option<String>,
    field: Seq<char>,
    env: Option<String>,
) -> Seq<char> {
    match flag {
        Some(v) => v@,
        None => match config_value(config, field) {
            Some(v) => v,
            None => match env {
                Some(v) => v@,
                None => Seq::empty(),
            },
        },
    }
}

/// The app a release publishes to: `--app`, else the `app` field of
/// `app-dist.yml`, else `APP_DIST_APP`.
pub open spec fn release_app_id(args: ReleaseArgs, config: Option<String>, env: ReleaseEnv) -> Result<Seq<char>, ReleaseError> {
    match args.app {
        Some(a) => Ok(a@),
        None => match config_value(config, "app"@) {
            Some(a) => Ok(a),
            None => match env.app {
                Some(a) => Ok(a@),
                None => if config is None {
                    Err(ReleaseError::ProjectConfigUnreadable)
                } else {
                    Err(ReleaseError::MissingApp)
                },
            },
        },
    }
}

/// `base.join(p)` for Unix paths (`PathBuf::push`): `p` itself when it is
/// absolute or `base` is empty, else `base` and `p` with one `/` between them
/// (none added when `base` already ends with `/`).
pub open spec fn path_join(base: Seq<char>, p: Seq<char>) -> Seq<char> {
    if (p.len() > 0 && p[0] == '/') || base.len() == 0 {
        p
    } else if base.last() == '/' {
        base + p
    } else {
        base.push('/') + p
    }
}

/// Joins two paths (see `path_join`).
pub fn path_join_exec(base: &str, p: &str) -> (r: String)
    ensures
        r@ == path_join(base@, p@),
{
    let pl = p.unicode_len();
    let bl = base.unicode_len();
    if (pl > 0 && p.get_char(0) == '/') || bl == 0 {
        p.to_owned()
    } else if base.get_char(bl - 1) == '/' {
        concat_str(base, p)
    } else {
        let mut r = base.to_owned();
        r.append("/");
        r.append(p);
        proof {
            reveal_strlit("/");
        }
        assert(r@ =~= base@.push('/') + p@);
        r
    }
}

/// Where the archive of `scheme` is built by default: `build/<scheme>.xcarchive`.
pub open spec fn default_archive_path(scheme: Seq<char>) -> Seq<char> {
    path_join("build"@, scheme + ".xcarchive"@)
}

/// `a` followed by `b`, as a new string.
pub fn concat_str(a: &str, b: &str) -> (r: String)
    ensures
        r@ == a@ + b@,
{
    let mut r = a.to_owned();
    r.append(b);
    r
}

/// A setting of a release, from the flag, `app-dist.yml` or the environment.
fn configured_value_exec(flag: &Option<String>, config: &Option<String>, field: &str, env: &Option<String>) -> (r: String)
    ensures
        r@ == configured_value(*flag, *config, field@, *env),
{
    match flag {
        Some(v) => v.clone(),
        None => {
            let from_config = match config {
                Some(y) => parse_yaml_field(y.as_str(), field),
                None => None,
            };
            match from_config {
                Some(v) => v,
                None => match env {
                    Some(v) => v.clone(),
                    None => String::new(),
                },
            }
        },
    }
}

/// Settles which app a release publishes to, which scheme and project it builds,
/// and which archive it uses: flags first, then `app-dist.yml` (whose text is
/// `config`, `None` when it could not be read), then the environment.
pub fn resolve_release_target(args: &ReleaseArgs, config: &Option<String>, env: &ReleaseEnv) -> (r: Result<
    ReleaseTarget,
    ReleaseError,
>)
    ensures
        match release_app_id(*args, *config, *env) {
            Err(e) => r == Err::<ReleaseTarget, ReleaseError>(e),
            Ok(app_id) => {
                let scheme = configured_value(args.scheme, *config, "scheme"@, env.scheme);
                let project = configured_value(args.project, *config, "xcode_project"@, env.project);
                if scheme.len() == 0 || project.len() == 0 {
                    r == Err::<ReleaseTarget, ReleaseError>(ReleaseError::MissingSchemeOrProject)
                } else {
                    &&& r is Ok
                    &&& r->Ok_0.app_id@ == app_id
                    &&& r->Ok_0.scheme@ == scheme
                    &&& r->Ok_0.project@ == project
                    &&& r->Ok_0.archive_path@ == match args.archive_path {
                        Some(p) => p@,
                        None => default_archive_path(scheme),
                    }
                }
            },
        },
{
    let app_id = match &args.app {
        Some(a) => a.clone(),
        None => {
            let from_config = match config {
                Some(y) => parse_yaml_field(y.as_str(), "app"),
                None => None,
            };
            match from_config {
                Some(a) => a,
                None => match &env.app {
                    Some(a) => a.clone(),
                    None => {
                        if config.is_none() {
                            return Err(ReleaseError::ProjectConfigUnreadable);
                        } else {
                            return Err(ReleaseError::MissingApp);
                        }
                    },
                },
            }
        },
    };
    let scheme = configured_value_exec(&args.scheme, config, "scheme", &env.scheme);
    let project = configured_value_exec(&args.project, config, "xcode_project", &env.project);
    if scheme.unicode_len() == 0 || project.unicode_len() == 0 {
        return Err(ReleaseError::MissingSchemeOrProject);
    }
    let archive_path = match &args.archive_path {
        Some(p) => p.clone(),
        None => {
            let file = concat_str(scheme.as_str(), ".xcarchive");
            proof {
                reveal_strlit("build");
            }
            path_join_exec("build", file.as_str())
        },
    };
    Ok(ReleaseTarget { app_id, scheme, project, archive_path })
}

/// The version a release publishes: `--version`, else the archive's
/// `CFBundleShortVersionString` when it could be read, else `0.0.0`.
pub open spec fn release_version(flag: Option<String>, plist: Option<String>) -> Seq<char> {
    match flag {
        Some(v) => v@,
        None => match plist {
            Some(p) => p@,
            None => "0.0.0"@,
        },
    }
}

/// Settles the version a release publishes.
pub fn resolve_version(flag: &Option<String>, plist: &Option<String>) -> (r: String)
    ensures
        r@ == release_version(*flag, *plist),
{
    match flag {
        Some(v) => v.clone(),
        None => match plist {
            Some(p) => p.clone(),
            None => "0.0.0".to_owned(),
        },
    }
}

/// The build number a release publishes: `--build`, else the archive's
/// `CFBundleVersion` read as a `u32`, else 0.
pub open spec fn release_build_number(flag: Option<u32>, plist: Option<String>) -> u32 {
    match flag {
        Some(b) => b,
        None => match plist {
            Some(p) => match parsed_u32(p@) {
                Some(n) => n,
                None => 0,
            },
            None => 0,
        },
    }
}

/// Settles the build number a release publishes; zero means there is none.
pub fn resolve_build_number(flag: Option<u32>, plist: &Option<String>) -> (r: Result<u32, ReleaseError>)
    ensures
        release_build_number(flag, *plist) == 0 ==> r == Err::<u32, ReleaseError>(ReleaseError::MissingBuildNumber),
        release_build_number(flag, *plist) != 0 ==> r == Ok::<u32, ReleaseError>(release_build_number(flag, *plist)),
{
    let n = match flag {
        Some(b) => b,
        None => match plist {
            Some(p) => match parse_u32(p.as_str()) {
                Some(n) => n,
                None => 0,
            },
            None => 0,
        },
    };
    if n == 0 {
        Err(ReleaseError::MissingBuildNumber)
    } else {
        Ok(n)
    }
}

/// The file name of a release artifact: `<app>-<version>-<build>.<extension>`.
pub open spec fn artifact_name(app_name: Seq<char>, version: Seq<char>, build: u32, extension: Seq<char>) -> Seq<char> {
    app_name + "-"@ + version + "-"@ + text::decimal(build as nat) + "."@ + extension
}

/// Names a release artifact (the DMG or the ZIP).
pub fn artifact_file_name(app_name: &str, version: &str, build: u32, extension: &str) -> (r: String)
    ensures
        r@ == artifact_name(app_name@, version@, build, extension@),
{
    let mut r = app_name.to_owned();
    r.append("-");
    r.append(version);
    r.append("-");
    let b = text::decimal_string(build as u64);
    r.append(b.as_str());
    r.append(".");
    r.append(extension);
    r
}

/// The request for the upload locations of a release:
/// `POST <api_url>/api/v1/apps/<app_id>/releases/upload-url` with the version
/// and the build number.
pub fn upload_url_request(api_url: &str, app_id: &str, version: &str, build_number: u32) -> (r: ApiRequest)
    ensures
        r.method is Post,
        r.url@ == api_url@ + "/api/v1/apps/"@ + app_id@ + "/releases/upload-url"@,
        r.body is Some,
        r.body->0@.len() == 2,
        api::is_str_field(r.body->0@[0], "version"@, version@),
        api::is_num_field(r.body->0@[1], "build_number"@, build_number as nat),
{
    let mut body: Vec<JsonField> = Vec::new();
    body.push(api::str_field("version", version));
    body.push(JsonField { key: "build_number".to_owned(), value: JsonValue::Num(build_number as u64) });
    ApiRequest {
        method: Method::Post,
        url: api::endpoint_with_id(api_url, "/api/v1/apps/", app_id, "/releases/upload-url"),
        body: Some(body),
    }
}

/// Where an artifact is uploaded: `<upload_base_url>/<key>`.
pub fn upload_object_url(upload_base_url: &str, key: &str) -> (r: String)
    ensures
        r@ == upload_base_url@ + "/"@ + key@,
{
    let mut r = upload_base_url.to_owned();
    r.append("/");
    r.append(key);
    r
}

/// Index of the last `c` in `s`, or -1 when there is none.
pub open spec fn last_index_of(s: Seq<char>, c: char) -> int
    decreases s.len(),
{
    if s.len() == 0 {
        -1
    } else if s.last() == c {
        s.len() - 1
    } else {
        last_index_of(s.drop_last(), c)
    }
}

/// The extension of a file name (`Path::extension`): what follows its last dot,
/// when that dot is not its first character and the name is not `..`.
pub open spec fn file_extension(name: Seq<char>) -> Option<Seq<char>> {
    let i = last_index_of(name, '.');
    if name == ".."@ || i <= 0 {
        None
    } else {
        Some(name.skip(i + 1))
    }
}

/// The stem of a file name (`Path::file_stem`): the name up to its extension.
pub open spec fn file_stem(name: Seq<char>) -> Seq<char> {
    let i = last_index_of(name, '.');
    if name == ".."@ || i <= 0 {
        name
    } else {
        name.take(i)
    }
}

/// `last_index_of` is -1 or the index of a `c` in `s`.
pub proof fn lemma_last_index_of_bound(s: Seq<char>, c: char)
    ensures
        -1 <= last_index_of(s, c) < s.len(),
        last_index_of(s, c) >= 0 ==> s[last_index_of(s, c)] == c,
    decreases s.len(),
{
    if s.len() > 0 && s.last() != c {
        lemma_last_index_of_bound(s.drop_last(), c);
    }
}

/// No `c` in `s` comes after `last_index_of(s, c)`.
pub proof fn lemma_last_index_of_is_last(s: Seq<char>, c: char, k: int)
    requires
        0 <= k < s.len(),
        s[k] == c,
    ensures
        last_index_of(s, c) >= k,
    decreases s.len(),
{
    if s.last() != c {
        lemma_last_index_of_is_last(s.drop_last(), c, k);
    }
}

/// Index of the last `c` in `v`, if it holds one.
pub fn last_char_index(v: &Vec<char>, c: char) -> (r: Option<usize>)
    ensures
        match r {
            Some(k) => k == last_index_of(v@, c),
            None => last_index_of(v@, c) == -1,
        },
{
    let mut j = v.len();
    assert(v@.take(j as int) =~= v@);
    while j > 0 && v[j - 1] != c
        invariant
            j <= v@.len(),
            last_index_of(v@.take(j as int), c) == last_index_of(v@, c),
        decreases j,
    {
        assert(v@.take(j as int).drop_last() =~= v@.take(j - 1));
        j = j - 1;
    }
    if j == 0 {
        assert(v@.take(0) =~= Seq::<char>::empty());
        None
    } else {
        Some(j - 1)
    }
}

/// Whether `name` is the name of a `.app` bundle (its extension is `app`).
pub fn is_app_bundle_name(name: &str) -> (b: bool)
    ensures
        b == (file_extension(name@) == Some("app"@)),
{
    let v = text::chars_vec(name);
    let i = last_char_index(&v, '.');
    proof {
        lemma_last_index_of_bound(v@, '.');
    }
    match i {
        Some(k) if k > 0 && !text::str_eq(name, "..") => {
            let ext = text::substring(name, k + 1, v.len());
            assert(ext@ =~= name@.skip(k + 1));
            text::str_eq(ext.as_str(), "app")
        },
        _ => false,
    }
}

/// The stem of the file name `name` (see `file_stem`).
pub fn file_stem_of(name: &str) -> (r: String)
    ensures
        r@ == file_stem(name@),
{
    let v = text::chars_vec(name);
    let i = last_char_index(&v, '.');
    proof {
        lemma_last_index_of_bound(v@, '.');
    }
    match i {
        Some(k) if k > 0 && !text::str_eq(name, "..") => {
            let stem = text::substring(name, 0, k);
            assert(stem@ =~= name@.take(k as int));
            stem
        },
        _ => name.to_owned(),
    }
}

/// Law: each release setting is taken from the first source that gives it, in the
/// order flag, `app-dist.yml`, environment. A flag wins over the file and the
/// environment; a value in `app-dist.yml` wins over the environment whatever it
/// holds; the environment is used only when neither the flag nor the file gives one.
pub proof fn law_release_sources_in_order(args: ReleaseArgs, config: Option<String>, env: ReleaseEnv)
    ensures
        args.app matches Some(a) ==> release_app_id(args, config, env) == Ok::<Seq<char>, ReleaseError>(a@),
        args.app is None && config_value(config, "app"@) is Some ==> release_app_id(args, config, env)
            == Ok::<Seq<char>, ReleaseError>(config_value(config, "app"@)->0),
        forall|other: ReleaseEnv|
            args.app is None && config_value(config, "app"@) is Some ==> #[trigger] release_app_id(
                args,
                config,
                other,
            ) == release_app_id(args, config, env),
        args.app is None && config_value(config, "app"@) is None && env.app is Some ==> release_app_id(
            args,
            config,
            env,
        ) == Ok::<Seq<char>, ReleaseError>(env.app->0@),
        args.app is None && config_value(config, "app"@) is None && env.app is None ==> release_app_id(
            args,
            config,
            env,
        ) is Err,
        args.scheme matches Some(s) ==> configured_value(args.scheme, config, "scheme"@, env.scheme) == s@,
        args.scheme is None && config_value(config, "scheme"@) is Some ==> configured_value(
            args.scheme,
            config,
            "scheme"@,
            env.scheme,
        ) == config_value(config, "scheme"@)->0,
        args.scheme is None && config_value(config, "scheme"@) is None && env.scheme is Some
            ==> configured_value(args.scheme, config, "scheme"@, env.scheme) == env.scheme->0@,
        args.project matches Some(p) ==> configured_value(args.project, config, "xcode_project"@, env.project)
            == p@,
        args.project is None && config_value(config, "xcode_project"@) is Some ==> configured_value(
            args.project,
            config,
            "xcode_project"@,
            env.project,
        ) == config_value(config, "xcode_project"@)->0,
        args.project is None && config_value(config, "xcode_project"@) is None && env.project is Some
            ==> configured_value(args.project, config, "xcode_project"@, env.project) == env.project->0@,
{
}

} // verus!
