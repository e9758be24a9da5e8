use vstd::prelude::*;
use vstd::string::*;

verus! {

/// Number of bytes in the UTF-8 encoding of `c`.
pub open spec fn char_width(c: char) -> nat {
    if (c as u32) < 0x80 {
        1
    } else if (c as u32) < 0x800 {
        2
    } else if (c as u32) < 0x10000 {
        3
    } else {
        4
    }
}

/// Number of bytes in the UTF-8 encoding of `s` (what `str::len` returns).
pub open spec fn byte_len(s: Seq<char>) -> nat
    decreases s.len(),
{
    if s.len() == 0 {
        0
    } else {
        char_width(s[0]) + byte_len(s.drop_first())
    }
}

/// The prefix of `s` whose UTF-8 encoding is exactly `n` bytes long, or `None`
/// when byte `n` is not a character boundary of `s` (or lies past its end).
/// This is what `&s[..n]` takes, and what `s.get(..n)` returns.
pub open spec fn byte_prefix(s: Seq<char>, n: nat) -> Option<Seq<char>>
    decreases s.len(),
{
    if n == 0 {
        Some(Seq::empty())
    } else if s.len() == 0 || n < char_width(s[0]) {
        None
    } else {
        match byte_prefix(s.drop_first(), (n - char_width(s[0])) as nat) {
            Some(p) => Some(seq![s[0]] + p),
            None => None,
        }
    }
}

/// A character takes one to four bytes.
pub proof fn lemma_char_width_bounds(c: char)
    ensures
        1 <= char_width(c) <= 4,
{
}

/// Byte lengths add up over concatenation.
pub proof fn lemma_byte_len_concat(a: Seq<char>, b: Seq<char>)
    ensures
        byte_len(a + b) == byte_len(a) + byte_len(b),
    decreases a.len(),
{
    if a.len() == 0 {
        assert(a + b =~= b);
    } else {
        assert((a + b).drop_first() =~= a.drop_first() + b);
        lemma_byte_len_concat(a.drop_first(), b);
    }
}

/// Adding one more character to a prefix adds that character's width.
pub proof fn lemma_byte_len_take_step(s: Seq<char>, k: int)
    requires
        0 <= k < s.len(),
    ensures
        byte_len(s.take(k + 1)) == byte_len(s.take(k)) + char_width(s[k]),
{
    assert(s.take(k + 1) =~= s.take(k) + seq![s[k]]);
    lemma_byte_len_concat(s.take(k), seq![s[k]]);
    assert(seq![s[k]].drop_first() =~= Seq::<char>::empty());
    assert(byte_len(Seq::<char>::empty()) == 0);
    assert(byte_len(seq![s[k]]) == char_width(s[k]));
}

/// Longer prefixes have strictly more bytes.
pub proof fn lemma_byte_len_take_increasing(s: Seq<char>, i: int, j: int)
    requires
        0 <= i < j <= s.len(),
    ensures
        byte_len(s.take(i)) < byte_len(s.take(j)),
    decreases j - i,
{
    lemma_byte_len_take_step(s, j - 1);
    if i < j - 1 {
        lemma_byte_len_take_increasing(s, i, j - 1);
    }
}

/// A found byte prefix is a prefix of `s` with exactly `n` bytes.
pub proof fn lemma_byte_prefix_some(s: Seq<char>, n: nat)
    requires
        byte_prefix(s, n) is Some,
    ensures
        byte_prefix(s, n)->0.len() <= s.len(),
        byte_prefix(s, n)->0 == s.take(byte_prefix(s, n)->0.len() as int),
        byte_len(byte_prefix(s, n)->0) == n,
    decreases s.len(),
{
    if n == 0 {
        assert(s.take(0) =~= Seq::<char>::empty());
    } else {
        let w = char_width(s[0]);
        let rest = s.drop_first();
        lemma_byte_prefix_some(rest, (n - w) as nat);
        let q = byte_prefix(rest, (n - w) as nat)->0;
        let p = seq![s[0]] + q;
        assert(p =~= s.take(p.len() as int));
        assert(p.drop_first() =~= q);
    }
}

/// Every prefix of `s` is the byte prefix of its own byte length.
pub proof fn lemma_byte_prefix_take(s: Seq<char>, k: int)
    requires
        0 <= k <= s.len(),
    ensures
        byte_prefix(s, byte_len(s.take(k))) == Some(s.take(k)),
    decreases k,
{
    if k == 0 {
        assert(s.take(0) =~= Seq::<char>::empty());
    } else {
        let rest = s.drop_first();
        let t = s.take(k);
        assert(t.drop_first() =~= rest.take(k - 1));
        assert(t[0] == s[0]);
        lemma_char_width_bounds(s[0]);
        lemma_byte_prefix_take(rest, k - 1);
        assert(seq![s[0]] + rest.take(k - 1) =~= t);
    }
}

/// When `n` bytes fall inside a character of `s`, or past its end, there is no byte prefix.
pub proof fn lemma_byte_prefix_none(s: Seq<char>, n: nat, k: int)
    requires
        0 <= k <= s.len(),
        byte_len(s.take(k)) < n,
        k == s.len() || byte_len(s.take(k)) + char_width(s[k]) > n,
    ensures
        byte_prefix(s, n) is None,
{
    if byte_prefix(s, n) is Some {
        lemma_byte_prefix_some(s, n);
        let m = byte_prefix(s, n)->0.len() as int;
        if m <= k {
            if m < k {
                lemma_byte_len_take_increasing(s, m, k);
            }
        } else {
            lemma_byte_len_take_step(s, k);
            if k + 1 < m {
                lemma_byte_len_take_increasing(s, k + 1, m);
            }
        }
    }
}

/// The width model agrees with the UTF-8 encoder of vstd.
pub proof fn lemma_char_width_encode(c: char)
    ensures
        vstd::utf8::encode_scalar(c as u32).len() == char_width(c),
{
    vstd::utf8::char_is_scalar(c);
}

/// Law: the byte count by which strings are cut is the length of their UTF-8
/// encoding, which is what `str::len` returns and `&s[..n]` indexes.
pub proof fn law_byte_len_is_utf8_length(s: Seq<char>)
    ensures
        byte_len(s) == vstd::utf8::encode_utf8(s).len(),
    decreases s.len(),
{
    if s.len() > 0 {
        lemma_char_width_encode(s[0]);
        law_byte_len_is_utf8_length(s.drop_first());
    }
}

/// A byte prefix taken from `p + t` at the byte length of `p` is `p` itself.
pub proof fn lemma_byte_prefix_of_concat(p: Seq<char>, t: Seq<char>)
    ensures
        byte_prefix(p + t, byte_len(p)) == Some(p),
{
    let s = p + t;
    assert(s.take(p.len() as int) =~= p);
    lemma_byte_prefix_take(s, p.len() as int);
}

/// A byte prefix has at most as many characters as it has bytes.
pub proof fn lemma_chars_le_bytes(s: Seq<char>)
    ensures
        s.len() <= byte_len(s),
    decreases s.len(),
{
    if s.len() > 0 {
        lemma_char_width_bounds(s[0]);
        lemma_chars_le_bytes(s.drop_first());
    }
}

/// The ellipsis takes three bytes.
pub proof fn lemma_ellipsis_bytes()
    ensures
        byte_len(ellipsis()) == 3,
{
    assert(ellipsis().drop_first() =~= Seq::<char>::empty());
    assert(('\u{2026}' as u32) == 0x2026u32);
    assert(char_width('\u{2026}') == 3);
    assert(byte_len(Seq::<char>::empty()) == 0);
}

/// A shortened string is the byte prefix followed by the ellipsis: it has
/// `n + 3` bytes, at most `n + 1` characters, and shortening it again at `n`
/// gives it back.
pub proof fn lemma_shortened(s: Seq<char>, n: nat)
    requires
        byte_prefix(s, n) is Some,
    ensures
        byte_len(shortened(s, n)) == n + 3,
        shortened(s, n).len() <= n + 1,
        byte_prefix(shortened(s, n), n) == byte_prefix(s, n),
        shortened(shortened(s, n), n) == shortened(s, n),
{
    let p = byte_prefix(s, n)->0;
    lemma_byte_prefix_some(s, n);
    lemma_byte_len_concat(p, ellipsis());
    lemma_ellipsis_bytes();
    lemma_chars_le_bytes(p);
    lemma_byte_prefix_of_concat(p, ellipsis());
}

/// The characters of a string slice, as a vector.
pub fn chars_vec(s: &str) -> (v: Vec<char>)
    ensures
        v@ == s@,
{
    let mut v: Vec<char> = Vec::new();
    for c in it: s.chars()
        invariant
            v@ == it.seq().take(it.index() as int),
            it.seq() == s@,
    {
        v.push(c);
    }
    v
}

/// Number of bytes in the UTF-8 encoding of `c`.
pub fn char_width_exec(c: char) -> (w: usize)
    ensures
        w == char_width(c),
{
    if (c as u32) < 0x80 {
        1
    } else if (c as u32) < 0x800 {
        2
    } else if (c as u32) < 0x10000 {
        3
    } else {
        4
    }
}

/// Number of characters in the prefix of `s` that is exactly `n` bytes long,
/// or `None` when byte `n` is not a character boundary of `s`.
pub fn byte_prefix_len(s: &Vec<char>, n: usize) -> (r: Option<usize>)
    ensures
        r matches Some(k) ==> k <= s@.len() && byte_prefix(s@, n as nat) == Some(s@.take(k as int)),
        r is None ==> byte_prefix(s@, n as nat) is None,
{
    let mut k: usize = 0;
    let mut acc: usize = 0;
    assert(s@.take(0) =~= Seq::<char>::empty());
    while k < s.len() && acc < n
        invariant
            k <= s@.len(),
            acc <= n,
            acc == byte_len(s@.take(k as int)),
        decreases s@.len() - k,
    {
        let w = char_width_exec(s[k]);
        proof {
            lemma_byte_len_take_step(s@, k as int);
        }
        if w > n - acc {
            proof {
                lemma_byte_prefix_none(s@, n as nat, k as int);
            }
            return None;
        }
        acc = acc + w;
        k = k + 1;
    }
    if acc == n {
        proof {
            lemma_byte_prefix_take(s@, k as int);
        }
        Some(k)
    } else {
        proof {
            lemma_byte_prefix_none(s@, n as nat, k as int);
        }
        None
    }
}

/// Whether the UTF-8 encoding of `s` is longer than `n` bytes.
pub fn byte_len_exceeds(s: &Vec<char>, n: usize) -> (b: bool)
    ensures
        b == (byte_len(s@) > n),
{
    let mut k: usize = 0;
    let mut acc: usize = 0;
    assert(s@.take(0) =~= Seq::<char>::empty());
    while k < s.len()
        invariant
            k <= s@.len(),
            acc <= n,
            acc == byte_len(s@.take(k as int)),
        decreases s@.len() - k,
    {
        let w = char_width_exec(s[k]);
        proof {
            lemma_byte_len_take_step(s@, k as int);
        }
        if w > n - acc {
            proof {
                lemma_byte_len_concat(s@.take(k as int + 1), s@.skip(k as int + 1));
                assert(s@.take(k as int + 1) + s@.skip(k as int + 1) =~= s@);
            }
            return true;
        }
        acc = acc + w;
        k = k + 1;
    }
    assert(s@.take(k as int) =~= s@);
    false
}

/// The ellipsis character that marks a shortened string.
pub open spec fn ellipsis() -> Seq<char> {
    seq!['\u{2026}']
}

/// `s` shortened to its first `n` bytes, followed by an ellipsis.
pub open spec fn shortened(s: Seq<char>, n: nat) -> Seq<char> {
    byte_prefix(s, n)->0 + ellipsis()
}

/// The first `n` bytes of `s` followed by an ellipsis (`format!("{}\u{2026}", &s[..n])`).
pub fn shorten_with_ellipsis(s: &str, n: usize) -> (r: String)
    requires
        byte_prefix(s@, n as nat) is Some,
    ensures
        r@ == shortened(s@, n as nat),
{
    let v = chars_vec(s);
    let k = byte_prefix_len(&v, n);
    match k {
        Some(k) => {
            let mut r = substring(s, 0, k);
            let tail = "\u{2026}";
            proof {
                reveal_strlit("\u{2026}");
            }
            r.append(tail);
            r
        },
        None => {
            proof {
                assert(false);
            }
            String::new()
        },
    }
}

/// The characters of `s` from index `from` up to `to`, as an owned string.
pub fn substring(s: &str, from: usize, to: usize) -> (r: String)
    requires
        from <= to <= s@.len(),
    ensures
        r@ == s@.subrange(from as int, to as int),
{
    s.substring_char(from, to).to_owned()
}

/// `char::is_whitespace`: the characters with the Unicode `White_Space` property.
pub open spec fn is_whitespace(c: char) -> bool {
    let u = c as u32;
    ||| 0x9 <= u <= 0xD
    ||| u == 0x20
    ||| u == 0x85
    ||| u == 0xA0
    ||| u == 0x1680
    ||| 0x2000 <= u <= 0x200A
    ||| u == 0x2028
    ||| u == 0x2029
    ||| u == 0x202F
    ||| u == 0x205F
    ||| u == 0x3000
}

/// `s` without its leading whitespace (`str::trim_start`).
pub open spec fn trim_start(s: Seq<char>) -> Seq<char>
    decreases s.len(),
{
    if s.len() > 0 && is_whitespace(s[0]) {
        trim_start(s.drop_first())
    } else {
        s
    }
}

/// `s` without its trailing whitespace (`str::trim_end`).
pub open spec fn trim_end(s: Seq<char>) -> Seq<char>
    decreases s.len(),
{
    if s.len() > 0 && is_whitespace(s.last()) {
        trim_end(s.drop_last())
    } else {
        s
    }
}

/// `s` without leading and trailing whitespace (`str::trim`).
pub open spec fn trim(s: Seq<char>) -> Seq<char> {
    trim_end(trim_start(s))
}

/// `s` without all its leading copies of `c` (`str::trim_start_matches(c)`).
pub open spec fn strip_leading(s: Seq<char>, c: char) -> Seq<char>
    decreases s.len(),
{
    if s.len() > 0 && s[0] == c {
        strip_leading(s.drop_first(), c)
    } else {
        s
    }
}

/// `s` without all its trailing copies of `c` (`str::trim_end_matches(c)`).
pub open spec fn strip_trailing(s: Seq<char>, c: char) -> Seq<char>
    decreases s.len(),
{
    if s.len() > 0 && s.last() == c {
        strip_trailing(s.drop_last(), c)
    } else {
        s
    }
}

/// `s` without all its leading copies of the non-empty pattern `p`
/// (`str::trim_start_matches(p)`).
pub open spec fn strip_prefixes(s: Seq<char>, p: Seq<char>) -> Seq<char>
    decreases s.len(),
{
    if p.len() > 0 && p.is_prefix_of(s) {
        strip_prefixes(s.skip(p.len() as int), p)
    } else {
        s
    }
}

/// Whether `c` is whitespace (`char::is_whitespace`).
pub fn is_whitespace_exec(c: char) -> (b: bool)
    ensures
        b == is_whitespace(c),
{
    let u = c as u32;
    (0x9 <= u && u <= 0xD) || u == 0x20 || u == 0x85 || u == 0xA0 || u == 0x1680 || (0x2000
        <= u && u <= 0x200A) || u == 0x2028 || u == 0x2029 || u == 0x202F || u == 0x205F || u
        == 0x3000
}

/// Start of the window `v[lo..hi]` once its leading whitespace is skipped.
pub fn skip_whitespace_front(v: &Vec<char>, lo: usize, hi: usize) -> (r: usize)
    requires
        lo <= hi <= v@.len(),
    ensures
        lo <= r <= hi,
        v@.subrange(r as int, hi as int) == trim_start(v@.subrange(lo as int, hi as int)),
{
    let mut i = lo;
    while i < hi && is_whitespace_exec(v[i])
        invariant
            lo <= i <= hi <= v@.len(),
            trim_start(v@.subrange(i as int, hi as int)) == trim_start(
                v@.subrange(lo as int, hi as int),
            ),
        decreases hi - i,
    {
        assert(v@.subrange(i as int, hi as int).drop_first() =~= v@.subrange(i + 1, hi as int));
        i = i + 1;
    }
    i
}

/// End of the window `v[lo..hi]` once its trailing whitespace is dropped.
pub fn skip_whitespace_back(v: &Vec<char>, lo: usize, hi: usize) -> (r: usize)
    requires
        lo <= hi <= v@.len(),
    ensures
        lo <= r <= hi,
        v@.subrange(lo as int, r as int) == trim_end(v@.subrange(lo as int, hi as int)),
{
    let mut j = hi;
    while j > lo && is_whitespace_exec(v[j - 1])
        invariant
            lo <= j <= hi <= v@.len(),
            trim_end(v@.subrange(lo as int, j as int)) == trim_end(
                v@.subrange(lo as int, hi as int),
            ),
        decreases j - lo,
    {
        assert(v@.subrange(lo as int, j as int).drop_last() =~= v@.subrange(lo as int, j - 1));
        j = j - 1;
    }
    j
}

/// Start of the window `v[lo..hi]` once its leading copies of `c` are skipped.
pub fn skip_char_front(v: &Vec<char>, lo: usize, hi: usize, c: char) -> (r: usize)
    requires
        lo <= hi <= v@.len(),
    ensures
        lo <= r <= hi,
        v@.subrange(r as int, hi as int) == strip_leading(v@.subrange(lo as int, hi as int), c),
{
    let mut i = lo;
    while i < hi && v[i] == c
        invariant
            lo <= i <= hi <= v@.len(),
            strip_leading(v@.subrange(i as int, hi as int), c) == strip_leading(
                v@.subrange(lo as int, hi as int),
                c,
            ),
        decreases hi - i,
    {
        assert(v@.subrange(i as int, hi as int).drop_first() =~= v@.subrange(i + 1, hi as int));
        i = i + 1;
    }
    i
}

/// End of the window `v[lo..hi]` once its trailing copies of `c` are dropped.
pub fn skip_char_back(v: &Vec<char>, lo: usize, hi: usize, c: char) -> (r: usize)
    requires
        lo <= hi <= v@.len(),
    ensures
        lo <= r <= hi,
        v@.subrange(lo as int, r as int) == strip_trailing(v@.subrange(lo as int, hi as int), c),
{
    let mut j = hi;
    while j > lo && v[j - 1] == c
        invariant
            lo <= j <= hi <= v@.len(),
            strip_trailing(v@.subrange(lo as int, j as int), c) == strip_trailing(
                v@.subrange(lo as int, hi as int),
                c,
            ),
        decreases j - lo,
    {
        assert(v@.subrange(lo as int, j as int).drop_last() =~= v@.subrange(lo as int, j - 1));
        j = j - 1;
    }
    j
}

/// Whether `p` is a prefix of the window `v[lo..hi]`.
pub fn window_starts_with(v: &Vec<char>, lo: usize, hi: usize, p: &Vec<char>) -> (b: bool)
    requires
        lo <= hi <= v@.len(),
    ensures
        b == p@.is_prefix_of(v@.subrange(lo as int, hi as int)),
{
    if p.len() > hi - lo {
        return false;
    }
    let mut k: usize = 0;
    while k < p.len()
        invariant
            k <= p@.len() <= hi - lo,
            lo <= hi <= v@.len(),
            forall|j: int| 0 <= j < k ==> p@[j] == v@[lo + j],
        decreases p@.len() - k,
    {
        if p[k] != v[lo + k] {
            assert(p@[k as int] != v@.subrange(lo as int, hi as int)[k as int]);
            return false;
        }
        k = k + 1;
    }
    assert(p@ =~= v@.subrange(lo as int, hi as int).take(p@.len() as int));
    true
}

/// Start of the window `v[lo..hi]` once its leading copies of the non-empty
/// pattern `p` are skipped.
pub fn skip_prefixes(v: &Vec<char>, lo: usize, hi: usize, p: &Vec<char>) -> (r: usize)
    requires
        lo <= hi <= v@.len(),
        p@.len() > 0,
    ensures
        lo <= r <= hi,
        v@.subrange(r as int, hi as int) == strip_prefixes(v@.subrange(lo as int, hi as int), p@),
{
    let mut i = lo;
    while window_starts_with(v, i, hi, p)
        invariant
            lo <= i <= hi <= v@.len(),
            p@.len() > 0,
            strip_prefixes(v@.subrange(i as int, hi as int), p@) == strip_prefixes(
                v@.subrange(lo as int, hi as int),
                p@,
            ),
        decreases hi - i,
    {
        assert(v@.subrange(i as int, hi as int).skip(p@.len() as int) =~= v@.subrange(
            i + p@.len(),
            hi as int,
        ));
        i = i + p.len();
    }
    i
}

/// `str::trim`: the string without leading and trailing whitespace.
pub fn trim_str(s: &str) -> (r: String)
    ensures
        r@ == trim(s@),
{
    let v = chars_vec(s);
    let lo = skip_whitespace_front(&v, 0, v.len());
    let hi = skip_whitespace_back(&v, lo, v.len());
    assert(v@.subrange(0, v@.len() as int) =~= v@);
    substring(s, lo, hi)
}

/// The decimal digit character for `d < 10`.
pub open spec fn digit_char(d: nat) -> char {
    (48 + d) as char
}

/// Decimal notation of `n`, without leading zeros (`n.to_string()`).
pub open spec fn decimal(n: nat) -> Seq<char>
    decreases n,
{
    if n < 10 {
        seq![digit_char(n)]
    } else {
        decimal(n / 10).push(digit_char(n % 10))
    }
}

/// `String::push`: appends `c` to `s`.
#[verifier::external_body]
pub(crate) fn push_char(s: &mut String, c: char)
    ensures
        final(s)@ == old(s)@.push(c),
{
    s.push(c);
}

/// The character of the decimal digit `d`.
pub fn digit_exec(d: u8) -> (c: char)
    requires
        d < 10,
    ensures
        c == digit_char(d as nat),
{
    (48u8 + d) as char
}

/// Appends the decimal notation of `n` to `s`.
pub fn push_decimal(s: &mut String, n: u64)
    ensures
        final(s)@ == old(s)@ + decimal(n as nat),
    decreases n,
{
    if n >= 10 {
        push_decimal(s, n / 10);
    }
    push_char(s, digit_exec((n % 10) as u8));
    assert(decimal(n as nat) == if n < 10 {
        seq![digit_char(n as nat)]
    } else {
        decimal((n / 10) as nat).push(digit_char((n % 10) as nat))
    });
    if n < 10 {
        assert(old(s)@ + decimal(n as nat) =~= old(s)@.push(digit_char(n as nat)));
    } else {
        assert(old(s)@ + decimal(n as nat) =~= (old(s)@ + decimal((n / 10) as nat)).push(
            digit_char((n % 10) as nat),
        ));
    }
}

/// Decimal notation of `n` (`n.to_string()`).
pub fn decimal_string(n: u64) -> (r: String)
    ensures
        r@ == decimal(n as nat),
{
    let mut s = String::new();
    push_decimal(&mut s, n);
    assert(Seq::<char>::empty() + decimal(n as nat) =~= decimal(n as nat));
    s
}

/// Number of characters of `s` before the first `sep` (all of `s` when it has none).
pub open spec fn piece_end(s: Seq<char>, sep: char) -> nat
    decreases s.len(),
{
    if s.len() == 0 || s[0] == sep {
        0
    } else {
        1 + piece_end(s.drop_first(), sep)
    }
}

/// The piece ends inside `s`, at a `sep` unless it runs to the end.
pub proof fn lemma_piece_end_bound(s: Seq<char>, sep: char)
    ensures
        piece_end(s, sep) <= s.len(),
        piece_end(s, sep) < s.len() ==> s[piece_end(s, sep) as int] == sep,
    decreases s.len(),
{
    if s.len() > 0 && s[0] != sep {
        lemma_piece_end_bound(s.drop_first(), sep);
    }
}

/// No `sep` comes before `piece_end`.
pub proof fn lemma_piece_end_prefix_free(s: Seq<char>, sep: char, i: int)
    requires
        0 <= i < piece_end(s, sep),
    ensures
        s[i] != sep,
    decreases s.len(),
{
    lemma_piece_end_bound(s, sep);
    if i > 0 {
        lemma_piece_end_prefix_free(s.drop_first(), sep, i - 1);
    }
}

/// Before the first `sep`: a prefix free of `sep` counts fully.
pub proof fn lemma_piece_end_concat(a: Seq<char>, b: Seq<char>, sep: char)
    requires
        !a.contains(sep),
    ensures
        piece_end(a + b, sep) == a.len() + piece_end(b, sep),
    decreases a.len(),
{
    if a.len() > 0 {
        assert((a + b)[0] == a[0]);
        assert((a + b).drop_first() =~= a.drop_first() + b);
        assert(!a.drop_first().contains(sep)) by {
            if a.drop_first().contains(sep) {
                let i = choose|i: int| 0 <= i < a.drop_first().len() && a.drop_first()[i] == sep;
                assert(a[i + 1] == sep);
            }
        }
        lemma_piece_end_concat(a.drop_first(), b, sep);
    } else {
        assert(a + b =~= b);
    }
}

/// Trimming keeps only characters of the string it trims.
pub proof fn lemma_trim_contains(x: Seq<char>, c: char)
    requires
        trim(x).contains(c),
    ensures
        x.contains(c),
{
    lemma_trim_end_contains(trim_start(x), c);
    lemma_trim_start_contains(x, c);
}

proof fn lemma_trim_start_contains(x: Seq<char>, c: char)
    requires
        trim_start(x).contains(c),
    ensures
        x.contains(c),
    decreases x.len(),
{
    if x.len() > 0 && is_whitespace(x[0]) {
        lemma_trim_start_contains(x.drop_first(), c);
        let i = choose|i: int| 0 <= i < x.drop_first().len() && x.drop_first()[i] == c;
        assert(x[i + 1] == c);
    }
}

proof fn lemma_trim_end_contains(x: Seq<char>, c: char)
    requires
        trim_end(x).contains(c),
    ensures
        x.contains(c),
    decreases x.len(),
{
    if x.len() > 0 && is_whitespace(x.last()) {
        lemma_trim_end_contains(x.drop_last(), c);
        let i = choose|i: int| 0 <= i < x.drop_last().len() && x.drop_last()[i] == c;
        assert(x[i] == c);
    }
}

/// Index of the first `sep` at or after `a` in `v` (or the length of `v`).
pub fn find_piece_end(v: &Vec<char>, a: usize, sep: char) -> (b: usize)
    requires
        a <= v@.len(),
    ensures
        b == a + piece_end(v@.skip(a as int), sep),
        b <= v@.len(),
{
    let mut j = a;
    assert(v@.skip(a as int) =~= v@.skip(j as int));
    while j < v.len() && v[j] != sep
        invariant
            a <= j <= v@.len(),
            piece_end(v@.skip(a as int), sep) == (j - a) + piece_end(v@.skip(j as int), sep),
        decreases v@.len() - j,
    {
        assert(v@.skip(j as int).drop_first() =~= v@.skip(j + 1));
        j = j + 1;
    }
    j
}

/// Whether two strings hold the same characters.
pub fn str_eq(a: &str, b: &str) -> (r: bool)
    ensures
        r == (a@ == b@),
{
    let va = chars_vec(a);
    let vb = chars_vec(b);
    if va.len() != vb.len() {
        return false;
    }
    let mut k: usize = 0;
    while k < va.len()
        invariant
            va@ == a@,
            vb@ == b@,
            va@.len() == vb@.len(),
            k <= va@.len(),
            forall|j: int| 0 <= j < k ==> va@[j] == vb@[j],
        decreases va@.len() - k,
    {
        if va[k] != vb[k] {
            return false;
        }
        k = k + 1;
    }
    assert(va@ =~= vb@);
    true
}

/// `s` padded on the right with spaces to `width` characters (`format!("{:<width$}", s)`).
pub open spec fn pad_right(s: Seq<char>, width: nat) -> Seq<char> {
    if s.len() < width {
        s + Seq::new((width - s.len()) as nat, |i: int| ' ')
    } else {
        s
    }
}

/// Appends `s` padded on the right with spaces to `width` characters.
pub fn push_padded(out: &mut String, s: &str, width: usize)
    ensures
        final(out)@ == old(out)@ + pad_right(s@, width as nat),
{
    out.append(s);
    let n = s.unicode_len();
    assert(out@ =~= old(out)@ + s@ + Seq::new(0, |i: int| ' '));
    let mut k = n;
    while k < width
        invariant
            n == s@.len(),
            k == n || k <= width,
            k >= n,
            out@ == old(out)@ + s@ + Seq::new((k - n) as nat, |i: int| ' '),
        decreases width - k,
    {
        push_char(out, ' ');
        assert(Seq::new((k + 1 - n) as nat, |i: int| ' ') =~= Seq::new((k - n) as nat, |i: int| ' ').push(' '));
        k = k + 1;
    }
    if n < width {
        assert(old(out)@ + pad_right(s@, width as nat) =~= old(out)@ + s@ + Seq::new((width - n) as nat, |i: int| ' '));
    } else {
        assert(old(out)@ + pad_right(s@, width as nat) =~= old(out)@ + s@ + Seq::new(0, |i: int| ' '));
    }
}

/// The views of a vector of strings.
pub open spec fn string_views(v: Seq<String>) -> Seq<Seq<char>> {
    v.map_values(|x: String| x@)
}

} // verus!
