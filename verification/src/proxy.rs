//! Validation of the persisted proxy URL and the WebView2 command-line flags
//! built from it.
//!
//! A proxy URL is accepted when, after trimming surrounding whitespace, it is
//! non-empty, holds no space, quote, apostrophe or control character, has a
//! `scheme://` prefix whose scheme is `http`, `https`, `socks4`, `socks5` or
//! `socks5h` (ASCII case ignored), and names a non-empty host in its authority.
use vstd::prelude::*;
use crate::text::{chars_of, concat3, owned};
use vstd::string::*;

verus! {

/// `char::is_whitespace`: the characters with the Unicode `White_Space` property.
pub open spec fn is_whitespace_char(c: char) -> bool {
    let u = c as u32;
    ||| 0x9 <= u <= 0xD
    ||| u == 0x20
    ||| u == 0x85
    ||| u == 0xA0
    ||| u == 0x1680
    ||| 0x2000 <= u <= 0x200A
    ||| u == 0x2028
    ||| u == 0x2029
    ||| u == 0x202F
    ||| u == 0x205F
    ||| u == 0x3000
}

/// `char::is_control`: the characters of general category `Cc`.
pub open spec fn is_control_char(c: char) -> bool {
    let u = c as u32;
    u <= 0x1F || (0x7F <= u <= 0x9F)
}

/// `s` without its leading whitespace.
pub open spec fn trim_start(s: Seq<char>) -> Seq<char>
    decreases s.len(),
{
    if s.len() > 0 && is_whitespace_char(s[0]) {
        trim_start(s.drop_first())
    } else {
        s
    }
}

/// `s` without its trailing whitespace.
pub open spec fn trim_end(s: Seq<char>) -> Seq<char>
    decreases s.len(),
{
    if s.len() > 0 && is_whitespace_char(s.last()) {
        trim_end(s.drop_last())
    } else {
        s
    }
}

/// `str::trim`: `s` without leading and trailing whitespace.
pub open spec fn trim(s: Seq<char>) -> Seq<char> {
    trim_end(trim_start(s))
}

/// Characters that would split or corrupt a `--proxy-server=` flag.
pub open spec fn is_forbidden_char(c: char) -> bool {
    c == ' ' || c == '"' || c == '\'' || is_control_char(c)
}

/// The classes of characters that delimit parts of a URL.
pub enum Delimiter {
    /// `/`, `?` or `#`: the end of the authority.
    AuthorityEnd,
    /// `@`: the end of the user information.
    At,
    /// `:`: the start of the port.
    Colon,
}

pub open spec fn is_delimiter(d: Delimiter, c: char) -> bool {
    match d {
        Delimiter::AuthorityEnd => c == '/' || c == '?' || c == '#',
        Delimiter::At => c == '@',
        Delimiter::Colon => c == ':',
    }
}

/// The index of the first character of `s` in class `d`, or `s.len()` when
/// there is none.
pub open spec fn first_delimiter(s: Seq<char>, d: Delimiter) -> int
    decreases s.len(),
{
    if s.len() == 0 {
        0
    } else if is_delimiter(d, s[0]) {
        0
    } else {
        1 + first_delimiter(s.drop_first(), d)
    }
}

/// The index of the last character of `s` in class `d`, or `-1` when there
/// is none.
pub open spec fn last_delimiter(s: Seq<char>, d: Delimiter) -> int
    decreases s.len(),
{
    if s.len() == 0 {
        -1
    } else if is_delimiter(d, s.last()) {
        s.len() - 1
    } else {
        last_delimiter(s.drop_last(), d)
    }
}

/// The index of the first `://` in `s`, or `-1` when there is none.
pub open spec fn scheme_separator(s: Seq<char>) -> int
    decreases s.len(),
{
    if s.len() < 3 {
        -1
    } else if s[0] == ':' && s[1] == '/' && s[2] == '/' {
        0
    } else {
        let r = scheme_separator(s.drop_first());
        if r < 0 {
            -1
        } else {
            r + 1
        }
    }
}

/// The code of `char::to_ascii_lowercase(c)`.
pub open spec fn ascii_lower_code(c: char) -> u32 {
    let u = c as u32;
    if 65 <= u && u <= 90 {
        (u + 32) as u32
    } else {
        u
    }
}

/// `a.to_ascii_lowercase() == lower`.
pub open spec fn lowercases_to(a: Seq<char>, lower: Seq<char>) -> bool {
    &&& a.len() == lower.len()
    &&& forall|i: int| 0 <= i < a.len() ==> ascii_lower_code(#[trigger] a[i]) == lower[i] as u32
}

/// The schemes that a proxy URL may carry.
pub open spec fn is_proxy_scheme(scheme: Seq<char>) -> bool {
    ||| lowercases_to(scheme, "http"@)
    ||| lowercases_to(scheme, "https"@)
    ||| lowercases_to(scheme, "socks4"@)
    ||| lowercases_to(scheme, "socks5"@)
    ||| lowercases_to(scheme, "socks5h"@)
}

/// The host name in the part of a URL after `scheme://`: the authority ends at
/// the first `/`, `?` or `#`; the host follows its last `@`; the name ends at
/// the first `:` of the host.
pub open spec fn host_name(rest: Seq<char>) -> Seq<char> {
    let authority = rest.take(first_delimiter(rest, Delimiter::AuthorityEnd));
    let host = authority.skip(last_delimiter(authority, Delimiter::At) + 1);
    host.take(first_delimiter(host, Delimiter::Colon))
}

/// Whether `raw` is accepted as a proxy URL.
pub open spec fn proxy_url_is_valid(raw: Seq<char>) -> bool {
    let t = trim(raw);
    let k = scheme_separator(t);
    &&& t.len() > 0
    &&& forall|i: int| 0 <= i < t.len() ==> !is_forbidden_char(#[trigger] t[i])
    &&& k >= 0
    &&& is_proxy_scheme(t.take(k))
    &&& host_name(t.skip(k + 3)).len() > 0
}

/// The flags that route WebView2 through `proxy_url` while loopback and the
/// app's own origin bypass it.
pub open spec fn proxy_flags(proxy_url: Seq<char>) -> Seq<char> {
    "--proxy-server="@ + proxy_url
        + " --proxy-bypass-list=<local>;localhost;127.0.0.1;tauri.localhost"@
}

/// The browser arguments after the proxy flags are added to `existing`.
pub open spec fn combined_browser_arguments(existing: Seq<char>, proxy_url: Seq<char>) -> Seq<char> {
    if existing.len() == 0 {
        proxy_flags(proxy_url)
    } else {
        existing + " "@ + proxy_flags(proxy_url)
    }
}

proof fn lemma_trim_start_shape(s: Seq<char>)
    ensures
        trim_start(s).len() == 0 || !is_whitespace_char(trim_start(s)[0]),
    decreases s.len(),
{
    if s.len() > 0 && is_whitespace_char(s[0]) {
        lemma_trim_start_shape(s.drop_first());
    }
}

proof fn lemma_trim_end_keeps_first(s: Seq<char>)
    requires
        s.len() > 0,
        !is_whitespace_char(s[0]),
    ensures
        trim_end(s).len() > 0,
        trim_end(s)[0] == s[0],
        !is_whitespace_char(trim_end(s).last()),
    decreases s.len(),
{
    if is_whitespace_char(s.last()) {
        assert(s.len() > 1);
        lemma_trim_end_keeps_first(s.drop_last());
    }
}

/// Trimming twice is trimming once.
pub proof fn lemma_trim_idempotent(s: Seq<char>)
    ensures
        trim(trim(s)) == trim(s),
{
    let u = trim_start(s);
    lemma_trim_start_shape(s);
    if u.len() > 0 {
        lemma_trim_end_keeps_first(u);
    }
}

/// Whitespace around a proxy URL never changes whether it is accepted.
pub proof fn law_validity_ignores_surrounding_whitespace(raw: Seq<char>)
    ensures
        proxy_url_is_valid(trim(raw)) == proxy_url_is_valid(raw),
{
    lemma_trim_idempotent(raw);
}

fn is_whitespace(c: char) -> (r: bool)
    ensures
        r == is_whitespace_char(c),
{
    let u = c as u32;
    (0x9 <= u && u <= 0xD) || u == 0x20 || u == 0x85 || u == 0xA0 || u == 0x1680 || (0x2000 <= u
        && u <= 0x200A) || u == 0x2028 || u == 0x2029 || u == 0x202F || u == 0x205F || u == 0x3000
}

fn is_forbidden(c: char) -> (r: bool)
    ensures
        r == is_forbidden_char(c),
{
    let u = c as u32;
    c == ' ' || c == '"' || c == '\'' || u <= 0x1F || (0x7F <= u && u <= 0x9F)
}

fn is_in(d: &Delimiter, c: char) -> (r: bool)
    ensures
        r == is_delimiter(*d, c),
{
    match d {
        Delimiter::AuthorityEnd => c == '/' || c == '?' || c == '#',
        Delimiter::At => c == '@',
        Delimiter::Colon => c == ':',
    }
}

/// The characters of `trim(s)`.
fn trimmed(s: &Vec<char>) -> (t: Vec<char>)
    ensures
        t@ == trim(s@),
{
    let n = s.len();
    let mut lo: usize = 0;
    assert(s@.subrange(0, n as int) =~= s@);
    while lo < n && is_whitespace(s[lo])
        invariant
            lo <= n,
            n == s.len(),
            trim_start(s@.subrange(lo as int, n as int)) == trim_start(s@),
        decreases n - lo,
    {
        assert(s@.subrange(lo as int, n as int).drop_first() =~= s@.subrange(lo + 1, n as int));
        lo += 1;
    }
    assert(s@.subrange(lo as int, n as int) == trim_start(s@));
    let mut hi: usize = n;
    while hi > lo && is_whitespace(s[hi - 1])
        invariant
            lo <= hi <= n,
            n == s.len(),
            trim_end(s@.subrange(lo as int, hi as int)) == trim(s@),
            s@.subrange(lo as int, n as int) == trim_start(s@),
        decreases hi - lo,
    {
        assert(s@.subrange(lo as int, hi as int).drop_last() =~= s@.subrange(
            lo as int,
            hi - 1,
        ));
        hi -= 1;
    }
    let mut t: Vec<char> = Vec::new();
    let mut i = lo;
    while i < hi
        invariant
            lo <= i <= hi <= n,
            n == s.len(),
            t@ == s@.subrange(lo as int, i as int),
        decreases hi - i,
    {
        t.push(s[i]);
        assert(t@ =~= s@.subrange(lo as int, i + 1));
        i += 1;
    }
    t
}

/// `a` plus the index of the first character of `v[a..b]` in class `d`
/// (`b` when there is none).
fn first_in(v: &Vec<char>, a: usize, b: usize, d: Delimiter) -> (r: usize)
    requires
        a <= b <= v.len(),
    ensures
        a <= r <= b,
        r - a == first_delimiter(v@.subrange(a as int, b as int), d),
{
    let mut i = a;
    while i < b && !is_in(&d, v[i])
        invariant
            a <= i <= b <= v.len(),
            first_delimiter(v@.subrange(a as int, b as int), d) == (i - a) + first_delimiter(
                v@.subrange(i as int, b as int),
                d,
            ),
        decreases b - i,
    {
        assert(v@.subrange(i as int, b as int).drop_first() =~= v@.subrange(i + 1, b as int));
        i += 1;
    }
    i
}

/// The index of the last character of `v[a..b]` in class `d`, if any.
fn last_in(v: &Vec<char>, a: usize, b: usize, d: Delimiter) -> (r: Option<usize>)
    requires
        a <= b <= v.len(),
    ensures
        match r {
            Some(j) => a <= j < b && j - a == last_delimiter(v@.subrange(a as int, b as int), d),
            None => last_delimiter(v@.subrange(a as int, b as int), d) == -1,
        },
{
    let mut j = b;
    while j > a && !is_in(&d, v[j - 1])
        invariant
            a <= j <= b <= v.len(),
            last_delimiter(v@.subrange(a as int, b as int), d) == last_delimiter(
                v@.subrange(a as int, j as int),
                d,
            ),
        decreases j - a,
    {
        assert(v@.subrange(a as int, j as int).drop_last() =~= v@.subrange(a as int, j - 1));
        j -= 1;
    }
    if j > a {
        Some(j - 1)
    } else {
        None
    }
}

/// The index of the first `://` in `t`, if any.
fn find_scheme_separator(t: &Vec<char>) -> (r: Option<usize>)
    ensures
        match r {
            Some(k) => k + 3 <= t.len() && k == scheme_separator(t@),
            None => scheme_separator(t@) == -1,
        },
{
    let n = t.len();
    let mut i: usize = 0;
    assert(t@.skip(0) =~= t@);
    while n >= 3 && i <= n - 3
        invariant
            i <= n,
            n == t.len(),
            scheme_separator(t@) == (if scheme_separator(t@.skip(i as int)) < 0 {
                -1
            } else {
                scheme_separator(t@.skip(i as int)) + i
            }),
        decreases n - i,
    {
        if t[i] == ':' && t[i + 1] == '/' && t[i + 2] == '/' {
            return Some(i);
        }
        assert(t@.skip(i as int).drop_first() =~= t@.skip(i + 1));
        i += 1;
    }
    None
}

/// Whether `t[0..k]` lowercases to `name`.
fn scheme_is(t: &Vec<char>, k: usize, name: &str) -> (r: bool)
    requires
        k <= t.len(),
    ensures
        r == lowercases_to(t@.take(k as int), name@),
{
    let nv = chars_of(name);
    if nv.len() != k {
        return false;
    }
    for i in 0..k
        invariant
            k <= t.len(),
            nv@ == name@,
            nv.len() == k,
            forall|j: int| 0 <= j < i ==> ascii_lower_code(t@[j]) == nv@[j] as u32,
    {
        let u = t[i] as u32;
        let lower = if 65 <= u && u <= 90 {
            u + 32
        } else {
            u
        };
        if lower != nv[i] as u32 {
            assert(ascii_lower_code(t@.take(k as int)[i as int]) != name@[i as int] as u32);
            return false;
        }
    }
    assert forall|j: int| 0 <= j < k implies ascii_lower_code(#[trigger] t@.take(k as int)[j])
        == name@[j] as u32 by {}
    true
}

/// Whether `raw` is accepted as a proxy URL for WebView2.
pub fn is_valid_proxy_url(raw: &str) -> (r: bool)
    ensures
        r == proxy_url_is_valid(raw@),
{
    let s = chars_of(raw);
    let t = trimmed(&s);
    let n = t.len();
    if n == 0 {
        return false;
    }
    for i in 0..n
        invariant
            n == t.len(),
            t@ == trim(raw@),
            forall|j: int| 0 <= j < i ==> !is_forbidden_char(#[trigger] t@[j]),
    {
        if is_forbidden(t[i]) {
            assert(is_forbidden_char(trim(raw@)[i as int]));
            return false;
        }
    }
    let k = match find_scheme_separator(&t) {
        Some(k) => k,
        None => {
            return false;
        },
    };
    let scheme_ok = scheme_is(&t, k, "http") || scheme_is(&t, k, "https") || scheme_is(
        &t,
        k,
        "socks4",
    ) || scheme_is(&t, k, "socks5") || scheme_is(&t, k, "socks5h");
    if !scheme_ok {
        return false;
    }
    let r0 = k + 3;
    let e = first_in(&t, r0, n, Delimiter::AuthorityEnd);
    let h = match last_in(&t, r0, e, Delimiter::At) {
        Some(j) => j + 1,
        None => r0,
    };
    let c = first_in(&t, h, e, Delimiter::Colon);
    proof {
        let rest = t@.skip(r0 as int);
        assert(rest =~= t@.subrange(r0 as int, n as int));
        let authority = rest.take(first_delimiter(rest, Delimiter::AuthorityEnd));
        assert(authority =~= t@.subrange(r0 as int, e as int));
        let host = authority.skip(last_delimiter(authority, Delimiter::At) + 1);
        assert(host =~= t@.subrange(h as int, e as int));
        assert(host_name(rest).len() == c - h);
    }
    c > h
}

/// The browser arguments for WebView2 with `proxy_url` applied on top of
/// `existing`, or `None` when `proxy_url` is rejected.
pub fn proxy_browser_arguments(proxy_url: &str, existing: &str) -> (r: Option<String>)
    ensures
        match r {
            Some(args) => proxy_url_is_valid(proxy_url@) && args@ == combined_browser_arguments(
                existing@,
                proxy_url@,
            ),
            None => !proxy_url_is_valid(proxy_url@),
        },
{
    if !is_valid_proxy_url(proxy_url) {
        return None;
    }
    let flags = concat3(
        "--proxy-server=",
        proxy_url,
        " --proxy-bypass-list=<local>;localhost;127.0.0.1;tauri.localhost",
    );
    if existing.unicode_len() == 0 {
        Some(flags)
    } else {
        let mut combined = owned(existing);
        combined.append(" ");
        combined.append(flags.as_str());
        proof {
            assert(combined@ =~= existing@ + " "@ + proxy_flags(proxy_url@));
        }
        Some(combined)
    }
}

/// The proxy URL that the settings file holds, where one is set: an empty
/// string counts as none.
pub fn proxy_url_setting(value: Option<&str>) -> (r: Option<String>)
    ensures
        match value {
            Some(v) => if v@.len() == 0 {
                r is None
            } else {
                r is Some && r->0@ == v@
            },
            None => r is None,
        },
{
    match value {
        Some(v) => {
            if v.unicode_len() == 0 {
                None
            } else {
                Some(owned(v))
            }
        },
        None => None,
    }
}

} // verus!
