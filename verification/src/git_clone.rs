use vstd::prelude::*;
use crate::errors::PkgError;
use crate::text::{is_space_spec, is_digit_spec, is_whitespace_char, is_ascii_digit_char, str_chars};
use vstd::string::StringExecFns;

verus! {

// The name deriver turns a source location (URL, ssh spec or filesystem
// path) into the local directory name of its repository. Every step below
// keeps a contiguous window [lo, hi) of the input, so the whole derivation
// is described by index computations over the character sequence.

/// Index of the first occurrence of "://" at or after `i`, or -1.
pub open spec fn scheme_idx(s: Seq<char>, i: int) -> int
    decreases s.len() - i when 0 <= i <= s.len()
{
    if i + 3 > s.len() {
        -1
    } else if s[i] == ':' && s[i + 1] == '/' && s[i + 2] == '/' {
        i
    } else {
        scheme_idx(s, i + 1)
    }
}

/// Index of the first path separator in [i, hi), or -1.
pub open spec fn first_sep(s: Seq<char>, i: int, hi: int) -> int
    decreases hi - i when i <= hi
{
    if i >= hi {
        -1
    } else if s[i] == '/' {
        i
    } else {
        first_sep(s, i + 1, hi)
    }
}

/// Index of the last '@' in [lo, n), or -1.
pub open spec fn last_at(s: Seq<char>, lo: int, n: int) -> int
    decreases n - lo when lo <= n
{
    if n <= lo {
        -1
    } else if s[n - 1] == '@' {
        n - 1
    } else {
        last_at(s, lo, n - 1)
    }
}

/// End of [lo, n) after dropping the trailing run of separators and
/// white space.
pub open spec fn trim_end_sep_ws(s: Seq<char>, lo: int, n: int) -> int
    decreases n - lo when lo <= n
{
    if n > lo && (s[n - 1] == '/' || is_space_spec(s[n - 1])) {
        trim_end_sep_ws(s, lo, n - 1)
    } else {
        n
    }
}

/// End of [lo, n) after dropping the trailing run of separators.
pub open spec fn trim_end_sep(s: Seq<char>, lo: int, n: int) -> int
    decreases n - lo when lo <= n
{
    if n > lo && s[n - 1] == '/' {
        trim_end_sep(s, lo, n - 1)
    } else {
        n
    }
}

/// Start of [i, hi) after dropping the leading run of white space.
pub open spec fn trim_start_ws(s: Seq<char>, i: int, hi: int) -> int
    decreases hi - i when i <= hi
{
    if i < hi && is_space_spec(s[i]) {
        trim_start_ws(s, i + 1, hi)
    } else {
        i
    }
}

/// End of [lo, n) after repeatedly dropping a trailing "/.git".
pub open spec fn trim_suffix_slash_git(s: Seq<char>, lo: int, n: int) -> int
    decreases n - lo when lo <= n
{
    if n - lo >= 5 && s[n - 5] == '/' && s[n - 4] == '.' && s[n - 3] == 'g' && s[n - 2] == 'i'
        && s[n - 1] == 't' {
        trim_suffix_slash_git(s, lo, n - 5)
    } else {
        n
    }
}

/// End of [lo, n) after repeatedly dropping a trailing ".bundle".
pub open spec fn trim_suffix_bundle(s: Seq<char>, lo: int, n: int) -> int
    decreases n - lo when lo <= n
{
    if n - lo >= 7 && s[n - 7] == '.' && s[n - 6] == 'b' && s[n - 5] == 'u' && s[n - 4] == 'n'
        && s[n - 3] == 'd' && s[n - 2] == 'l' && s[n - 1] == 'e' {
        trim_suffix_bundle(s, lo, n - 7)
    } else {
        n
    }
}

/// End of [lo, n) after repeatedly dropping a trailing ".git".
pub open spec fn trim_suffix_git(s: Seq<char>, lo: int, n: int) -> int
    decreases n - lo when lo <= n
{
    if n - lo >= 4 && s[n - 4] == '.' && s[n - 3] == 'g' && s[n - 2] == 'i' && s[n - 1] == 't' {
        trim_suffix_git(s, lo, n - 4)
    } else {
        n
    }
}

/// Whether c occurs in [i, hi).
pub open spec fn has_char(s: Seq<char>, i: int, hi: int, c: char) -> bool
    decreases hi - i when i <= hi
{
    if i >= hi {
        false
    } else if s[i] == c {
        true
    } else {
        has_char(s, i + 1, hi, c)
    }
}

/// Start of the trailing run of ASCII digits of [lo, n).
pub open spec fn skip_digits_back(s: Seq<char>, lo: int, n: int) -> int
    decreases n - lo when lo <= n
{
    if n > lo && is_digit_spec(s[n - 1]) {
        skip_digits_back(s, lo, n - 1)
    } else {
        n
    }
}

/// Index of the last separator or ':' in [lo, n), or -1.
pub open spec fn last_sep_colon(s: Seq<char>, lo: int, n: int) -> int
    decreases n - lo when lo <= n
{
    if n <= lo {
        -1
    } else if s[n - 1] == '/' || s[n - 1] == ':' {
        n - 1
    } else {
        last_sep_colon(s, lo, n - 1)
    }
}

/// The window [lo, hi) of the input that remains after the scheme strip,
/// the credential strip, the suffix trims, the port truncation and the
/// final-segment cut, and before the validity check.
pub open spec fn derive_bounds(s: Seq<char>) -> (int, int) {
    let n = s.len() as int;
    let k = scheme_idx(s, 0);
    let l1 = if k >= 0 { k + 3 } else { 0 };
    let f = first_sep(s, l1, n);
    let rend = if f >= 0 { f } else { n };
    let a = last_at(s, l1, rend);
    let l2 = if a >= 0 { a + 1 } else { l1 };
    let h3 = trim_end_sep_ws(s, l2, n);
    let h4 = trim_end_sep(s, l2, trim_suffix_slash_git(s, l2, h3));
    let h5 = if !has_char(s, l2, h4, '/') && has_char(s, l2, h4, ':') {
        let p = skip_digits_back(s, l2, h4);
        if p > l2 && s[p - 1] == ':' {
            p - 1
        } else {
            h4
        }
    } else {
        h4
    };
    let m = last_sep_colon(s, l2, h5);
    let l6 = if m >= 0 { m + 1 } else { l2 };
    let h7 = trim_suffix_git(s, l6, trim_suffix_bundle(s, l6, h5));
    (l6, h7)
}

/// A location yields a name exactly when the remaining window is neither
/// empty nor the single character '/'.
pub open spec fn derive_name_ok(s: Seq<char>) -> bool {
    let (lo, hi) = derive_bounds(s);
    hi - lo > 0 && !(hi - lo == 1 && s[lo] == '/')
}

/// The derived name: the remaining window with leading white space and
/// trailing separators trimmed. Meaningful when derive_name_ok holds.
pub open spec fn derived_name(s: Seq<char>) -> Seq<char> {
    let (lo, hi) = derive_bounds(s);
    let l9 = trim_start_ws(s, lo, hi);
    let h9 = trim_end_sep(s, l9, hi);
    s.subrange(l9, h9)
}

/// Name derivation is deterministic: the same location always derives the
/// same name, and fails on the same locations.
pub proof fn lemma_derive_name_deterministic(a: Seq<char>, b: Seq<char>)
    requires
        a == b,
    ensures
        derived_name(a) == derived_name(b),
        derive_name_ok(a) == derive_name_ok(b),
{
}

/// A plain final segment: non-empty, free of separators, colons and '@',
/// with no white-space edge, and ending in neither ".git" nor ".bundle".
/// Derivation leaves such a string untouched.
pub open spec fn plain_segment(d: Seq<char>) -> bool {
    let n = d.len() as int;
    &&& n > 0
    &&& (forall|k: int| 0 <= k < n ==> d[k] != '/' && d[k] != ':' && d[k] != '@')
    &&& !is_space_spec(d[0])
    &&& !is_space_spec(d[n - 1])
    &&& !(n >= 4 && d[n - 4] == '.' && d[n - 3] == 'g' && d[n - 2] == 'i' && d[n - 1] == 't')
    &&& !(n >= 7 && d[n - 7] == '.' && d[n - 6] == 'b' && d[n - 5] == 'u' && d[n - 4] == 'n' && d[
        n - 3] == 'd' && d[n - 2] == 'l' && d[n - 1] == 'e')
}

proof fn lemma_scheme_idx_none(s: Seq<char>, i: int)
    requires
        0 <= i <= s.len(),
        forall|k: int| 0 <= k < s.len() ==> s[k] != ':',
    ensures
        scheme_idx(s, i) == -1,
    decreases s.len() - i,
{
    if i + 3 <= s.len() {
        lemma_scheme_idx_none(s, i + 1);
    }
}

proof fn lemma_first_sep_none(s: Seq<char>, i: int, hi: int)
    requires
        0 <= i <= hi <= s.len(),
        forall|k: int| 0 <= k < s.len() ==> s[k] != '/',
    ensures
        first_sep(s, i, hi) == -1,
    decreases hi - i,
{
    if i < hi {
        lemma_first_sep_none(s, i + 1, hi);
    }
}

proof fn lemma_last_at_none(s: Seq<char>, lo: int, n: int)
    requires
        0 <= lo <= n <= s.len(),
        forall|k: int| 0 <= k < s.len() ==> s[k] != '@',
    ensures
        last_at(s, lo, n) == -1,
    decreases n - lo,
{
    if n > lo {
        lemma_last_at_none(s, lo, n - 1);
    }
}

proof fn lemma_has_char_none(s: Seq<char>, i: int, hi: int, c: char)
    requires
        0 <= i <= hi <= s.len(),
        forall|k: int| 0 <= k < s.len() ==> s[k] != c,
    ensures
        !has_char(s, i, hi, c),
    decreases hi - i,
{
    if i < hi {
        lemma_has_char_none(s, i + 1, hi, c);
    }
}

proof fn lemma_last_sep_colon_none(s: Seq<char>, lo: int, n: int)
    requires
        0 <= lo <= n <= s.len(),
        forall|k: int| 0 <= k < s.len() ==> s[k] != '/' && s[k] != ':',
    ensures
        last_sep_colon(s, lo, n) == -1,
    decreases n - lo,
{
    if n > lo {
        lemma_last_sep_colon_none(s, lo, n - 1);
    }
}

/// Derivation is the identity on plain segments.
pub proof fn lemma_derive_plain_segment_identity(d: Seq<char>)
    requires
        plain_segment(d),
    ensures
        derive_name_ok(d),
        derived_name(d) == d,
{
    let n = d.len() as int;
    lemma_scheme_idx_none(d, 0);
    lemma_first_sep_none(d, 0, n);
    lemma_last_at_none(d, 0, n);
    lemma_has_char_none(d, 0, n, ':');
    assert(trim_end_sep_ws(d, 0, n) == n);
    assert(trim_suffix_slash_git(d, 0, n) == n);
    assert(trim_end_sep(d, 0, n) == n);
    lemma_last_sep_colon_none(d, 0, n);
    assert(trim_suffix_bundle(d, 0, n) == n);
    assert(trim_suffix_git(d, 0, n) == n);
    assert(derive_bounds(d) == (0int, n));
    assert(trim_start_ws(d, 0, n) == 0);
    assert(derived_name(d) =~= d);
}

/// Name derivation is idempotent wherever its result is a plain segment:
/// deriving the derived name changes nothing. The inputs left out are
/// those whose derived name is no plain segment — one that keeps an '@'
/// ("a/b@c" derives to "b@c"), one that uncovers a ".bundle" behind the
/// ".git" trim ("a.bundle.git" derives to "a.bundle"), or one with a
/// white-space edge — where a second derivation strips further.
pub proof fn lemma_derive_name_idempotent(x: Seq<char>)
    requires
        derive_name_ok(x),
        plain_segment(derived_name(x)),
    ensures
        derive_name_ok(derived_name(x)),
        derived_name(derived_name(x)) == derived_name(x),
{
    lemma_derive_plain_segment_identity(derived_name(x));
}

fn find_scheme(v: &Vec<char>) -> (r: Option<usize>)
    ensures
        match r {
            Some(k) => k + 3 <= v@.len() && scheme_idx(v@, 0) == k,
            None => scheme_idx(v@, 0) == -1,
        },
{
    let n = v.len();
    let mut i: usize = 0;
    while n >= 3 && i <= n - 3
        invariant
            n == v@.len(),
            i <= n,
            scheme_idx(v@, 0) == scheme_idx(v@, i as int),
        decreases n - i,
    {
        if v[i] == ':' && v[i + 1] == '/' && v[i + 2] == '/' {
            return Some(i);
        }
        i = i + 1;
    }
    None
}

pub proof fn lemma_first_sep_bounds(s: Seq<char>, i: int, hi: int)
    requires
        0 <= i <= hi <= s.len(),
    ensures
        first_sep(s, i, hi) == -1 || (i <= first_sep(s, i, hi) < hi && s[first_sep(s, i, hi)]
            == '/'),
    decreases hi - i,
{
    if i < hi && s[i] != '/' {
        lemma_first_sep_bounds(s, i + 1, hi);
    }
}

pub(crate) fn find_first_sep(v: &Vec<char>, lo: usize, hi: usize) -> (r: Option<usize>)
    requires
        lo <= hi <= v@.len(),
    ensures
        match r {
            Some(k) => lo <= k < hi && first_sep(v@, lo as int, hi as int) == k,
            None => first_sep(v@, lo as int, hi as int) == -1,
        },
{
    let mut i: usize = lo;
    while i < hi
        invariant
            lo <= i <= hi <= v@.len(),
            first_sep(v@, lo as int, hi as int) == first_sep(v@, i as int, hi as int),
        decreases hi - i,
    {
        if v[i] == '/' {
            return Some(i);
        }
        i = i + 1;
    }
    None
}

fn find_last_at(v: &Vec<char>, lo: usize, n: usize) -> (r: Option<usize>)
    requires
        lo <= n <= v@.len(),
    ensures
        match r {
            Some(k) => lo <= k < n && last_at(v@, lo as int, n as int) == k,
            None => last_at(v@, lo as int, n as int) == -1,
        },
{
    let mut m: usize = n;
    while m > lo
        invariant
            lo <= m <= n <= v@.len(),
            last_at(v@, lo as int, n as int) == last_at(v@, lo as int, m as int),
        decreases m,
    {
        if v[m - 1] == '@' {
            return Some(m - 1);
        }
        m = m - 1;
    }
    None
}

fn scan_trim_end_sep_ws(v: &Vec<char>, lo: usize, n: usize) -> (r: usize)
    requires
        lo <= n <= v@.len(),
    ensures
        lo <= r <= n,
        r == trim_end_sep_ws(v@, lo as int, n as int),
{
    let mut m: usize = n;
    while m > lo && (v[m - 1] == '/' || is_whitespace_char(v[m - 1]))
        invariant
            lo <= m <= n <= v@.len(),
            trim_end_sep_ws(v@, lo as int, n as int) == trim_end_sep_ws(v@, lo as int, m as int),
        decreases m,
    {
        m = m - 1;
    }
    m
}

fn scan_trim_end_sep(v: &Vec<char>, lo: usize, n: usize) -> (r: usize)
    requires
        lo <= n <= v@.len(),
    ensures
        lo <= r <= n,
        r == trim_end_sep(v@, lo as int, n as int),
{
    let mut m: usize = n;
    while m > lo && v[m - 1] == '/'
        invariant
            lo <= m <= n <= v@.len(),
            trim_end_sep(v@, lo as int, n as int) == trim_end_sep(v@, lo as int, m as int),
        decreases m,
    {
        m = m - 1;
    }
    m
}

pub(crate) fn scan_trim_start_ws(v: &Vec<char>, lo: usize, hi: usize) -> (r: usize)
    requires
        lo <= hi <= v@.len(),
    ensures
        lo <= r <= hi,
        r == trim_start_ws(v@, lo as int, hi as int),
{
    let mut i: usize = lo;
    while i < hi && is_whitespace_char(v[i])
        invariant
            lo <= i <= hi <= v@.len(),
            trim_start_ws(v@, lo as int, hi as int) == trim_start_ws(v@, i as int, hi as int),
        decreases hi - i,
    {
        i = i + 1;
    }
    i
}

fn do_trim_suffix_slash_git(v: &Vec<char>, lo: usize, n: usize) -> (r: usize)
    requires
        lo <= n <= v@.len(),
    ensures
        lo <= r <= n,
        r == trim_suffix_slash_git(v@, lo as int, n as int),
{
    let mut m: usize = n;
    while m - lo >= 5 && v[m - 5] == '/' && v[m - 4] == '.' && v[m - 3] == 'g' && v[m - 2] == 'i'
        && v[m - 1] == 't'
        invariant
            lo <= m <= n <= v@.len(),
            trim_suffix_slash_git(v@, lo as int, n as int) == trim_suffix_slash_git(
                v@,
                lo as int,
                m as int,
            ),
        decreases m,
    {
        m = m - 5;
    }
    m
}

fn do_trim_suffix_bundle(v: &Vec<char>, lo: usize, n: usize) -> (r: usize)
    requires
        lo <= n <= v@.len(),
    ensures
        lo <= r <= n,
        r == trim_suffix_bundle(v@, lo as int, n as int),
{
    let mut m: usize = n;
    while m - lo >= 7 && v[m - 7] == '.' && v[m - 6] == 'b' && v[m - 5] == 'u' && v[m - 4] == 'n'
        && v[m - 3] == 'd' && v[m - 2] == 'l' && v[m - 1] == 'e'
        invariant
            lo <= m <= n <= v@.len(),
            trim_suffix_bundle(v@, lo as int, n as int) == trim_suffix_bundle(
                v@,
                lo as int,
                m as int,
            ),
        decreases m,
    {
        m = m - 7;
    }
    m
}

fn do_trim_suffix_git(v: &Vec<char>, lo: usize, n: usize) -> (r: usize)
    requires
        lo <= n <= v@.len(),
    ensures
        lo <= r <= n,
        r == trim_suffix_git(v@, lo as int, n as int),
{
    let mut m: usize = n;
    while m - lo >= 4 && v[m - 4] == '.' && v[m - 3] == 'g' && v[m - 2] == 'i' && v[m - 1] == 't'
        invariant
            lo <= m <= n <= v@.len(),
            trim_suffix_git(v@, lo as int, n as int) == trim_suffix_git(v@, lo as int, m as int),
        decreases m,
    {
        m = m - 4;
    }
    m
}

fn has_char_in(v: &Vec<char>, lo: usize, hi: usize, c: char) -> (r: bool)
    requires
        lo <= hi <= v@.len(),
    ensures
        r == has_char(v@, lo as int, hi as int, c),
{
    let mut i: usize = lo;
    while i < hi
        invariant
            lo <= i <= hi <= v@.len(),
            has_char(v@, lo as int, hi as int, c) == has_char(v@, i as int, hi as int, c),
        decreases hi - i,
    {
        if v[i] == c {
            return true;
        }
        i = i + 1;
    }
    false
}

fn scan_skip_digits_back(v: &Vec<char>, lo: usize, n: usize) -> (r: usize)
    requires
        lo <= n <= v@.len(),
    ensures
        lo <= r <= n,
        r == skip_digits_back(v@, lo as int, n as int),
{
    let mut m: usize = n;
    while m > lo && is_ascii_digit_char(v[m - 1])
        invariant
            lo <= m <= n <= v@.len(),
            skip_digits_back(v@, lo as int, n as int) == skip_digits_back(v@, lo as int, m as int),
        decreases m,
    {
        m = m - 1;
    }
    m
}

fn find_last_sep_colon(v: &Vec<char>, lo: usize, n: usize) -> (r: Option<usize>)
    requires
        lo <= n <= v@.len(),
    ensures
        match r {
            Some(k) => lo <= k < n && last_sep_colon(v@, lo as int, n as int) == k,
            None => last_sep_colon(v@, lo as int, n as int) == -1,
        },
{
    let mut m: usize = n;
    while m > lo
        invariant
            lo <= m <= n <= v@.len(),
            last_sep_colon(v@, lo as int, n as int) == last_sep_colon(v@, lo as int, m as int),
        decreases m,
    {
        if v[m - 1] == '/' || v[m - 1] == ':' {
            return Some(m - 1);
        }
        m = m - 1;
    }
    None
}

/// Derives the local directory name of a repository from its location:
/// strips a scheme prefix and an embedded credential prefix, trims
/// repository suffixes and a trailing port, and keeps the final path or
/// host segment. Fails when the location collapses to an empty or
/// root-only name.
#[verifier::rlimit(50)]
pub fn git_url_basename(repo: &str) -> (r: Result<String, PkgError>)
    ensures
        r is Ok <==> derive_name_ok(repo@),
        r matches Ok(name) ==> name@ == derived_name(repo@),
        r matches Err(e) ==> e is NameDerivation,
{
    let v = str_chars(repo);
    let n = v.len();
    let lo1 = match find_scheme(&v) {
        Some(k) => k + 3,
        None => 0,
    };
    let rend = match find_first_sep(&v, lo1, n) {
        Some(f) => f,
        None => n,
    };
    let lo2 = match find_last_at(&v, lo1, rend) {
        Some(a) => a + 1,
        None => lo1,
    };
    let h3 = scan_trim_end_sep_ws(&v, lo2, n);
    let h4 = scan_trim_end_sep(&v, lo2, do_trim_suffix_slash_git(&v, lo2, h3));
    let h5 = if !has_char_in(&v, lo2, h4, '/') && has_char_in(&v, lo2, h4, ':') {
        let p = scan_skip_digits_back(&v, lo2, h4);
        if p > lo2 && v[p - 1] == ':' {
            p - 1
        } else {
            h4
        }
    } else {
        h4
    };
    let lo6 = match find_last_sep_colon(&v, lo2, h5) {
        Some(m) => m + 1,
        None => lo2,
    };
    let h7 = do_trim_suffix_git(&v, lo6, do_trim_suffix_bundle(&v, lo6, h5));
    proof {
        assert((lo6 as int, h7 as int) == derive_bounds(repo@));
    }
    if h7 == lo6 || (h7 - lo6 == 1 && v[lo6] == '/') {
        return Err(
            PkgError::NameDerivation(
                String::from_str("no dir name could be guessed, pls specify a dir name"),
            ),
        );
    }
    let l9 = scan_trim_start_ws(&v, lo6, h7);
    let h9 = scan_trim_end_sep(&v, l9, h7);
    let name = repo.substring_char(l9, h9);
    Ok(String::from_str(name))
}

} // verus!
