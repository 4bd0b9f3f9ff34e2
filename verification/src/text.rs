//! Small verified text utilities the core rests on: joining path segments,
//! taking the parent of a slash-separated path, trimming ASCII whitespace
//! from captured engine output, and turning raw bytes into text.

use vstd::prelude::*;
use vstd::string::StrSliceExecFns;
use vstd::string::StringExecFns;

verus! {

/// `dir`, a separator, `name`.
pub open spec fn spec_path_join(dir: Seq<char>, name: Seq<char>) -> Seq<char> {
    dir + "/"@ + name
}

/// Joins one path segment onto a directory with a `/` separator.
pub fn path_join(dir: &str, name: &str) -> (r: String)
    ensures
        r@ == spec_path_join(dir@, name@),
{
    let mut s = dir.to_owned();
    s.append("/");
    s.append(name);
    s
}

/// The prefix of `s` up to (excluding) its last `/`, or `None` when `s`
/// holds no `/` at all. A path that ends in `/` keeps everything before
/// that final separator.
pub open spec fn parent_view(s: Seq<char>) -> Option<Seq<char>>
    decreases s.len(),
{
    if s.len() == 0 {
        None
    } else if s[s.len() - 1] == '/' {
        Some(s.subrange(0, s.len() - 1))
    } else {
        parent_view(s.drop_last())
    }
}

proof fn lemma_parent_view_at(s: Seq<char>, k: int)
    requires
        0 <= k < s.len(),
        s[k] == '/',
        forall|j: int| k < j < s.len() ==> s[j] != '/',
    ensures
        parent_view(s) == Some(s.subrange(0, k)),
    decreases s.len(),
{
    if k == s.len() - 1 {
    } else {
        assert(s[s.len() - 1] != '/');
        lemma_parent_view_at(s.drop_last(), k);
        assert(s.drop_last().subrange(0, k) =~= s.subrange(0, k));
    }
}

proof fn lemma_parent_view_none(s: Seq<char>)
    requires
        forall|j: int| 0 <= j < s.len() ==> s[j] != '/',
    ensures
        parent_view(s) is None,
    decreases s.len(),
{
    if s.len() > 0 {
        lemma_parent_view_none(s.drop_last());
    }
}

/// The directory part of a slash-separated path: everything before the last
/// `/`, or `None` when the path holds no separator.
pub fn parent_of(path: &str) -> (r: Option<String>)
    ensures
        match r {
            Some(p) => parent_view(path@) == Some(p@),
            None => parent_view(path@) is None,
        },
{
    let n = path.unicode_len();
    let mut i: usize = n;
    while i > 0
        invariant
            i <= n,
            n == path@.len(),
            forall|j: int| i <= j < n ==> path@[j] != '/',
        decreases i,
    {
        if path.get_char(i - 1) == '/' {
            let p = path.substring_char(0, i - 1).to_owned();
            proof {
                lemma_parent_view_at(path@, i - 1);
            }
            return Some(p);
        }
        i = i - 1;
    }
    proof {
        lemma_parent_view_none(path@);
    }
    None
}

/// The four ASCII whitespace bytes that engine stderr is trimmed of.
pub open spec fn is_ascii_space(b: u8) -> bool {
    b == 32 || b == 9 || b == 10 || b == 13
}

/// Whether `b` is an ASCII space, tab, line feed or carriage return.
pub fn byte_is_space(b: u8) -> (r: bool)
    ensures
        r == is_ascii_space(b),
{
    b == 32 || b == 9 || b == 10 || b == 13
}

/// `s` without its leading ASCII whitespace.
pub open spec fn spec_trim_front(s: Seq<u8>) -> Seq<u8>
    decreases s.len(),
{
    if s.len() > 0 && is_ascii_space(s[0]) {
        spec_trim_front(s.drop_first())
    } else {
        s
    }
}

/// `s` without its trailing ASCII whitespace.
pub open spec fn spec_trim_back(s: Seq<u8>) -> Seq<u8>
    decreases s.len(),
{
    if s.len() > 0 && is_ascii_space(s.last()) {
        spec_trim_back(s.drop_last())
    } else {
        s
    }
}

/// `s` without leading and trailing ASCII whitespace.
pub open spec fn spec_trim(s: Seq<u8>) -> Seq<u8> {
    spec_trim_back(spec_trim_front(s))
}

proof fn lemma_trim_front_prefix(s: Seq<u8>, i: int)
    requires
        0 <= i <= s.len(),
        forall|k: int| 0 <= k < i ==> is_ascii_space(s[k]),
        i < s.len() ==> !is_ascii_space(s[i]),
    ensures
        spec_trim_front(s) == s.subrange(i, s.len() as int),
    decreases i,
{
    if i == 0 {
        assert(s.subrange(0, s.len() as int) =~= s);
    } else {
        lemma_trim_front_prefix(s.drop_first(), i - 1);
        assert(s.drop_first().subrange(i - 1, s.drop_first().len() as int) =~= s.subrange(
            i,
            s.len() as int,
        ));
    }
}

proof fn lemma_trim_back_suffix(s: Seq<u8>, j: int)
    requires
        0 <= j <= s.len(),
        forall|k: int| j <= k < s.len() ==> is_ascii_space(s[k]),
        j > 0 ==> !is_ascii_space(s[j - 1]),
    ensures
        spec_trim_back(s) == s.subrange(0, j),
    decreases s.len() - j,
{
    if j == s.len() {
        if s.len() > 0 {
            assert(!is_ascii_space(s.last()));
        }
        assert(s.subrange(0, s.len() as int) =~= s);
    } else {
        assert(is_ascii_space(s.last()));
        lemma_trim_back_suffix(s.drop_last(), j);
        assert(s.drop_last().subrange(0, j) =~= s.subrange(0, j));
    }
}

/// Removes leading and trailing ASCII whitespace (space, tab, line feed,
/// carriage return) from a byte string.
pub fn trim_ascii(v: &Vec<u8>) -> (r: Vec<u8>)
    ensures
        r@ == spec_trim(v@),
{
    let n = v.len();
    let mut start: usize = 0;
    while start < n && byte_is_space(v[start])
        invariant
            start <= n,
            n == v@.len(),
            forall|k: int| 0 <= k < start ==> is_ascii_space(v@[k]),
        decreases n - start,
    {
        start = start + 1;
    }
    let mut end: usize = n;
    while end > start && byte_is_space(v[end - 1])
        invariant
            start <= end <= n,
            n == v@.len(),
            forall|k: int| end <= k < n ==> is_ascii_space(v@[k]),
        decreases end,
    {
        end = end - 1;
    }
    let mut r: Vec<u8> = Vec::new();
    let mut i: usize = start;
    while i < end
        invariant
            start <= i <= end <= n,
            n == v@.len(),
            r@ =~= v@.subrange(start as int, i as int),
        decreases end - i,
    {
        r.push(v[i]);
        i = i + 1;
    }
    proof {
        lemma_trim_front_prefix(v@, start as int);
        let mid = v@.subrange(start as int, n as int);
        lemma_trim_back_suffix(mid, end - start);
        assert(mid.subrange(0, end - start) =~= v@.subrange(start as int, end as int));
        assert(r@ =~= v@.subrange(start as int, end as int));
    }
    r
}

/// What `String::from_utf8_lossy` makes of a byte string: a function of the
/// bytes alone.
pub uninterp spec fn utf8_lossy(b: Seq<u8>) -> Seq<char>;

/// Relies on `String::from_utf8_lossy`: decodes bytes as UTF-8, replacing
/// invalid sequences; the result depends on the bytes alone, and empty input
/// gives empty output.
#[verifier::external_body]
pub fn bytes_to_string_lossy(b: &Vec<u8>) -> (r: String)
    ensures
        r@ == utf8_lossy(b@),
        b@.len() == 0 ==> r@.len() == 0,
{
    String::from_utf8_lossy(b.as_slice()).into_owned()
}

} // verus!
