//! Reading the version identifier out of free text.
//!
//! A version announcement reads `NVIM v<text>-<letter><identifier>`: the
//! opening `NVIM v`, free text without a line break, a dash, one lowercase
//! ASCII letter, and the identifier, nine word characters. The first
//! announcement is taken: the one that opens first, and of its tails the last
//! on the line.
use vstd::prelude::*;
use vstd::std_specs::iter::IteratorSpec;
use vstd::string::StrSliceExecFns;

verus! {

/// Whether `c` is alphanumeric, as `char::is_alphanumeric` decides it
/// (Unicode's Alphabetic and Numeric properties).
pub uninterp spec fn alphanumeric(c: char) -> bool;

/// An ASCII letter or digit.
pub open spec fn ascii_alphanumeric(c: char) -> bool {
    ('a' <= c && c <= 'z') || ('A' <= c && c <= 'Z') || ('0' <= c && c <= '9')
}

/// Relies on `char::is_alphanumeric`: the answer depends on the character alone.
#[verifier::external_body]
fn is_alphanumeric(c: char) -> (r: bool)
    ensures
        r == alphanumeric(c),
{
    c.is_alphanumeric()
}

/// The text that opens a version announcement.
pub open spec fn announcement_head() -> Seq<char> {
    seq!['N', 'V', 'I', 'M', ' ', 'v']
}

/// Length of the text that opens an announcement.
pub const HEAD_LEN: usize = 6;

/// Length of a version identifier.
pub const IDENTIFIER_LEN: usize = 9;

pub open spec fn is_lower(c: char) -> bool {
    'a' <= c && c <= 'z'
}

/// A character that may stand in an identifier: an ASCII letter, digit or
/// underscore, or beyond ASCII an alphanumeric character.
pub open spec fn is_word(c: char) -> bool {
    if (c as u32) < 128 {
        ascii_alphanumeric(c) || c == '_'
    } else {
        alphanumeric(c)
    }
}

fn word_char(c: char) -> (r: bool)
    ensures
        r == is_word(c),
{
    if (c as u32) < 128 {
        ('a' <= c && c <= 'z') || ('A' <= c && c <= 'Z') || ('0' <= c && c <= '9') || c == '_'
    } else {
        is_alphanumeric(c)
    }
}

/// The announcement's opening text starts at `i`.
pub open spec fn head_at(t: Seq<char>, i: int) -> bool {
    0 <= i && i + HEAD_LEN <= t.len() && t.subrange(i, i + HEAD_LEN) == announcement_head()
}

/// At `j` stand a dash, a lowercase letter and an identifier of nine word characters.
pub open spec fn tail_at(t: Seq<char>, j: int) -> bool {
    &&& 0 <= j
    &&& j + 2 + IDENTIFIER_LEN <= t.len()
    &&& t[j] == '-'
    &&& is_lower(t[j + 1])
    &&& forall|k: int| j + 2 <= k < j + 2 + IDENTIFIER_LEN ==> #[trigger] is_word(t[k])
}

/// An announcement opens at `i`, and after free text without a line break its
/// tail stands at `j`.
pub open spec fn announces(t: Seq<char>, i: int, j: int) -> bool {
    &&& head_at(t, i)
    &&& i + HEAD_LEN <= j
    &&& tail_at(t, j)
    &&& forall|k: int| i + HEAD_LEN <= k < j ==> t[k] != '\n'
}

/// The identifier of an announcement whose tail stands at `j`.
pub open spec fn identifier_at(t: Seq<char>, j: int) -> Seq<char> {
    t.subrange(j + 2, j + 2 + IDENTIFIER_LEN)
}

/// `(i, j)` is the announcement that is taken: the one that opens first, and of
/// those that open there the one with the longest free text.
pub open spec fn first_announcement(t: Seq<char>, i: int, j: int) -> bool {
    &&& announces(t, i, j)
    &&& forall|i2: int, j2: int| i2 < i ==> !announces(t, i2, j2)
    &&& forall|j2: int| j < j2 ==> !announces(t, i, j2)
}

/// `r` is what extraction gives for `t`: nothing where no announcement stands,
/// else the identifier of the first one.
pub open spec fn extracted(t: Seq<char>, r: Option<Seq<char>>) -> bool {
    match r {
        None => forall|i: int, j: int| !announces(t, i, j),
        Some(v) => exists|i: int, j: int| first_announcement(t, i, j) && v == identifier_at(t, j),
    }
}

/// The result of extraction on `t`.
pub open spec fn version_of(t: Seq<char>) -> Option<Seq<char>> {
    choose|r: Option<Seq<char>>| extracted(t, r)
}

pub open spec fn string_view(r: Option<String>) -> Option<Seq<char>> {
    match r {
        Some(s) => Some(s@),
        None => None,
    }
}

/// Extraction is a function of the text: two results for one text are the same.
pub proof fn lemma_extraction_deterministic(t: Seq<char>, r1: Option<Seq<char>>, r2: Option<Seq<char>>)
    requires
        extracted(t, r1),
        extracted(t, r2),
    ensures
        r1 == r2,
{
    match (r1, r2) {
        (Some(v1), Some(v2)) => {
            let (i1, j1) = choose|i: int, j: int| first_announcement(t, i, j) && v1 == identifier_at(t, j);
            let (i2, j2) = choose|i: int, j: int| first_announcement(t, i, j) && v2 == identifier_at(t, j);
            if i1 < i2 {
                assert(!announces(t, i1, j1));
            } else if i2 < i1 {
                assert(!announces(t, i2, j2));
            } else if j1 < j2 {
                assert(!announces(t, i1, j2));
            } else if j2 < j1 {
                assert(!announces(t, i2, j1));
            }
        },
        (Some(v1), None) => {
            let (i1, j1) = choose|i: int, j: int| first_announcement(t, i, j) && v1 == identifier_at(t, j);
            assert(!announces(t, i1, j1));
        },
        (None, Some(v2)) => {
            let (i2, j2) = choose|i: int, j: int| first_announcement(t, i, j) && v2 == identifier_at(t, j);
            assert(!announces(t, i2, j2));
        },
        (None, None) => {},
    }
}

proof fn lemma_version_of(t: Seq<char>, r: Option<Seq<char>>)
    requires
        extracted(t, r),
    ensures
        version_of(t) == r,
{
    lemma_extraction_deterministic(t, r, version_of(t));
}

/// The characters of `s`, in order.
fn chars_of(s: &str) -> (r: Vec<char>)
    ensures
        r@ == s@,
{
    let mut it = s.chars();
    let mut out: Vec<char> = Vec::new();
    loop
        invariant
            out@ + it.remaining() == s@,
            it.decrease() is Some,
        ensures
            out@ == s@,
        decreases it.decrease()->0,
    {
        match it.next() {
            Some(c) => {
                out.push(c);
            },
            None => {
                assert(out@ + it.remaining() =~= out@);
                break;
            },
        }
    }
    out
}

/// Whether the announcement's opening text starts at `i`.
fn head_matches(t: &Vec<char>, i: usize) -> (r: bool)
    ensures
        r == head_at(t@, i as int),
{
    if i > t.len() || t.len() - i < HEAD_LEN {
        return false;
    }
    let r = t[i] == 'N' && t[i + 1] == 'V' && t[i + 2] == 'I' && t[i + 3] == 'M' && t[i + 4] == ' '
        && t[i + 5] == 'v';
    assert(r ==> t@.subrange(i as int, i + HEAD_LEN) =~= announcement_head());
    assert(t@.subrange(i as int, i + HEAD_LEN) == announcement_head() ==> r) by {
        if t@.subrange(i as int, i + HEAD_LEN) == announcement_head() {
            assert forall|k: int| 0 <= k < HEAD_LEN implies t@[i + k] == announcement_head()[k] by {
                assert(t@[i + k] == t@.subrange(i as int, i + HEAD_LEN)[k]);
            }
        }
    }
    r
}

/// Whether a dash, a lowercase letter and an identifier stand at `j`.
fn tail_matches(t: &Vec<char>, j: usize) -> (r: bool)
    ensures
        r == tail_at(t@, j as int),
{
    if j > t.len() || t.len() - j < 2 + IDENTIFIER_LEN {
        return false;
    }
    if t[j] != '-' || !('a' <= t[j + 1] && t[j + 1] <= 'z') {
        return false;
    }
    let end: usize = j + 2 + IDENTIFIER_LEN;
    let mut k: usize = j + 2;
    while k < end
        invariant
            end == j + 2 + IDENTIFIER_LEN,
            j + 2 <= k <= end,
            j + 2 + IDENTIFIER_LEN <= t@.len(),
            forall|m: int| j + 2 <= m < k ==> #[trigger] is_word(t@[m]),
        decreases end - k,
    {
        let c = t[k];
        if !word_char(c) {
            assert(!is_word(t@[k as int]));
            return false;
        }
        k += 1;
    }
    true
}

/// Where the tail of the announcement that opens at `i` stands: the last
/// place before the line ends, if any.
fn last_tail(t: &Vec<char>, i: usize) -> (r: Option<usize>)
    requires
        head_at(t@, i as int),
    ensures
        r is None ==> forall|j: int| !announces(t@, i as int, j),
        r matches Some(j) ==> announces(t@, i as int, j as int) && forall|j2: int|
            j < j2 ==> !announces(t@, i as int, j2),
{
    let n = t.len();
    let mut k: usize = i + HEAD_LEN;
    let mut best: Option<usize> = None;
    while k < n && t[k] != '\n'
        invariant
            n == t@.len(),
            head_at(t@, i as int),
            i + HEAD_LEN <= k <= n,
            forall|m: int| i + HEAD_LEN <= m < k ==> t@[m] != '\n',
            best is None ==> forall|j: int| j < k ==> !announces(t@, i as int, j),
            best matches Some(b) ==> b < k && announces(t@, i as int, b as int) && forall|j: int|
                b < j < k ==> !announces(t@, i as int, j),
        decreases n - k,
    {
        if tail_matches(t, k) {
            best = Some(k);
        }
        k += 1;
    }
    assert forall|j: int| k <= j implies !announces(t@, i as int, j) by {
        if k < n {
            if j > k {
                assert(t@[k as int] == '\n');
            }
        }
    }
    best
}

/// The version identifier announced in `content`: of the first announcement
/// `NVIM v<text>-<lowercase letter><nine word characters>`, the nine
/// characters; nothing where the text holds no announcement.
pub fn get_version(content: String) -> (r: Option<String>)
    ensures
        extracted(content@, string_view(r)),
        string_view(r) == version_of(content@),
        r is None <==> forall|i: int, j: int| !announces(content@, i, j),
        r matches Some(v) ==> v@.len() == IDENTIFIER_LEN,
{
    let t = chars_of(content.as_str());
    let n = t.len();
    let mut i: usize = 0;
    while i < n
        invariant
            t@ == content@,
            n == t@.len(),
            i <= n,
            forall|i2: int, j2: int| i2 < i ==> !announces(t@, i2, j2),
        decreases n - i,
    {
        if head_matches(&t, i) {
            match last_tail(&t, i) {
                Some(j) => {
                    let id = content.as_str().substring_char(j + 2, j + 2 + IDENTIFIER_LEN);
                    let v = id.to_owned();
                    assert(first_announcement(t@, i as int, j as int));
                    proof {
                        lemma_version_of(content@, string_view(Some(v)));
                    }
                    return Some(v);
                },
                None => {},
            }
        }
        i += 1;
    }
    proof {
        lemma_version_of(content@, None);
    }
    None
}

} // verus!
